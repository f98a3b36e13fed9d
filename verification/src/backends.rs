pub mod rpeer2peer;
pub mod rspectator;

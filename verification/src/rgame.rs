use vstd::prelude::*;

verus! {

/// Trait a game implements so the engine can network it, copy game states,
/// and roll back any discrepancies between player inputs while replaying them
/// with the correct inputs.
pub trait RGame {
    /// Begin game function. Success returns true, false denotes an error.
    fn begin_game() -> bool;

    /// The client should copy the contents of the current game state into the
    /// buffer, and may also provide a checksum of the data.
    fn save_game_state() -> bool;

    /// Called at the beginning of a rollback. The client should replace the
    /// actual game state with the last previously confirmed game state.
    fn load_game_state() -> bool;

    /// Used in diagnostic testing. The client should write the contents of
    /// the specified state in a human readable form.
    fn log_game_state() -> bool;

    /// Frees the game state allocated in save_game_state.
    fn free_buffer();

    /// Called during a rollback. Advances the game state by exactly one
    /// frame, using the inputs retrieved for that frame.
    fn advance_frame() -> bool;

    /// Notification that something has happened. See the error codes for more
    /// information.
    fn on_event() -> bool;
}

} // verus!

use vstd::prelude::*;

verus! {

/// Trait required to link up game input to a form that the session can
/// utilize. Implemented by the host's input type.
pub trait RMercuryInput: Sized {
    /// The player the input belongs to, as contracts see it. Left
    /// unconstrained here; an implementation may refine it to its own player
    /// field, and host code outside the proofs can leave it as is.
    open spec fn player_id(&self) -> int {
        arbitrary()
    }

    /// Get the player id that the input maps to.
    fn get_player_id(&self) -> (r: usize)
        ensures
            r as int == self.player_id(),
    ;

    /// Set the player id that the input will map to.
    fn set_player_id(&mut self, player_id: usize)
        ensures
            final(self).player_id() == player_id as int,
    ;

    /// Serialize the input to bits.
    fn to_bits(&self) -> Vec<u8>;

    /// Deserialize the input from bits.
    fn from_bits(bytes: Vec<u8>) -> Self;
}

/// Pairs a raw input value with the simulation frame it must be applied on.
#[derive(Clone, Copy, Debug, PartialEq)]
pub struct RMercuryInputWrapper<TGameInput> where
    TGameInput: RMercuryInput,
    TGameInput: Copy,
    TGameInput: PartialEq,
 {
    /// The input to execute
    pub input: TGameInput,
    /// The frame the input will be executed for
    pub frame: usize,
}

impl<TGameInput> RMercuryInputWrapper<TGameInput> where
    TGameInput: RMercuryInput,
    TGameInput: Copy,
    TGameInput: PartialEq,
 {
    pub fn new(input: TGameInput, frame: usize) -> (r: Self)
        ensures
            r.input == input,
            r.frame == frame,
    {
        Self { frame, input }
    }

    /// Get the player id that the wrapped input maps to.
    fn get_player_id(&self) -> (r: usize)
        ensures
            r as int == self.input.player_id(),
    {
        self.input.get_player_id()
    }
}

} // verus!

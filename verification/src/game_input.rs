use crate::network::NIBBLE_SIZE;
use crate::utility::pow_spec;
use vstd::prelude::*;

verus! {

/// Number of bits in one byte of packed input.
pub const BITS_IN_BYTE: usize = 8;

/// Byte array representing the game input: a fixed-capacity bit array tagged
/// with an optional frame number (`None` is the "null frame" sentinel) and the
/// byte length of the meaningful payload.
pub struct GameInput {
    pub max_bytes: usize,
    pub max_players: usize,
    pub frame: Option<usize>,
    pub byte_size_of_all_input_for_all_players: usize,
    pub bits: Vec<bool>,
}

/// The record's bit array covers exactly its allocated capacity.
pub open spec fn wf(g: GameInput) -> bool {
    g.bits@.len() == g.max_bytes * BITS_IN_BYTE
}

/// The configuration a record may be built with: the bit-index space of one
/// serialized input offset must be able to address every bit of the array.
pub open spec fn config_ok(max_bytes: usize, max_players: usize) -> bool {
    max_bytes * max_players * BITS_IN_BYTE < pow_spec(2, NIBBLE_SIZE as nat)
}

/// The bit array that results from writing `src` at `start` into an otherwise
/// zeroed array of `len` bits.
pub open spec fn written_bits(len: nat, src: Seq<bool>, start: int) -> Seq<bool> {
    Seq::new(len, |i: int| if start <= i < start + src.len() { src[i - start] } else { false })
}

/// Strict equality compares frame, payload length and bits; bits-only equality
/// ignores the frame tag.
pub open spec fn records_equal(a: GameInput, b: GameInput, bits_only: bool) -> bool {
    &&& (bits_only || a.frame == b.frame)
    &&& a.byte_size_of_all_input_for_all_players == b.byte_size_of_all_input_for_all_players
    &&& a.bits@ == b.bits@
}

/// An all-false bit vector covering `max_bytes` bytes.
fn get_empty_bits(max_bytes: usize) -> (bits: Vec<bool>)
    requires
        max_bytes * BITS_IN_BYTE <= usize::MAX,
    ensures
        bits@ == written_bits((max_bytes * BITS_IN_BYTE) as nat, Seq::<bool>::empty(), 0),
{
    let mut bits: Vec<bool> = Vec::new();
    let total: usize = max_bytes * BITS_IN_BYTE;
    let mut i: usize = 0;

    while i < total
        invariant
            i <= total,
            bits@.len() == i,
            forall|j: int| 0 <= j < i ==> bits@[j] == false,
        decreases total - i,
    {
        bits.push(false);
        i = i + 1;
    }

    proof {
        assert(bits@ =~= written_bits((max_bytes * BITS_IN_BYTE) as nat, Seq::<bool>::empty(), 0));
    }
    bits
}

impl GameInput {
    /// Initializes a new GameInput. The bit-index space (two to the power of
    /// `NIBBLE_SIZE`) must exceed the number of addressable bits.
    pub fn new(max_bytes: usize, max_players: usize, byte_size_of_all_input_for_all_players: usize) -> (r:
        Self)
        requires
            config_ok(max_bytes, max_players),
            max_bytes * BITS_IN_BYTE <= usize::MAX,
        ensures
            wf(r),
            r.max_bytes == max_bytes,
            r.max_players == max_players,
            r.frame == Some(0usize),
            r.byte_size_of_all_input_for_all_players == byte_size_of_all_input_for_all_players,
            r.bits@ == written_bits((max_bytes * BITS_IN_BYTE) as nat, Seq::<bool>::empty(), 0),
    {
        Self {
            max_bytes,
            max_players,
            frame: Some(0),
            byte_size_of_all_input_for_all_players,
            bits: get_empty_bits(max_bytes),
        }
    }

    /// Replaces the record's contents for a new frame. The combined payload
    /// must fit the whole allocation.
    pub fn init(&mut self, frame: Option<usize>, bits: Option<Vec<bool>>, byte_size_of_all_input_for_all_players: usize)
        requires
            wf(*old(self)),
            byte_size_of_all_input_for_all_players <= old(self).max_bytes * old(self).max_players,
            bits is Some ==> bits.unwrap()@.len() <= old(self).max_bytes * BITS_IN_BYTE,
        ensures
            wf(*final(self)),
            final(self).max_bytes == old(self).max_bytes,
            final(self).max_players == old(self).max_players,
            final(self).frame == frame,
            final(self).byte_size_of_all_input_for_all_players == byte_size_of_all_input_for_all_players,
            final(self).bits@ == written_bits(
                (old(self).max_bytes * BITS_IN_BYTE) as nat,
                match bits {
                    Some(b) => b@,
                    None => Seq::<bool>::empty(),
                },
                0,
            ),
    {
        self.write_bits(frame, bits, byte_size_of_all_input_for_all_players, 0);
    }

    /// Replaces the record's contents, writing the bits into the sub-region
    /// reserved for one player. The single-player payload bound is stricter
    /// than the combined one.
    pub fn init_offset(
        &mut self,
        frame: Option<usize>,
        bits: Option<Vec<bool>>,
        byte_size_of_all_input_for_all_players: usize,
        offset: usize,
    )
        requires
            wf(*old(self)),
            byte_size_of_all_input_for_all_players <= old(self).max_bytes,
            bits is Some ==> offset * byte_size_of_all_input_for_all_players + bits.unwrap()@.len()
                <= old(self).max_bytes * BITS_IN_BYTE,
        ensures
            wf(*final(self)),
            final(self).max_bytes == old(self).max_bytes,
            final(self).max_players == old(self).max_players,
            final(self).frame == frame,
            final(self).byte_size_of_all_input_for_all_players == byte_size_of_all_input_for_all_players,
            final(self).bits@ == written_bits(
                (old(self).max_bytes * BITS_IN_BYTE) as nat,
                match bits {
                    Some(b) => b@,
                    None => Seq::<bool>::empty(),
                },
                offset * byte_size_of_all_input_for_all_players,
            ),
    {
        self.write_bits(frame, bits, byte_size_of_all_input_for_all_players, offset);
    }

    /// Shared body of `init` and `init_offset`: zero the array, then copy the
    /// given bits in at the player's offset.
    fn write_bits(
        &mut self,
        frame: Option<usize>,
        bits: Option<Vec<bool>>,
        byte_size: usize,
        offset: usize,
    )
        requires
            wf(*old(self)),
            bits is Some ==> offset * byte_size + bits.unwrap()@.len() <= old(self).max_bytes
                * BITS_IN_BYTE,
        ensures
            wf(*final(self)),
            final(self).max_bytes == old(self).max_bytes,
            final(self).max_players == old(self).max_players,
            final(self).frame == frame,
            final(self).byte_size_of_all_input_for_all_players == byte_size,
            final(self).bits@ == written_bits(
                (old(self).max_bytes * BITS_IN_BYTE) as nat,
                match bits {
                    Some(b) => b@,
                    None => Seq::<bool>::empty(),
                },
                offset * byte_size,
            ),
    {
        let total_check: usize = self.bits.len();
        proof {
            assert(total_check == old(self).max_bytes * BITS_IN_BYTE);
        }
        self.frame = frame;
        self.byte_size_of_all_input_for_all_players = byte_size;
        self.bits = get_empty_bits(self.max_bytes);

        let ghost total = (self.max_bytes * BITS_IN_BYTE) as nat;
        match bits {
            Some(src) => {
                let start: usize = offset * byte_size;
                let n: usize = src.len();
                let mut i: usize = 0;
                while i < n
                    invariant
                        n == src@.len(),
                        i <= n,
                        start + n <= self.bits@.len(),
                        self.bits@.len() == total,
                        total <= usize::MAX,
                        self.frame == frame,
                        self.byte_size_of_all_input_for_all_players == byte_size,
                        self.max_bytes == old(self).max_bytes,
                        self.max_players == old(self).max_players,
                        forall|j: int| 0 <= j < i ==> self.bits@[start + j] == src@[j],
                        forall|j: int|
                            0 <= j < total && !(start <= j < start + i) ==> self.bits@[j] == false,
                    decreases n - i,
                {
                    let b = src[i];
                    self.bits[start + i] = b;
                    i = i + 1;
                }
                proof {
                    assert(self.bits@ =~= written_bits(total, src@, start as int));
                }
            },
            None => {
                proof {
                    assert(self.bits@ =~= written_bits(
                        total,
                        Seq::<bool>::empty(),
                        offset * byte_size,
                    ));
                }
            },
        }
    }

    /// Check whether the record's frame is the null sentinel.
    pub fn is_null(&self) -> (r: bool)
        ensures
            r == self.frame.is_none(),
    {
        self.frame.is_none()
    }

    /// Returns the value at the given bit index.
    pub fn value(&self, i: usize) -> (r: bool)
        requires
            i < self.bits@.len(),
        ensures
            r == self.bits@[i as int],
    {
        self.bits[i]
    }

    /// Set the bit at the given index.
    pub fn set(&mut self, i: usize)
        requires
            i < old(self).bits@.len(),
        ensures
            final(self).bits@ == old(self).bits@.update(i as int, true),
            final(self).max_bytes == old(self).max_bytes,
            final(self).max_players == old(self).max_players,
            final(self).frame == old(self).frame,
            final(self).byte_size_of_all_input_for_all_players == old(
                self,
            ).byte_size_of_all_input_for_all_players,
    {
        self.bits[i] = true;
    }

    /// Clear the bit at the given index.
    pub fn clear(&mut self, i: usize)
        requires
            i < old(self).bits@.len(),
        ensures
            final(self).bits@ == old(self).bits@.update(i as int, false),
            final(self).max_bytes == old(self).max_bytes,
            final(self).max_players == old(self).max_players,
            final(self).frame == old(self).frame,
            final(self).byte_size_of_all_input_for_all_players == old(
                self,
            ).byte_size_of_all_input_for_all_players,
    {
        self.bits[i] = false;
    }

    /// Erase all bits, keeping the frame tag and payload length.
    pub fn erase(&mut self)
        requires
            wf(*old(self)),
        ensures
            wf(*final(self)),
            final(self).bits@ == written_bits(
                (old(self).max_bytes * BITS_IN_BYTE) as nat,
                Seq::<bool>::empty(),
                0,
            ),
            final(self).max_bytes == old(self).max_bytes,
            final(self).max_players == old(self).max_players,
            final(self).frame == old(self).frame,
            final(self).byte_size_of_all_input_for_all_players == old(
                self,
            ).byte_size_of_all_input_for_all_players,
    {
        let total_check: usize = self.bits.len();
        proof {
            assert(total_check == old(self).max_bytes * BITS_IN_BYTE);
        }
        self.bits = get_empty_bits(self.max_bytes);
    }

    /// An exact copy of the record.
    pub fn duplicate(&self) -> (r: Self)
        ensures
            r.max_bytes == self.max_bytes,
            r.max_players == self.max_players,
            r.frame == self.frame,
            r.byte_size_of_all_input_for_all_players == self.byte_size_of_all_input_for_all_players,
            r.bits@ == self.bits@,
    {
        let mut bits: Vec<bool> = Vec::new();
        let n: usize = self.bits.len();
        let mut i: usize = 0;
        while i < n
            invariant
                n == self.bits@.len(),
                i <= n,
                bits@ == self.bits@.subrange(0, i as int),
            decreases n - i,
        {
            let b = self.bits[i];
            bits.push(b);
            proof {
                assert(bits@ =~= self.bits@.subrange(0, i + 1));
            }
            i = i + 1;
        }
        proof {
            assert(bits@ =~= self.bits@);
        }
        Self {
            max_bytes: self.max_bytes,
            max_players: self.max_players,
            frame: self.frame,
            byte_size_of_all_input_for_all_players: self.byte_size_of_all_input_for_all_players,
            bits,
        }
    }

    /// Return whether the inputs are equal. If bits_only is set, the frame
    /// tags are ignored; payload length and bits must always match.
    pub fn equal(&self, input: &GameInput, bits_only: bool) -> (r: bool)
        ensures
            r == records_equal(*self, *input, bits_only),
    {
        let frames_match: bool = match (self.frame, input.frame) {
            (Some(a), Some(b)) => a == b,
            (None, None) => true,
            _ => false,
        };

        let sizes_match: bool = self.byte_size_of_all_input_for_all_players
            == input.byte_size_of_all_input_for_all_players;

        let bits_match: bool = bits_seq_equal(&self.bits, &input.bits);

        (bits_only || frames_match) && sizes_match && bits_match
    }
}

/// Element-wise comparison of two bit vectors.
fn bits_seq_equal(a: &Vec<bool>, b: &Vec<bool>) -> (r: bool)
    ensures
        r == (a@ == b@),
{
    if a.len() != b.len() {
        return false;
    }
    let n: usize = a.len();
    let mut i: usize = 0;
    while i < n
        invariant
            n == a@.len(),
            n == b@.len(),
            i <= n,
            forall|j: int| 0 <= j < i ==> a@[j] == b@[j],
        decreases n - i,
    {
        if a[i] != b[i] {
            return false;
        }
        i = i + 1;
    }
    proof {
        assert(a@ =~= b@);
    }
    true
}

/// Erasing a record leaves every bit index reading false: what `erase`
/// writes, `value` reads back as false at any index.
pub proof fn lemma_erase_reads_false(len: nat, i: int)
    requires
        0 <= i < len,
    ensures
        written_bits(len, Seq::<bool>::empty(), 0)[i] == false,
{
}

/// Setting a bit makes `value` read true at that index, clearing it
/// afterwards returns it to false, and neither touches any other index.
pub proof fn lemma_set_then_clear(bits: Seq<bool>, i: int)
    requires
        0 <= i < bits.len(),
    ensures
        bits.update(i, true)[i] == true,
        bits.update(i, true).update(i, false)[i] == false,
        forall|j: int| 0 <= j < bits.len() && j != i ==> bits.update(i, true)[j] == bits[j],
{
}

/// Bits-only equality ignores the frame tag but still requires the payload
/// lengths and bits to match; strict equality additionally requires the frame
/// tags to match.
pub proof fn lemma_equality_modes(a: GameInput, b: GameInput)
    ensures
        records_equal(a, b, true) == (a.byte_size_of_all_input_for_all_players
            == b.byte_size_of_all_input_for_all_players && a.bits@ == b.bits@),
        records_equal(a, b, false) == (a.frame == b.frame
            && a.byte_size_of_all_input_for_all_players
            == b.byte_size_of_all_input_for_all_players && a.bits@ == b.bits@),
{
}

/// Round trip: a record initialized with the given bits reproduces exactly
/// those bits at their original offsets and zeros everywhere else.
pub proof fn lemma_init_round_trip(len: nat, src: Seq<bool>, start: int, i: int)
    requires
        0 <= start,
        start + src.len() <= len,
        0 <= i < len,
    ensures
        start <= i < start + src.len() ==> written_bits(len, src, start)[i] == src[i - start],
        !(start <= i < start + src.len()) ==> written_bits(len, src, start)[i] == false,
{
}

/// Two to the power of the nibble size is 256.
pub proof fn lemma_nibble_space()
    ensures
        pow_spec(2, NIBBLE_SIZE as nat) == 256,
{
    reveal_with_fuel(vstd::arithmetic::power::pow, 9);
}

} // verus!

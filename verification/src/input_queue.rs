use crate::game_input::{wf as record_wf, GameInput};
use crate::ringbuffer::ring_index;
use vstd::prelude::*;

verus! {

/// Bounded history length used when the caller does not choose one.
pub const DEFAULT_INPUT_QUEUE_LENGTH: usize = 128;

/// Input payload size in bytes used when the caller does not choose one.
pub const DEFAULT_INPUT_SIZE: usize = 4;

/// The value of an optional parameter, or its fallback.
pub open spec fn chosen(value: Option<usize>, fallback: usize) -> usize {
    match value {
        Some(v) => v,
        None => fallback,
    }
}

/// Owns the confirmed and predicted input history for one player.
///
/// Records are stored in a ring with contiguous, increasing frame numbers,
/// each marked confirmed or predicted. When the user skips frames, the
/// previous record is replicated forward into the gap as a prediction; the
/// rolling `prediction` record keeps the earliest such predicted frame and
/// the replicated value. The first real input that disagrees (bits-only) with
/// an outstanding prediction marks the first incorrect frame, which only
/// `reset_prediction` clears.
pub struct InputQueue {
    id: Option<usize>,
    head: usize,
    tail: usize,
    length: usize,
    input_size: usize,
    first_frame: bool,
    last_user_added_frame: Option<usize>,
    last_added_frame: Option<usize>,
    first_incorrect_frame: Option<usize>,
    frame_delay: usize,
    inputs: Vec<GameInput>,
    predicted: Vec<bool>,
    prediction: GameInput,
}

impl InputQueue {
    /// The fixed number of history slots.
    pub closed spec fn capacity(self) -> int {
        self.inputs@.len() as int
    }

    /// The number of records currently stored.
    pub closed spec fn len(self) -> int {
        self.length as int
    }

    /// The configured per-player frame delay.
    pub closed spec fn delay(self) -> int {
        self.frame_delay as int
    }

    /// The configured input payload size in bytes.
    pub closed spec fn input_size_spec(self) -> int {
        self.input_size as int
    }

    /// The largest payload size the rolling prediction record can hold.
    pub closed spec fn input_capacity(self) -> int {
        self.prediction.max_bytes * self.prediction.max_players
    }

    /// The frame of the most recent record added to the history, the frame
    /// known non-speculative.
    pub closed spec fn last_added(self) -> Option<usize> {
        self.last_added_frame
    }

    /// The frame most recently handed in by the user, before frame delay.
    pub closed spec fn last_user_added(self) -> Option<usize> {
        self.last_user_added_frame
    }

    /// The earliest frame found to be mispredicted, if any.
    pub closed spec fn first_incorrect(self) -> Option<usize> {
        self.first_incorrect_frame
    }

    /// The earliest frame whose stored value is a prediction, if any.
    pub closed spec fn prediction_start(self) -> Option<usize> {
        self.prediction.frame
    }

    /// The bit pattern predictions replicate.
    pub closed spec fn prediction_value(self) -> Seq<bool> {
        self.prediction.bits@
    }

    /// The payload size of the rolling prediction record.
    pub closed spec fn prediction_size(self) -> int {
        self.prediction.byte_size_of_all_input_for_all_players as int
    }

    /// The record stored `j` slots after the oldest one.
    pub closed spec fn record_at(self, j: int) -> GameInput {
        self.inputs@[ring_index(self.tail as int, j, self.capacity())]
    }

    /// The slot holding the most recently added record, also the source that
    /// gap predictions replicate.
    spec fn prev_head(self) -> int {
        if self.head == 0 {
            self.capacity() - 1
        } else {
            self.head - 1
        }
    }

    /// The bit pattern of the most recently added record, the "last known
    /// value" that fills gaps and synthesizes predictions.
    pub closed spec fn last_value_bits(self) -> Seq<bool> {
        self.inputs@[self.prev_head()].bits@
    }

    /// The payload size of the most recently added record.
    pub closed spec fn last_value_size(self) -> int {
        self.inputs@[self.prev_head()].byte_size_of_all_input_for_all_players as int
    }

    /// The frame of the oldest stored record.
    pub open spec fn first_frame_index(self) -> int {
        self.last_added().unwrap() - (self.len() - 1)
    }

    /// Whether a record for the given frame is currently stored.
    pub open spec fn holds_frame(self, frame: int) -> bool {
        self.len() > 0 && self.first_frame_index() <= frame <= self.last_added().unwrap()
    }

    /// Whether the record `j` slots after the oldest one is marked as a
    /// prediction.
    pub closed spec fn flag_at(self, j: int) -> bool {
        self.predicted@[ring_index(self.tail as int, j, self.capacity())]
    }

    /// Whether the stored value for the given frame is a prediction.
    pub open spec fn is_predicted(self, frame: int) -> bool {
        self.holds_frame(frame) && self.flag_at(frame - self.first_frame_index())
    }

    /// The frame the next added record is expected to land on once delayed.
    pub open spec fn expected_frame(self) -> int {
        match self.last_added() {
            Some(l) => l + 1,
            None => 0,
        }
    }

    /// Structural well-formedness: cursors stay on the ring, stored records
    /// carry contiguous frames ending at the last added one, and the most
    /// recently written slot remembers the last added record.
    pub closed spec fn wf(self) -> bool {
        &&& self.capacity() > 0
        &&& self.head < self.inputs@.len()
        &&& self.tail < self.inputs@.len()
        &&& self.length <= self.inputs@.len()
        &&& self.head as int == ring_index(self.tail as int, self.len(), self.capacity())
        &&& (self.len() > 0 ==> self.last_added() is Some)
        &&& (self.last_added() is Some ==> self.last_added().unwrap() >= self.len() - 1)
        &&& (forall|j: int|
            0 <= j < self.len() ==> (#[trigger] self.record_at(j)).frame == Some(
                (self.first_frame_index() + j) as usize,
            ))
        &&& (self.last_added() is Some ==> self.inputs@[self.prev_head()].frame == self.last_added())
        &&& (self.last_added() is None ==> self.len() == 0 && self.first_frame)
        &&& (self.first_frame ==> self.last_added() is None)
        &&& record_wf(self.prediction)
        &&& (forall|j: int| 0 <= j < self.inputs@.len() ==> record_wf(#[trigger] self.inputs@[j]))
        &&& self.predicted@.len() == self.inputs@.len()
        &&& (self.prediction_start() is Some ==> self.prediction_start().unwrap()
            <= self.expected_frame())
        &&& (self.prediction_start() is None ==> forall|j: int|
            0 <= j < self.len() ==> !(#[trigger] self.flag_at(j)))
        &&& (self.prediction_start() is Some ==> forall|j: int|
            0 <= j < self.len() && (#[trigger] self.flag_at(j))
                ==> self.first_frame_index() + j >= self.prediction_start().unwrap())
    }

    /// Create a queue with the given (or default) input size and history
    /// length.
    pub fn new(default_input_size: Option<usize>, default_queue_length: Option<usize>) -> (r: Self)
        requires
            chosen(default_input_size, DEFAULT_INPUT_SIZE) * 8 < 256,
            chosen(default_queue_length, DEFAULT_INPUT_QUEUE_LENGTH) > 0,
        ensures
            r.wf(),
            r.capacity() == chosen(default_queue_length, DEFAULT_INPUT_QUEUE_LENGTH),
            r.input_size_spec() == chosen(default_input_size, DEFAULT_INPUT_SIZE),
            r.input_capacity() == chosen(default_input_size, DEFAULT_INPUT_SIZE),
            r.len() == 0,
            r.delay() == 0,
            r.last_added() is None,
            r.last_user_added() is None,
            r.first_incorrect() is None,
            r.prediction_start() is None,
            r.prediction_value() == Seq::new((chosen(default_input_size, DEFAULT_INPUT_SIZE) * 8) as nat, |i: int| false),
            r.prediction_size() == chosen(default_input_size, DEFAULT_INPUT_SIZE),
            r.last_value_bits() == Seq::new((chosen(default_input_size, DEFAULT_INPUT_SIZE) * 8) as nat, |i: int| false),
    {
        let input_size: usize = match default_input_size {
            Some(s) => s,
            None => DEFAULT_INPUT_SIZE,
        };
        let queue_length: usize = match default_queue_length {
            Some(l) => l,
            None => DEFAULT_INPUT_QUEUE_LENGTH,
        };

        proof {
            crate::game_input::lemma_nibble_space();
        }

        let mut null_record = GameInput::new(input_size, 1, input_size);
        null_record.init(None, None, input_size);

        let mut predicted: Vec<bool> = Vec::new();
        let mut pi: usize = 0;
        while pi < queue_length
            invariant
                pi <= queue_length,
                predicted@.len() == pi,
                forall|j: int| 0 <= j < pi ==> predicted@[j] == false,
            decreases queue_length - pi,
        {
            predicted.push(false);
            pi = pi + 1;
        }

        let mut inputs: Vec<GameInput> = Vec::new();
        let mut i: usize = 0;
        while i < queue_length
            invariant
                i <= queue_length,
                inputs@.len() == i,
                record_wf(null_record),
                null_record.frame is None,
                null_record.bits@ =~= Seq::new((null_record.max_bytes * 8) as nat, |k: int| false),
                null_record.max_bytes == input_size,
                null_record.byte_size_of_all_input_for_all_players == input_size,
                forall|j: int|
                    0 <= j < i ==> (#[trigger] inputs@[j]).frame is None && inputs@[j].bits@
                        == null_record.bits@ && record_wf(inputs@[j]),
            decreases queue_length - i,
        {
            let copy = null_record.duplicate();
            proof {
                assert(copy.bits@ =~= null_record.bits@);
            }
            inputs.push(copy);
            i = i + 1;
        }

        let r = Self {
            id: None,
            head: 0,
            tail: 0,
            length: 0,
            input_size,
            first_frame: true,
            last_user_added_frame: None,
            last_added_frame: None,
            first_incorrect_frame: None,
            frame_delay: 0,
            inputs,
            predicted,
            prediction: null_record,
        };
        proof {
            assert(r.prediction_value() =~= Seq::new((input_size * 8) as nat, |k: int| false));
            assert(r.last_value_bits() =~= Seq::new((input_size * 8) as nat, |k: int| false));
        }
        r
    }

    /// Reset the queue for a player, keeping the allocated history slots.
    /// The rolling prediction record is zeroed and every stored slot is
    /// replaced by a zeroed null record, so predictions synthesized after the
    /// reset replicate all-false bits, never stale ones.
    pub fn init(&mut self, id: usize, input_size: usize)
        requires
            old(self).wf(),
            input_size <= old(self).input_capacity(),
        ensures
            final(self).wf(),
            final(self).capacity() == old(self).capacity(),
            final(self).input_capacity() == old(self).input_capacity(),
            final(self).input_size_spec() == input_size,
            final(self).len() == 0,
            final(self).delay() == 0,
            final(self).last_added() is None,
            final(self).last_user_added() is None,
            final(self).first_incorrect() is None,
            final(self).prediction_start() is None,
            final(self).prediction_size() == input_size,
            final(self).prediction_value().len() == old(self).prediction_value().len(),
            forall|i: int|
                0 <= i < final(self).prediction_value().len() ==> !final(self).prediction_value()[i],
            final(self).last_value_bits() == final(self).prediction_value(),
            final(self).last_value_size() == input_size,
    {
        self.input_size = input_size;
        self.id = Some(id);
        self.head = 0;
        self.tail = 0;
        self.length = 0;
        self.frame_delay = 0;
        self.first_frame = true;
        self.last_user_added_frame = None;
        self.last_added_frame = None;
        self.first_incorrect_frame = None;

        self.prediction.init(None, None, input_size);

        let ghost zeroed = self.prediction;
        let n: usize = self.inputs.len();
        let mut i: usize = 0;
        while i < n
            invariant
                n == self.inputs@.len(),
                self.predicted@.len() == n,
                i <= n,
                self.prediction == zeroed,
                record_wf(zeroed),
                zeroed.frame is None,
                zeroed.byte_size_of_all_input_for_all_players == input_size,
                self.input_size == input_size,
                self.id == Some(id),
                self.head == 0,
                self.tail == 0,
                self.length == 0,
                self.frame_delay == 0,
                self.first_frame == true,
                self.last_user_added_frame is None,
                self.last_added_frame is None,
                self.first_incorrect_frame is None,
                forall|k: int|
                    0 <= k < i ==> (#[trigger] self.inputs@[k]).bits@ == zeroed.bits@
                        && self.inputs@[k].frame is None
                        && self.inputs@[k].byte_size_of_all_input_for_all_players == input_size
                        && record_wf(self.inputs@[k]),
                forall|k: int|
                    i <= k < n ==> (#[trigger] self.inputs@[k]) == old(self).inputs@[k],
            decreases n - i,
        {
            let copy = self.prediction.duplicate();
            proof {
                assert(copy.bits@ =~= zeroed.bits@);
                assert(record_wf(copy));
            }
            self.inputs[i] = copy;
            proof {
                assert(self.inputs@[i as int] == copy);
            }
            i = i + 1;
        }

        proof {
            assert(self.capacity() > 0);
            assert(self.prev_head() == self.capacity() - 1);
            assert(self.last_value_bits() == self.prediction_value());
        }
    }

    /// The last frame whose true input is known, or absent before any input.
    pub fn get_last_confirmed_frame(&self) -> (r: Option<usize>)
        ensures
            r == self.last_added(),
    {
        self.last_added_frame
    }

    /// The earliest frame found to be mispredicted, or absent.
    pub fn get_first_incorrect_frame(&self) -> (r: Option<usize>)
        ensures
            r == self.first_incorrect(),
    {
        self.first_incorrect_frame
    }

    /// The number of records currently stored.
    pub fn get_length(&self) -> (r: usize)
        ensures
            r == self.len(),
    {
        self.length
    }

    /// All subsequently added input is scheduled this many frames into the
    /// future, hiding one-way network latency.
    pub fn set_frame_delay(&mut self, delay: usize)
        requires
            old(self).wf(),
        ensures
            final(self).wf(),
            final(self).delay() == delay,
            final(self).capacity() == old(self).capacity(),
            final(self).len() == old(self).len(),
            final(self).input_size_spec() == old(self).input_size_spec(),
            final(self).input_capacity() == old(self).input_capacity(),
            final(self).last_added() == old(self).last_added(),
            final(self).last_user_added() == old(self).last_user_added(),
            final(self).first_incorrect() == old(self).first_incorrect(),
            final(self).prediction_start() == old(self).prediction_start(),
            final(self).prediction_value() == old(self).prediction_value(),
            final(self).prediction_size() == old(self).prediction_size(),
            final(self).last_value_bits() == old(self).last_value_bits(),
            final(self).last_value_size() == old(self).last_value_size(),
            forall|j: int| 0 <= j < old(self).len() ==> final(self).record_at(j) == old(
                self,
            ).record_at(j),
    {
        self.frame_delay = delay;
        proof {
            lemma_same_records(*self, *old(self));
        }
    }

    /// The slot holding the record `off` steps after the oldest one.
    fn slot_at(&self, off: usize) -> (s: usize)
        requires
            self.wf(),
            off < self.capacity(),
        ensures
            s as int == ring_index(self.tail as int, off as int, self.capacity()),
            s < self.inputs@.len(),
    {
        let gap: usize = self.inputs.len() - self.tail;
        if off < gap {
            self.tail + off
        } else {
            off - gap
        }
    }

    /// Append one record to the head of the ring, tagged with the given
    /// frame and marked confirmed or predicted. Frames must stay contiguous
    /// and the ring must have room; both are hard invariant violations
    /// otherwise.
    fn add_delayed_input_to_queue(&mut self, input: GameInput, frame: usize, speculative: bool)
        requires
            old(self).wf(),
            record_wf(input),
            old(self).len() < old(self).capacity(),
            old(self).last_added() is Some ==> frame == old(self).last_added().unwrap() + 1,
            speculative ==> old(self).prediction_start() is Some
                && frame >= old(self).prediction_start().unwrap(),
        ensures
            final(self).wf(),
            final(self).capacity() == old(self).capacity(),
            final(self).len() == old(self).len() + 1,
            final(self).last_added() == Some(frame),
            forall|j: int| 0 <= j < old(self).len() ==> final(self).record_at(j) == old(
                self,
            ).record_at(j),
            final(self).record_at(old(self).len()).frame == Some(frame),
            final(self).record_at(old(self).len()).bits@ == input.bits@,
            final(self).record_at(old(self).len()).byte_size_of_all_input_for_all_players
                == input.byte_size_of_all_input_for_all_players,
            final(self).flag_at(old(self).len()) == speculative,
            forall|j: int| 0 <= j < old(self).len() ==> final(self).flag_at(j) == old(self).flag_at(
                j,
            ),
            final(self).last_value_bits() == input.bits@,
            final(self).last_value_size() == input.byte_size_of_all_input_for_all_players,
            final(self).delay() == old(self).delay(),
            final(self).input_size_spec() == old(self).input_size_spec(),
            final(self).input_capacity() == old(self).input_capacity(),
            final(self).last_user_added() == old(self).last_user_added(),
            final(self).first_incorrect() == old(self).first_incorrect(),
            final(self).prediction_start() == old(self).prediction_start(),
            final(self).prediction_value() == old(self).prediction_value(),
            final(self).prediction_size() == old(self).prediction_size(),
    {
        let mut record = input;
        record.frame = Some(frame);

        let slot: usize = self.head;
        self.inputs[slot] = record;
        self.predicted[slot] = speculative;
        let n: usize = self.inputs.len();
        proof {
            assert(self.head < n);
        }
        self.head = if self.head + 1 < n {
            self.head + 1
        } else {
            0
        };
        self.length = self.length + 1;
        self.first_frame = false;
        self.last_added_frame = Some(frame);

        proof {
            let cap = self.capacity();
            assert(slot as int == ring_index(old(self).tail as int, old(self).len(), cap));
            assert forall|j: int| 0 <= j < old(self).len() implies (#[trigger] self.record_at(j))
                == old(self).record_at(j) by {
                assert(ring_index(self.tail as int, j, cap) != slot as int);
                assert(old(self).record_at(j) == old(self).inputs@[ring_index(
                    self.tail as int,
                    j,
                    cap,
                )]);
            }
            assert forall|j: int| 0 <= j < old(self).len() implies (#[trigger] self.flag_at(j))
                == old(self).flag_at(j) by {
                assert(ring_index(self.tail as int, j, cap) != slot as int);
                assert(old(self).flag_at(j) == old(self).predicted@[ring_index(
                    self.tail as int,
                    j,
                    cap,
                )]);
            }
            assert(self.record_at(old(self).len()) == self.inputs@[slot as int]);
            assert(self.flag_at(old(self).len()) == self.predicted@[slot as int]);
            assert(self.prev_head() == slot as int);
        }
    }

    /// Move the head cursor up to the delayed target frame, replicating the
    /// previous record into any skipped frames as predictions. Returns the
    /// target frame, or absent when lowering the frame delay made the target
    /// fall before the next expected frame (the input is dropped).
    fn advance_queue_head(&mut self, frame: usize) -> (r: Option<usize>)
        requires
            old(self).wf(),
            frame + old(self).delay() <= usize::MAX,
            old(self).last_added() is Some ==> old(self).last_added().unwrap() < usize::MAX,
            old(self).expected_frame() <= frame + old(self).delay() ==> old(self).len() + (frame
                + old(self).delay() - old(self).expected_frame()) + 1 <= old(self).capacity(),
        ensures
            final(self).wf(),
            r is Some <==> old(self).expected_frame() <= frame + old(self).delay(),
            r is Some ==> r.unwrap() == frame + old(self).delay(),
            r is None ==> *final(self) == *old(self),
            r is Some ==> ({
                let fs = *final(self);
                let os = *old(self);
                let e = os.expected_frame();
                let t = frame + os.delay();
                &&& fs.len() == os.len() + (t - e)
                &&& fs.last_added() == (if e == t {
                    os.last_added()
                } else {
                    Some((t - 1) as usize)
                })
                &&& (forall|j: int| 0 <= j < os.len() ==> fs.record_at(j) == os.record_at(j))
                &&& (forall|j: int|
                    os.len() <= j < fs.len() ==> (#[trigger] fs.record_at(j)).bits@
                        == os.last_value_bits() && fs.record_at(
                        j,
                    ).byte_size_of_all_input_for_all_players == os.last_value_size())
                &&& (forall|j: int| 0 <= j < os.len() ==> fs.flag_at(j) == os.flag_at(j))
                &&& (forall|j: int| os.len() <= j < fs.len() ==> (#[trigger] fs.flag_at(j)) == true)
                &&& (if e < t && os.prediction_start() is None {
                    &&& fs.prediction_start() == Some(e as usize)
                    &&& fs.prediction_value() == os.last_value_bits()
                    &&& fs.prediction_size() == os.last_value_size()
                } else {
                    &&& fs.prediction_start() == os.prediction_start()
                    &&& fs.prediction_value() == os.prediction_value()
                    &&& fs.prediction_size() == os.prediction_size()
                })
                &&& fs.last_value_bits() == os.last_value_bits()
                &&& fs.last_value_size() == os.last_value_size()
            }),
            final(self).capacity() == old(self).capacity(),
            final(self).delay() == old(self).delay(),
            final(self).input_size_spec() == old(self).input_size_spec(),
            final(self).last_user_added() == old(self).last_user_added(),
            final(self).first_incorrect() == old(self).first_incorrect(),
    {
        let target: usize = frame + self.frame_delay;
        let expected: usize = match self.last_added_frame {
            Some(l) => l + 1,
            None => 0,
        };

        if expected > target {
            return None;
        }

        if expected < target {
            let n: usize = self.inputs.len();
            let src_slot: usize = if self.head == 0 {
                n - 1
            } else {
                self.head - 1
            };
            if self.prediction.frame.is_none() {
                let mut pred = self.inputs[src_slot].duplicate();
                pred.frame = Some(expected);
                self.prediction = pred;
            }
            proof {
                lemma_same_records(*self, *old(self));
                assert(old(self).expected_frame() == expected as int);
                assert(self.prediction_start() is Some);
                assert(self.prediction_start().unwrap() <= expected as int);
            }

            let ghost mid = *self;
            let mut g: usize = expected;
            while g < target
                invariant
                    self.wf(),
                    expected <= g <= target,
                    target <= usize::MAX,
                    self.len() == mid.len() + (g - expected),
                    self.len() + (target - g) + 1 <= self.capacity(),
                    self.last_added() == (if g == expected {
                        mid.last_added()
                    } else {
                        Some((g - 1) as usize)
                    }),
                    mid.last_added() is Some ==> mid.last_added().unwrap() < usize::MAX,
                    g == expected ==> g == mid.expected_frame(),
                    forall|j: int|
                        0 <= j < mid.len() ==> (#[trigger] self.record_at(j)) == mid.record_at(j),
                    forall|j: int|
                        mid.len() <= j < self.len() ==> (#[trigger] self.record_at(j)).bits@
                            == mid.last_value_bits() && self.record_at(
                            j,
                        ).byte_size_of_all_input_for_all_players == mid.last_value_size(),
                    forall|j: int| 0 <= j < mid.len() ==> self.flag_at(j) == mid.flag_at(j),
                    forall|j: int|
                        mid.len() <= j < self.len() ==> (#[trigger] self.flag_at(j)) == true,
                    mid.prediction_start() is Some && g >= mid.prediction_start().unwrap(),
                    self.last_value_bits() == mid.last_value_bits(),
                    self.last_value_size() == mid.last_value_size(),
                    self.capacity() == mid.capacity(),
                    self.delay() == mid.delay(),
                    self.input_size_spec() == mid.input_size_spec(),
                    self.last_user_added() == mid.last_user_added(),
                    self.first_incorrect() == mid.first_incorrect(),
                    self.prediction_start() == mid.prediction_start(),
                    self.prediction_value() == mid.prediction_value(),
                    self.prediction_size() == mid.prediction_size(),
                decreases target - g,
            {
                let n2: usize = self.inputs.len();
                let src: usize = if self.head == 0 {
                    n2 - 1
                } else {
                    self.head - 1
                };
                proof {
                    assert(src as int == self.prev_head());
                }
                let rep = self.inputs[src].duplicate();
                self.add_delayed_input_to_queue(rep, g, true);
                g = g + 1;
            }
        }

        Some(target)
    }

    /// Clears all predicted state at and after the given frame: the
    /// prediction markers on those records, and the prediction record's
    /// frame when it falls in that range, along with the first-incorrect
    /// marker. Resetting to a point after a frame already proven wrong
    /// cannot "un-invalidate" it and is a programming error, ruled out up
    /// front.
    pub fn reset_prediction(&mut self, frame: usize)
        requires
            old(self).wf(),
            old(self).first_incorrect() is Some ==> frame <= old(self).first_incorrect().unwrap(),
        ensures
            final(self).wf(),
            final(self).first_incorrect() is None,
            final(self).prediction_start() == (if old(self).prediction_start() is Some && old(
                self,
            ).prediction_start().unwrap() >= frame {
                None::<usize>
            } else {
                old(self).prediction_start()
            }),
            final(self).capacity() == old(self).capacity(),
            final(self).len() == old(self).len(),
            final(self).delay() == old(self).delay(),
            final(self).last_added() == old(self).last_added(),
            final(self).last_user_added() == old(self).last_user_added(),
            final(self).prediction_value() == old(self).prediction_value(),
            final(self).last_value_bits() == old(self).last_value_bits(),
            forall|j: int| 0 <= j < old(self).len() ==> final(self).record_at(j) == old(
                self,
            ).record_at(j),
            forall|j: int|
                0 <= j < old(self).len() ==> (#[trigger] final(self).flag_at(j)) == (if old(
                    self,
                ).first_frame_index() + j >= frame {
                    false
                } else {
                    old(self).flag_at(j)
                }),
            forall|g: int| g >= frame ==> !final(self).is_predicted(g),
    {
        let ghost entry = *self;
        let n: usize = self.predicted.len();
        proof {
            assert(n == self.inputs@.len());
        }
        let mut i: usize = 0;
        while i < n
            invariant
                n == self.predicted@.len(),
                n == self.inputs@.len(),
                i <= n,
                self.inputs@ == entry.inputs@,
                self.head == entry.head,
                self.tail == entry.tail,
                self.length == entry.length,
                self.input_size == entry.input_size,
                self.id == entry.id,
                self.first_frame == entry.first_frame,
                self.last_user_added_frame == entry.last_user_added_frame,
                self.last_added_frame == entry.last_added_frame,
                self.first_incorrect_frame == entry.first_incorrect_frame,
                self.frame_delay == entry.frame_delay,
                self.prediction == entry.prediction,
                forall|k: int|
                    0 <= k < i ==> (#[trigger] self.predicted@[k]) == (
                    if entry.inputs@[k].frame is Some && entry.inputs@[k].frame.unwrap() >= frame {
                        false
                    } else {
                        entry.predicted@[k]
                    }),
                forall|k: int| i <= k < n ==> (#[trigger] self.predicted@[k]) == entry.predicted@[k],
            decreases n - i,
        {
            let clear: bool = match self.inputs[i].frame {
                Some(f) => f >= frame,
                None => false,
            };
            if clear {
                self.predicted[i] = false;
            }
            i = i + 1;
        }

        self.first_incorrect_frame = None;
        let clear_marker: bool = match self.prediction.frame {
            Some(pf) => pf >= frame,
            None => false,
        };
        if clear_marker {
            self.prediction.frame = None;
        }

        proof {
            assert forall|j: int| 0 <= j < self.len() implies (#[trigger] self.record_at(j))
                == old(self).record_at(j) by {
                assert(old(self).record_at(j) == self.inputs@[ring_index(
                    self.tail as int,
                    j,
                    self.capacity(),
                )]);
            }
            assert forall|j: int| 0 <= j < self.len() implies (#[trigger] self.flag_at(j)) == (
            if old(self).first_frame_index() + j >= frame {
                false
            } else {
                old(self).flag_at(j)
            }) by {
                let slot = ring_index(self.tail as int, j, self.capacity());
                assert(old(self).record_at(j).frame == Some(
                    (old(self).first_frame_index() + j) as usize,
                ));
                assert(old(self).record_at(j) == self.inputs@[slot]);
                assert(old(self).flag_at(j) == entry.predicted@[slot]);
                assert(self.flag_at(j) == self.predicted@[slot]);
            }
        }
    }

    /// Insert input into the history at the position implied by its frame,
    /// delayed by the configured frame delay. User frames must move forward;
    /// skipped frames, whether the user skipped them or the delay grew, are
    /// filled by replicating the previous record forward as predictions, and
    /// the queue records the earliest such predicted frame. A real input that
    /// disagrees with an outstanding prediction marks the first incorrect
    /// frame.
    pub fn add_input(&mut self, input: GameInput)
        requires
            old(self).wf(),
            record_wf(input),
            input.frame is Some,
            old(self).last_user_added() is Some ==> input.frame.unwrap() > old(
                self,
            ).last_user_added().unwrap(),
            input.frame.unwrap() + old(self).delay() <= usize::MAX,
            old(self).last_added() is Some ==> old(self).last_added().unwrap() < usize::MAX,
            old(self).expected_frame() <= input.frame.unwrap() + old(self).delay() ==> old(
                self,
            ).len() + (input.frame.unwrap() + old(self).delay() - old(self).expected_frame()) + 1
                <= old(self).capacity(),
        ensures
            final(self).wf(),
            final(self).last_user_added() == Some(input.frame.unwrap()),
            final(self).capacity() == old(self).capacity(),
            final(self).delay() == old(self).delay(),
            final(self).input_size_spec() == old(self).input_size_spec(),
            old(self).expected_frame() > input.frame.unwrap() + old(self).delay() ==> ({
                let fs = *final(self);
                let os = *old(self);
                &&& fs.len() == os.len()
                &&& fs.last_added() == os.last_added()
                &&& fs.first_incorrect() == os.first_incorrect()
                &&& fs.prediction_start() == os.prediction_start()
                &&& fs.prediction_value() == os.prediction_value()
                &&& fs.prediction_size() == os.prediction_size()
                &&& fs.last_value_bits() == os.last_value_bits()
                &&& fs.last_value_size() == os.last_value_size()
                &&& (forall|j: int| 0 <= j < os.len() ==> fs.record_at(j) == os.record_at(j))
                &&& (forall|j: int| 0 <= j < os.len() ==> fs.flag_at(j) == os.flag_at(j))
            }),
            old(self).expected_frame() <= input.frame.unwrap() + old(self).delay() ==> ({
                let fs = *final(self);
                let os = *old(self);
                let e = os.expected_frame();
                let t = input.frame.unwrap() + os.delay();
                let fresh_prediction = e < t && os.prediction_start() is None;
                let pstart = if fresh_prediction {
                    Some(e as usize)
                } else {
                    os.prediction_start()
                };
                let pbits = if fresh_prediction {
                    os.last_value_bits()
                } else {
                    os.prediction_value()
                };
                let psize = if fresh_prediction {
                    os.last_value_size()
                } else {
                    os.prediction_size()
                };
                &&& fs.len() == os.len() + (t - e) + 1
                &&& fs.last_added() == Some(t as usize)
                &&& (forall|j: int| 0 <= j < os.len() ==> fs.record_at(j) == os.record_at(j))
                &&& (forall|j: int|
                    os.len() <= j < os.len() + (t - e) ==> (#[trigger] fs.record_at(j)).bits@
                        == os.last_value_bits() && fs.record_at(
                        j,
                    ).byte_size_of_all_input_for_all_players == os.last_value_size())
                &&& (forall|j: int| 0 <= j < os.len() ==> fs.flag_at(j) == os.flag_at(j))
                &&& (forall|j: int|
                    os.len() <= j < os.len() + (t - e) ==> (#[trigger] fs.flag_at(j)) == true)
                &&& fs.flag_at(fs.len() - 1) == false
                &&& fs.record_at(fs.len() - 1).frame == Some(t as usize)
                &&& fs.record_at(fs.len() - 1).bits@ == input.bits@
                &&& fs.record_at(fs.len() - 1).byte_size_of_all_input_for_all_players
                    == input.byte_size_of_all_input_for_all_players
                &&& fs.prediction_start() == pstart
                &&& fs.prediction_value() == pbits
                &&& fs.prediction_size() == psize
                &&& fs.last_value_bits() == input.bits@
                &&& fs.last_value_size() == input.byte_size_of_all_input_for_all_players
                &&& fs.first_incorrect() == (if pstart is Some && os.first_incorrect() is None
                    && !(input.bits@ == pbits && input.byte_size_of_all_input_for_all_players
                        == psize) {
                    Some(t as usize)
                } else {
                    os.first_incorrect()
                })
            }),
    {
        let f: usize = self.frame_of(&input);
        self.last_user_added_frame = Some(f);
        proof {
            lemma_same_records(*self, *old(self));
        }

        let adv = self.advance_queue_head(f);
        match adv {
            None => {},
            Some(target) => {
                let ghost after_adv = *self;
                let compare: bool = self.prediction.frame.is_some()
                    && self.first_incorrect_frame.is_none();
                if compare {
                    let matches_prediction = input.equal(&self.prediction, true);
                    if !matches_prediction {
                        self.first_incorrect_frame = Some(target);
                        proof {
                            lemma_same_records(*self, after_adv);
                        }
                    }
                }
                self.add_delayed_input_to_queue(input, target, false);
            },
        }
    }

    /// The frame tag of a non-null record.
    fn frame_of(&self, input: &GameInput) -> (f: usize)
        requires
            input.frame is Some,
        ensures
            f == input.frame.unwrap(),
    {
        match input.frame {
            Some(f) => f,
            None => 0,
        }
    }

    /// Returns the stored record for the frame only if it is not a
    /// prediction, else absent.
    pub fn get_confirmed_input(&self, frame: usize) -> (r: Option<GameInput>)
        requires
            self.wf(),
        ensures
            r is Some <==> self.holds_frame(frame as int) && !self.is_predicted(frame as int),
            r is Some ==> ({
                let rec = r.unwrap();
                let stored = self.record_at(frame - self.first_frame_index());
                &&& rec.frame == stored.frame
                &&& rec.bits@ == stored.bits@
                &&& rec.byte_size_of_all_input_for_all_players
                    == stored.byte_size_of_all_input_for_all_players
            }),
    {
        if self.length == 0 {
            return None;
        }
        let last: usize = self.frame_of_last_added();
        let first: usize = last - (self.length - 1);
        if frame < first || frame > last {
            return None;
        }
        let off: usize = frame - first;
        let slot: usize = self.slot_at(off);
        proof {
            assert(self.flag_at(off as int) == self.predicted@[slot as int]);
            assert(self.record_at(off as int) == self.inputs@[slot as int]);
        }
        if self.predicted[slot] {
            return None;
        }
        Some(self.inputs[slot].duplicate())
    }

    /// The frame of the most recent record, for non-empty histories.
    fn frame_of_last_added(&self) -> (f: usize)
        requires
            self.wf(),
            self.len() > 0,
        ensures
            Some(f) == self.last_added(),
    {
        match self.last_added_frame {
            Some(l) => l,
            None => 0,
        }
    }

    /// Returns whether the value for the frame is a prediction, along with
    /// the value itself. A frame beyond what has been added is synthesized
    /// from the last known value; a frame before the oldest retained record
    /// has been discarded and reads as absent.
    pub fn get_input(&self, frame: usize) -> (r: (bool, Option<GameInput>))
        requires
            self.wf(),
        ensures
            self.last_added() is None ==> ({
                &&& r.0 == true
                &&& r.1 is Some
                &&& r.1.unwrap().frame == Some(frame)
                &&& r.1.unwrap().bits@ == self.prediction_value()
                &&& r.1.unwrap().byte_size_of_all_input_for_all_players == self.prediction_size()
            }),
            self.last_added() is Some && frame > self.last_added().unwrap() ==> ({
                &&& r.0 == true
                &&& r.1 is Some
                &&& r.1.unwrap().frame == Some(frame)
                &&& r.1.unwrap().bits@ == self.last_value_bits()
                &&& r.1.unwrap().byte_size_of_all_input_for_all_players == self.last_value_size()
            }),
            self.holds_frame(frame as int) ==> ({
                let rec = r.1.unwrap();
                let stored = self.record_at(frame - self.first_frame_index());
                &&& r.0 == self.is_predicted(frame as int)
                &&& r.1 is Some
                &&& rec.frame == stored.frame
                &&& rec.bits@ == stored.bits@
                &&& rec.byte_size_of_all_input_for_all_players
                    == stored.byte_size_of_all_input_for_all_players
            }),
            self.last_added() is Some && frame <= self.last_added().unwrap() && !self.holds_frame(
                frame as int,
            ) ==> r == (false, None::<GameInput>),
    {
        match self.last_added_frame {
            None => {
                let mut rec = self.prediction.duplicate();
                rec.frame = Some(frame);
                (true, Some(rec))
            },
            Some(last) => {
                if frame > last {
                    let n: usize = self.inputs.len();
                    let src: usize = if self.head == 0 {
                        n - 1
                    } else {
                        self.head - 1
                    };
                    proof {
                        assert(src as int == self.prev_head());
                    }
                    let mut rec = self.inputs[src].duplicate();
                    rec.frame = Some(frame);
                    (true, Some(rec))
                } else if self.length > 0 && frame >= last - (self.length - 1) {
                    let first: usize = last - (self.length - 1);
                    let off: usize = frame - first;
                    let slot: usize = self.slot_at(off);
                    proof {
                        assert(self.flag_at(off as int) == self.predicted@[slot as int]);
                        assert(self.record_at(off as int) == self.inputs@[slot as int]);
                    }
                    let rec = self.inputs[slot].duplicate();
                    let is_pred: bool = self.predicted[slot];
                    (is_pred, Some(rec))
                } else {
                    (false, None)
                }
            },
        }
    }

    /// How many of the oldest records a discard up to `frame` reclaims: never
    /// the current prediction frame or later, never records not yet stored.
    pub open spec fn discard_count(self, frame: int) -> int {
        let e = match self.prediction_start() {
            Some(pf) => if frame <= pf - 1 {
                frame
            } else {
                pf - 1
            },
            None => frame,
        };
        if self.len() == 0 {
            0
        } else if e < self.first_frame_index() {
            0
        } else if e >= self.last_added().unwrap() {
            self.len()
        } else {
            e - self.first_frame_index() + 1
        }
    }

    /// Advance the ring's tail past all frames at or before `frame`,
    /// reclaiming space, but never past the current prediction frame.
    pub fn discard_confirmed_frames(&mut self, frame: usize)
        requires
            old(self).wf(),
        ensures
            final(self).wf(),
            final(self).len() == old(self).len() - old(self).discard_count(frame as int),
            forall|j: int|
                0 <= j < final(self).len() ==> (#[trigger] final(self).record_at(j)) == old(
                    self,
                ).record_at(j + old(self).discard_count(frame as int)),
            forall|j: int|
                0 <= j < final(self).len() ==> (#[trigger] final(self).flag_at(j)) == old(
                    self,
                ).flag_at(j + old(self).discard_count(frame as int)),
            final(self).capacity() == old(self).capacity(),
            final(self).delay() == old(self).delay(),
            final(self).input_size_spec() == old(self).input_size_spec(),
            final(self).last_added() == old(self).last_added(),
            final(self).last_user_added() == old(self).last_user_added(),
            final(self).first_incorrect() == old(self).first_incorrect(),
            final(self).prediction_start() == old(self).prediction_start(),
            final(self).prediction_value() == old(self).prediction_value(),
            final(self).prediction_size() == old(self).prediction_size(),
            final(self).last_value_bits() == old(self).last_value_bits(),
            final(self).last_value_size() == old(self).last_value_size(),
    {
        let e: usize;
        match self.prediction.frame {
            Some(pf) => {
                if pf == 0 {
                    return;
                }
                e = if frame <= pf - 1 {
                    frame
                } else {
                    pf - 1
                };
            },
            None => {
                e = frame;
            },
        }

        if self.length == 0 {
            return;
        }
        let last: usize = self.frame_of_last_added();
        let first: usize = last - (self.length - 1);
        if e < first {
            return;
        }

        if e >= last {
            self.tail = self.head;
            self.length = 0;
            proof {
                lemma_same_records_shifted(*self, *old(self), old(self).len());
            }
        } else {
            let off: usize = e - first + 1;
            let new_tail: usize = self.slot_at(off);
            self.tail = new_tail;
            self.length = self.length - off;
            proof {
                lemma_same_records_shifted(*self, *old(self), off as int);
            }
        }
    }

}

/// The stored history never outgrows its fixed capacity, and a frame count
/// is always available to callers.
pub proof fn lemma_queue_bounds(q: InputQueue)
    requires
        q.wf(),
    ensures
        0 <= q.len() <= q.capacity(),
        0 < q.capacity(),
{
}

/// Once input lands on a frame it is held by the queue; whether it reads
/// back as a prediction is exactly its stored marker, and with no prediction
/// outstanding it always reads back confirmed.
pub proof fn lemma_input_propagates(q: InputQueue, target: usize)
    requires
        q.wf(),
        q.len() > 0,
        q.last_added() == Some(target),
    ensures
        q.holds_frame(target as int),
        target - q.first_frame_index() == q.len() - 1,
        q.record_at(target - q.first_frame_index()) == q.record_at(q.len() - 1),
        q.is_predicted(target as int) == q.flag_at(q.len() - 1),
        !q.flag_at(q.len() - 1) ==> !q.is_predicted(target as int) && q.holds_frame(target as int),
        q.prediction_start() is None ==> !q.is_predicted(target as int),
{
}

/// A queue whose tail moved forward by `off` slots reads the same records,
/// shifted.
proof fn lemma_same_records_shifted(a: InputQueue, b: InputQueue, off: int)
    requires
        a.inputs@ == b.inputs@,
        a.predicted@ == b.predicted@,
        a.head == b.head,
        0 <= off,
        b.tail < b.inputs@.len(),
        b.inputs@.len() > 0,
        off < b.inputs@.len() || (off == b.inputs@.len() && a.tail == b.tail),
        off <= b.inputs@.len() ==> a.tail as int == ring_index(b.tail as int, off, b.capacity())
            || off == b.inputs@.len(),
    ensures
        forall|j: int|
            0 <= j && j + off < b.capacity() ==> #[trigger] a.record_at(j) == b.record_at(j + off),
        forall|j: int|
            0 <= j && j + off < b.capacity() ==> #[trigger] a.flag_at(j) == b.flag_at(j + off),
        a.last_value_bits() == b.last_value_bits(),
        a.last_value_size() == b.last_value_size(),
        a.capacity() == b.capacity(),
{
    assert forall|j: int| 0 <= j && j + off < b.capacity() implies #[trigger] a.record_at(j)
        == b.record_at(j + off) by {
        assert(ring_index(a.tail as int, j, a.capacity()) == ring_index(
            b.tail as int,
            j + off,
            b.capacity(),
        ));
    }
    assert forall|j: int| 0 <= j && j + off < b.capacity() implies #[trigger] a.flag_at(j)
        == b.flag_at(j + off) by {
        assert(ring_index(a.tail as int, j, a.capacity()) == ring_index(
            b.tail as int,
            j + off,
            b.capacity(),
        ));
    }
}

/// Two queue states with the same ring fields store the same records and
/// last-known value.
proof fn lemma_same_records(a: InputQueue, b: InputQueue)
    requires
        a.inputs@ == b.inputs@,
        a.predicted@ == b.predicted@,
        a.tail == b.tail,
        a.head == b.head,
        a.length == b.length,
    ensures
        forall|j: int| #[trigger] a.record_at(j) == b.record_at(j),
        forall|j: int| #[trigger] a.flag_at(j) == b.flag_at(j),
        a.last_value_bits() == b.last_value_bits(),
        a.last_value_size() == b.last_value_size(),
        a.capacity() == b.capacity(),
        a.len() == b.len(),
{
    assert forall|j: int| #[trigger] a.record_at(j) == b.record_at(j) by {
        assert(a.record_at(j) == a.inputs@[ring_index(a.tail as int, j, a.capacity())]);
        assert(b.record_at(j) == b.inputs@[ring_index(b.tail as int, j, b.capacity())]);
    }
    assert forall|j: int| #[trigger] a.flag_at(j) == b.flag_at(j) by {
        assert(a.flag_at(j) == a.predicted@[ring_index(a.tail as int, j, a.capacity())]);
        assert(b.flag_at(j) == b.predicted@[ring_index(b.tail as int, j, b.capacity())]);
    }
}

} // verus!

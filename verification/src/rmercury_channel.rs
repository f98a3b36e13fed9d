use crate::rmercury_input::{RMercuryInput, RMercuryInputWrapper};
use vstd::prelude::*;

verus! {

/// The highest frame among the given inputs, or `acc` if none is higher.
pub open spec fn highest_frame<TGameInput>(
    inputs: Seq<RMercuryInputWrapper<TGameInput>>,
    acc: int,
) -> int where TGameInput: RMercuryInput + Copy + PartialEq
    decreases inputs.len(),
{
    if inputs.len() == 0 {
        acc
    } else {
        let rest = highest_frame(inputs.drop_last(), acc);
        if inputs.last().frame >= rest {
            inputs.last().frame as int
        } else {
            rest
        }
    }
}

/// The set of frames the given inputs carry.
pub open spec fn frames_of<TGameInput>(inputs: Seq<RMercuryInputWrapper<TGameInput>>) -> Set<
    int,
> where TGameInput: RMercuryInput + Copy + PartialEq
    decreases inputs.len(),
{
    if inputs.len() == 0 {
        Set::empty()
    } else {
        frames_of(inputs.drop_last()).insert(inputs.last().frame as int)
    }
}

/// Represents one peer connection's view of exchanged input: the local input
/// queued for sending, the remote input received and not yet consumed, and
/// the bookkeeping behind the peer's confirmed-frame horizon. Frames strictly
/// below `next_expected_frame` have all been received; `waiting_frames` holds
/// the distinct frames received ahead of that gapless point, so a batch
/// delivered out of order never over-confirms.
pub struct RChannel<TGameInput> where
    TGameInput: RMercuryInput,
    TGameInput: Copy,
    TGameInput: PartialEq,
 {
    local_input_to_send: Vec<RMercuryInputWrapper<TGameInput>>,
    pending_remote_input: Vec<RMercuryInputWrapper<TGameInput>>,
    next_expected_frame: usize,
    waiting_frames: Vec<usize>,
}

impl<TGameInput> RChannel<TGameInput> where
    TGameInput: RMercuryInput,
    TGameInput: Copy,
    TGameInput: PartialEq,
 {
    /// The local input queued for sending.
    pub closed spec fn outbound(self) -> Seq<RMercuryInputWrapper<TGameInput>> {
        self.local_input_to_send@
    }

    /// The remote input received and not yet handed to the session.
    pub closed spec fn pending(self) -> Seq<RMercuryInputWrapper<TGameInput>> {
        self.pending_remote_input@
    }

    /// The set of remote frames input has been received for.
    pub closed spec fn seen(self) -> Set<int> {
        Set::new(
            |f: int|
                0 <= f < self.next_expected_frame || (0 <= f < usize::MAX
                    && self.waiting_frames@.contains(f as usize)),
        )
    }

    /// The gapless point of the remote stream: input for every frame strictly
    /// below it has been received.
    pub closed spec fn received_through(self) -> int {
        self.next_expected_frame as int
    }

    /// The remote peer's confirmed-frame horizon: the last frame up to which
    /// every frame's input has been received. Before any frame arrives it
    /// reads 0, the same value as after frame 0 alone.
    pub closed spec fn confirmed(self) -> int {
        if self.next_expected_frame == 0 {
            0
        } else {
            self.next_expected_frame - 1
        }
    }

    /// Horizon bookkeeping well-formedness: the frames waiting out of order
    /// lie strictly past the gapless point, are distinct, and leave room for
    /// the point to advance past them.
    pub closed spec fn wf(self) -> bool {
        &&& (forall|i: int|
            0 <= i < self.waiting_frames@.len() ==> (#[trigger] self.waiting_frames@[i])
                > self.next_expected_frame)
        &&& (forall|i: int|
            0 <= i < self.waiting_frames@.len() ==> (#[trigger] self.waiting_frames@[i])
                < usize::MAX)
        &&& (forall|i: int, j: int|
            0 <= i < j < self.waiting_frames@.len() ==> self.waiting_frames@[i]
                != self.waiting_frames@[j])
    }

    pub fn new() -> (r: Self)
        ensures
            r.wf(),
            r.outbound() == Seq::<RMercuryInputWrapper<TGameInput>>::empty(),
            r.pending() == Seq::<RMercuryInputWrapper<TGameInput>>::empty(),
            r.seen() == Set::<int>::empty(),
            r.received_through() == 0,
            r.confirmed() == 0,
    {
        let r = Self {
            local_input_to_send: Vec::new(),
            pending_remote_input: Vec::new(),
            next_expected_frame: 0,
            waiting_frames: Vec::new(),
        };
        proof {
            assert(r.seen() =~= Set::<int>::empty());
        }
        r
    }

    /// Get the last confirmed frame for the current channel.
    pub fn last_confirmed_frame(&self) -> (r: usize)
        ensures
            r == self.confirmed(),
    {
        if self.next_expected_frame == 0 {
            0
        } else {
            self.next_expected_frame - 1
        }
    }

    /// Queue the local player input to be sent over the channel.
    pub fn queue_local_input(&mut self, inputs: &Vec<RMercuryInputWrapper<TGameInput>>)
        ensures
            final(self).outbound() == old(self).outbound() + inputs@,
            final(self).pending() == old(self).pending(),
            final(self).seen() == old(self).seen(),
            final(self).received_through() == old(self).received_through(),
            final(self).confirmed() == old(self).confirmed(),
            final(self).wf() == old(self).wf(),
    {
        let n: usize = inputs.len();
        let mut i: usize = 0;
        while i < n
            invariant
                n == inputs@.len(),
                i <= n,
                self.local_input_to_send@ == old(self).local_input_to_send@ + inputs@.take(
                    i as int,
                ),
                self.pending_remote_input@ == old(self).pending_remote_input@,
                self.next_expected_frame == old(self).next_expected_frame,
                self.waiting_frames@ == old(self).waiting_frames@,
            decreases n - i,
        {
            let w = inputs[i];
            self.local_input_to_send.push(w);
            proof {
                assert(self.local_input_to_send@ =~= old(self).local_input_to_send@
                    + inputs@.take(i + 1));
            }
            i = i + 1;
        }
        proof {
            assert(inputs@.take(n as int) =~= inputs@);
            lemma_wf_same_horizon(*self, *old(self));
        }
    }

    /// Hand remote input received from the transport to the channel. The
    /// received frames join the channel's record, and the confirmed horizon
    /// advances only as far as the record stays gapless.
    pub fn receive_remote_input(&mut self, inputs: &Vec<RMercuryInputWrapper<TGameInput>>)
        requires
            old(self).wf(),
            forall|i: int| 0 <= i < inputs@.len() ==> (#[trigger] inputs@[i]).frame < usize::MAX,
        ensures
            final(self).wf(),
            final(self).pending() == old(self).pending() + inputs@,
            final(self).outbound() == old(self).outbound(),
            final(self).seen() == old(self).seen().union(frames_of(inputs@)),
            final(self).received_through() >= old(self).received_through(),
            final(self).confirmed() >= old(self).confirmed(),
    {
        let n: usize = inputs.len();
        let mut i: usize = 0;
        while i < n
            invariant
                n == inputs@.len(),
                i <= n,
                forall|k: int| 0 <= k < n ==> (#[trigger] inputs@[k]).frame < usize::MAX,
                self.wf(),
                self.pending_remote_input@ == old(self).pending_remote_input@ + inputs@.take(
                    i as int,
                ),
                self.local_input_to_send@ == old(self).local_input_to_send@,
                self.seen() == old(self).seen().union(frames_of(inputs@.take(i as int))),
                self.received_through() >= old(self).received_through(),
            decreases n - i,
        {
            let w = inputs[i];
            self.pending_remote_input.push(w);
            let ghost seen_before = self.seen();
            self.note_received(w.frame);
            proof {
                assert(self.pending_remote_input@ =~= old(self).pending_remote_input@
                    + inputs@.take(i + 1));
                assert(inputs@.take(i + 1).drop_last() =~= inputs@.take(i as int));
                assert(inputs@.take(i + 1).last() == inputs@[i as int]);
                assert(self.seen() =~= old(self).seen().union(frames_of(inputs@.take(i + 1))));
            }
            i = i + 1;
        }
        proof {
            assert(inputs@.take(n as int) =~= inputs@);
        }
    }

    /// Record that input for one remote frame arrived: the frame joins the
    /// channel's record, and the gapless point advances through any waiting
    /// frames it now reaches.
    fn note_received(&mut self, frame: usize)
        requires
            old(self).wf(),
            frame < usize::MAX,
        ensures
            final(self).wf(),
            final(self).seen() == old(self).seen().insert(frame as int),
            final(self).pending() == old(self).pending(),
            final(self).outbound() == old(self).outbound(),
            final(self).received_through() >= old(self).received_through(),
    {
        if frame < self.next_expected_frame {
            proof {
                assert(old(self).seen().contains(frame as int));
                assert(old(self).seen().insert(frame as int) =~= old(self).seen());
            }
            return ;
        }

        if frame > self.next_expected_frame {
            if !contains_frame(&self.waiting_frames, frame) {
                let ghost before = self.waiting_frames@;
                self.waiting_frames.push(frame);
                proof {
                    assert forall|x: usize| #[trigger]
                        self.waiting_frames@.contains(x) implies before.contains(x) || x
                        == frame by {
                        let j = choose|j: int|
                            0 <= j < self.waiting_frames@.len() && self.waiting_frames@[j] == x;
                        if j < before.len() {
                            assert(before[j] == x);
                        }
                    }
                    assert forall|x: usize| before.contains(x) implies #[trigger]
                    self.waiting_frames@.contains(x) by {
                        let j = choose|j: int| 0 <= j < before.len() && before[j] == x;
                        assert(self.waiting_frames@[j] == x);
                    }
                    assert(self.waiting_frames@.contains(frame)) by {
                        assert(self.waiting_frames@[before.len() as int] == frame);
                    }
                    assert(self.seen() =~= old(self).seen().insert(frame as int));
                }
            } else {
                proof {
                    assert(old(self).seen().contains(frame as int));
                    assert(old(self).seen().insert(frame as int) =~= old(self).seen());
                }
            }
            return ;
        }

        // the frame is exactly the next expected one: advance the gapless
        // point, then drain any waiting frames it reaches
        self.next_expected_frame = frame + 1;
        proof {
            assert forall|x: usize| old(self).waiting_frames@.contains(x) implies x
                != frame by {}
            assert(self.seen() =~= old(self).seen().insert(frame as int));
        }

        let ghost target = old(self).seen().insert(frame as int);
        let mut draining: bool = true;
        while draining
            invariant
                self.pending_remote_input@ == old(self).pending_remote_input@,
                self.local_input_to_send@ == old(self).local_input_to_send@,
                self.seen() == target,
                self.next_expected_frame >= old(self).next_expected_frame,
                forall|i: int|
                    0 <= i < self.waiting_frames@.len() ==> (#[trigger] self.waiting_frames@[i])
                        >= self.next_expected_frame,
                forall|i: int|
                    0 <= i < self.waiting_frames@.len() ==> (#[trigger] self.waiting_frames@[i])
                        < usize::MAX,
                forall|i: int, j: int|
                    0 <= i < j < self.waiting_frames@.len() ==> self.waiting_frames@[i]
                        != self.waiting_frames@[j],
                !draining ==> forall|i: int|
                    0 <= i < self.waiting_frames@.len() ==> (#[trigger] self.waiting_frames@[i])
                        > self.next_expected_frame,
            decreases self.waiting_frames@.len() + (if draining {
                1int
            } else {
                0
            }),
        {
            match find_frame(&self.waiting_frames, self.next_expected_frame) {
                Some(idx) => {
                    let ghost before = self.waiting_frames@;
                    let ghost ne = self.next_expected_frame;
                    let reached: usize = self.waiting_frames[idx];
                    self.waiting_frames.swap_remove(idx);
                    self.next_expected_frame = reached + 1;
                    proof {
                        let after = self.waiting_frames@;
                        assert forall|x: usize| #[trigger]
                            after.contains(x) implies before.contains(x) && x != ne by {
                            let j = choose|j: int| 0 <= j < after.len() && after[j] == x;
                            if j == idx {
                                assert(before[before.len() - 1] == x);
                            } else {
                                assert(before[j] == x);
                            }
                        }
                        assert forall|x: usize| before.contains(x) && x != ne implies #[trigger]
                        after.contains(x) by {
                            let j = choose|j: int| 0 <= j < before.len() && before[j] == x;
                            if j == before.len() - 1 {
                                assert(idx != before.len() - 1 ==> after[idx as int] == x);
                            } else {
                                assert(after[j] == x);
                            }
                        }
                        assert forall|a: int, b: int|
                            0 <= a < b < after.len() implies after[a] != after[b] by {
                            let a0 = if a == idx {
                                before.len() - 1
                            } else {
                                a
                            };
                            let b0 = if b == idx {
                                before.len() - 1
                            } else {
                                b
                            };
                            assert(after[a] == before[a0] && after[b] == before[b0]);
                        }
                        assert(before.contains(ne)) by {
                            assert(before[idx as int] == ne);
                        }
                        assert(self.seen() =~= target);
                    }
                },
                None => {
                    draining = false;
                },
            }
        }
    }

    /// Hand the queued local input to the transport for sending, emptying
    /// the outbound queue.
    pub fn take_outbound(&mut self) -> (r: Vec<RMercuryInputWrapper<TGameInput>>)
        ensures
            r@ == old(self).outbound(),
            final(self).outbound() == Seq::<RMercuryInputWrapper<TGameInput>>::empty(),
            final(self).pending() == old(self).pending(),
            final(self).seen() == old(self).seen(),
            final(self).received_through() == old(self).received_through(),
            final(self).confirmed() == old(self).confirmed(),
            final(self).wf() == old(self).wf(),
    {
        let mut sending: Vec<RMercuryInputWrapper<TGameInput>> = Vec::new();
        core::mem::swap(&mut sending, &mut self.local_input_to_send);
        proof {
            lemma_wf_same_horizon(*self, *old(self));
        }
        sending
    }

    /// Get the received remote player's inputs, in arrival order, each handed
    /// out exactly once: an immediate second call with no new arrivals
    /// returns nothing. Queued local input is left alone; only
    /// `take_outbound` hands it to the transport.
    pub fn sync(&mut self) -> (r: Vec<RMercuryInputWrapper<TGameInput>>)
        ensures
            r@ == old(self).pending(),
            final(self).pending() == Seq::<RMercuryInputWrapper<TGameInput>>::empty(),
            final(self).outbound() == old(self).outbound(),
            final(self).seen() == old(self).seen(),
            final(self).received_through() == old(self).received_through(),
            final(self).confirmed() == old(self).confirmed(),
            final(self).wf() == old(self).wf(),
    {
        let mut received: Vec<RMercuryInputWrapper<TGameInput>> = Vec::new();
        core::mem::swap(&mut received, &mut self.pending_remote_input);
        proof {
            lemma_wf_same_horizon(*self, *old(self));
        }
        received
    }
}

/// Two channel states with the same horizon bookkeeping fields agree on
/// well-formedness.
proof fn lemma_wf_same_horizon<TGameInput>(a: RChannel<TGameInput>, b: RChannel<TGameInput>) where
    TGameInput: RMercuryInput + Copy + PartialEq

    requires
        a.waiting_frames@ == b.waiting_frames@,
        a.next_expected_frame == b.next_expected_frame,
    ensures
        a.wf() == b.wf(),
{
    if a.wf() {
        assert forall|i: int| 0 <= i < b.waiting_frames@.len() implies (
        #[trigger] b.waiting_frames@[i]) > b.next_expected_frame && b.waiting_frames@[i]
            < usize::MAX by {
            assert(b.waiting_frames@[i] == a.waiting_frames@[i]);
        }
        assert forall|i: int, j: int|
            0 <= i < j < b.waiting_frames@.len() implies b.waiting_frames@[i]
                != b.waiting_frames@[j] by {
            assert(b.waiting_frames@[i] == a.waiting_frames@[i]);
            assert(b.waiting_frames@[j] == a.waiting_frames@[j]);
        }
        assert(b.wf());
    }
    if b.wf() {
        assert forall|i: int| 0 <= i < a.waiting_frames@.len() implies (
        #[trigger] a.waiting_frames@[i]) > a.next_expected_frame && a.waiting_frames@[i]
            < usize::MAX by {
            assert(b.waiting_frames@[i] == a.waiting_frames@[i]);
        }
        assert forall|i: int, j: int|
            0 <= i < j < a.waiting_frames@.len() implies a.waiting_frames@[i]
                != a.waiting_frames@[j] by {
            assert(b.waiting_frames@[i] == a.waiting_frames@[i]);
            assert(b.waiting_frames@[j] == a.waiting_frames@[j]);
        }
        assert(a.wf());
    }
}

/// The confirmed horizon is honest: input for every frame below the gapless
/// point has been received, the frame at the point has not been, and the
/// horizon trails the point by one. A gapped delivery therefore cannot
/// over-confirm.
pub proof fn lemma_confirmed_horizon_honest<TGameInput>(channel: RChannel<TGameInput>) where
    TGameInput: RMercuryInput + Copy + PartialEq

    requires
        channel.wf(),
    ensures
        forall|f: int| 0 <= f < channel.received_through() ==> channel.seen().contains(f),
        !channel.seen().contains(channel.received_through()),
        channel.confirmed() == (if channel.received_through() == 0 {
            0int
        } else {
            channel.received_through() - 1
        }),
{
    assert(!channel.seen().contains(channel.received_through())) by {
        if channel.seen().contains(channel.received_through()) {
            let ne = channel.received_through();
            assert(channel.waiting_frames@.contains(ne as usize));
            let j = choose|j: int|
                0 <= j < channel.waiting_frames@.len() && channel.waiting_frames@[j] == ne as usize;
            assert(channel.waiting_frames@[j] > ne);
        }
    }
}

/// Whether the vector holds the given frame.
fn contains_frame(frames: &Vec<usize>, frame: usize) -> (r: bool)
    ensures
        r == frames@.contains(frame),
{
    let n: usize = frames.len();
    let mut i: usize = 0;
    while i < n
        invariant
            n == frames@.len(),
            i <= n,
            forall|k: int| 0 <= k < i ==> frames@[k] != frame,
        decreases n - i,
    {
        if frames[i] == frame {
            proof {
                assert(frames@.contains(frame)) by {
                    assert(frames@[i as int] == frame);
                }
            }
            return true;
        }
        i = i + 1;
    }
    false
}

/// The position of the given frame in the vector, if it is there.
fn find_frame(frames: &Vec<usize>, frame: usize) -> (r: Option<usize>)
    ensures
        r is Some ==> r.unwrap() < frames@.len() && frames@[r.unwrap() as int] == frame,
        r is None ==> !frames@.contains(frame),
{
    let n: usize = frames.len();
    let mut i: usize = 0;
    while i < n
        invariant
            n == frames@.len(),
            i <= n,
            forall|k: int| 0 <= k < i ==> frames@[k] != frame,
        decreases n - i,
    {
        if frames[i] == frame {
            return Some(i);
        }
        i = i + 1;
    }
    None
}

/// The remote input every channel holds pending, in channel order.
pub open spec fn all_pending<TGameInput>(channels: Seq<RChannel<TGameInput>>) -> Seq<
    RMercuryInputWrapper<TGameInput>,
> where TGameInput: RMercuryInput + Copy + PartialEq
    decreases channels.len(),
{
    if channels.len() == 0 {
        Seq::empty()
    } else {
        all_pending(channels.drop_last()) + channels.last().pending()
    }
}

/// The lowest confirmed-frame horizon across the given channels, starting
/// from the local watermark: the classic distributed watermark.
pub open spec fn lowest_confirmed<TGameInput>(
    channels: Seq<RChannel<TGameInput>>,
    acc: int,
) -> int where TGameInput: RMercuryInput + Copy + PartialEq
    decreases channels.len(),
{
    if channels.len() == 0 {
        acc
    } else {
        let rest = lowest_confirmed(channels.drop_last(), acc);
        if channels.last().confirmed() <= rest {
            channels.last().confirmed()
        } else {
            rest
        }
    }
}

/// Channel sequences whose horizons agree pointwise share their lowest
/// confirmed frame.
pub proof fn lemma_lowest_confirmed_pointwise<TGameInput>(
    a: Seq<RChannel<TGameInput>>,
    b: Seq<RChannel<TGameInput>>,
    acc: int,
) where TGameInput: RMercuryInput + Copy + PartialEq
    requires
        a.len() == b.len(),
        forall|k: int| 0 <= k < a.len() ==> (#[trigger] a[k]).confirmed() == b[k].confirmed(),
    ensures
        lowest_confirmed(a, acc) == lowest_confirmed(b, acc),
    decreases a.len(),
{
    if a.len() > 0 {
        assert forall|k: int| 0 <= k < a.drop_last().len() implies (#[trigger] a.drop_last()[
            k
        ]).confirmed() == b.drop_last()[k].confirmed() by {
            assert(a.drop_last()[k] == a[k]);
            assert(b.drop_last()[k] == b[k]);
        }
        lemma_lowest_confirmed_pointwise(a.drop_last(), b.drop_last(), acc);
        assert(a.last() == a[a.len() - 1]);
        assert(b.last() == b[b.len() - 1]);
    }
}

/// Aggregates all channels, computes the network-wide last-confirmed frame,
/// and merges remote input into the local stream.
pub struct RChannelManager<TGameInput> where
    TGameInput: RMercuryInput,
    TGameInput: Copy,
    TGameInput: PartialEq,
 {
    last_confirmed_local_input_frame: usize,
    channels: Vec<RChannel<TGameInput>>,
}

impl<TGameInput> RChannelManager<TGameInput> where
    TGameInput: RMercuryInput,
    TGameInput: Copy,
    TGameInput: PartialEq,
 {
    /// The highest local frame for which input has been queued.
    pub closed spec fn local_watermark(self) -> int {
        self.last_confirmed_local_input_frame as int
    }

    /// The channels to the remote peers.
    pub closed spec fn channels_seq(self) -> Seq<RChannel<TGameInput>> {
        self.channels@
    }

    pub fn new() -> (r: Self)
        ensures
            r.local_watermark() == 0,
            r.channels_seq() == Seq::<RChannel<TGameInput>>::empty(),
    {
        Self { channels: Vec::new(), last_confirmed_local_input_frame: 0 }
    }

    /// Connect one more peer channel to the session.
    pub fn add_channel(&mut self, channel: RChannel<TGameInput>)
        ensures
            final(self).channels_seq() == old(self).channels_seq().push(channel),
            final(self).local_watermark() == old(self).local_watermark(),
    {
        self.channels.push(channel);
    }

    /// Hand remote input received from the transport to one channel.
    pub fn receive_remote_input(
        &mut self,
        channel_index: usize,
        inputs: &Vec<RMercuryInputWrapper<TGameInput>>,
    )
        requires
            channel_index < old(self).channels_seq().len(),
            old(self).channels_seq()[channel_index as int].wf(),
            forall|i: int| 0 <= i < inputs@.len() ==> (#[trigger] inputs@[i]).frame < usize::MAX,
        ensures
            final(self).local_watermark() == old(self).local_watermark(),
            final(self).channels_seq().len() == old(self).channels_seq().len(),
            forall|k: int|
                0 <= k < old(self).channels_seq().len() && k != channel_index ==> final(self).channels_seq()[k] == old(self).channels_seq()[k],
            final(self).channels_seq()[channel_index as int].wf(),
            final(self).channels_seq()[channel_index as int].pending() == old(self).channels_seq()[channel_index as int].pending() + inputs@,
            final(self).channels_seq()[channel_index as int].outbound() == old(self).channels_seq()[channel_index as int].outbound(),
            final(self).channels_seq()[channel_index as int].seen() == old(self).channels_seq()[channel_index as int].seen().union(frames_of(inputs@)),
            final(self).channels_seq()[channel_index as int].received_through() >= old(self).channels_seq()[channel_index as int].received_through(),
            final(self).channels_seq()[channel_index as int].confirmed() >= old(self).channels_seq()[channel_index as int].confirmed(),
    {
        let channel = &mut self.channels[channel_index];
        channel.receive_remote_input(inputs);
    }

    /// Hand one channel's queued local input to the transport for sending.
    pub fn take_outbound(&mut self, channel_index: usize) -> (r: Vec<
        RMercuryInputWrapper<TGameInput>,
    >)
        requires
            channel_index < old(self).channels_seq().len(),
        ensures
            r@ == old(self).channels_seq()[channel_index as int].outbound(),
            final(self).local_watermark() == old(self).local_watermark(),
            final(self).channels_seq().len() == old(self).channels_seq().len(),
            forall|k: int|
                0 <= k < old(self).channels_seq().len() && k != channel_index ==> final(self).channels_seq()[k] == old(self).channels_seq()[k],
            final(self).channels_seq()[channel_index as int].outbound() == Seq::<
                RMercuryInputWrapper<TGameInput>,
            >::empty(),
            final(self).channels_seq()[channel_index as int].pending() == old(self).channels_seq()[channel_index as int].pending(),
            final(self).channels_seq()[channel_index as int].confirmed() == old(self).channels_seq()[channel_index as int].confirmed(),
    {
        let channel = &mut self.channels[channel_index];
        channel.take_outbound()
    }

    /// Retrieve the last frame that is confirmed for all participants: the
    /// minimum of the local watermark and every channel's own horizon.
    pub fn last_confirmed_frame(&self) -> (r: usize)
        ensures
            r == lowest_confirmed(self.channels_seq(), self.local_watermark()),
    {
        let mut last_confirmed_frame: usize = self.last_confirmed_local_input_frame;
        let n: usize = self.channels.len();
        let mut i: usize = 0;
        while i < n
            invariant
                n == self.channels@.len(),
                i <= n,
                last_confirmed_frame as int == lowest_confirmed(
                    self.channels@.take(i as int),
                    self.local_watermark(),
                ),
            decreases n - i,
        {
            let channel_last_confirmed_frame = self.channels[i].last_confirmed_frame();
            if channel_last_confirmed_frame <= last_confirmed_frame {
                last_confirmed_frame = channel_last_confirmed_frame;
            }
            proof {
                assert(self.channels@.take(i + 1).drop_last() =~= self.channels@.take(i as int));
                assert(self.channels@.take(i + 1).last() == self.channels@[i as int]);
            }
            i = i + 1;
        }
        proof {
            assert(self.channels@.take(n as int) =~= self.channels@);
        }
        last_confirmed_frame
    }

    /// Queue the local inputs to send over the network. The local watermark
    /// advances to the highest frame queued, and every channel gets the batch
    /// for transmission.
    pub fn queue_local_input(&mut self, inputs: &Vec<RMercuryInputWrapper<TGameInput>>)
        ensures
            final(self).local_watermark() == highest_frame(inputs@, old(self).local_watermark()),
            final(self).channels_seq().len() == old(self).channels_seq().len(),
            forall|k: int|
                0 <= k < old(self).channels_seq().len() ==> (#[trigger] final(self).channels_seq()[k]).outbound() == old(self).channels_seq()[k].outbound() + inputs@
                    && final(self).channels_seq()[k].pending() == old(self).channels_seq()[k].pending() && final(self).channels_seq()[k].confirmed() == old(self).channels_seq()[k].confirmed(),
    {
        let n: usize = inputs.len();
        let mut i: usize = 0;
        while i < n
            invariant
                n == inputs@.len(),
                i <= n,
                self.last_confirmed_local_input_frame as int == highest_frame(
                    inputs@.take(i as int),
                    old(self).local_watermark(),
                ),
                self.channels@ == old(self).channels@,
            decreases n - i,
        {
            let w = inputs[i];
            if w.frame >= self.last_confirmed_local_input_frame {
                self.last_confirmed_local_input_frame = w.frame;
            }
            proof {
                assert(inputs@.take(i + 1).drop_last() =~= inputs@.take(i as int));
                assert(inputs@.take(i + 1).last() == inputs@[i as int]);
            }
            i = i + 1;
        }
        proof {
            assert(inputs@.take(n as int) =~= inputs@);
        }

        let m: usize = self.channels.len();
        let mut k: usize = 0;
        while k < m
            invariant
                m == self.channels@.len(),
                k <= m,
                self.channels@.len() == old(self).channels@.len(),
                self.last_confirmed_local_input_frame as int == highest_frame(
                    inputs@,
                    old(self).local_watermark(),
                ),
                forall|j: int|
                    0 <= j < k ==> (#[trigger] self.channels@[j]).outbound() == old(self).channels@[j].outbound() + inputs@ && self.channels@[j].pending() == old(self).channels@[j].pending() && self.channels@[j].confirmed() == old(self).channels@[j].confirmed(),
                forall|j: int|
                    k <= j < m ==> (#[trigger] self.channels@[j]) == old(self).channels@[j],
            decreases m - k,
        {
            let channel = &mut self.channels[k];
            channel.queue_local_input(inputs);
            k = k + 1;
        }
    }

    /// Sync up all inputs, draining every channel's received remote input in
    /// channel order. Channels that received nothing contribute no input:
    /// absence of remote data is not evidence of misprediction. Queued local
    /// input stays put for the transport to take.
    pub fn execute(&mut self) -> (r: Vec<RMercuryInputWrapper<TGameInput>>)
        ensures
            r@ == all_pending(old(self).channels_seq()),
            final(self).local_watermark() == old(self).local_watermark(),
            final(self).channels_seq().len() == old(self).channels_seq().len(),
            forall|k: int|
                0 <= k < old(self).channels_seq().len() ==> (#[trigger] final(self).channels_seq()[k]).pending() == Seq::<RMercuryInputWrapper<TGameInput>>::empty()
                    && final(self).channels_seq()[k].outbound() == old(self).channels_seq()[k].outbound()
                    && final(self).channels_seq()[k].confirmed() == old(self).channels_seq()[k].confirmed()
                    && final(self).channels_seq()[k].seen() == old(self).channels_seq()[k].seen()
                    && final(self).channels_seq()[k].wf() == old(self).channels_seq()[k].wf(),
    {
        let mut inputs: Vec<RMercuryInputWrapper<TGameInput>> = Vec::new();

        let m: usize = self.channels.len();
        let mut k: usize = 0;
        while k < m
            invariant
                m == self.channels@.len(),
                k <= m,
                self.channels@.len() == old(self).channels@.len(),
                self.last_confirmed_local_input_frame == old(self).last_confirmed_local_input_frame,
                inputs@ == all_pending(old(self).channels@.take(k as int)),
                forall|j: int|
                    0 <= j < k ==> (#[trigger] self.channels@[j]).pending() == Seq::<
                        RMercuryInputWrapper<TGameInput>,
                    >::empty() && self.channels@[j].outbound() == old(self).channels@[j].outbound()
                        && self.channels@[j].confirmed() == old(self).channels@[j].confirmed()
                        && self.channels@[j].seen() == old(self).channels@[j].seen()
                        && self.channels@[j].wf() == old(self).channels@[j].wf(),
                forall|j: int|
                    k <= j < m ==> (#[trigger] self.channels@[j]) == old(self).channels@[j],
            decreases m - k,
        {
            let channel = &mut self.channels[k];
            let mut remote_inputs = channel.sync();
            inputs.append(&mut remote_inputs);
            proof {
                assert(old(self).channels@.take(k + 1).drop_last() =~= old(self).channels@.take(
                    k as int,
                ));
                assert(old(self).channels@.take(k + 1).last() == old(self).channels@[k as int]);
            }
            k = k + 1;
        }
        proof {
            assert(old(self).channels@.take(m as int) =~= old(self).channels@);
        }
        inputs
    }
}

} // verus!

use crate::clock;
use crate::rmercury_channel::{all_pending, highest_frame, lemma_lowest_confirmed_pointwise, lowest_confirmed, RChannelManager};
use crate::rmercury_game_interface::RMercuryGameInterface;
use crate::rmercury_input::{RMercuryInput, RMercuryInputWrapper};
use vstd::prelude::*;

verus! {

/// Milliseconds in one second, for converting a tick rate to a tick duration.
pub const MILLISECONDS_IN_SECOND: u64 = 1000;

/// The various states a session can be run in.
#[derive(Copy, Clone, Debug, PartialEq)]
pub enum MercuryType {
    /// Start a new Peer 2 Peer session
    Peer2Peer,
    /// Start spectating a game in progress
    Spectator,
    /// Start a session where each frame is rolled back and resimulated, to
    /// check that no non-deterministic behavior was introduced.
    SyncTest,
    /// Start a replay of a previous match
    Replay,
    /// Start a session where packet loss is simulated to extremes.
    PacketLoss,
}

/// Enumeration for the results from the execute method.
#[derive(Copy, Clone, Debug, PartialEq)]
pub enum RMercuryExecutionResults {
    NotExecuted,
    Executed,
}

/// Frames never increase along the timeline.
pub open spec fn sorted_desc<TGameInput>(s: Seq<RMercuryInputWrapper<TGameInput>>) -> bool where
    TGameInput: RMercuryInput + Copy + PartialEq
 {
    forall|i: int, j: int| 0 <= i < j < s.len() ==> s[i].frame >= s[j].frame
}

/// No two timeline entries share a (frame, player) key.
pub open spec fn unique_keys<TGameInput>(s: Seq<RMercuryInputWrapper<TGameInput>>) -> bool where
    TGameInput: RMercuryInput + Copy + PartialEq
 {
    forall|i: int, j: int|
        0 <= i < j < s.len() ==> !(s[i].frame == s[j].frame && s[i].input.player_id()
            == s[j].input.player_id())
}

/// Whether an entry with the given (frame, player) key is on the timeline.
pub open spec fn key_present<TGameInput>(
    s: Seq<RMercuryInputWrapper<TGameInput>>,
    frame: int,
    player: int,
) -> bool where TGameInput: RMercuryInput + Copy + PartialEq {
    exists|i: int| 0 <= i < s.len() && s[i].frame == frame && s[i].input.player_id() == player
}

/// Whether any entry carries a frame before the given one; a remote input for
/// an already-simulated frame is what makes a rollback necessary.
pub open spec fn has_frame_before<TGameInput>(
    s: Seq<RMercuryInputWrapper<TGameInput>>,
    frame: int,
) -> bool where TGameInput: RMercuryInput + Copy + PartialEq {
    exists|i: int| 0 <= i < s.len() && s[i].frame < frame
}

/// A timeline entry comes before the key (frame, player) in canonical order:
/// frames descending, and within one frame players ascending.
pub open spec fn precedes<TGameInput>(
    e: RMercuryInputWrapper<TGameInput>,
    frame: int,
    player: int,
) -> bool where TGameInput: RMercuryInput + Copy + PartialEq {
    e.frame > frame || (e.frame == frame && e.input.player_id() < player)
}

/// Canonical timeline order: every earlier entry precedes every later one, so
/// frames descend and, within one frame, player ids ascend. This implies both
/// `sorted_desc` and `unique_keys`.
pub open spec fn canonical<TGameInput>(s: Seq<RMercuryInputWrapper<TGameInput>>) -> bool where
    TGameInput: RMercuryInput + Copy + PartialEq
 {
    forall|i: int, j: int|
        0 <= i < j < s.len() ==> precedes(s[i], s[j].frame as int, s[j].input.player_id())
}

/// A canonical timeline is frame-sorted and holds each key at most once.
pub proof fn lemma_canonical_orders<TGameInput>(s: Seq<RMercuryInputWrapper<TGameInput>>) where
    TGameInput: RMercuryInput + Copy + PartialEq

    requires
        canonical(s),
    ensures
        sorted_desc(s),
        unique_keys(s),
{
    assert forall|i: int, j: int| 0 <= i < j < s.len() implies s[i].frame >= s[j].frame by {
        assert(precedes(s[i], s[j].frame as int, s[j].input.player_id()));
    }
    assert forall|i: int, j: int| 0 <= i < j < s.len() implies !(s[i].frame == s[j].frame
        && s[i].input.player_id() == s[j].input.player_id()) by {
        assert(precedes(s[i], s[j].frame as int, s[j].input.player_id()));
    }
}

/// How many timeline entries come before the key (frame, player) in
/// canonical order; on a canonical timeline this is the key's insertion
/// position.
pub open spec fn count_preceding<TGameInput>(
    s: Seq<RMercuryInputWrapper<TGameInput>>,
    frame: int,
    player: int,
) -> int where TGameInput: RMercuryInput + Copy + PartialEq
    decreases s.len(),
{
    if s.len() == 0 {
        0
    } else {
        count_preceding(s.drop_last(), frame, player) + if precedes(s.last(), frame, player) {
            1int
        } else {
            0
        }
    }
}

/// One input merged into a canonical timeline: dropped when its (frame,
/// player) key is already present, else inserted at its canonical position.
pub open spec fn insert_merged<TGameInput>(
    s: Seq<RMercuryInputWrapper<TGameInput>>,
    w: RMercuryInputWrapper<TGameInput>,
) -> Seq<RMercuryInputWrapper<TGameInput>> where TGameInput: RMercuryInput + Copy + PartialEq {
    if key_present(s, w.frame as int, w.input.player_id()) {
        s
    } else {
        s.insert(count_preceding(s, w.frame as int, w.input.player_id()), w)
    }
}

/// A batch merged into a canonical timeline, first element first. The merge
/// is a function of the timeline and the batch alone: re-running it over the
/// same input yields the same timeline.
pub open spec fn merge_timeline<TGameInput>(
    s: Seq<RMercuryInputWrapper<TGameInput>>,
    batch: Seq<RMercuryInputWrapper<TGameInput>>,
) -> Seq<RMercuryInputWrapper<TGameInput>> where TGameInput: RMercuryInput + Copy + PartialEq
    decreases batch.len(),
{
    if batch.len() == 0 {
        s
    } else {
        insert_merged(merge_timeline(s, batch.drop_last()), batch.last())
    }
}

/// Every count of preceding entries lies within the timeline.
proof fn lemma_count_preceding_bounds<TGameInput>(
    s: Seq<RMercuryInputWrapper<TGameInput>>,
    frame: int,
    player: int,
) where TGameInput: RMercuryInput + Copy + PartialEq
    ensures
        0 <= count_preceding(s, frame, player) <= s.len(),
    decreases s.len(),
{
    if s.len() > 0 {
        lemma_count_preceding_bounds(s.drop_last(), frame, player);
    }
}

/// A key whose canonical place comes earlier is preceded by no more entries
/// than a key whose place comes later.
proof fn lemma_count_preceding_monotone<TGameInput>(
    s: Seq<RMercuryInputWrapper<TGameInput>>,
    f1: int,
    p1: int,
    f2: int,
    p2: int,
) where TGameInput: RMercuryInput + Copy + PartialEq
    requires
        f1 > f2 || (f1 == f2 && p1 < p2),
    ensures
        count_preceding(s, f1, p1) <= count_preceding(s, f2, p2),
    decreases s.len(),
{
    if s.len() > 0 {
        lemma_count_preceding_monotone(s.drop_last(), f1, p1, f2, p2);
    }
}

/// Whether a key is present, and how many entries precede another key, shift
/// in the obvious way under one insertion.
proof fn lemma_insert_effects<TGameInput>(
    s: Seq<RMercuryInputWrapper<TGameInput>>,
    w: RMercuryInputWrapper<TGameInput>,
    at: int,
    frame: int,
    player: int,
) where TGameInput: RMercuryInput + Copy + PartialEq
    requires
        0 <= at <= s.len(),
    ensures
        key_present(s.insert(at, w), frame, player) == (key_present(s, frame, player) || (
        w.frame == frame && w.input.player_id() == player)),
        count_preceding(s.insert(at, w), frame, player) == count_preceding(s, frame, player) + (
        if precedes(w, frame, player) {
            1int
        } else {
            0
        }),
    decreases s.len(),
{
    let t = s.insert(at, w);
    assert forall|x: int| 0 <= x < t.len() implies t[x] == (if x < at {
        s[x]
    } else if x == at {
        w
    } else {
        s[x - 1]
    }) by {}

    if key_present(s, frame, player) {
        let x = choose|x: int|
            0 <= x < s.len() && s[x].frame == frame && s[x].input.player_id() == player;
        if x < at {
            assert(t[x] == s[x]);
        } else {
            assert(t[x + 1] == s[x]);
        }
        assert(key_present(t, frame, player));
    }
    if w.frame == frame && w.input.player_id() == player {
        assert(t[at] == w);
        assert(key_present(t, frame, player));
    }
    if key_present(t, frame, player) {
        let x = choose|x: int|
            0 <= x < t.len() && t[x].frame == frame && t[x].input.player_id() == player;
        if x != at {
            assert(key_present(s, frame, player));
        }
    }

    if at == s.len() {
        assert(t.drop_last() =~= s);
        assert(t.last() == w);
    } else {
        assert(t.drop_last() =~= s.drop_last().insert(at, w));
        assert(t.last() == s.last());
        lemma_insert_effects(s.drop_last(), w, at, frame, player);
        assert(s.drop_last().len() == s.len() - 1);
    }
}

/// Two insertions at ordered positions can be done in either order.
proof fn lemma_insert_insert_commute<TGameInput>(
    s: Seq<RMercuryInputWrapper<TGameInput>>,
    x: RMercuryInputWrapper<TGameInput>,
    y: RMercuryInputWrapper<TGameInput>,
    i: int,
    j: int,
) where TGameInput: RMercuryInput + Copy + PartialEq
    requires
        0 <= i <= j <= s.len(),
    ensures
        s.insert(i, x).insert(j + 1, y) == s.insert(j, y).insert(i, x),
{
    let lhs = s.insert(i, x).insert(j + 1, y);
    let rhs = s.insert(j, y).insert(i, x);
    assert forall|k: int| 0 <= k < lhs.len() implies lhs[k] == rhs[k] by {
        if k < i {
            assert(lhs[k] == s[k] && rhs[k] == s[k]);
        } else if k == i {
            assert(lhs[k] == x && rhs[k] == x);
        } else if k <= j {
            assert(lhs[k] == s[k - 1] && rhs[k] == s[k - 1]);
        } else if k == j + 1 {
            assert(lhs[k] == y && rhs[k] == y);
        } else {
            assert(lhs[k] == s[k - 2] && rhs[k] == s[k - 2]);
        }
    }
    assert(lhs =~= rhs);
}

/// Merging two inputs with different keys into a canonical timeline gives
/// the same timeline in either order: up to duplicate keys, the merged
/// timeline does not depend on the arrival order of the inputs.
pub proof fn lemma_merge_order_insensitive<TGameInput>(
    s: Seq<RMercuryInputWrapper<TGameInput>>,
    a: RMercuryInputWrapper<TGameInput>,
    b: RMercuryInputWrapper<TGameInput>,
) where TGameInput: RMercuryInput + Copy + PartialEq
    requires
        !(a.frame == b.frame && a.input.player_id() == b.input.player_id()),
    ensures
        insert_merged(insert_merged(s, a), b) == insert_merged(insert_merged(s, b), a),
{
    let fa = a.frame as int;
    let pa = a.input.player_id();
    let fb = b.frame as int;
    let pb = b.input.player_id();
    let ca = count_preceding(s, fa, pa);
    let cb = count_preceding(s, fb, pb);
    lemma_count_preceding_bounds(s, fa, pa);
    lemma_count_preceding_bounds(s, fb, pb);

    if key_present(s, fa, pa) && key_present(s, fb, pb) {
    } else if key_present(s, fa, pa) {
        lemma_insert_effects(s, b, cb, fa, pa);
    } else if key_present(s, fb, pb) {
        lemma_insert_effects(s, a, ca, fb, pb);
    } else {
        lemma_insert_effects(s, a, ca, fb, pb);
        lemma_insert_effects(s, b, cb, fa, pa);
        if fa > fb || (fa == fb && pa < pb) {
            lemma_count_preceding_monotone(s, fa, pa, fb, pb);
            assert(precedes(a, fb, pb));
            assert(!precedes(b, fa, pa));
            lemma_insert_insert_commute(s, a, b, ca, cb);
        } else {
            lemma_count_preceding_monotone(s, fb, pb, fa, pa);
            assert(precedes(b, fa, pa));
            assert(!precedes(a, fb, pb));
            lemma_insert_insert_commute(s, b, a, cb, ca);
        }
    }
}

/// The entries that come before a key in canonical order form a prefix of a
/// canonical timeline, and their number is the key's insertion position.
proof fn lemma_count_preceding_split<TGameInput>(
    s: Seq<RMercuryInputWrapper<TGameInput>>,
    frame: int,
    player: int,
    pos: int,
) where TGameInput: RMercuryInput + Copy + PartialEq
    requires
        0 <= pos <= s.len(),
        forall|k: int| 0 <= k < pos ==> precedes(#[trigger] s[k], frame, player),
        forall|k: int| pos <= k < s.len() ==> !precedes(#[trigger] s[k], frame, player),
    ensures
        count_preceding(s, frame, player) == pos,
    decreases s.len(),
{
    if s.len() > 0 {
        assert(s.last() == s[s.len() - 1]);
        if pos == s.len() {
            assert forall|k: int| 0 <= k < pos - 1 implies precedes(
                #[trigger] s.drop_last()[k],
                frame,
                player,
            ) by {
                assert(s.drop_last()[k] == s[k]);
            }
            lemma_count_preceding_split(s.drop_last(), frame, player, pos - 1);
        } else {
            assert forall|k: int| 0 <= k < s.drop_last().len() implies s.drop_last()[k] == s[k] by {}
            lemma_count_preceding_split(s.drop_last(), frame, player, pos);
        }
    }
}

/// The raw inputs recorded for one frame, in timeline order.
pub open spec fn inputs_for_frame<TGameInput>(
    s: Seq<RMercuryInputWrapper<TGameInput>>,
    frame: int,
) -> Seq<TGameInput> where TGameInput: RMercuryInput + Copy + PartialEq
    decreases s.len(),
{
    if s.len() == 0 {
        Seq::empty()
    } else {
        let rest = inputs_for_frame(s.drop_last(), frame);
        if s.last().frame == frame {
            rest.push(s.last().input)
        } else {
            rest
        }
    }
}

/// Session object: the frame clock and rollback decision-maker. This is the
/// interface that your main loop must use.
pub struct RMercury<TGameInterface, TGameInput, TGameState> where
    TGameInterface: RMercuryGameInterface<TGameState, TGameInput>,
    TGameState: Copy,
    TGameInput: RMercuryInput,
    TGameInput: Copy,
    TGameInput: PartialEq,
 {
    pub m_type: MercuryType,
    number_of_players: usize,
    max_spectators: usize,
    sim_executions_per_second: usize,
    local_input_frame_delay: usize,
    game_interface: TGameInterface,
    current_frame: usize,
    inputs: Vec<RMercuryInputWrapper<TGameInput>>,
    last_confirmed_game_state: TGameState,
    last_confirmed_frame: usize,
    frame_duration_ms: u64,
    last_frame_execution: time::Instant,
    rollback_required: bool,
    channel_manager: RChannelManager<TGameInput>,
}

impl<TGameInterface, TGameInput, TGameState> RMercury<TGameInterface, TGameInput, TGameState> where
    TGameInterface: RMercuryGameInterface<TGameState, TGameInput>,
    TGameInput: RMercuryInput,
    TGameInput: Copy,
    TGameInput: PartialEq,
    TGameState: Copy,
 {
    /// The session type this session was built as.
    pub closed spec fn m_type_spec(self) -> MercuryType {
        self.m_type
    }

    /// The authoritative frame counter.
    pub closed spec fn current_frame_spec(self) -> int {
        self.current_frame as int
    }

    /// The frame up to which the loaded snapshot is authoritative.
    pub closed spec fn last_confirmed_spec(self) -> int {
        self.last_confirmed_frame as int
    }

    /// The configured tick duration in milliseconds.
    pub closed spec fn frame_duration_spec(self) -> int {
        self.frame_duration_ms as int
    }

    /// The configured local input frame delay.
    pub closed spec fn delay_spec(self) -> int {
        self.local_input_frame_delay as int
    }

    /// The configured number of players.
    pub closed spec fn players_spec(self) -> int {
        self.number_of_players as int
    }

    /// The configured number of spectators.
    pub closed spec fn spectators_spec(self) -> int {
        self.max_spectators as int
    }

    /// The configured simulation rate in executions per second.
    pub closed spec fn hz_spec(self) -> int {
        self.sim_executions_per_second as int
    }

    /// The pending timeline of timestamped inputs not yet discarded.
    pub closed spec fn inputs_seq(self) -> Seq<RMercuryInputWrapper<TGameInput>> {
        self.inputs@
    }

    /// The channel manager aggregating all peer channels.
    pub closed spec fn manager(self) -> RChannelManager<TGameInput> {
        self.channel_manager
    }

    /// The host's game interface.
    pub closed spec fn interface_spec(self) -> TGameInterface {
        self.game_interface
    }

    /// The last confirmed snapshot held for rollback.
    pub closed spec fn saved_state_spec(self) -> TGameState {
        self.last_confirmed_game_state
    }

    /// Whether a correction has arrived for an already-simulated frame and
    /// the rollback it demands has not been performed yet. The obligation is
    /// kept across not-executed ticks until an executed tick honors it.
    pub closed spec fn rollback_pending_spec(self) -> bool {
        self.rollback_required
    }

    /// Initialize a new session. The simulation rate must be positive, or no
    /// tick duration exists.
    pub fn new(
        m_type: MercuryType,
        num_players: usize,
        max_spectators: usize,
        sim_executions_per_second: usize,
        local_input_frame_delay: usize,
        game_interface: TGameInterface,
    ) -> (r: Self)
        requires
            sim_executions_per_second > 0,
        ensures
            r.m_type_spec() == m_type,
            r.players_spec() == num_players,
            r.spectators_spec() == max_spectators,
            r.hz_spec() == sim_executions_per_second,
            r.delay_spec() == local_input_frame_delay,
            r.current_frame_spec() == 0,
            r.last_confirmed_spec() == 0,
            r.frame_duration_spec() == MILLISECONDS_IN_SECOND as int / sim_executions_per_second as int,
            r.inputs_seq() == Seq::<RMercuryInputWrapper<TGameInput>>::empty(),
            r.manager().local_watermark() == 0,
            r.manager().channels_seq().len() == 0,
            r.interface_spec() == game_interface,
            !r.rollback_pending_spec(),
    {
        let initial_game_state = game_interface.current_game_state();

        let frame_duration_ms: u64 = MILLISECONDS_IN_SECOND / (sim_executions_per_second as u64);

        let start = clock::instant_now();

        Self {
            m_type,
            number_of_players: num_players,
            max_spectators,
            sim_executions_per_second,
            local_input_frame_delay,
            game_interface,
            inputs: Vec::new(),
            current_frame: 0,
            last_confirmed_frame: 0,
            last_confirmed_game_state: initial_game_state,
            frame_duration_ms,
            last_frame_execution: start,
            rollback_required: false,
            channel_manager: RChannelManager::new(),
        }
    }

    /// The id under which local input is recorded.
    pub fn get_local_player_id(&self) -> (r: usize)
        ensures
            r == 1,
    {
        1
    }

    /// Get a mutable reference to the game interface.
    pub fn get_game_interface_mut(&mut self) -> (r: &mut TGameInterface)
        ensures
            *r == old(self).interface_spec(),
            final(self).interface_spec() == *final(r),
            final(self).m_type_spec() == old(self).m_type_spec(),
            final(self).current_frame_spec() == old(self).current_frame_spec(),
            final(self).last_confirmed_spec() == old(self).last_confirmed_spec(),
            final(self).frame_duration_spec() == old(self).frame_duration_spec(),
            final(self).delay_spec() == old(self).delay_spec(),
            final(self).inputs_seq() == old(self).inputs_seq(),
            final(self).manager() == old(self).manager(),
    {
        &mut self.game_interface
    }

    /// Get a non-mutable reference to the game interface.
    pub fn get_game_interface(&self) -> (r: &TGameInterface)
        ensures
            *r == self.interface_spec(),
    {
        &self.game_interface
    }

    /// Connect one more peer channel to the session.
    pub fn add_channel(&mut self, channel: crate::rmercury_channel::RChannel<TGameInput>)
        ensures
            final(self).manager().channels_seq() == old(self).manager().channels_seq().push(
                channel,
            ),
            final(self).manager().local_watermark() == old(self).manager().local_watermark(),
            final(self).current_frame_spec() == old(self).current_frame_spec(),
            final(self).last_confirmed_spec() == old(self).last_confirmed_spec(),
            final(self).frame_duration_spec() == old(self).frame_duration_spec(),
            final(self).delay_spec() == old(self).delay_spec(),
            final(self).inputs_seq() == old(self).inputs_seq(),
            final(self).interface_spec() == old(self).interface_spec(),
            final(self).rollback_pending_spec() == old(self).rollback_pending_spec(),
    {
        self.channel_manager.add_channel(channel);
    }

    /// Hand remote input received from the transport to one peer channel.
    pub fn receive_remote_input(
        &mut self,
        channel_index: usize,
        inputs: &Vec<RMercuryInputWrapper<TGameInput>>,
    )
        requires
            channel_index < old(self).manager().channels_seq().len(),
            old(self).manager().channels_seq()[channel_index as int].wf(),
            forall|i: int| 0 <= i < inputs@.len() ==> (#[trigger] inputs@[i]).frame < usize::MAX,
        ensures
            final(self).manager().local_watermark() == old(self).manager().local_watermark(),
            final(self).manager().channels_seq().len() == old(self).manager().channels_seq().len(),
            forall|k: int|
                0 <= k < old(self).manager().channels_seq().len() && k != channel_index ==> final(self).manager().channels_seq()[k] == old(self).manager().channels_seq()[k],
            final(self).manager().channels_seq()[channel_index as int].wf(),
            final(self).manager().channels_seq()[channel_index as int].pending() == old(self).manager().channels_seq()[channel_index as int].pending() + inputs@,
            final(self).manager().channels_seq()[channel_index as int].outbound() == old(self).manager().channels_seq()[channel_index as int].outbound(),
            final(self).manager().channels_seq()[channel_index as int].seen() == old(self).manager().channels_seq()[channel_index as int].seen().union(
                crate::rmercury_channel::frames_of(inputs@),
            ),
            final(self).manager().channels_seq()[channel_index as int].confirmed() >= old(self).manager().channels_seq()[channel_index as int].confirmed(),
            final(self).current_frame_spec() == old(self).current_frame_spec(),
            final(self).inputs_seq() == old(self).inputs_seq(),
            final(self).interface_spec() == old(self).interface_spec(),
            final(self).rollback_pending_spec() == old(self).rollback_pending_spec(),
    {
        self.channel_manager.receive_remote_input(channel_index, inputs);
    }

    /// Hand one peer channel's queued local input to the transport for
    /// sending.
    pub fn take_outbound(&mut self, channel_index: usize) -> (r: Vec<
        RMercuryInputWrapper<TGameInput>,
    >)
        requires
            channel_index < old(self).manager().channels_seq().len(),
        ensures
            r@ == old(self).manager().channels_seq()[channel_index as int].outbound(),
            final(self).manager().local_watermark() == old(self).manager().local_watermark(),
            final(self).manager().channels_seq().len() == old(self).manager().channels_seq().len(),
            forall|k: int|
                0 <= k < old(self).manager().channels_seq().len() && k != channel_index ==> final(self).manager().channels_seq()[k] == old(self).manager().channels_seq()[k],
            final(self).manager().channels_seq()[channel_index as int].pending() == old(self).manager().channels_seq()[channel_index as int].pending(),
            final(self).manager().channels_seq()[channel_index as int].confirmed() == old(self).manager().channels_seq()[channel_index as int].confirmed(),
            final(self).current_frame_spec() == old(self).current_frame_spec(),
            final(self).inputs_seq() == old(self).inputs_seq(),
            final(self).interface_spec() == old(self).interface_spec(),
            final(self).rollback_pending_spec() == old(self).rollback_pending_spec(),
    {
        self.channel_manager.take_outbound(channel_index)
    }

    /// Add the local player's input to the queue, scheduled at the current
    /// frame plus the configured frame delay, deduplicated by (frame, player),
    /// and handed to every peer channel for transmission.
    pub fn add_local_input(&mut self, inputs: &mut Vec<TGameInput>)
        requires
            old(self).current_frame_spec() + old(self).delay_spec() <= usize::MAX,
            canonical(old(self).inputs_seq()),
        ensures
            final(self).current_frame_spec() == old(self).current_frame_spec(),
            final(self).last_confirmed_spec() == old(self).last_confirmed_spec(),
            final(self).frame_duration_spec() == old(self).frame_duration_spec(),
            final(self).delay_spec() == old(self).delay_spec(),
            final(self).interface_spec() == old(self).interface_spec(),
            final(self).saved_state_spec() == old(self).saved_state_spec(),
            final(self).rollback_pending_spec() == old(self).rollback_pending_spec(),
            canonical(final(self).inputs_seq()),
            sorted_desc(final(self).inputs_seq()),
            unique_keys(final(self).inputs_seq()),
            old(inputs)@.len() == 0 || key_present(
                old(self).inputs_seq(),
                old(self).current_frame_spec() + old(self).delay_spec(),
                1,
            ) ==> final(self).inputs_seq() == old(self).inputs_seq(),
            old(inputs)@.len() > 0 && !key_present(
                old(self).inputs_seq(),
                old(self).current_frame_spec() + old(self).delay_spec(),
                1,
            ) ==> (exists|w0: RMercuryInputWrapper<TGameInput>|
                w0.frame == old(self).current_frame_spec() + old(self).delay_spec()
                    && w0.input.player_id() == 1 && final(self).inputs_seq() == old(
                    self,
                ).inputs_seq().insert(
                    count_preceding(
                        old(self).inputs_seq(),
                        old(self).current_frame_spec() + old(self).delay_spec(),
                        1,
                    ),
                    w0,
                )),
            forall|i: int|
                0 <= i < old(self).inputs_seq().len() ==> key_present(
                    final(self).inputs_seq(),
                    old(self).inputs_seq()[i].frame as int,
                    old(self).inputs_seq()[i].input.player_id(),
                ),
            old(inputs)@.len() > 0 ==> key_present(
                final(self).inputs_seq(),
                old(self).current_frame_spec() + old(self).delay_spec(),
                1,
            ),
            final(self).manager().local_watermark() == (if old(inputs)@.len() == 0 {
                old(self).manager().local_watermark()
            } else if old(self).current_frame_spec() + old(self).delay_spec() >= old(self).manager().local_watermark() {
                old(self).current_frame_spec() + old(self).delay_spec()
            } else {
                old(self).manager().local_watermark()
            }),
            final(self).manager().channels_seq().len() == old(self).manager().channels_seq().len(),
            forall|k: int|
                0 <= k < old(self).manager().channels_seq().len() ==> ({
                    let ob = (#[trigger] final(self).manager().channels_seq()[k]).outbound();
                    let old_ob = old(self).manager().channels_seq()[k].outbound();
                    &&& ob.len() == old_ob.len() + old(inputs)@.len()
                    &&& (forall|j: int| 0 <= j < old_ob.len() ==> ob[j] == old_ob[j])
                    &&& (forall|j: int|
                        old_ob.len() <= j < ob.len() ==> (#[trigger] ob[j]).frame == old(
                            self,
                        ).current_frame_spec() + old(self).delay_spec() && ob[j].input.player_id()
                            == 1)
                    &&& final(self).manager().channels_seq()[k].pending() == old(
                        self,
                    ).manager().channels_seq()[k].pending()
                    &&& final(self).manager().channels_seq()[k].confirmed() == old(
                        self,
                    ).manager().channels_seq()[k].confirmed()
                }),
    {
        let frame_to_execute: usize = self.current_frame + self.local_input_frame_delay;
        let local_player_id: usize = self.get_local_player_id();

        let mut wrapped_inputs: Vec<RMercuryInputWrapper<TGameInput>> = Vec::new();
        let n: usize = inputs.len();
        let mut i: usize = 0;
        while i < n
            invariant
                n == inputs@.len(),
                i <= n,
                local_player_id == 1,
                wrapped_inputs@.len() == i,
                forall|k: int|
                    0 <= k < i ==> (#[trigger] wrapped_inputs@[k]).frame == frame_to_execute
                        && wrapped_inputs@[k].input.player_id() == 1,
            decreases n - i,
        {
            let mut input: TGameInput = inputs[i];
            input.set_player_id(local_player_id);
            let wrapped_input = RMercuryInputWrapper::new(input, frame_to_execute);
            wrapped_inputs.push(wrapped_input);
            i = i + 1;
        }

        self.channel_manager.queue_local_input(&wrapped_inputs);
        proof {
            lemma_highest_frame_uniform(
                wrapped_inputs@,
                frame_to_execute as int,
                old(self).manager().local_watermark(),
            );
        }
        let ghost manager_after = self.channel_manager;

        let m: usize = wrapped_inputs.len();
        let mut k: usize = 0;
        while k < m
            invariant
                m == wrapped_inputs@.len(),
                m == inputs@.len(),
                k <= m,
                canonical(self.inputs@),
                forall|j: int|
                    0 <= j < m ==> (#[trigger] wrapped_inputs@[j]).frame == frame_to_execute
                        && wrapped_inputs@[j].input.player_id() == 1,
                self.inputs@ == (if m == 0 || k == 0 || key_present(
                    old(self).inputs@,
                    frame_to_execute as int,
                    1,
                ) {
                    old(self).inputs@
                } else {
                    old(self).inputs@.insert(
                        count_preceding(old(self).inputs@, frame_to_execute as int, 1),
                        wrapped_inputs@[0],
                    )
                }),
                forall|i2: int|
                    0 <= i2 < old(self).inputs@.len() ==> key_present(
                        self.inputs@,
                        old(self).inputs@[i2].frame as int,
                        old(self).inputs@[i2].input.player_id(),
                    ),
                k > 0 ==> key_present(self.inputs@, frame_to_execute as int, 1),
                self.current_frame == old(self).current_frame,
                self.last_confirmed_frame == old(self).last_confirmed_frame,
                self.frame_duration_ms == old(self).frame_duration_ms,
                self.local_input_frame_delay == old(self).local_input_frame_delay,
                self.number_of_players == old(self).number_of_players,
                self.max_spectators == old(self).max_spectators,
                self.sim_executions_per_second == old(self).sim_executions_per_second,
                self.m_type == old(self).m_type,
                self.game_interface == old(self).game_interface,
                self.last_confirmed_game_state == old(self).last_confirmed_game_state,
                self.last_frame_execution == old(self).last_frame_execution,
                self.rollback_required == old(self).rollback_required,
                self.channel_manager == manager_after,
            decreases m - k,
        {
            let w = wrapped_inputs[k];
            insert_input(&mut self.inputs, w);
            k = k + 1;
        }

        proof {
            lemma_canonical_orders(self.inputs@);
        }
    }

    /// Whether the elapsed time since the last executed tick has reached the
    /// configured tick duration.
    pub fn ready_at(&self, elapsed_ms: u64) -> (r: bool)
        ensures
            r == (elapsed_ms >= self.frame_duration_spec()),
    {
        elapsed_ms >= self.frame_duration_ms
    }

    /// Whether the session is ready to execute a simulation step. Reads the
    /// monotonic clock, so nothing is promised of the answer.
    pub fn ready_to_run(&self) -> bool {
        let elapsed = clock::elapsed_millis(&self.last_frame_execution);
        self.ready_at(elapsed)
    }

    /// One cooperative tick at a given elapsed time since the last executed
    /// tick: pull and merge remote input, then, if the tick duration has
    /// elapsed, roll back and replay if needed, advance the simulation one
    /// frame and increment the frame counter.
    ///
    /// A rollback loads the last confirmed snapshot and replays forward from
    /// the last confirmed frame. When the replay reaches the channel
    /// manager's confirmed horizon, the snapshot is re-saved and the last
    /// confirmed frame moves just past the horizon; when no frame in the
    /// replay range equals the horizon, the previous snapshot and marker are
    /// kept as they are.
    ///
    /// A correction that arrives on a not-yet-due tick is merged at once,
    /// and the rollback it demands is kept pending until the next executed
    /// tick honors it.
    pub fn execute_at(&mut self, elapsed_ms: u64) -> (r: RMercuryExecutionResults)
        requires
            old(self).current_frame_spec() + 1 <= usize::MAX,
            canonical(old(self).inputs_seq()),
        ensures
            r == RMercuryExecutionResults::Executed <==> elapsed_ms >= old(self).frame_duration_spec(),
            r == RMercuryExecutionResults::Executed ==> final(self).current_frame_spec() == old(self).current_frame_spec() + 1,
            r == RMercuryExecutionResults::NotExecuted ==> final(self).current_frame_spec() == old(self).current_frame_spec(),
            final(self).frame_duration_spec() == old(self).frame_duration_spec(),
            final(self).delay_spec() == old(self).delay_spec(),
            final(self).m_type_spec() == old(self).m_type_spec(),
            r == RMercuryExecutionResults::NotExecuted ==> final(self).interface_spec() == old(
                self,
            ).interface_spec() && final(self).saved_state_spec() == old(self).saved_state_spec(),
            r == RMercuryExecutionResults::NotExecuted ==> final(self).rollback_pending_spec() == (
            old(self).rollback_pending_spec() || has_frame_before(
                all_pending(old(self).manager().channels_seq()),
                old(self).current_frame_spec(),
            )),
            r == RMercuryExecutionResults::Executed ==> !final(self).rollback_pending_spec(),
            canonical(final(self).inputs_seq()),
            sorted_desc(final(self).inputs_seq()),
            unique_keys(final(self).inputs_seq()),
            final(self).inputs_seq() == merge_timeline(
                old(self).inputs_seq(),
                all_pending(old(self).manager().channels_seq()),
            ),
            forall|i: int|
                0 <= i < old(self).inputs_seq().len() ==> key_present(
                    final(self).inputs_seq(),
                    old(self).inputs_seq()[i].frame as int,
                    old(self).inputs_seq()[i].input.player_id(),
                ),
            forall|j: int|
                0 <= j < final(self).inputs_seq().len() ==> key_present(
                    old(self).inputs_seq(),
                    (#[trigger] final(self).inputs_seq()[j]).frame as int,
                    final(self).inputs_seq()[j].input.player_id(),
                ) || key_present(
                    all_pending(old(self).manager().channels_seq()),
                    final(self).inputs_seq()[j].frame as int,
                    final(self).inputs_seq()[j].input.player_id(),
                ),
            final(self).manager().local_watermark() == old(self).manager().local_watermark(),
            final(self).manager().channels_seq().len() == old(self).manager().channels_seq().len(),
            forall|k: int|
                0 <= k < old(self).manager().channels_seq().len() ==> (#[trigger] final(self).manager().channels_seq()[k]).pending() == Seq::<
                    RMercuryInputWrapper<TGameInput>,
                >::empty() && final(self).manager().channels_seq()[k].confirmed() == old(self).manager().channels_seq()[k].confirmed(),
            final(self).last_confirmed_spec() == ({
                let horizon = lowest_confirmed(
                    old(self).manager().channels_seq(),
                    old(self).manager().local_watermark(),
                );
                if r == RMercuryExecutionResults::Executed && (old(self).rollback_pending_spec()
                    || has_frame_before(
                    all_pending(old(self).manager().channels_seq()),
                    old(self).current_frame_spec(),
                )) && old(self).last_confirmed_spec() <= horizon < old(self).current_frame_spec() {
                    horizon + 1
                } else {
                    old(self).last_confirmed_spec()
                }
            }),
    {
        let ghost old_pending = all_pending(old(self).manager().channels_seq());
        let remote_inputs = self.channel_manager.execute();
        let ghost manager_after = self.channel_manager;

        let drained_correction: bool = any_frame_before(&remote_inputs, self.current_frame);
        if drained_correction {
            self.rollback_required = true;
        }
        let ghost rollback_flag_after = self.rollback_required;

        let rm: usize = remote_inputs.len();
        let mut rk: usize = 0;
        while rk < rm
            invariant
                rm == remote_inputs@.len(),
                rk <= rm,
                remote_inputs@ == old_pending,
                canonical(self.inputs@),
                self.inputs@ == merge_timeline(old(self).inputs@, old_pending.take(rk as int)),
                forall|i2: int|
                    0 <= i2 < old(self).inputs@.len() ==> key_present(
                        self.inputs@,
                        old(self).inputs@[i2].frame as int,
                        old(self).inputs@[i2].input.player_id(),
                    ),
                forall|j: int|
                    0 <= j < self.inputs@.len() ==> key_present(
                        old(self).inputs@,
                        (#[trigger] self.inputs@[j]).frame as int,
                        self.inputs@[j].input.player_id(),
                    ) || key_present(
                        old_pending,
                        self.inputs@[j].frame as int,
                        self.inputs@[j].input.player_id(),
                    ),
                self.current_frame == old(self).current_frame,
                self.last_confirmed_frame == old(self).last_confirmed_frame,
                self.frame_duration_ms == old(self).frame_duration_ms,
                self.local_input_frame_delay == old(self).local_input_frame_delay,
                self.m_type == old(self).m_type,
                self.number_of_players == old(self).number_of_players,
                self.max_spectators == old(self).max_spectators,
                self.sim_executions_per_second == old(self).sim_executions_per_second,
                self.channel_manager == manager_after,
                self.game_interface == old(self).game_interface,
                self.last_confirmed_game_state == old(self).last_confirmed_game_state,
                self.last_frame_execution == old(self).last_frame_execution,
                self.rollback_required == rollback_flag_after,
                rollback_flag_after == (old(self).rollback_required || has_frame_before(
                    old_pending,
                    old(self).current_frame as int,
                )),
            decreases rm - rk,
        {
            let w = remote_inputs[rk];
            proof {
                assert(key_present(old_pending, w.frame as int, w.input.player_id()));
            }
            insert_input(&mut self.inputs, w);
            proof {
                assert(old_pending.take(rk + 1).drop_last() =~= old_pending.take(rk as int));
                assert(old_pending.take(rk + 1).last() == old_pending[rk as int]);
            }
            rk = rk + 1;
        }
        proof {
            assert(old_pending.take(rm as int) =~= old_pending);
            lemma_canonical_orders(self.inputs@);
        }

        let run_game_sim: bool = self.ready_at(elapsed_ms);

        if run_game_sim {
            let ghost inputs_after = self.inputs@;
            if self.rollback_required {
                self.game_interface.load_game_state(self.last_confirmed_game_state);

                let horizon: usize = self.channel_manager.last_confirmed_frame();
                proof {
                    lemma_lowest_confirmed_pointwise(
                        self.channel_manager.channels_seq(),
                        old(self).manager().channels_seq(),
                        old(self).manager().local_watermark(),
                    );
                }
                let ghost lcf0 = self.last_confirmed_frame;
                let mut rollback_frame: usize = self.last_confirmed_frame;
                while rollback_frame < self.current_frame
                    invariant
                        lcf0 <= rollback_frame,
                        rollback_frame <= self.current_frame || lcf0 > self.current_frame,
                        self.last_confirmed_frame as int == (if lcf0 <= horizon < rollback_frame
                            && horizon < self.current_frame {
                            horizon + 1
                        } else {
                            lcf0 as int
                        }),
                        self.current_frame == old(self).current_frame,
                        self.inputs@ == inputs_after,
                        self.frame_duration_ms == old(self).frame_duration_ms,
                        self.local_input_frame_delay == old(self).local_input_frame_delay,
                        self.m_type == old(self).m_type,
                        self.channel_manager == manager_after,
                        self.last_frame_execution == old(self).last_frame_execution,
                        self.rollback_required == rollback_flag_after,
                        self.number_of_players == old(self).number_of_players,
                        self.max_spectators == old(self).max_spectators,
                        self.sim_executions_per_second == old(self).sim_executions_per_second,
                        horizon == lowest_confirmed(
                            old(self).manager().channels_seq(),
                            old(self).manager().local_watermark(),
                        ),
                    decreases self.current_frame - rollback_frame,
                {
                    let current_frame_inputs = self.gather_frame_inputs(rollback_frame);
                    self.game_interface.advance_frame(current_frame_inputs);

                    if rollback_frame == horizon {
                        let game_state = self.game_interface.current_game_state();
                        self.last_confirmed_game_state = game_state;
                        self.last_confirmed_frame = rollback_frame + 1;
                    }

                    rollback_frame = rollback_frame + 1;
                }
            }

            let current_frame_inputs = self.gather_frame_inputs(self.current_frame);
            self.game_interface.advance_frame(current_frame_inputs);

            self.current_frame = self.current_frame + 1;
            self.rollback_required = false;

            return RMercuryExecutionResults::Executed;
        }

        RMercuryExecutionResults::NotExecuted
    }

    /// Execute the session. If enough time has passed, executes one
    /// simulation step; otherwise only processes outstanding input. The
    /// elapsed time comes from the monotonic clock, so which of the two
    /// happens is not promised; either way the frame counter moves by one
    /// exactly when the result says "executed".
    pub fn execute(&mut self) -> (r: RMercuryExecutionResults)
        requires
            old(self).current_frame_spec() + 1 <= usize::MAX,
            canonical(old(self).inputs_seq()),
        ensures
            r == RMercuryExecutionResults::Executed ==> final(self).current_frame_spec() == old(self).current_frame_spec() + 1,
            r == RMercuryExecutionResults::NotExecuted ==> final(self).current_frame_spec() == old(self).current_frame_spec(),
            r == RMercuryExecutionResults::NotExecuted ==> final(self).interface_spec() == old(
                self,
            ).interface_spec() && final(self).saved_state_spec() == old(self).saved_state_spec(),
            final(self).frame_duration_spec() == old(self).frame_duration_spec(),
            final(self).delay_spec() == old(self).delay_spec(),
            r == RMercuryExecutionResults::NotExecuted ==> final(self).rollback_pending_spec() == (
            old(self).rollback_pending_spec() || has_frame_before(
                all_pending(old(self).manager().channels_seq()),
                old(self).current_frame_spec(),
            )),
            r == RMercuryExecutionResults::Executed ==> !final(self).rollback_pending_spec(),
            canonical(final(self).inputs_seq()),
            sorted_desc(final(self).inputs_seq()),
            unique_keys(final(self).inputs_seq()),
            final(self).inputs_seq() == merge_timeline(
                old(self).inputs_seq(),
                all_pending(old(self).manager().channels_seq()),
            ),
    {
        let elapsed = clock::elapsed_millis(&self.last_frame_execution);
        let result = self.execute_at(elapsed);
        match result {
            RMercuryExecutionResults::Executed => {
                self.last_frame_execution = clock::instant_now();
            },
            RMercuryExecutionResults::NotExecuted => {},
        }
        result
    }

    /// The raw inputs recorded on the timeline for one frame, in timeline
    /// order: on a canonical timeline, ascending by player id, so every
    /// replay of the same timeline feeds the simulation identically.
    fn gather_frame_inputs(&self, frame: usize) -> (r: Vec<TGameInput>)
        ensures
            r@ == inputs_for_frame(self.inputs_seq(), frame as int),
    {
        let mut gathered: Vec<TGameInput> = Vec::new();
        let n: usize = self.inputs.len();
        let mut i: usize = 0;
        while i < n
            invariant
                n == self.inputs@.len(),
                i <= n,
                gathered@ == inputs_for_frame(self.inputs@.take(i as int), frame as int),
            decreases n - i,
        {
            let w = &self.inputs[i];
            if w.frame == frame {
                gathered.push(w.input);
            }
            proof {
                assert(self.inputs@.take(i + 1).drop_last() =~= self.inputs@.take(i as int));
                assert(self.inputs@.take(i + 1).last() == self.inputs@[i as int]);
            }
            i = i + 1;
        }
        proof {
            assert(self.inputs@.take(n as int) =~= self.inputs@);
        }
        gathered
    }

    /// Get the current game tick.
    pub fn get_current_tick(&self) -> (r: usize)
        ensures
            r == self.current_frame_spec(),
    {
        self.current_frame
    }

    /// Retrieve the current game state. Used for non-simulation purposes,
    /// such as audio or rendering.
    pub fn get_game_state(&self) -> TGameState {
        self.game_interface.current_game_state()
    }
}

/// Whether any of the given inputs targets a frame before the given one.
fn any_frame_before<TGameInput>(
    inputs: &Vec<RMercuryInputWrapper<TGameInput>>,
    frame: usize,
) -> (r: bool) where TGameInput: RMercuryInput + Copy + PartialEq
    ensures
        r == has_frame_before(inputs@, frame as int),
{
    let n: usize = inputs.len();
    let mut i: usize = 0;
    while i < n
        invariant
            n == inputs@.len(),
            i <= n,
            forall|k: int| 0 <= k < i ==> (#[trigger] inputs@[k]).frame >= frame,
        decreases n - i,
    {
        if inputs[i].frame < frame {
            return true;
        }
        i = i + 1;
    }
    false
}

/// When every queued input carries the same frame, the watermark after
/// queueing is that frame or the old watermark, whichever is higher.
proof fn lemma_highest_frame_uniform<TGameInput>(
    s: Seq<RMercuryInputWrapper<TGameInput>>,
    frame: int,
    acc: int,
) where TGameInput: RMercuryInput + Copy + PartialEq
    requires
        forall|k: int| 0 <= k < s.len() ==> (#[trigger] s[k]).frame == frame,
    ensures
        highest_frame(s, acc) == (if s.len() == 0 {
            acc
        } else if frame >= acc {
            frame
        } else {
            acc
        }),
    decreases s.len(),
{
    if s.len() > 0 {
        lemma_highest_frame_uniform(s.drop_last(), frame, acc);
    }
}

/// Insert a timestamped input into a canonical timeline, keeping the
/// canonical order and dropping the input when its (frame, player) key is
/// already present: exactly the `insert_merged` function on the timeline's
/// view.
fn insert_input<TGameInput>(
    timeline: &mut Vec<RMercuryInputWrapper<TGameInput>>,
    w: RMercuryInputWrapper<TGameInput>,
) where TGameInput: RMercuryInput + Copy + PartialEq
    requires
        canonical(old(timeline)@),
    ensures
        canonical(final(timeline)@),
        final(timeline)@ == insert_merged(old(timeline)@, w),
        key_present(final(timeline)@, w.frame as int, w.input.player_id()),
        forall|f: int, p: int|
            key_present(old(timeline)@, f, p) ==> key_present(final(timeline)@, f, p),
        forall|j: int|
            0 <= j < final(timeline)@.len() ==> final(timeline)@[j] == w || key_present(
                old(timeline)@,
                (#[trigger] final(timeline)@[j]).frame as int,
                final(timeline)@[j].input.player_id(),
            ),
{
    let w_player: usize = w.input.get_player_id();

    let n: usize = timeline.len();
    let mut i: usize = 0;
    while i < n
        invariant
            n == timeline@.len(),
            i <= n,
            timeline@ == old(timeline)@,
            canonical(timeline@),
            w_player as int == w.input.player_id(),
            forall|k: int|
                0 <= k < i ==> !((#[trigger] timeline@[k]).frame == w.frame
                    && timeline@[k].input.player_id() == w.input.player_id()),
        decreases n - i,
    {
        let entry = &timeline[i];
        if entry.frame == w.frame {
            let entry_player: usize = entry.input.get_player_id();
            if entry_player == w_player {
                proof {
                    assert(key_present(timeline@, w.frame as int, w.input.player_id()));
                }
                return ;
            }
        }
        i = i + 1;
    }
    proof {
        assert(!key_present(timeline@, w.frame as int, w.input.player_id()));
    }

    let mut pos: usize = 0;
    let mut scanning: bool = true;
    while scanning
        invariant
            n == timeline@.len(),
            pos <= n,
            timeline@ == old(timeline)@,
            canonical(timeline@),
            w_player as int == w.input.player_id(),
            forall|k: int|
                0 <= k < pos ==> precedes(
                    #[trigger] timeline@[k],
                    w.frame as int,
                    w.input.player_id(),
                ),
            !scanning ==> pos == n || !precedes(
                timeline@[pos as int],
                w.frame as int,
                w.input.player_id(),
            ),
        decreases n - pos + (if scanning {
            1int
        } else {
            0
        }),
    {
        if pos < n {
            let entry = &timeline[pos];
            let goes_before: bool = if entry.frame > w.frame {
                true
            } else if entry.frame == w.frame {
                let entry_player: usize = entry.input.get_player_id();
                entry_player < w_player
            } else {
                false
            };
            if goes_before {
                pos = pos + 1;
            } else {
                scanning = false;
            }
        } else {
            scanning = false;
        }
    }

    let ghost before = timeline@;
    let ghost wf = w.frame as int;
    let ghost wp = w.input.player_id();

    proof {
        // every entry at or after the found position comes after the key
        assert forall|k: int| pos <= k < before.len() implies !precedes(
            #[trigger] before[k],
            wf,
            wp,
        ) by {
            if k > pos {
                assert(precedes(before[pos as int], before[k].frame as int, before[k].input.player_id()));
            }
        }
        lemma_count_preceding_split(before, wf, wp, pos as int);
    }

    timeline.insert(pos, w);

    proof {
        let fin = timeline@;
        assert(fin == before.insert(pos as int, w));
        assert(fin == insert_merged(before, w));

        assert forall|a: int, b: int| 0 <= a < b < fin.len() implies precedes(
            fin[a],
            fin[b].frame as int,
            fin[b].input.player_id(),
        ) by {
            if a < pos && b < pos {
                assert(fin[a] == before[a] && fin[b] == before[b]);
            } else if a < pos && b == pos {
                assert(fin[a] == before[a] && fin[b] == w);
            } else if a < pos && b > pos {
                assert(fin[a] == before[a] && fin[b] == before[b - 1]);
            } else if a == pos {
                assert(fin[a] == w && fin[b] == before[b - 1]);
                assert(!precedes(before[b - 1], wf, wp));
                assert(!(before[b - 1].frame == wf && before[b - 1].input.player_id() == wp)) by {
                    if before[b - 1].frame == wf && before[b - 1].input.player_id() == wp {
                        assert(key_present(before, wf, wp));
                    }
                }
            } else {
                assert(fin[a] == before[a - 1] && fin[b] == before[b - 1]);
            }
        }

        assert(fin[pos as int] == w);
        assert(key_present(fin, wf, wp));
        assert forall|f: int, p: int| key_present(before, f, p) implies key_present(fin, f, p) by {
            let x = choose|x: int|
                0 <= x < before.len() && before[x].frame == f && before[x].input.player_id() == p;
            if x < pos {
                assert(fin[x] == before[x]);
            } else {
                assert(fin[x + 1] == before[x]);
            }
        }
        assert forall|j: int| 0 <= j < fin.len() implies fin[j] == w || key_present(
            before,
            (#[trigger] fin[j]).frame as int,
            fin[j].input.player_id(),
        ) by {
            if j < pos {
                assert(fin[j] == before[j]);
            } else if j > pos {
                assert(fin[j] == before[j - 1]);
            }
        }
    }
}

} // verus!

use rmercury::rmercury_channel::{RChannel, RChannelManager};
use rmercury::rmercury_input::RMercuryInputWrapper;
use rmercury::{
    MercuryType, RMercuryBuilder, RMercuryExecutionResults, RMercuryGameInterface, RMercuryInput,
};

#[derive(Clone, Copy, Debug, PartialEq)]
struct TestInput {
    player: usize,
    value: u8,
}

impl RMercuryInput for TestInput {
    fn get_player_id(&self) -> usize {
        self.player
    }

    fn set_player_id(&mut self, player_id: usize) {
        self.player = player_id;
    }

    fn to_bits(&self) -> Vec<u8> {
        vec![self.value]
    }

    fn from_bits(bytes: Vec<u8>) -> Self {
        TestInput { player: 0, value: bytes[0] }
    }
}

/// A deterministic simulation whose state folds in each frame's inputs in an
/// order-independent way.
struct TestGame {
    state: u64,
}

impl RMercuryGameInterface<u64, TestInput> for TestGame {
    fn save_game_state(&self) -> u64 {
        self.state
    }

    fn load_game_state(&mut self, game_state: u64) {
        self.state = game_state;
    }

    fn log_game_state(&self) -> String {
        format!("{}", self.state)
    }

    fn advance_frame(&mut self, inputs: Vec<TestInput>) {
        let mut sum: u64 = 0;
        for input in inputs {
            sum = sum.wrapping_add(input.value as u64);
        }
        self.state = self.state.wrapping_mul(31).wrapping_add(17).wrapping_add(sum);
    }

    fn current_game_state(&self) -> u64 {
        self.state
    }
}

type Session = rmercury::RMercury<TestGame, TestInput, u64>;

fn new_session() -> Session {
    let builder = RMercuryBuilder::<TestGame, TestInput, u64>::new(TestGame { state: 0 })
        .with_type(MercuryType::Peer2Peer)
        .with_local_input_delay(0);
    let mut session = builder.build();
    session.add_channel(RChannel::new());
    session
}

const TICK_MS: u64 = 16;

fn submit(session: &mut Session, value: u8) -> Vec<RMercuryInputWrapper<TestInput>> {
    let mut inputs = vec![TestInput { player: 0, value }];
    session.add_local_input(&mut inputs);
    session.take_outbound(0)
}

fn deliver(session: &mut Session, mut batch: Vec<RMercuryInputWrapper<TestInput>>) {
    for wrapper in batch.iter_mut() {
        // the transport knows which peer a batch came from; relabel it
        wrapper.input.player = 2;
    }
    session.receive_remote_input(0, &batch);
}

// calling execute before the tick duration elapses returns "not executed"
// and leaves the frame counter alone; after it elapses, each call advances
// the counter by exactly one
#[test]
fn session_tick_pacing_gates_execution() {
    let mut session = new_session();
    assert_eq!(0, session.get_current_tick());

    // the default rate is 60 executions per second: 16 whole milliseconds
    assert_eq!(RMercuryExecutionResults::NotExecuted, session.execute_at(0));
    assert_eq!(0, session.get_current_tick());
    assert_eq!(RMercuryExecutionResults::NotExecuted, session.execute_at(TICK_MS - 1));
    assert_eq!(0, session.get_current_tick());

    assert_eq!(RMercuryExecutionResults::Executed, session.execute_at(TICK_MS));
    assert_eq!(1, session.get_current_tick());
    assert_eq!(RMercuryExecutionResults::Executed, session.execute_at(200));
    assert_eq!(2, session.get_current_tick());
}

#[test]
fn session_builder_zero_rate_keeps_default() {
    let builder = RMercuryBuilder::<TestGame, TestInput, u64>::new(TestGame { state: 0 })
        .with_sim_executions_per_second(0)
        .with_players(0)
        .with_spectators(8);
    let mut session = builder.build();

    // the default 60 Hz rate stands, so a 16 ms tick executes
    assert_eq!(RMercuryExecutionResults::Executed, session.execute_at(TICK_MS));
}

#[test]
fn session_local_input_is_applied_at_the_current_frame() {
    let mut session = new_session();

    let mut inputs = vec![TestInput { player: 0, value: 5 }];
    session.add_local_input(&mut inputs);
    assert_eq!(RMercuryExecutionResults::Executed, session.execute_at(TICK_MS));

    // state = 0 * 31 + 17 + 5
    assert_eq!(22, session.get_game_state());
}

// two peers with identical deterministic simulations stay bit-identical,
// even when one input batch is delivered out of order and forces a rollback
#[test]
fn session_peers_converge_after_out_of_order_delivery() {
    let mut a = new_session();
    let mut b = new_session();

    let mut held: Vec<RMercuryInputWrapper<TestInput>> = Vec::new();
    let mut a_rolled_back = false;

    for frame in 0..10u8 {
        let out_a = submit(&mut a, frame + 1);
        let out_b = submit(&mut b, 101 + frame);

        deliver(&mut b, out_a);
        if frame == 3 {
            // peer B's frame 3 batch is delayed in flight
            held = out_b;
        } else {
            deliver(&mut a, out_b);
        }
        if frame == 6 {
            // ... and arrives while peer A is already at frame 6
            deliver(&mut a, std::mem::take(&mut held));
            a_rolled_back = true;
        }

        assert_eq!(RMercuryExecutionResults::Executed, a.execute_at(TICK_MS));
        assert_eq!(RMercuryExecutionResults::Executed, b.execute_at(TICK_MS));
    }

    assert!(a_rolled_back);
    assert_eq!(10, a.get_current_tick());
    assert_eq!(10, b.get_current_tick());
    assert_eq!(a.get_game_state(), b.get_game_state());
}

// without any lost batches the two peers also agree
#[test]
fn session_peers_converge_with_timely_delivery() {
    let mut a = new_session();
    let mut b = new_session();

    for frame in 0..5u8 {
        let out_a = submit(&mut a, frame + 1);
        let out_b = submit(&mut b, 201 + frame);
        deliver(&mut b, out_a);
        deliver(&mut a, out_b);
        assert_eq!(RMercuryExecutionResults::Executed, a.execute_at(TICK_MS));
        assert_eq!(RMercuryExecutionResults::Executed, b.execute_at(TICK_MS));
    }

    assert_eq!(a.get_game_state(), b.get_game_state());
}

// the confirmed horizon only advances while the received frames stay
// gapless: frames delivered ahead of a gap wait and do not over-confirm
#[test]
fn channel_confirms_only_contiguous_frames() {
    let mut channel: RChannel<TestInput> = RChannel::new();
    assert_eq!(0, channel.last_confirmed_frame());

    // frames 5 and 3 arrive ahead of everything else: nothing is confirmed
    let early = vec![
        RMercuryInputWrapper::new(TestInput { player: 2, value: 1 }, 5),
        RMercuryInputWrapper::new(TestInput { player: 2, value: 2 }, 3),
    ];
    channel.receive_remote_input(&early);
    assert_eq!(0, channel.last_confirmed_frame());

    // frames 0..=2 close the gap up to 3, which was already waiting
    let start = vec![
        RMercuryInputWrapper::new(TestInput { player: 2, value: 3 }, 0),
        RMercuryInputWrapper::new(TestInput { player: 2, value: 4 }, 1),
        RMercuryInputWrapper::new(TestInput { player: 2, value: 5 }, 2),
    ];
    channel.receive_remote_input(&start);
    assert_eq!(3, channel.last_confirmed_frame());

    // frame 4 closes the last gap, reaching the waiting frame 5
    let bridge = vec![RMercuryInputWrapper::new(TestInput { player: 2, value: 6 }, 4)];
    channel.receive_remote_input(&bridge);
    assert_eq!(5, channel.last_confirmed_frame());
}

#[test]
fn channel_sync_drains_pending_remote_input() {
    let mut channel: RChannel<TestInput> = RChannel::new();
    let batch = vec![RMercuryInputWrapper::new(TestInput { player: 2, value: 9 }, 4)];
    channel.receive_remote_input(&batch);

    let received = channel.sync();
    assert_eq!(1, received.len());
    assert_eq!(4, received[0].frame);
    assert_eq!(9, received[0].input.value);

    let received_again = channel.sync();
    assert_eq!(0, received_again.len());
}

// the manager's last confirmed frame is the minimum of the local watermark
// and every channel's horizon: the distributed watermark
#[test]
fn channel_manager_takes_minimum_confirmed_frame() {
    let mut manager: RChannelManager<TestInput> = RChannelManager::new();
    manager.add_channel(RChannel::new());
    manager.add_channel(RChannel::new());

    let local = vec![RMercuryInputWrapper::new(TestInput { player: 1, value: 1 }, 7)];
    manager.queue_local_input(&local);

    let fast = vec![
        RMercuryInputWrapper::new(TestInput { player: 2, value: 1 }, 0),
        RMercuryInputWrapper::new(TestInput { player: 2, value: 2 }, 1),
        RMercuryInputWrapper::new(TestInput { player: 2, value: 3 }, 2),
    ];
    manager.receive_remote_input(0, &fast);
    let slow = vec![
        RMercuryInputWrapper::new(TestInput { player: 3, value: 1 }, 0),
        RMercuryInputWrapper::new(TestInput { player: 3, value: 2 }, 1),
    ];
    manager.receive_remote_input(1, &slow);

    assert_eq!(1, manager.last_confirmed_frame());
}

#[test]
fn channel_manager_execute_gathers_all_pending_input() {
    let mut manager: RChannelManager<TestInput> = RChannelManager::new();
    manager.add_channel(RChannel::new());
    manager.add_channel(RChannel::new());

    let first = vec![RMercuryInputWrapper::new(TestInput { player: 2, value: 10 }, 1)];
    manager.receive_remote_input(0, &first);
    let second = vec![RMercuryInputWrapper::new(TestInput { player: 3, value: 20 }, 2)];
    manager.receive_remote_input(1, &second);

    let gathered = manager.execute();
    assert_eq!(2, gathered.len());
    assert_eq!(10, gathered[0].input.value);
    assert_eq!(20, gathered[1].input.value);

    assert_eq!(0, manager.execute().len());
}

// with a tick duration of zero milliseconds, the real monotonic clock always
// reports enough elapsed time, so execute advances every call
#[test]
fn session_execute_with_real_clock_and_zero_duration() {
    let builder = RMercuryBuilder::<TestGame, TestInput, u64>::new(TestGame { state: 0 })
        .with_sim_executions_per_second(1_000_000);
    let mut session = builder.build();
    session.add_channel(RChannel::new());

    assert!(session.ready_to_run());
    assert_eq!(RMercuryExecutionResults::Executed, session.execute());
    assert_eq!(1, session.get_current_tick());
    assert_eq!(RMercuryExecutionResults::Executed, session.execute());
    assert_eq!(2, session.get_current_tick());
}


// a rollback whose replay range never reaches the confirmed horizon keeps
// the previous snapshot and last-confirmed marker, and the peers still agree
#[test]
fn session_rollback_with_lagging_horizon_keeps_snapshot() {
    let mut a = new_session();
    let mut b = new_session();

    let mut replayed: Vec<RMercuryInputWrapper<TestInput>> = Vec::new();

    for frame in 0..6u8 {
        let out_a = submit(&mut a, frame + 1);
        let out_b = submit(&mut b, 51 + frame);
        if frame == 2 {
            replayed = out_b.clone();
        }
        deliver(&mut b, out_a);
        deliver(&mut a, out_b);
        assert_eq!(RMercuryExecutionResults::Executed, a.execute_at(TICK_MS));
        assert_eq!(RMercuryExecutionResults::Executed, b.execute_at(TICK_MS));
    }

    // a retransmit of peer B's frame 2 forces a first rollback on A; the
    // confirmed horizon (frame 5) lies inside the replay range, so the
    // snapshot is re-saved there and the last-confirmed marker advances
    deliver(&mut a, replayed.clone());
    assert_eq!(RMercuryExecutionResults::Executed, a.execute_at(TICK_MS));
    assert_eq!(RMercuryExecutionResults::Executed, b.execute_at(TICK_MS));

    // a second retransmit rolls A back again while the horizon now lags
    // behind the advanced marker: no replay frame equals the horizon, so the
    // snapshot and marker are kept as they are
    deliver(&mut a, replayed);
    assert_eq!(RMercuryExecutionResults::Executed, a.execute_at(TICK_MS));
    assert_eq!(RMercuryExecutionResults::Executed, b.execute_at(TICK_MS));

    // the session keeps running and the peers still agree
    let out_a = submit(&mut a, 9);
    let out_b = submit(&mut b, 59);
    deliver(&mut b, out_a);
    deliver(&mut a, out_b);
    assert_eq!(RMercuryExecutionResults::Executed, a.execute_at(TICK_MS));
    assert_eq!(RMercuryExecutionResults::Executed, b.execute_at(TICK_MS));

    assert_eq!(9, a.get_current_tick());
    assert_eq!(9, b.get_current_tick());
    assert_eq!(a.get_game_state(), b.get_game_state());
}

// a correction that arrives just before a not-yet-due tick is merged at
// once, and the rollback it demands is kept pending and honored by the next
// executed tick
#[test]
fn session_rollback_pending_survives_not_executed_tick() {
    let mut a = new_session();
    let mut b = new_session();

    let mut held: Vec<RMercuryInputWrapper<TestInput>> = Vec::new();

    for frame in 0..6u8 {
        let out_a = submit(&mut a, frame + 1);
        let out_b = submit(&mut b, 71 + frame);

        deliver(&mut b, out_a);
        if frame == 2 {
            held = out_b;
        } else {
            deliver(&mut a, out_b);
        }

        if frame == 4 {
            // the late batch lands while the tick is not yet due
            deliver(&mut a, std::mem::take(&mut held));
            assert_eq!(RMercuryExecutionResults::NotExecuted, a.execute_at(0));
        }

        assert_eq!(RMercuryExecutionResults::Executed, a.execute_at(TICK_MS));
        assert_eq!(RMercuryExecutionResults::Executed, b.execute_at(TICK_MS));
    }

    assert_eq!(6, a.get_current_tick());
    assert_eq!(6, b.get_current_tick());
    assert_eq!(a.get_game_state(), b.get_game_state());
}

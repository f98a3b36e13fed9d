use rmercury::backends::rpeer2peer::Peer2Peer as BackendPeer2Peer;
use rmercury::backends::rspectator::SpectatorBackend;
use rmercury::rbackend::{Peer2Peer, RBackend};
use rmercury::rsynctest::SyncTest;
use rmercury::rsystem::{
    RErrorCode, RGame, RMercury_StartSession, RPlayer, RPlayerType, RSession,
};

struct TestCallbacks;

impl RGame for TestCallbacks {
    fn begin_game() -> bool {
        true
    }

    fn save_game_state() -> bool {
        true
    }

    fn load_game_state() -> bool {
        true
    }

    fn log_game_state() -> bool {
        true
    }

    fn free_buffer() {}

    fn advance_frame() -> bool {
        true
    }

    fn on_event() -> bool {
        true
    }
}

fn player() -> RPlayer {
    RPlayer { size: 0, player_type: RPlayerType::Local, player_number: 1 }
}

#[test]
fn peer2peer_open_session_accepts_operations() {
    let mut backend = Peer2Peer::new(TestCallbacks, "app".to_string(), 2, 4, 7);

    assert_eq!(RErrorCode::Okay, backend.DoPoll(0));
    assert_eq!(RErrorCode::Okay, backend.AddPlayer(player(), 1));
    assert_eq!(RErrorCode::Okay, backend.AddLocalInput(1));
    assert_eq!(RErrorCode::Okay, backend.SyncInput());
    assert_eq!(RErrorCode::Okay, backend.IncrementFrame());
    let (code, stats) = backend.GetNetworkStats(1);
    assert_eq!(RErrorCode::Okay, code);
    assert!(stats.is_some());
}

// every operation on a closed session fails with the invalid-session
// condition, and closing is terminal
#[test]
fn peer2peer_closed_session_returns_invalid_session() {
    let mut backend = Peer2Peer::new(TestCallbacks, "app".to_string(), 2, 4, 7);

    assert_eq!(RErrorCode::Okay, backend.CloseSession());

    assert_eq!(RErrorCode::InvalidSession, backend.DoPoll(0));
    assert_eq!(RErrorCode::InvalidSession, backend.AddPlayer(player(), 1));
    assert_eq!(RErrorCode::InvalidSession, backend.AddLocalInput(1));
    assert_eq!(RErrorCode::InvalidSession, backend.SyncInput());
    assert_eq!(RErrorCode::InvalidSession, backend.IncrementFrame());
    assert_eq!(RErrorCode::InvalidSession, backend.Chat("hello".to_string()));
    assert_eq!(RErrorCode::InvalidSession, backend.SetFrameDelay(1, 3));
    assert_eq!(RErrorCode::InvalidSession, backend.SetDisconnectTimeout(100));
    assert_eq!(RErrorCode::InvalidSession, backend.SetDisconnectNotifyStart(50));
    let (code, stats) = backend.GetNetworkStats(1);
    assert_eq!(RErrorCode::InvalidSession, code);
    assert!(stats.is_none());
    assert_eq!(RErrorCode::InvalidSession, backend.CloseSession());
}

#[test]
fn spectator_backend_rejects_local_input() {
    let mut backend = SpectatorBackend::new(
        TestCallbacks,
        "app".to_string(),
        2,
        4,
        7,
        "host".to_string(),
        9,
    );

    assert_eq!(RErrorCode::Unsupported, backend.AddLocalInput(1));
    assert_eq!(RErrorCode::Unsupported, backend.SetFrameDelay(1, 3));
    assert_eq!(RErrorCode::Okay, backend.DoPoll(0));
}

#[test]
fn synctest_backend_opens_and_closes() {
    let mut backend = SyncTest::new(TestCallbacks, "app".to_string(), 2, 4, 30);

    assert_eq!(RErrorCode::Okay, backend.SyncInput());
    assert_eq!(RErrorCode::Okay, backend.CloseSession());
    assert_eq!(RErrorCode::InvalidSession, backend.SyncInput());
}

#[test]
fn backends_peer2peer_variant_closes_terminally() {
    let mut backend = BackendPeer2Peer::new(TestCallbacks, "app".to_string(), 2, 4, 7);

    assert_eq!(RErrorCode::Okay, backend.IncrementFrame());
    assert_eq!(RErrorCode::Okay, backend.CloseSession());
    assert_eq!(RErrorCode::InvalidSession, backend.IncrementFrame());
}

#[test]
fn start_session_delegates_through_the_session_trait() {
    let mut session = RMercury_StartSession(TestCallbacks, "app".to_string(), 2, 4, 7);

    assert_eq!(RErrorCode::Okay, session.idle(0));
    assert_eq!(RErrorCode::Okay, session.add_player(player(), 1));
    assert_eq!(RErrorCode::Okay, session.synchronize_input());
    assert_eq!(RErrorCode::Okay, session.advance_frame());
    assert_eq!(RErrorCode::Okay, session.close_session());
    assert_eq!(RErrorCode::InvalidSession, session.idle(0));
    assert_eq!(RErrorCode::InvalidSession, session.client_chat("hi".to_string()));
}

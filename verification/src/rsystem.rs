use crate::rbackend;
use crate::rbackend::RBackend;
use vstd::prelude::*;

verus! {

pub const RMAXPLAYERS: u8 = 4;

pub const RMAXPREDICTIONFRAMES: u8 = 8;

pub const RMAXSPECTATORS: u8 = 32;

pub const RSPECTATORINPUTINTERVAL: u8 = 4;

pub type RPort = u8;

pub type RIpAddress = String;

pub type RPlayerHandle = i32;

pub type RPlayerNumber = i32;

/// Where a participant sits relative to the local session.
pub enum RPlayerType {
    Local,
    Remote(RIpAddress, RPort),
    Spectator(RIpAddress, RPort),
}

/// One participant in a session.
pub struct RPlayer {
    pub size: i32,
    pub player_type: RPlayerType,
    pub player_number: RPlayerNumber,
}

/// The local participant's endpoint.
pub struct RLocalEndpoint {
    pub player_number: RPlayerNumber,
}

/// The closed taxonomy of status codes every session operation returns.
#[derive(Copy, Clone, Debug, PartialEq, Eq)]
pub enum RErrorCode {
    Okay,
    Success,
    GeneralFailure,
    InvalidSession,
    InvalidPlayerHandle,
    PlayerOutOfRange,
    PredictionThreshold,
    Unsupported,
    NotSynchronized,
    InRollback,
    InputDropped,
    PlayerDisconnected,
    TooManySpectators,
    InvalidRequest,
}

/// Notifications a backend can hand to the host.
pub enum REventCode {
    ConnectedToPeer,
    SynchronizingWithPeer,
    SynchronizedWithPeer,
    Running,
    DisconnectedFromPeer,
    TimeSync,
    ConnectionInterrupted,
    ConnectionResumed,
}

/// Something that has happened, with the peer it concerns.
pub struct REvent {
    pub code: REventCode,
    pub connected: Option<RPlayerHandle>,
}

/// Callbacks the host game must provide for networking, state copies, and
/// rollbacks.
pub trait RGame {
    fn begin_game() -> bool;

    fn save_game_state() -> bool;

    fn load_game_state() -> bool;

    fn log_game_state() -> bool;

    fn free_buffer();

    fn advance_frame() -> bool;

    fn on_event() -> bool;
}

/// Network quality counters for one connection.
pub struct RNetworkStats {}

/// The uniform capability set every session topology exposes. Every
/// operation on a closed session fails with the invalid-session condition
/// rather than silently doing nothing, and closing is terminal.
pub trait RSession {
    /// Whether the session has been closed, as contracts see it.
    spec fn is_closed(&self) -> bool;

    fn add_player(&mut self, player: RPlayer, player_handle: RPlayerHandle) -> (r: RErrorCode)
        ensures
            old(self).is_closed() ==> r == RErrorCode::InvalidSession && final(self).is_closed(),
    ;

    fn set_frame_delay(&mut self, player_handle: RPlayerHandle, frame_delay: i32) -> (r:
        RErrorCode)
        ensures
            old(self).is_closed() ==> r == RErrorCode::InvalidSession && final(self).is_closed(),
    ;

    fn idle(&mut self, timeout: i32) -> (r: RErrorCode)
        ensures
            old(self).is_closed() ==> r == RErrorCode::InvalidSession && final(self).is_closed(),
    ;

    fn add_local_input(&mut self, player_handle: RPlayerHandle) -> (r: RErrorCode)
        ensures
            old(self).is_closed() ==> r == RErrorCode::InvalidSession && final(self).is_closed(),
    ;

    fn synchronize_input(&mut self) -> (r: RErrorCode)
        ensures
            old(self).is_closed() ==> r == RErrorCode::InvalidSession && final(self).is_closed(),
    ;

    fn advance_frame(&mut self) -> (r: RErrorCode)
        ensures
            old(self).is_closed() ==> r == RErrorCode::InvalidSession && final(self).is_closed(),
    ;

    fn client_chat(&mut self, text: String) -> (r: RErrorCode)
        ensures
            old(self).is_closed() ==> r == RErrorCode::InvalidSession && final(self).is_closed(),
    ;

    fn get_network_stats(&self, player_handle: RPlayerHandle) -> (r: (RErrorCode, Option<
        RNetworkStats,
    >))
        ensures
            self.is_closed() ==> r.0 == RErrorCode::InvalidSession,
    ;

    fn close_session(&mut self) -> (r: RErrorCode)
        ensures
            final(self).is_closed(),
            old(self).is_closed() ==> r == RErrorCode::InvalidSession,
    ;

    fn set_disconnect_timeout(&mut self, timeout: i32) -> (r: RErrorCode)
        ensures
            old(self).is_closed() ==> r == RErrorCode::InvalidSession && final(self).is_closed(),
    ;

    fn set_disconnect_notify_start(&mut self, timeout: i32) -> (r: RErrorCode)
        ensures
            old(self).is_closed() ==> r == RErrorCode::InvalidSession && final(self).is_closed(),
    ;
}

/// A session wrapping one backend policy object.
pub struct RMercury<TBackend: rbackend::RBackend> {
    pub backend: TBackend,
}

/// Start a peer-to-peer session for the given game.
#[allow(non_snake_case)]
pub fn RMercury_StartSession<TGame: RGame>(
    r_game: TGame,
    app_name: String,
    num_players: u8,
    input_size: i32,
    localport: u8,
) -> (r: RMercury<rbackend::Peer2Peer>)
    ensures
        !r.backend.is_closed(),
{
    let backend = rbackend::Peer2Peer::new(r_game, app_name, num_players, input_size, localport);

    RMercury { backend }
}

#[allow(non_snake_case)]
impl<T> RSession for RMercury<T> where T: RBackend {
    closed spec fn is_closed(&self) -> bool {
        self.backend.is_closed()
    }

    fn add_player(&mut self, player: RPlayer, player_handle: RPlayerHandle) -> RErrorCode {
        self.backend.AddPlayer(player, player_handle)
    }

    fn set_frame_delay(&mut self, player_handle: RPlayerHandle, frame_delay: i32) -> RErrorCode {
        self.backend.SetFrameDelay(player_handle, frame_delay)
    }

    fn idle(&mut self, timeout: i32) -> RErrorCode {
        self.backend.DoPoll(timeout)
    }

    fn add_local_input(&mut self, player_handle: RPlayerHandle) -> RErrorCode {
        self.backend.AddLocalInput(player_handle)
    }

    fn synchronize_input(&mut self) -> RErrorCode {
        self.backend.SyncInput()
    }

    fn advance_frame(&mut self) -> RErrorCode {
        self.backend.IncrementFrame()
    }

    fn client_chat(&mut self, text: String) -> RErrorCode {
        self.backend.Chat(text)
    }

    fn get_network_stats(&self, player_handle: RPlayerHandle) -> (RErrorCode, Option<
        RNetworkStats,
    >) {
        self.backend.GetNetworkStats(player_handle)
    }

    fn close_session(&mut self) -> RErrorCode {
        self.backend.CloseSession()
    }

    fn set_disconnect_timeout(&mut self, timeout: i32) -> RErrorCode {
        self.backend.SetDisconnectTimeout(timeout)
    }

    fn set_disconnect_notify_start(&mut self, timeout: i32) -> RErrorCode {
        self.backend.SetDisconnectNotifyStart(timeout)
    }
}

} // verus!

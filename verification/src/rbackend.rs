use crate::rsystem;
use crate::rsystem::{RErrorCode, RGame, RPlayer, RPlayerHandle};
use vstd::prelude::*;

verus! {

/// The policy surface a session topology implements. Every operation on a
/// closed session fails with the invalid-session condition rather than
/// silently doing nothing, and closing is terminal.
#[allow(non_snake_case)]
pub trait RBackend: Sized {
    /// Whether the session has been closed, as contracts see it.
    spec fn is_closed(&self) -> bool;

    fn DoPoll(&self, timeout: i32) -> (r: rsystem::RErrorCode)
        ensures
            self.is_closed() ==> r == RErrorCode::InvalidSession,
    ;

    fn AddPlayer(&mut self, player: RPlayer, player_handle: RPlayerHandle) -> (r: RErrorCode)
        ensures
            old(self).is_closed() ==> r == RErrorCode::InvalidSession && final(self).is_closed(),
    ;

    fn AddLocalInput(&mut self, player_handle: RPlayerHandle) -> (r: RErrorCode)
        ensures
            old(self).is_closed() ==> r == RErrorCode::InvalidSession && final(self).is_closed(),
    ;

    fn SyncInput(&mut self) -> (r: RErrorCode)
        ensures
            old(self).is_closed() ==> r == RErrorCode::InvalidSession && final(self).is_closed(),
    ;

    fn IncrementFrame(&mut self) -> (r: RErrorCode)
        ensures
            old(self).is_closed() ==> r == RErrorCode::InvalidSession && final(self).is_closed(),
    ;

    fn Chat(&mut self, text: String) -> (r: RErrorCode)
        ensures
            old(self).is_closed() ==> r == RErrorCode::InvalidSession && final(self).is_closed(),
    ;

    fn DisconnectPlayer(player_handle: RPlayerHandle) -> RErrorCode;

    fn GetNetworkStats(&self, player_handle: RPlayerHandle) -> (r: (RErrorCode, Option<
        rsystem::RNetworkStats,
    >))
        ensures
            self.is_closed() ==> r.0 == RErrorCode::InvalidSession,
    ;

    fn SetFrameDelay(&mut self, player_handle: RPlayerHandle, frame_delay: i32) -> (r: RErrorCode)
        ensures
            old(self).is_closed() ==> r == RErrorCode::InvalidSession && final(self).is_closed(),
    ;

    fn SetDisconnectTimeout(&mut self, timeout: i32) -> (r: RErrorCode)
        ensures
            old(self).is_closed() ==> r == RErrorCode::InvalidSession && final(self).is_closed(),
    ;

    fn SetDisconnectNotifyStart(&mut self, timeout: i32) -> (r: RErrorCode)
        ensures
            old(self).is_closed() ==> r == RErrorCode::InvalidSession && final(self).is_closed(),
    ;

    fn CloseSession(&mut self) -> (r: RErrorCode)
        ensures
            final(self).is_closed(),
            old(self).is_closed() ==> r == RErrorCode::InvalidSession,
    ;
}

/// The peer-to-peer session policy: every participant simulates and exchanges
/// input with every other.
pub struct Peer2Peer {
    closed: bool,
}

#[allow(non_snake_case)]
impl RBackend for Peer2Peer {
    closed spec fn is_closed(&self) -> bool {
        self.closed
    }

    fn DoPoll(&self, _timeout: i32) -> (r: rsystem::RErrorCode)
        ensures
            r == (if self.is_closed() {
                RErrorCode::InvalidSession
            } else {
                RErrorCode::Okay
            }),
    {
        if self.closed {
            RErrorCode::InvalidSession
        } else {
            RErrorCode::Okay
        }
    }

    fn AddPlayer(&mut self, _player: rsystem::RPlayer, _player_handle: i32) -> (r:
        rsystem::RErrorCode)
        ensures
            final(self).is_closed() == old(self).is_closed(),
            r == (if old(self).is_closed() {
                RErrorCode::InvalidSession
            } else {
                RErrorCode::Okay
            }),
    {
        if self.closed {
            RErrorCode::InvalidSession
        } else {
            RErrorCode::Okay
        }
    }

    fn AddLocalInput(&mut self, _player_handle: i32) -> (r: rsystem::RErrorCode)
        ensures
            final(self).is_closed() == old(self).is_closed(),
            r == (if old(self).is_closed() {
                RErrorCode::InvalidSession
            } else {
                RErrorCode::Okay
            }),
    {
        if self.closed {
            RErrorCode::InvalidSession
        } else {
            RErrorCode::Okay
        }
    }

    fn SyncInput(&mut self) -> (r: rsystem::RErrorCode)
        ensures
            final(self).is_closed() == old(self).is_closed(),
            r == (if old(self).is_closed() {
                RErrorCode::InvalidSession
            } else {
                RErrorCode::Okay
            }),
    {
        if self.closed {
            RErrorCode::InvalidSession
        } else {
            RErrorCode::Okay
        }
    }

    fn IncrementFrame(&mut self) -> (r: rsystem::RErrorCode)
        ensures
            final(self).is_closed() == old(self).is_closed(),
            r == (if old(self).is_closed() {
                RErrorCode::InvalidSession
            } else {
                RErrorCode::Okay
            }),
    {
        if self.closed {
            RErrorCode::InvalidSession
        } else {
            RErrorCode::Okay
        }
    }

    fn Chat(&mut self, _text: std::string::String) -> (r: rsystem::RErrorCode)
        ensures
            final(self).is_closed() == old(self).is_closed(),
            r == (if old(self).is_closed() {
                RErrorCode::InvalidSession
            } else {
                RErrorCode::Okay
            }),
    {
        if self.closed {
            RErrorCode::InvalidSession
        } else {
            RErrorCode::Okay
        }
    }

    fn DisconnectPlayer(_player_handle: i32) -> (r: rsystem::RErrorCode)
        ensures
            r == RErrorCode::Okay,
    {
        RErrorCode::Okay
    }

    fn GetNetworkStats(&self, _player_handle: RPlayerHandle) -> (r: (RErrorCode, Option<
        rsystem::RNetworkStats,
    >))
        ensures
            r.0 == (if self.is_closed() {
                RErrorCode::InvalidSession
            } else {
                RErrorCode::Okay
            }),
            r.1 is Some <==> !self.is_closed(),
    {
        if self.closed {
            (RErrorCode::InvalidSession, None)
        } else {
            (RErrorCode::Okay, Some(rsystem::RNetworkStats {  }))
        }
    }

    fn SetFrameDelay(&mut self, _player_handle: RPlayerHandle, _frame_delay: i32) -> (r:
        rsystem::RErrorCode)
        ensures
            final(self).is_closed() == old(self).is_closed(),
            r == (if old(self).is_closed() {
                RErrorCode::InvalidSession
            } else {
                RErrorCode::Okay
            }),
    {
        if self.closed {
            RErrorCode::InvalidSession
        } else {
            RErrorCode::Okay
        }
    }

    fn SetDisconnectTimeout(&mut self, _timeout: i32) -> (r: rsystem::RErrorCode)
        ensures
            final(self).is_closed() == old(self).is_closed(),
            r == (if old(self).is_closed() {
                RErrorCode::InvalidSession
            } else {
                RErrorCode::Okay
            }),
    {
        if self.closed {
            RErrorCode::InvalidSession
        } else {
            RErrorCode::Okay
        }
    }

    fn SetDisconnectNotifyStart(&mut self, _timeout: i32) -> (r: RErrorCode)
        ensures
            final(self).is_closed() == old(self).is_closed(),
            r == (if old(self).is_closed() {
                RErrorCode::InvalidSession
            } else {
                RErrorCode::Okay
            }),
    {
        if self.closed {
            RErrorCode::InvalidSession
        } else {
            RErrorCode::Okay
        }
    }

    fn CloseSession(&mut self) -> (r: rsystem::RErrorCode)
        ensures
            final(self).is_closed(),
            r == (if old(self).is_closed() {
                RErrorCode::InvalidSession
            } else {
                RErrorCode::Okay
            }),
    {
        if self.closed {
            RErrorCode::InvalidSession
        } else {
            self.closed = true;
            RErrorCode::Okay
        }
    }
}

impl Peer2Peer {
    /// Open a peer-to-peer session for the given game.
    pub fn new<TGame: RGame>(
        r_game: TGame,
        app_name: String,
        num_players: u8,
        input_size: i32,
        localport: u8,
    ) -> (r: Self)
        ensures
            !r.is_closed(),
    {
        Peer2Peer { closed: false }
    }
}

} // verus!

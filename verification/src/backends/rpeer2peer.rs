use crate::rbackend::RBackend;
use crate::rsystem;
use crate::rsystem::{RErrorCode, RGame, RPlayerHandle};
use vstd::prelude::*;

verus! {

/// The peer-to-peer session policy behind a local transport port.
pub struct Peer2Peer {
    closed: bool,
}

#[allow(non_snake_case)]
impl RBackend for Peer2Peer {
    closed spec fn is_closed(&self) -> bool {
        self.closed
    }

    fn DoPoll(&self, _timeout: i32) -> (r: rsystem::RErrorCode)
        ensures
            r == (if self.is_closed() {
                RErrorCode::InvalidSession
            } else {
                RErrorCode::Okay
            }),
    {
        if self.closed {
            RErrorCode::InvalidSession
        } else {
            RErrorCode::Okay
        }
    }

    fn AddPlayer(&mut self, _player: rsystem::RPlayer, _player_handle: i32) -> (r: rsystem::RErrorCode)
        ensures
            final(self).is_closed() == old(self).is_closed(),
            r == (if old(self).is_closed() {
                RErrorCode::InvalidSession
            } else {
                RErrorCode::Okay
            }),
    {
        if self.closed {
            RErrorCode::InvalidSession
        } else {
            RErrorCode::Okay
        }
    }

    fn AddLocalInput(&mut self, _player_handle: i32) -> (r: rsystem::RErrorCode)
        ensures
            final(self).is_closed() == old(self).is_closed(),
            r == (if old(self).is_closed() {
                RErrorCode::InvalidSession
            } else {
                RErrorCode::Okay
            }),
    {
        if self.closed {
            RErrorCode::InvalidSession
        } else {
            RErrorCode::Okay
        }
    }

    fn SyncInput(&mut self) -> (r: rsystem::RErrorCode)
        ensures
            final(self).is_closed() == old(self).is_closed(),
            r == (if old(self).is_closed() {
                RErrorCode::InvalidSession
            } else {
                RErrorCode::Okay
            }),
    {
        if self.closed {
            RErrorCode::InvalidSession
        } else {
            RErrorCode::Okay
        }
    }

    fn IncrementFrame(&mut self) -> (r: rsystem::RErrorCode)
        ensures
            final(self).is_closed() == old(self).is_closed(),
            r == (if old(self).is_closed() {
                RErrorCode::InvalidSession
            } else {
                RErrorCode::Okay
            }),
    {
        if self.closed {
            RErrorCode::InvalidSession
        } else {
            RErrorCode::Okay
        }
    }

    fn Chat(&mut self, _text: std::string::String) -> (r: rsystem::RErrorCode)
        ensures
            final(self).is_closed() == old(self).is_closed(),
            r == (if old(self).is_closed() {
                RErrorCode::InvalidSession
            } else {
                RErrorCode::Okay
            }),
    {
        if self.closed {
            RErrorCode::InvalidSession
        } else {
            RErrorCode::Okay
        }
    }

    fn DisconnectPlayer(_player_handle: i32) -> (r: rsystem::RErrorCode)
        ensures
            r == RErrorCode::Okay,
    {
        RErrorCode::Okay
    }

    fn GetNetworkStats(&self, _player_handle: RPlayerHandle) -> (r: (RErrorCode, Option<
        rsystem::RNetworkStats,
    >))
        ensures
            r.0 == (if self.is_closed() {
                RErrorCode::InvalidSession
            } else {
                RErrorCode::Okay
            }),
            r.1 is Some <==> !self.is_closed(),
    {
        if self.closed {
            (RErrorCode::InvalidSession, None)
        } else {
            (RErrorCode::Okay, Some(rsystem::RNetworkStats {  }))
        }
    }

    fn SetFrameDelay(&mut self, _player_handle: RPlayerHandle, _frame_delay: i32) -> (r: rsystem::RErrorCode)
        ensures
            final(self).is_closed() == old(self).is_closed(),
            r == (if old(self).is_closed() {
                RErrorCode::InvalidSession
            } else {
                RErrorCode::Okay
            }),
    {
        if self.closed {
            RErrorCode::InvalidSession
        } else {
            RErrorCode::Okay
        }
    }

    fn SetDisconnectTimeout(&mut self, _timeout: i32) -> (r: rsystem::RErrorCode)
        ensures
            final(self).is_closed() == old(self).is_closed(),
            r == (if old(self).is_closed() {
                RErrorCode::InvalidSession
            } else {
                RErrorCode::Okay
            }),
    {
        if self.closed {
            RErrorCode::InvalidSession
        } else {
            RErrorCode::Okay
        }
    }

    fn SetDisconnectNotifyStart(&mut self, _timeout: i32) -> (r: rsystem::RErrorCode)
        ensures
            final(self).is_closed() == old(self).is_closed(),
            r == (if old(self).is_closed() {
                RErrorCode::InvalidSession
            } else {
                RErrorCode::Okay
            }),
    {
        if self.closed {
            RErrorCode::InvalidSession
        } else {
            RErrorCode::Okay
        }
    }

    fn CloseSession(&mut self) -> (r: rsystem::RErrorCode)
        ensures
            final(self).is_closed(),
            r == (if old(self).is_closed() {
                RErrorCode::InvalidSession
            } else {
                RErrorCode::Okay
            }),
    {
        if self.closed {
            RErrorCode::InvalidSession
        } else {
            self.closed = true;
            RErrorCode::Okay
        }
    }
}

impl Peer2Peer {
    /// Open a peer-to-peer session for the given game on a local port.
    pub fn new<TGame: RGame>(
        r_game: TGame,
        app_name: String,
        num_players: u8,
        input_size: i32,
        localport: u8,
    ) -> (r: Self)
        ensures
            !r.is_closed(),
    {
        Peer2Peer { closed: false }
    }
}

} // verus!

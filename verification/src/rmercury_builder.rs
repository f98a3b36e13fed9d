use crate::rmercury::{MercuryType, RMercury};
use crate::rmercury_game_interface::RMercuryGameInterface;
use crate::rmercury_input::RMercuryInput;
use core::marker::PhantomData;
use vstd::prelude::*;

verus! {

/// The number of players a session is built with when none is chosen.
pub const DEFAULT_NUM_PLAYERS: usize = 2;

/// The number of spectators a session allows when none is chosen.
pub const DEFAULT_NUM_SPECTATORS: usize = 4;

/// The local input frame delay a session is built with when none is chosen.
pub const DEFAULT_LOCAL_INPUT_DELAY: usize = 3;

/// The simulation rate a session is built with when none is chosen.
pub const DEFAULT_SIM_EXECUTIONS_PER_SECOND: usize = 60;

/// A builder for starting a session. Requires a game interface to execute
/// game logic, the type for inputs, as well as the type for game states. The
/// builder is a move-only value that `build` consumes, so it cannot be used
/// twice.
pub struct RMercuryBuilder<TGameInterface, TGameInput, TGameState> where
    TGameInterface: RMercuryGameInterface<TGameState, TGameInput>,
    TGameInput: RMercuryInput,
    TGameInput: Copy,
    TGameInput: PartialEq,
    TGameState: Copy,
 {
    m_type: MercuryType,
    number_of_players: usize,
    number_of_spectators: usize,
    local_input_delay: usize,
    sim_executions_per_second: usize,
    game_interface: TGameInterface,
    phantom_input: PhantomData<TGameInput>,
    phantom_state: PhantomData<TGameState>,
}

impl<TGameInterface, TGameInput, TGameState> RMercuryBuilder<
    TGameInterface,
    TGameInput,
    TGameState,
> where
    TGameInterface: RMercuryGameInterface<TGameState, TGameInput>,
    TGameInput: RMercuryInput,
    TGameInput: Copy,
    TGameInput: PartialEq,
    TGameState: Copy,
 {
    /// The type of session to build.
    pub closed spec fn m_type_spec(self) -> MercuryType {
        self.m_type
    }

    /// The number of players for the session.
    pub closed spec fn players_spec(self) -> int {
        self.number_of_players as int
    }

    /// The number of spectators to allow.
    pub closed spec fn spectators_spec(self) -> int {
        self.number_of_spectators as int
    }

    /// The number of frames to delay local input.
    pub closed spec fn delay_spec(self) -> int {
        self.local_input_delay as int
    }

    /// The number of times to advance the game per second.
    pub closed spec fn hz_spec(self) -> int {
        self.sim_executions_per_second as int
    }

    /// The game interface the session will interact with.
    pub closed spec fn interface_spec(self) -> TGameInterface {
        self.game_interface
    }

    /// Create a new builder with the default network settings.
    pub fn new(game_interface: TGameInterface) -> (r: Self)
        ensures
            r.m_type_spec() == MercuryType::Peer2Peer,
            r.players_spec() == DEFAULT_NUM_PLAYERS,
            r.spectators_spec() == DEFAULT_NUM_SPECTATORS,
            r.delay_spec() == DEFAULT_LOCAL_INPUT_DELAY,
            r.hz_spec() == DEFAULT_SIM_EXECUTIONS_PER_SECOND,
            r.interface_spec() == game_interface,
    {
        Self {
            m_type: MercuryType::Peer2Peer,
            number_of_players: DEFAULT_NUM_PLAYERS,
            number_of_spectators: DEFAULT_NUM_SPECTATORS,
            local_input_delay: DEFAULT_LOCAL_INPUT_DELAY,
            sim_executions_per_second: DEFAULT_SIM_EXECUTIONS_PER_SECOND,
            game_interface,
            phantom_input: PhantomData,
            phantom_state: PhantomData,
        }
    }

    /// Sets the type of the network session.
    pub fn with_type(self, m_type: MercuryType) -> (r: Self)
        ensures
            r.m_type_spec() == m_type,
            r.players_spec() == self.players_spec(),
            r.spectators_spec() == self.spectators_spec(),
            r.delay_spec() == self.delay_spec(),
            r.hz_spec() == self.hz_spec(),
            r.interface_spec() == self.interface_spec(),
    {
        let mut builder = self;
        builder.m_type = m_type;
        builder
    }

    /// Sets the number of players for the network session. A zero count is
    /// invalid and leaves the setting unchanged.
    pub fn with_players(self, num_players: usize) -> (r: Self)
        ensures
            r.players_spec() == (if num_players > 0 {
                num_players as int
            } else {
                self.players_spec()
            }),
            r.m_type_spec() == self.m_type_spec(),
            r.spectators_spec() == self.spectators_spec(),
            r.delay_spec() == self.delay_spec(),
            r.hz_spec() == self.hz_spec(),
            r.interface_spec() == self.interface_spec(),
    {
        let mut builder = self;
        if num_players > 0 {
            builder.number_of_players = num_players;
        }
        builder
    }

    /// Sets the number of spectators allowed for the network session.
    pub fn with_spectators(self, num_spectators: usize) -> (r: Self)
        ensures
            r.spectators_spec() == num_spectators,
            r.m_type_spec() == self.m_type_spec(),
            r.players_spec() == self.players_spec(),
            r.delay_spec() == self.delay_spec(),
            r.hz_spec() == self.hz_spec(),
            r.interface_spec() == self.interface_spec(),
    {
        let mut builder = self;
        builder.number_of_spectators = num_spectators;
        builder
    }

    /// Sets the number of frames to delay local input for the network
    /// session.
    pub fn with_local_input_delay(self, local_input_delay: usize) -> (r: Self)
        ensures
            r.delay_spec() == local_input_delay,
            r.m_type_spec() == self.m_type_spec(),
            r.players_spec() == self.players_spec(),
            r.spectators_spec() == self.spectators_spec(),
            r.hz_spec() == self.hz_spec(),
            r.interface_spec() == self.interface_spec(),
    {
        let mut builder = self;
        builder.local_input_delay = local_input_delay;
        builder
    }

    /// Sets the number of frames to execute per second for the simulation,
    /// minimum of 1. A zero rate is invalid and leaves the setting unchanged.
    pub fn with_sim_executions_per_second(self, hz: usize) -> (r: Self)
        ensures
            r.hz_spec() == (if hz > 0 {
                hz as int
            } else {
                self.hz_spec()
            }),
            r.m_type_spec() == self.m_type_spec(),
            r.players_spec() == self.players_spec(),
            r.spectators_spec() == self.spectators_spec(),
            r.delay_spec() == self.delay_spec(),
            r.interface_spec() == self.interface_spec(),
    {
        let mut builder = self;
        if hz > 0 {
            builder.sim_executions_per_second = hz;
        }
        builder
    }

    /// Build the configured session instance, consuming the builder.
    pub fn build(self) -> (r: RMercury<TGameInterface, TGameInput, TGameState>)
        requires
            self.hz_spec() > 0,
        ensures
            r.m_type_spec() == self.m_type_spec(),
            r.players_spec() == self.players_spec(),
            r.spectators_spec() == self.spectators_spec(),
            r.hz_spec() == self.hz_spec(),
            r.delay_spec() == self.delay_spec(),
            r.current_frame_spec() == 0,
            r.last_confirmed_spec() == 0,
            r.frame_duration_spec() == crate::rmercury::MILLISECONDS_IN_SECOND as int
                / self.hz_spec(),
            r.inputs_seq().len() == 0,
            r.manager().local_watermark() == 0,
            r.manager().channels_seq().len() == 0,
            r.interface_spec() == self.interface_spec(),
            !r.rollback_pending_spec(),
    {
        RMercury::<TGameInterface, TGameInput, TGameState>::new(
            self.m_type,
            self.number_of_players,
            self.number_of_spectators,
            self.sim_executions_per_second,
            self.local_input_delay,
            self.game_interface,
        )
    }
}

} // verus!

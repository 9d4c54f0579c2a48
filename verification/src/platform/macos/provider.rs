//! What is asked of the supported players.

use vstd::prelude::*;

use crate::platform::state::{optional_state, PlayerState, StateModel};

verus! {

/// Reads the players' state by running scripts against them.
#[derive(Debug, Clone, Copy)]
pub struct AppleScriptProvider;

/// The state of each supported player, as one query reads it. A player that is not running has
/// none.
#[derive(Debug, PartialEq)]
pub struct AllPlayerStates {
    pub music: Option<PlayerState>,
    pub spotify: Option<PlayerState>,
}

/// What an [`AllPlayerStates`] says.
pub struct AllStatesModel {
    pub music: Option<StateModel>,
    pub spotify: Option<StateModel>,
}

impl View for AllPlayerStates {
    type V = AllStatesModel;

    open spec fn view(&self) -> AllStatesModel {
        AllStatesModel {
            music: optional_state(self.music),
            spotify: optional_state(self.spotify),
        }
    }
}

/// The answer to a query says the state of each player that has one.
pub proof fn answers_say_all(all: AllPlayerStates)
    ensures
        all@.music is Some <==> all.music is Some,
        all.music matches Some(state) ==> all@.music == Some(state@),
        all@.spotify is Some <==> all.spotify is Some,
        all.spotify matches Some(state) ==> all@.spotify == Some(state@),
{
}

} // verus!

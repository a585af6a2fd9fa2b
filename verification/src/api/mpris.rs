//! The MPRIS surface offered to the host: on Linux it drives the module's own
//! player; elsewhere it accepts every call and does nothing.
use vstd::prelude::*;
use crate::models::mpris::{MprisMetadata, MprisPlaybackState};
use crate::platforms::linux::mpris::{MprisCommand, MprisManager, PlayerSetup, setup_is_initial};

verus! {

pub struct Mpris {
    manager: Option<MprisManager>,
}

impl Mpris {
    pub closed spec fn has_player(self) -> bool {
        self.manager is Some
    }

    pub closed spec fn started(self) -> bool {
        self.manager matches Some(m) && m.is_started()
    }

    /// The surface of a player.
    pub fn from_manager(manager: MprisManager) -> (r: Mpris)
        ensures
            r.has_player(),
            r.started() == manager.is_started(),
    {
        Mpris { manager: Some(manager) }
    }

    /// The surface where there is no player.
    pub fn new_dummy() -> (r: Mpris)
        ensures
            !r.has_player(),
            !r.started(),
    {
        Mpris { manager: None }
    }

    /// Starts the player, if there is one, and gives how it is published.
    pub fn init(&mut self) -> (r: Option<PlayerSetup>)
        ensures
            final(self).has_player() == old(self).has_player(),
            final(self).started() == old(self).has_player(),
            r is Some <==> old(self).has_player(),
            r matches Some(s) ==> setup_is_initial(s),
    {
        match &mut self.manager {
            Some(m) => Some(m.init()),
            None => None,
        }
    }

    /// The command to hand to the player for a new track, if there is a started player.
    pub fn update_metadata(&self, metadata: Option<MprisMetadata>) -> (r: Option<MprisCommand>)
        ensures
            self.started() ==> r == Some(MprisCommand::UpdateMetadata(metadata)),
            !self.started() ==> r is None,
    {
        match &self.manager {
            Some(m) => m.update_metadata(metadata),
            None => None,
        }
    }

    /// The command to hand to the player for a playback update, if there is a
    /// started player.
    pub fn update_playback_state(&self, state: MprisPlaybackState) -> (r: Option<MprisCommand>)
        ensures
            self.started() ==> r == Some(MprisCommand::UpdatePlaybackState(state)),
            !self.started() ==> r is None,
    {
        match &self.manager {
            Some(m) => m.update_playback_state(state),
            None => None,
        }
    }
}

} // verus!

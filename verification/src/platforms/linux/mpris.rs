//! The MPRIS player that the module serves for the host application: its
//! state, how the host's updates change it, and the property changes that are
//! announced on the bus for each update.
use vstd::prelude::*;
use crate::models::media::FULL_VOLUME_BITS;
use crate::models::mpris::{MprisMetadata, MprisPlaybackState};
use crate::text::{is_ascii_alpha, is_ascii_digit, str_eq, concat};

verus! {

/// The bus name suffix and desktop entry of the player.
pub const MPRIS_APP_NAME: &'static str = "streamq";

/// The identity that the player reports.
pub const MPRIS_IDENTITY: &'static str = "StreamQ";

/// The bit pattern of a playback rate of 1.0: the only rate the player has.
pub const NORMAL_RATE_BITS: u64 = 0x3FF0_0000_0000_0000;

/// Track ids are published under this object path.
pub const TRACK_PATH_PREFIX: &'static str = "/io/streamq/track/";

/// The playback status of the player.
#[derive(Clone, Copy, Debug, PartialEq, Eq, Structural)]
pub enum PlayStatus {
    Playing,
    Paused,
    Stopped,
}

/// The loop status of the player.
#[derive(Clone, Copy, Debug, PartialEq, Eq, Structural)]
pub enum Repeat {
    Off,
    Track,
    Playlist,
}

/// The status that the host names: `"playing"`, `"paused"`, anything else stops.
pub open spec fn spec_parse_status(s: Seq<char>) -> PlayStatus {
    if s == "playing"@ {
        PlayStatus::Playing
    } else if s == "paused"@ {
        PlayStatus::Paused
    } else {
        PlayStatus::Stopped
    }
}

/// The loop status that the host names: `"track"`, `"playlist"`, anything else is none.
pub open spec fn spec_parse_repeat(s: Seq<char>) -> Repeat {
    if s == "track"@ {
        Repeat::Track
    } else if s == "playlist"@ {
        Repeat::Playlist
    } else {
        Repeat::Off
    }
}

/// The name under which a loop status asked by a desktop control is handed to
/// the host: the MPRIS name of the status in lowercase.
pub open spec fn spec_repeat_name(r: Repeat) -> Seq<char> {
    match r {
        Repeat::Off => "none"@,
        Repeat::Track => "track"@,
        Repeat::Playlist => "playlist"@,
    }
}

pub fn parse_status(s: &str) -> (r: PlayStatus)
    ensures
        r == spec_parse_status(s@),
{
    if str_eq(s, "playing") {
        PlayStatus::Playing
    } else if str_eq(s, "paused") {
        PlayStatus::Paused
    } else {
        PlayStatus::Stopped
    }
}

pub fn parse_repeat(s: &str) -> (r: Repeat)
    ensures
        r == spec_parse_repeat(s@),
{
    if str_eq(s, "track") {
        Repeat::Track
    } else if str_eq(s, "playlist") {
        Repeat::Playlist
    } else {
        Repeat::Off
    }
}

pub fn repeat_name(r: Repeat) -> (s: String)
    ensures
        s@ == spec_repeat_name(r),
{
    match r {
        Repeat::Off => "none".to_owned(),
        Repeat::Track => "track".to_owned(),
        Repeat::Playlist => "playlist".to_owned(),
    }
}

/// A loop status that a desktop control asks for, handed to the host by its
/// name, comes back as the same status when the host reports it.
pub proof fn lemma_repeat_name_round_trip(r: Repeat)
    ensures
        spec_parse_repeat(spec_repeat_name(r)) == r,
{
    reveal_strlit("none");
    reveal_strlit("track");
    reveal_strlit("playlist");
    match r {
        Repeat::Off => {
            assert("none"@.len() != "track"@.len());
            assert("none"@.len() != "playlist"@.len());
        },
        Repeat::Track => {},
        Repeat::Playlist => {
            assert("playlist"@.len() != "track"@.len());
        },
    }
}

/// A character allowed in an element of a D-Bus object path.
pub open spec fn is_path_char(c: char) -> bool {
    is_ascii_alpha(c) || is_ascii_digit(c) || c == '_'
}

/// A D-Bus object path: `/`, or `/` and elements of path characters separated
/// by single slashes, with no slash at the end.
pub open spec fn valid_object_path(p: Seq<char>) -> bool {
    &&& p.len() >= 1
    &&& p[0] == '/'
    &&& p.len() > 1 ==> p[p.len() - 1] != '/'
    &&& forall|i: int| 1 <= i < p.len() ==> is_path_char(#[trigger] p[i]) || (p[i] == '/' && p[i - 1] != '/')
}

/// The object path of a track id.
pub open spec fn track_path_of(id: Seq<char>) -> Seq<char> {
    TRACK_PATH_PREFIX@ + id
}

/// `TrackId::try_from` (mpris-server), which accepts a string exactly when it
/// is a D-Bus object path as zvariant's `ObjectPath` validation states it.
#[verifier::external_body]
fn is_object_path(path: &str) -> (r: bool)
    ensures
        r == valid_object_path(path@),
{
    mpris_server::TrackId::try_from(path).is_ok()
}

/// Whether a track id of the host can be published: its object path is valid.
pub fn track_id_is_valid(id: &str) -> (r: bool)
    ensures
        r == valid_object_path(track_path_of(id@)),
{
    let path = concat(TRACK_PATH_PREFIX, id);
    is_object_path(path.as_str())
}

/// The metadata that the player publishes for a track.
#[derive(Clone, Debug)]
pub struct TrackMetadata {
    pub track_id: String,
    pub title: String,
    pub album: String,
    /// The artist, published only when the host names one.
    pub artist: Option<String>,
    /// The bit pattern of the length in milliseconds.
    pub length: Option<u64>,
    pub art_url: Option<String>,
    pub url: Option<String>,
}

impl TrackMetadata {
    pub fn duplicate(&self) -> (r: TrackMetadata)
        ensures
            r == *self,
    {
        TrackMetadata {
            track_id: self.track_id.clone(),
            title: self.title.clone(),
            album: self.album.clone(),
            artist: clone_opt(&self.artist),
            length: self.length,
            art_url: clone_opt(&self.art_url),
            url: clone_opt(&self.url),
        }
    }
}

/// `t` is what the player publishes for the host's track `m`.
pub open spec fn describes(t: TrackMetadata, m: MprisMetadata) -> bool {
    &&& t.track_id@ == track_path_of(m.id@)
    &&& t.title@ == m.title@
    &&& t.album@ == m.album@
    &&& (if m.artist@.len() == 0 { t.artist is None } else { t.artist is Some && t.artist.unwrap()@ == m.artist@ })
    &&& t.length == m.length
    &&& t.art_url == m.art_url
    &&& t.url == m.url
}

/// A property of the player whose change is announced on the bus.
#[derive(Clone, Debug)]
pub enum PropertyChange {
    PlaybackStatus(PlayStatus),
    /// The new metadata; none for the empty metadata.
    Metadata(Option<TrackMetadata>),
    Volume(u64),
    Shuffle(bool),
    LoopStatus(Repeat),
}

/// The state of the player. `position` is the bit pattern of the position in
/// seconds at the moment the host's clock for it was last restarted; `volume`
/// is the bit pattern of the volume.
#[derive(Clone, Debug)]
pub struct MprisPlayerState {
    pub status: PlayStatus,
    pub metadata: Option<TrackMetadata>,
    pub position: u64,
    pub volume: u64,
    pub shuffle: bool,
    pub loop_status: Repeat,
}

/// The answer to an update: the property changes to announce, and whether the
/// clock of the position restarts now.
pub struct MprisUpdate {
    pub changes: Vec<PropertyChange>,
    pub restart_clock: bool,
}

/// The changes announced for a playback update, in this order: status, volume,
/// shuffle, loop status, each when the update carries it.
pub open spec fn playback_changes(u: MprisPlaybackState) -> Seq<PropertyChange> {
    status_change(u) + volume_change(u) + shuffle_change(u) + repeat_change(u)
}

pub open spec fn status_change(u: MprisPlaybackState) -> Seq<PropertyChange> {
    match u.status {
        Some(s) => seq![PropertyChange::PlaybackStatus(spec_parse_status(s@))],
        None => seq![],
    }
}

pub open spec fn volume_change(u: MprisPlaybackState) -> Seq<PropertyChange> {
    match u.volume {
        Some(v) => seq![PropertyChange::Volume(v)],
        None => seq![],
    }
}

pub open spec fn shuffle_change(u: MprisPlaybackState) -> Seq<PropertyChange> {
    match u.shuffle {
        Some(b) => seq![PropertyChange::Shuffle(b)],
        None => seq![],
    }
}

pub open spec fn repeat_change(u: MprisPlaybackState) -> Seq<PropertyChange> {
    match u.repeat {
        Some(x) => seq![PropertyChange::LoopStatus(spec_parse_repeat(x@))],
        None => seq![],
    }
}

/// The player after a playback update, `settled` being the position that the
/// clock gives at that moment.
pub open spec fn after_playback(s: MprisPlayerState, u: MprisPlaybackState, settled: u64) -> MprisPlayerState {
    MprisPlayerState {
        status: match u.status {
            Some(x) => spec_parse_status(x@),
            None => s.status,
        },
        metadata: s.metadata,
        position: match u.position {
            Some(p) => p,
            None => if u.status is Some { settled } else { s.position },
        },
        volume: match u.volume {
            Some(v) => v,
            None => s.volume,
        },
        shuffle: match u.shuffle {
            Some(b) => b,
            None => s.shuffle,
        },
        loop_status: match u.repeat {
            Some(x) => spec_parse_repeat(x@),
            None => s.loop_status,
        },
    }
}

/// The player after the host clears its track.
pub open spec fn after_clear(s: MprisPlayerState) -> MprisPlayerState {
    MprisPlayerState {
        status: PlayStatus::Stopped,
        metadata: None,
        position: 0,
        volume: s.volume,
        shuffle: false,
        loop_status: Repeat::Off,
    }
}

/// An update that carries nothing leaves the player as it is, announces
/// nothing and keeps the clock running.
pub proof fn lemma_empty_update_is_silent(s: MprisPlayerState, u: MprisPlaybackState, settled: u64)
    requires
        u.status is None,
        u.position is None,
        u.volume is None,
        u.shuffle is None,
        u.repeat is None,
    ensures
        after_playback(s, u, settled) == s,
        playback_changes(u) == Seq::<PropertyChange>::empty(),
{
    assert(playback_changes(u) =~= Seq::<PropertyChange>::empty());
}

/// Clearing the track twice leaves the player as clearing it once.
pub proof fn lemma_clear_idempotent(s: MprisPlayerState)
    ensures
        after_clear(after_clear(s)) == after_clear(s),
{
}

/// A playback update never touches the published track.
pub proof fn lemma_playback_keeps_track(s: MprisPlayerState, u: MprisPlaybackState, settled: u64)
    ensures
        after_playback(s, u, settled).metadata == s.metadata,
{
}

fn playback_change_list(update: &MprisPlaybackState) -> (r: Vec<PropertyChange>)
    ensures
        r@ == playback_changes(*update),
{
    let mut changes: Vec<PropertyChange> = Vec::new();
    if let Some(x) = &update.status {
        changes.push(PropertyChange::PlaybackStatus(parse_status(x.as_str())));
    }
    proof {
        assert(changes@ =~= status_change(*update));
    }
    let ghost c1 = changes@;
    if let Some(v) = update.volume {
        changes.push(PropertyChange::Volume(v));
    }
    proof {
        assert(changes@ =~= c1 + volume_change(*update));
    }
    let ghost c2 = changes@;
    if let Some(b) = update.shuffle {
        changes.push(PropertyChange::Shuffle(b));
    }
    proof {
        assert(changes@ =~= c2 + shuffle_change(*update));
    }
    let ghost c3 = changes@;
    if let Some(x) = &update.repeat {
        changes.push(PropertyChange::LoopStatus(parse_repeat(x.as_str())));
    }
    proof {
        assert(changes@ =~= c3 + repeat_change(*update));
    }
    changes
}

fn clone_opt(o: &Option<String>) -> (r: Option<String>)
    ensures
        r == *o,
{
    match o {
        Some(s) => Some(s.clone()),
        None => None,
    }
}

impl MprisPlayerState {
    /// The player before any update: stopped, without a track, at position
    /// zero, at full volume, without shuffle or loop.
    pub fn new() -> (r: MprisPlayerState)
        ensures
            r.status == PlayStatus::Stopped,
            r.metadata is None,
            r.position == 0,
            r.volume == FULL_VOLUME_BITS,
            !r.shuffle,
            r.loop_status == Repeat::Off,
    {
        MprisPlayerState {
            status: PlayStatus::Stopped,
            metadata: None,
            position: 0,
            volume: FULL_VOLUME_BITS,
            shuffle: false,
            loop_status: Repeat::Off,
        }
    }

    /// Publishes the host's track, or clears the player when there is none.
    ///
    /// With a track, the metadata is replaced and the volume taken when the
    /// host gives one; the changes are the metadata, then the volume. Without
    /// one, the player stops, forgets its track, position, shuffle and loop
    /// status, restarts the clock, and announces all four.
    pub fn update_metadata(&mut self, metadata: Option<MprisMetadata>) -> (r: MprisUpdate)
        requires
            metadata is Some ==> valid_object_path(track_path_of(metadata.unwrap().id@)),
        ensures
            match metadata {
                Some(m) => {
                    &&& final(self).metadata is Some
                    &&& describes(final(self).metadata.unwrap(), m)
                    &&& final(self).volume == (match m.volume { Some(v) => v, None => old(self).volume })
                    &&& final(self).status == old(self).status
                    &&& final(self).position == old(self).position
                    &&& final(self).shuffle == old(self).shuffle
                    &&& final(self).loop_status == old(self).loop_status
                    &&& !r.restart_clock
                    &&& r.changes@.len() == (if m.volume is Some { 2int } else { 1int })
                    &&& r.changes@[0] == PropertyChange::Metadata(final(self).metadata)
                    &&& m.volume matches Some(v) ==> r.changes@[1] == PropertyChange::Volume(v)
                },
                None => {
                    &&& *final(self) == after_clear(*old(self))
                    &&& final(self).status == PlayStatus::Stopped
                    &&& final(self).metadata is None
                    &&& final(self).position == 0
                    &&& final(self).volume == old(self).volume
                    &&& !final(self).shuffle
                    &&& final(self).loop_status == Repeat::Off
                    &&& r.restart_clock
                    &&& r.changes@ == seq![
                        PropertyChange::PlaybackStatus(PlayStatus::Stopped),
                        PropertyChange::Metadata(None),
                        PropertyChange::Shuffle(false),
                        PropertyChange::LoopStatus(Repeat::Off),
                    ]
                },
            },
    {
        match metadata {
            Some(m) => {
                let track_id = concat(TRACK_PATH_PREFIX, m.id.as_str());
                let artist = if m.artist.as_str().is_empty() { None } else { Some(m.artist.clone()) };
                let t = TrackMetadata {
                    track_id,
                    title: m.title.clone(),
                    album: m.album.clone(),
                    artist,
                    length: m.length,
                    art_url: clone_opt(&m.art_url),
                    url: clone_opt(&m.url),
                };
                let mut changes: Vec<PropertyChange> = Vec::new();
                changes.push(PropertyChange::Metadata(Some(t.duplicate())));
                self.metadata = Some(t);
                if let Some(v) = m.volume {
                    self.volume = v;
                    changes.push(PropertyChange::Volume(v));
                }
                MprisUpdate { changes, restart_clock: false }
            },
            None => {
                self.status = PlayStatus::Stopped;
                self.metadata = None;
                self.position = 0;
                self.shuffle = false;
                self.loop_status = Repeat::Off;
                let changes = vec![
                    PropertyChange::PlaybackStatus(PlayStatus::Stopped),
                    PropertyChange::Metadata(None),
                    PropertyChange::Shuffle(false),
                    PropertyChange::LoopStatus(Repeat::Off),
                ];
                MprisUpdate { changes, restart_clock: true }
            },
        }
    }

    /// Applies a playback update of the host.
    ///
    /// A position restarts the clock at that position. A status without a
    /// position first settles the position at `settled_position`, the position
    /// that the clock gives now, and restarts the clock there. Status, volume,
    /// shuffle and loop status are taken when given, and each given one is
    /// announced (see `playback_changes`).
    pub fn update_playback_state(&mut self, update: &MprisPlaybackState, settled_position: u64) -> (r: MprisUpdate)
        ensures
            final(self).position == (match update.position {
                Some(p) => p,
                None => if update.status is Some { settled_position } else { old(self).position },
            }),
            final(self).status == (match update.status {
                Some(s) => spec_parse_status(s@),
                None => old(self).status,
            }),
            final(self).volume == (match update.volume {
                Some(v) => v,
                None => old(self).volume,
            }),
            final(self).shuffle == (match update.shuffle {
                Some(b) => b,
                None => old(self).shuffle,
            }),
            final(self).loop_status == (match update.repeat {
                Some(x) => spec_parse_repeat(x@),
                None => old(self).loop_status,
            }),
            final(self).metadata == old(self).metadata,
            r.restart_clock == (update.position is Some || update.status is Some),
            r.changes@ == playback_changes(*update),
            *final(self) == after_playback(*old(self), *update, settled_position),
    {
        let position = match update.position {
            Some(p) => p,
            None => if update.status.is_some() { settled_position } else { self.position },
        };
        let status = match &update.status {
            Some(x) => parse_status(x.as_str()),
            None => self.status,
        };
        let volume = match update.volume {
            Some(v) => v,
            None => self.volume,
        };
        let shuffle = match update.shuffle {
            Some(b) => b,
            None => self.shuffle,
        };
        let loop_status = match &update.repeat {
            Some(x) => parse_repeat(x.as_str()),
            None => self.loop_status,
        };
        self.position = position;
        self.status = status;
        self.volume = volume;
        self.shuffle = shuffle;
        self.loop_status = loop_status;
        let changes = playback_change_list(update);
        let restart_clock = update.position.is_some() || update.status.is_some();
        MprisUpdate { changes, restart_clock }
    }
}

/// An update of the host for the player.
#[derive(Clone, Debug)]
pub enum MprisCommand {
    UpdateMetadata(Option<MprisMetadata>),
    UpdatePlaybackState(MprisPlaybackState),
}

/// A command that the player can apply: a track, if any, has an id that makes
/// a valid object path.
pub open spec fn command_is_valid(cmd: MprisCommand) -> bool {
    match cmd {
        MprisCommand::UpdateMetadata(Some(m)) => valid_object_path(track_path_of(m.id@)),
        _ => true,
    }
}

impl MprisPlayerState {
    /// Applies one command of the host (see `update_metadata` and
    /// `update_playback_state`).
    pub fn handle(&mut self, cmd: MprisCommand, settled_position: u64) -> (r: MprisUpdate)
        requires
            command_is_valid(cmd),
        ensures
            match cmd {
                MprisCommand::UpdateMetadata(None) => *final(self) == after_clear(*old(self)) && r.restart_clock,
                MprisCommand::UpdateMetadata(Some(m)) => final(self).metadata is Some && describes(final(self).metadata.unwrap(), m)
                    && !r.restart_clock,
                MprisCommand::UpdatePlaybackState(u) => *final(self) == after_playback(*old(self), u, settled_position)
                    && r.changes@ == playback_changes(u),
            },
    {
        match cmd {
            MprisCommand::UpdateMetadata(m) => self.update_metadata(m),
            MprisCommand::UpdatePlaybackState(u) => self.update_playback_state(&u, settled_position),
        }
    }
}

/// Whether the host's track can be published; an invalid id stops the player.
pub fn command_is_publishable(cmd: &MprisCommand) -> (r: bool)
    ensures
        r == command_is_valid(*cmd),
{
    match cmd {
        MprisCommand::UpdateMetadata(Some(m)) => track_id_is_valid(m.id.as_str()),
        _ => true,
    }
}

/// What a started player publishes: the bus name it takes
/// (`org.mpris.MediaPlayer2.` followed by it), its identity and desktop entry,
/// what it offers to desktop controls, its playback rate (bit pattern; also
/// its least and greatest rate) and its state before any update.
pub struct PlayerSetup {
    pub bus_name: String,
    pub identity: String,
    pub desktop_entry: String,
    pub can_quit: bool,
    pub can_raise: bool,
    pub has_track_list: bool,
    pub can_set_fullscreen: bool,
    /// Play, pause, next, previous, seek and control are all offered.
    pub can_control: bool,
    pub rate: u64,
    pub player: MprisPlayerState,
}

/// The player as it starts: named `streamq`, identified as `StreamQ` with the
/// desktop entry `streamq`, neither quitting, raising, listing tracks nor
/// going full screen, offering every playback control at the normal rate,
/// and stopped without a track, at position zero, at full volume, without
/// shuffle or loop.
pub open spec fn setup_is_initial(r: PlayerSetup) -> bool {
    &&& r.bus_name@ == "streamq"@
    &&& r.identity@ == "StreamQ"@
    &&& r.desktop_entry@ == "streamq"@
    &&& !r.can_quit && !r.can_raise && !r.has_track_list && !r.can_set_fullscreen
    &&& r.can_control
    &&& r.rate == NORMAL_RATE_BITS
    &&& r.player.status == PlayStatus::Stopped
    &&& r.player.metadata is None
    &&& r.player.position == 0
    &&& r.player.volume == FULL_VOLUME_BITS
    &&& !r.player.shuffle
    &&& r.player.loop_status == Repeat::Off
}

/// The host's side of the player: updates are handed on once the player was
/// started, and dropped before.
pub struct MprisManager {
    started: bool,
}

impl MprisManager {
    pub closed spec fn is_started(self) -> bool {
        self.started
    }

    pub fn new(config: crate::config::Config) -> (r: MprisManager)
        ensures
            !r.is_started(),
    {
        MprisManager { started: false }
    }

    /// Starts the player: from now on updates are handed on, and the player
    /// is published as `setup_is_initial` describes.
    pub fn init(&mut self) -> (r: PlayerSetup)
        ensures
            final(self).is_started(),
            setup_is_initial(r),
    {
        self.started = true;
        PlayerSetup {
            bus_name: MPRIS_APP_NAME.to_owned(),
            identity: MPRIS_IDENTITY.to_owned(),
            desktop_entry: MPRIS_APP_NAME.to_owned(),
            can_quit: false,
            can_raise: false,
            has_track_list: false,
            can_set_fullscreen: false,
            can_control: true,
            rate: NORMAL_RATE_BITS,
            player: MprisPlayerState::new(),
        }
    }

    /// The command that carries a new track (or none) to the player, once started.
    pub fn update_metadata(&self, metadata: Option<MprisMetadata>) -> (r: Option<MprisCommand>)
        ensures
            self.is_started() ==> r == Some(MprisCommand::UpdateMetadata(metadata)),
            !self.is_started() ==> r is None,
    {
        if self.started {
            Some(MprisCommand::UpdateMetadata(metadata))
        } else {
            None
        }
    }

    /// The command that carries a playback update to the player, once started.
    pub fn update_playback_state(&self, state: MprisPlaybackState) -> (r: Option<MprisCommand>)
        ensures
            self.is_started() ==> r == Some(MprisCommand::UpdatePlaybackState(state)),
            !self.is_started() ==> r is None,
    {
        if self.started {
            Some(MprisCommand::UpdatePlaybackState(state))
        } else {
            None
        }
    }
}

} // verus!

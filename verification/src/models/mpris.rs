//! What the host application tells the MPRIS player about the track it plays,
//! and the actions that desktop controls send back to it.
//!
//! Lengths, positions and volumes are carried as the bit patterns of the
//! IEEE-754 doubles that the host application exchanges.
use vstd::prelude::*;

verus! {

/// The track that the host application plays.
#[derive(Clone, Debug)]
pub struct MprisMetadata {
    pub id: String,
    pub title: String,
    pub artist: String,
    pub album: String,
    /// The bit pattern of the length in milliseconds.
    pub length: Option<u64>,
    pub art_url: Option<String>,
    pub url: Option<String>,
    /// The bit pattern of the volume.
    pub volume: Option<u64>,
}

/// A change of the playback state; absent fields stay as they are.
#[derive(Clone, Debug)]
pub struct MprisPlaybackState {
    pub status: Option<String>,
    /// The bit pattern of the position in seconds.
    pub position: Option<u64>,
    /// The bit pattern of the volume.
    pub volume: Option<u64>,
    pub shuffle: Option<bool>,
    pub repeat: Option<String>,
}

/// An action asked of the host application by a desktop media control.
#[derive(Clone, Debug)]
pub enum MediaAction {
    Play,
    Pause,
    Playpause,
    Next,
    Previous,
    Stop,
    /// The bit pattern of the asked volume.
    SetVolume { value: u64 },
    /// The bit pattern of the offset in seconds.
    Seek { offset: u64 },
    /// The bit pattern of the position in seconds.
    SeekTo { position: u64 },
    SetShuffle { state: bool },
    SetRepeat { state: String },
}

} // verus!

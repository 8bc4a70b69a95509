//! Playlist generation shell. Track selection (energy curves, harmonic
//! mixing, BPM transitions) is not wired in; until it is, generation
//! returns an empty playlist, and the contracts say exactly that.

use vstd::prelude::*;
use vstd::string::StringExecFns;
use crate::config::PlaylistConfig;
use crate::track::Track;

verus! {

/// Builds playlists from a track library under a playlist configuration.
pub struct PlaylistGenerator {
    /// The playlist settings this generator was built with.
    pub config: PlaylistConfig,
}

impl PlaylistGenerator {
    /// A generator with the given settings.
    pub fn new(config: PlaylistConfig) -> (r: Self)
        ensures
            r.config == config,
    {
        PlaylistGenerator { config }
    }

    /// Generate a playlist from a library. Track selection is not wired in,
    /// so the playlist comes back with its fixed name and no tracks.
    pub fn generate(&self, library: &Vec<Track>) -> (r: GeneratedPlaylist)
        ensures
            r.name@ == "AI Generated Playlist"@,
            r.tracks@.len() == 0,
            r.total_duration == 0,
            r.energy_curve@.len() == 0,
            r.bpm_progression@.len() == 0,
    {
        let tracks: Vec<String> = Vec::new();
        GeneratedPlaylist {
            name: String::from_str("AI Generated Playlist"),
            tracks,
            total_duration: 0,
            energy_curve: Vec::new(),
            bpm_progression: Vec::new(),
        }
    }
}

/// A generated playlist: track identifiers, total length, and the planned
/// energy and BPM progressions (hundredths).
#[derive(Debug, Clone)]
pub struct GeneratedPlaylist {
    pub name: String,
    /// Track identifiers or paths, in play order.
    pub tracks: Vec<String>,
    /// Total duration in seconds.
    pub total_duration: usize,
    /// Planned energy per position (hundredths of a point).
    pub energy_curve: Vec<u32>,
    /// Planned BPM per position (hundredths of a BPM).
    pub bpm_progression: Vec<u32>,
}

} // verus!

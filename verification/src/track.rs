//! The track-metadata shape that the tagger writes and quality control
//! reads. An external tagging collaborator persists it; here it is plain
//! data.

use vstd::prelude::*;
use vstd::string::StringExecFns;

verus! {

/// Track metadata assembled from an analysis, or read back for validation.
#[derive(Debug, Clone)]
pub struct Track {
    /// The platform identifier of the source that produced this entry.
    pub platform: String,
    pub title: String,
    pub artists: Vec<String>,
    pub genres: Vec<String>,
    pub styles: Vec<String>,
    /// Whole beats per minute.
    pub bpm: Option<i64>,
    pub key: Option<String>,
    pub mood: Option<String>,
    /// Duration in seconds.
    pub duration: u64,
    pub url: String,
    pub label: Option<String>,
    pub release_date: Option<String>,
    pub release_year: Option<i64>,
    /// Cover-art URL.
    pub art: Option<String>,
    /// Additional named frames, each holding a list of values.
    pub other: Vec<(String, Vec<String>)>,
}

impl Default for Track {
    /// An empty track: every field blank or absent.
    fn default() -> (r: Self)
        ensures
            r.platform@.len() == 0,
            r.title@.len() == 0,
            r.artists@.len() == 0,
            r.genres@.len() == 0,
            r.styles@.len() == 0,
            r.bpm is None,
            r.key is None,
            r.mood is None,
            r.duration == 0,
            r.url@.len() == 0,
            r.label is None,
            r.release_date is None,
            r.release_year is None,
            r.art is None,
            r.other@.len() == 0,
    {
        Track {
            platform: String::new(),
            title: String::new(),
            artists: Vec::new(),
            genres: Vec::new(),
            styles: Vec::new(),
            bpm: None,
            key: None,
            mood: None,
            duration: 0,
            url: String::new(),
            label: None,
            release_date: None,
            release_year: None,
            art: None,
            other: Vec::new(),
        }
    }
}

/// What is known about an audio file before analysis: its path and the
/// metadata already present.
#[derive(Debug, Clone)]
pub struct AudioFileInfo {
    pub title: Option<String>,
    pub artists: Vec<String>,
    /// Path to the audio file.
    pub path: String,
    /// Duration in seconds, when known.
    pub duration: Option<u64>,
}

impl AudioFileInfo {
    /// A file entry with a path and nothing else known.
    pub fn new(path: String) -> (r: Self)
        ensures
            r.title is None,
            r.artists@.len() == 0,
            r.path@ == path@,
            r.duration is None,
    {
        AudioFileInfo { title: None, artists: Vec::new(), path, duration: None }
    }
}

/// One candidate match for a track, scored in ten-thousandths of 1.0.
#[derive(Debug, Clone)]
pub struct TrackMatch {
    pub confidence: u32,
    pub track: Track,
}

impl TrackMatch {
    /// Pair a confidence with a track.
    pub fn new(confidence: u32, track: Track) -> (r: Self)
        ensures
            r.confidence == confidence,
            r.track == track,
    {
        TrackMatch { confidence, track }
    }
}

} // verus!

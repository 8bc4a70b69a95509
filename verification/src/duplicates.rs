//! Duplicate detection over file paths. Audio fingerprinting is an external
//! concern and not wired in; until it is, detection reports no duplicates,
//! and the contracts say exactly that.

use vstd::prelude::*;

verus! {

/// Finds duplicate and similar tracks among files.
pub struct DuplicateDetector {
    /// Similarity threshold (ten-thousandths of 1.0).
    pub threshold: u32,
}

impl DuplicateDetector {
    /// A detector at the given similarity threshold.
    pub fn new(threshold: u32) -> (r: Self)
        ensures
            r.threshold == threshold,
    {
        DuplicateDetector { threshold }
    }

    /// Scan a list of files for duplicates. Fingerprinting is not wired in,
    /// so no matches are reported.
    pub fn find_duplicates(&self, files: &Vec<String>) -> (r: Vec<DuplicateMatch>)
        ensures
            r@.len() == 0,
    {
        let duplicates: Vec<DuplicateMatch> = Vec::new();
        duplicates
    }

    /// Compare two files. Fingerprinting is not wired in, so no pair is
    /// reported as duplicates.
    pub fn are_duplicates(&self, file1: &String, file2: &String) -> (r: bool)
        ensures
            !r,
    {
        false
    }
}

/// A reported duplicate pair.
#[derive(Debug, Clone)]
pub struct DuplicateMatch {
    pub file1: String,
    pub file2: String,
    /// Similarity in ten-thousandths of 1.0.
    pub similarity: u32,
    pub match_type: DuplicateType,
}

/// How two files relate when reported as duplicates.
#[derive(Debug, Clone, Copy, PartialEq, Eq, Structural)]
pub enum DuplicateType {
    /// Exact same audio.
    Exact,
    /// Different quality (bitrate).
    QualityVariant,
    /// Different master or remaster.
    DifferentMaster,
    /// Similar but not identical.
    Similar,
}

} // verus!

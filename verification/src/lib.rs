//! Verified core of the AutoSubs subtitle backend: language-code handling,
//! prompt construction and retry policy for translation, word regeneration for
//! translated segments, SubRip rendering and path-safety decisions.

pub mod text;
pub mod language;
pub mod srt;
pub mod translate;
pub mod paths;
pub mod batch;

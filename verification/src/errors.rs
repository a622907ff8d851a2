//! Error taxonomy of the broadcaster core.
//!
//! `SelectionError` is a fatal configuration fault; `FetchError` and
//! `RenderError` abort the preparation of a single track and are recovered
//! locally by the pipeline; `DrainError` is fatal to the broadcast loop.

use vstd::prelude::*;

verus! {

/// The candidate set holds no playable track: a configuration fault,
/// not a retry condition.
#[derive(Clone, Copy, Debug, PartialEq, Eq, Structural)]
pub enum SelectionError {
    EmptyCorpus,
}

/// The content backend could not supply a requested resource.
#[derive(Clone, Copy, Debug, PartialEq, Eq, Structural)]
pub enum FetchError {
    AudioUnavailable,
    CoverUnavailable,
}

/// Composing the captioned cover failed.
#[derive(Clone, Copy, Debug, PartialEq, Eq, Structural)]
pub enum RenderError {
    CaptionWrite,
    Compose,
}

/// Why the preparation of one track was abandoned. Nothing is enqueued for
/// such a track and the pipeline simply selects again.
#[derive(Clone, Copy, Debug, PartialEq, Eq, Structural)]
pub enum PrepareError {
    Fetch(FetchError),
    Render(RenderError),
}

/// The output sink failed mid-stream. Fatal: the broadcast loop terminates
/// and reports it; no mid-track resumption is attempted.
#[derive(Clone, Copy, Debug, PartialEq, Eq, Structural)]
pub enum DrainError {
    PipeBroken,
    PipeClosed,
}

} // verus!

//! Asset preparation: turning a selected track into a `ReadyTrack`, an
//! audio handle plus a rendered, captioned cover. The fetches and the render
//! transform run outside this crate and report back as events; the state
//! machine here decides what each outcome means. A failing step abandons the
//! whole preparation: no partial `ReadyTrack` ever exists.

use vstd::prelude::*;
use crate::caption::caption_text;
use crate::caption::spec_caption;
use crate::errors::FetchError;
use crate::errors::PrepareError;
use crate::errors::RenderError;
use crate::repo::TrackRef;

verus! {

/// Opaque handle to one track's full raw audio resource, held by the
/// surrounding process and streamed during drain.
#[derive(Clone, Copy, Debug, PartialEq, Eq, Structural)]
pub struct AudioHandle {
    pub id: u64,
}

/// Opaque handle to one track's rendered cover image, held in a scoped
/// temporary resource of the surrounding process.
#[derive(Clone, Copy, Debug, PartialEq, Eq, Structural)]
pub struct CoverArtifact {
    pub id: u64,
}

/// Opaque handle to the scoped temporary text resource a caption was
/// written to: the render transform's input.
#[derive(Clone, Copy, Debug, PartialEq, Eq, Structural)]
pub struct CaptionArtifact {
    pub id: u64,
}

/// A prepared bundle, eligible to drain: the track, its audio handle and its
/// rendered cover. Only a fully successful preparation produces one.
#[derive(Clone, Debug, PartialEq, Eq)]
pub struct ReadyTrack {
    pub track: TrackRef,
    pub audio: AudioHandle,
    pub cover: CoverArtifact,
}

/// Where a preparation stands. Progress is strictly forward: audio fetch,
/// cover fetch, render; the first failure moves to `Failed` for good.
pub enum PrepareStep {
    FetchingAudio,
    FetchingCover { audio: AudioHandle },
    Rendering { audio: AudioHandle },
    Done { audio: AudioHandle, cover: CoverArtifact },
    Failed { error: PrepareError },
}

/// The preparation of one selected track, driven by the outcomes of the
/// fetches and of the render transform.
pub struct PrepareJob {
    track: TrackRef,
    step: PrepareStep,
}

impl PrepareJob {
    /// The track this preparation is for.
    pub closed spec fn spec_track(self) -> TrackRef {
        self.track
    }

    /// The current step.
    pub closed spec fn spec_step(self) -> PrepareStep {
        self.step
    }

    /// Preparation is over, successfully or not.
    pub open spec fn is_finished(self) -> bool {
        self.spec_step() is Done || self.spec_step() is Failed
    }

    /// Begins preparing `track`: the audio fetch is requested first.
    pub fn start(track: TrackRef) -> (j: Self)
        ensures
            j.spec_track() == track,
            j.spec_step() is FetchingAudio,
    {
        PrepareJob { track, step: PrepareStep::FetchingAudio }
    }

    /// The caption the render transform must overlay for this job's track:
    /// recomputed fresh from the track reference, never cached.
    pub fn caption(&self) -> (r: String)
        ensures
            r@ == spec_caption(self.spec_track()),
    {
        caption_text(&self.track)
    }

    /// The audio fetch came back: on success the cover fetch is next, on
    /// failure the preparation is abandoned.
    pub fn on_audio(&mut self, r: Result<AudioHandle, FetchError>)
        requires
            old(self).spec_step() is FetchingAudio,
        ensures
            final(self).spec_track() == old(self).spec_track(),
            match r {
                Ok(a) => final(self).spec_step() == (PrepareStep::FetchingCover { audio: a }),
                Err(e) => final(self).spec_step() == (PrepareStep::Failed {
                    error: PrepareError::Fetch(e),
                }),
            },
    {
        match r {
            Ok(a) => {
                self.step = PrepareStep::FetchingCover { audio: a };
            },
            Err(e) => {
                self.step = PrepareStep::Failed { error: PrepareError::Fetch(e) };
            },
        }
    }

    /// The cover fetch came back: on success the render transform runs next,
    /// on failure the preparation is abandoned. The audio handle obtained
    /// before is carried along unchanged.
    pub fn on_cover(&mut self, r: Result<(), FetchError>)
        requires
            old(self).spec_step() is FetchingCover,
        ensures
            final(self).spec_track() == old(self).spec_track(),
            old(self).spec_step() matches PrepareStep::FetchingCover { audio } ==> match r {
                Ok(u) => final(self).spec_step() == (PrepareStep::Rendering { audio }),
                Err(e) => final(self).spec_step() == (PrepareStep::Failed {
                    error: PrepareError::Fetch(e),
                }),
            },
    {
        let audio = match &self.step {
            PrepareStep::FetchingCover { audio } => *audio,
            _ => vstd::pervasive::unreached(),
        };
        match r {
            Ok(_) => {
                self.step = PrepareStep::Rendering { audio };
            },
            Err(e) => {
                self.step = PrepareStep::Failed { error: PrepareError::Fetch(e) };
            },
        }
    }

    /// The render transform came back: on success the preparation is done
    /// and holds the rendered cover, on failure it is abandoned.
    pub fn on_rendered(&mut self, r: Result<CoverArtifact, RenderError>)
        requires
            old(self).spec_step() is Rendering,
        ensures
            final(self).spec_track() == old(self).spec_track(),
            old(self).spec_step() matches PrepareStep::Rendering { audio } ==> match r {
                Ok(c) => final(self).spec_step() == (PrepareStep::Done { audio, cover: c }),
                Err(e) => final(self).spec_step() == (PrepareStep::Failed {
                    error: PrepareError::Render(e),
                }),
            },
    {
        let audio = match &self.step {
            PrepareStep::Rendering { audio } => *audio,
            _ => vstd::pervasive::unreached(),
        };
        match r {
            Ok(c) => {
                self.step = PrepareStep::Done { audio, cover: c };
            },
            Err(e) => {
                self.step = PrepareStep::Failed { error: PrepareError::Render(e) };
            },
        }
    }

    /// Whether the preparation has been abandoned.
    pub fn failed(&self) -> (b: bool)
        ensures
            b == (self.spec_step() is Failed),
    {
        match &self.step {
            PrepareStep::Failed { error: _ } => true,
            _ => false,
        }
    }

    /// What the preparation yielded: the ready bundle exactly when every
    /// step succeeded, the first failure otherwise.
    pub fn into_result(self) -> (r: Result<ReadyTrack, PrepareError>)
        requires
            self.is_finished(),
        ensures
            self.spec_step() matches PrepareStep::Done { audio, cover } ==> r == Ok::<
                ReadyTrack,
                PrepareError,
            >(ReadyTrack { track: self.spec_track(), audio, cover }),
            self.spec_step() matches PrepareStep::Failed { error } ==> r == Err::<
                ReadyTrack,
                PrepareError,
            >(error),
    {
        match self.step {
            PrepareStep::Done { audio, cover } => Ok(ReadyTrack { track: self.track, audio, cover }),
            PrepareStep::Failed { error } => Err(error),
            _ => vstd::pervasive::unreached(),
        }
    }
}

/// Owns the render transform's caption input for as long as the transform
/// may still be reading it. The input is handed back for release only after
/// the transform has observably finished: its lifetime never depends on
/// unrelated drop ordering.
pub struct RenderGuard {
    caption: CaptionArtifact,
    transform_done: bool,
}

impl RenderGuard {
    /// The guarded caption resource.
    pub closed spec fn spec_caption_artifact(self) -> CaptionArtifact {
        self.caption
    }

    /// Whether the transform has been observed to finish.
    pub closed spec fn spec_transform_done(self) -> bool {
        self.transform_done
    }

    /// Takes ownership of the caption input when the transform starts.
    pub fn new(caption: CaptionArtifact) -> (g: Self)
        ensures
            g.spec_caption_artifact() == caption,
            !g.spec_transform_done(),
    {
        RenderGuard { caption, transform_done: false }
    }

    /// Records that the transform's process has exited.
    pub fn observe_exit(&mut self)
        ensures
            final(self).spec_caption_artifact() == old(self).spec_caption_artifact(),
            final(self).spec_transform_done(),
    {
        self.transform_done = true;
    }

    /// Hands the caption input back for release; only callable once the
    /// transform has observably finished.
    pub fn release(self) -> (c: CaptionArtifact)
        requires
            self.spec_transform_done(),
        ensures
            c == self.spec_caption_artifact(),
    {
        self.caption
    }
}

} // verus!

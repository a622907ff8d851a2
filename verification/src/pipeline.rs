//! The playlist pipeline: coordinates "prepare next" and "drain current"
//! over the bounded FIFO queue, under one of two explicit operating
//! disciplines, and emits exactly one invalidation command per fully
//! drained track. The surrounding process performs the fetches, the drain
//! and the invalidations; every decision about what those outcomes mean is
//! made and verified here.

use vstd::prelude::*;
use crate::errors::DrainError;
use crate::errors::PrepareError;
use crate::prepare::AudioHandle;
use crate::prepare::CoverArtifact;
use crate::prepare::ReadyTrack;
use crate::queue::PlaylistQueue;
use crate::repo::TrackRef;

verus! {

/// Operating discipline, an explicit configuration choice. Fork-join keeps
/// exactly one head item draining while a single background preparation
/// runs; prefill-alternate first fills the queue to capacity, then
/// alternates one preparation with one drain, with no overlap.
#[derive(Clone, Copy, Debug, PartialEq, Eq, Structural)]
pub enum PipelineMode {
    ForkJoin,
    PrefillAlternate,
}

/// The tracks of the prepared bundles of `s`, in order.
pub open spec fn tracks_of(s: Seq<ReadyTrack>) -> Seq<TrackRef> {
    s.map_values(|rt: ReadyTrack| rt.track)
}

/// The pipeline state: the lookahead queue, the track mid-drain (with its
/// cover in the hand-off slot), whether a fatal drain error has stopped the
/// pipeline, and the ghost logs of every enqueue, full drain and emitted
/// invalidation, over which the ordering laws are stated.
pub struct PlaylistPipeline {
    mode: PipelineMode,
    queue: PlaylistQueue,
    draining: Option<ReadyTrack>,
    cover_slot: Option<CoverArtifact>,
    stopped: Option<DrainError>,
    enqueued: Ghost<Seq<TrackRef>>,
    drained: Ghost<Seq<TrackRef>>,
    invalidated: Ghost<Seq<TrackRef>>,
}

impl PlaylistPipeline {
    pub closed spec fn spec_mode(self) -> PipelineMode {
        self.mode
    }

    /// The prepared bundles waiting in the queue, front first.
    pub closed spec fn spec_queue(self) -> Seq<ReadyTrack> {
        self.queue@
    }

    pub closed spec fn spec_capacity(self) -> nat {
        self.queue.spec_capacity()
    }

    /// The bundle currently draining, if any.
    pub closed spec fn spec_draining(self) -> Option<ReadyTrack> {
        self.draining
    }

    /// What the cover hand-off slot holds: the image the output sink polls.
    pub closed spec fn spec_cover_slot(self) -> Option<CoverArtifact> {
        self.cover_slot
    }

    /// The fatal drain error that stopped the pipeline, if any.
    pub closed spec fn spec_stopped(self) -> Option<DrainError> {
        self.stopped
    }

    /// Every track that ever joined the queue, in enqueue order.
    pub closed spec fn enqueued_log(self) -> Seq<TrackRef> {
        self.enqueued@
    }

    /// Every track that fully drained, in drain order.
    pub closed spec fn drained_log(self) -> Seq<TrackRef> {
        self.drained@
    }

    /// Every track an invalidation command was emitted for, in order.
    pub closed spec fn invalidated_log(self) -> Seq<TrackRef> {
        self.invalidated@
    }

    /// The track mid-drain, as a sequence of zero or one elements.
    pub open spec fn draining_tracks(self) -> Seq<TrackRef> {
        match self.spec_draining() {
            Some(rt) => seq![rt.track],
            None => Seq::empty(),
        }
    }

    /// Validity: the queue is within capacity; invalidations match full
    /// drains exactly; the drained log is a prefix of the enqueued log;
    /// while the pipeline is alive, every enqueued track is either drained,
    /// mid-drain or still queued, in that order; and while a track drains,
    /// the pipeline is alive and the hand-off slot holds its cover.
    pub closed spec fn wf(self) -> bool {
        &&& self.queue.wf()
        &&& self.invalidated@ == self.drained@
        &&& self.drained@.len() <= self.enqueued@.len()
        &&& self.enqueued@.take(self.drained@.len() as int) == self.drained@
        &&& (self.stopped is None ==> self.enqueued@ == self.drained@ + self.draining_tracks()
            + tracks_of(self.queue@))
        &&& match self.draining {
            Some(rt) => self.cover_slot == Some(rt.cover) && self.stopped is None,
            None => true,
        }
    }

    /// Whether a preparation should be launched now: the pipeline is alive
    /// and the queue is below capacity.
    pub open spec fn spec_want_prepare(self) -> bool {
        &&& self.spec_stopped() is None
        &&& self.spec_queue().len() < self.spec_capacity()
    }

    /// Whether the head may begin draining now: the pipeline is alive,
    /// nothing is mid-drain, and — under fork-join — the queue holds a head,
    /// or — under prefill-alternate — the queue has been filled to capacity.
    pub open spec fn spec_want_drain(self) -> bool {
        &&& self.spec_stopped() is None
        &&& self.spec_draining() is None
        &&& match self.spec_mode() {
            PipelineMode::ForkJoin => self.spec_queue().len() > 0,
            PipelineMode::PrefillAlternate => self.spec_queue().len() == self.spec_capacity(),
        }
    }

    pub fn new(mode: PipelineMode, capacity: usize) -> (p: Self)
        requires
            capacity >= 1,
        ensures
            p.wf(),
            p.spec_mode() == mode,
            p.spec_capacity() == capacity,
            p.spec_queue() == Seq::<ReadyTrack>::empty(),
            p.spec_draining() is None,
            p.spec_cover_slot() is None,
            p.spec_stopped() is None,
            p.enqueued_log() == Seq::<TrackRef>::empty(),
            p.drained_log() == Seq::<TrackRef>::empty(),
            p.invalidated_log() == Seq::<TrackRef>::empty(),
    {
        let p = PlaylistPipeline {
            mode,
            queue: PlaylistQueue::new(capacity),
            draining: None,
            cover_slot: None,
            stopped: None,
            enqueued: Ghost(Seq::empty()),
            drained: Ghost(Seq::empty()),
            invalidated: Ghost(Seq::empty()),
        };
        proof {
            assert(p.enqueued@.take(0) =~= Seq::<TrackRef>::empty());
            assert(tracks_of(p.queue@) =~= Seq::<TrackRef>::empty());
            assert(p.enqueued@ =~= p.drained@ + p.draining_tracks() + tracks_of(p.queue@));
        }
        p
    }

    pub fn mode(&self) -> (m: PipelineMode)
        ensures
            m == self.spec_mode(),
    {
        self.mode
    }

    pub fn queue_len(&self) -> (n: usize)
        ensures
            n == self.spec_queue().len(),
    {
        self.queue.len()
    }

    pub fn capacity(&self) -> (n: usize)
        ensures
            n == self.spec_capacity(),
    {
        self.queue.capacity()
    }

    pub fn is_stopped(&self) -> (b: bool)
        ensures
            b == (self.spec_stopped() is Some),
    {
        self.stopped.is_some()
    }

    /// The fatal drain error that stopped the pipeline, for reporting to the
    /// supervisor, if any.
    pub fn stop_cause(&self) -> (r: Option<DrainError>)
        ensures
            r == self.spec_stopped(),
    {
        self.stopped
    }

    /// What the cover hand-off slot currently holds: the image the output
    /// sink polls each frame.
    pub fn active_cover(&self) -> (r: Option<CoverArtifact>)
        ensures
            r == self.spec_cover_slot(),
    {
        self.cover_slot
    }

    pub fn want_prepare(&self) -> (b: bool)
        ensures
            b == self.spec_want_prepare(),
    {
        self.stopped.is_none() && self.queue.len() < self.queue.capacity()
    }

    pub fn want_drain(&self) -> (b: bool)
        ensures
            b == self.spec_want_drain(),
    {
        self.stopped.is_none() && self.draining.is_none() && match self.mode {
            PipelineMode::ForkJoin => self.queue.len() > 0,
            PipelineMode::PrefillAlternate => self.queue.is_full(),
        }
    }

    /// A preparation finished. On success the ready bundle joins the queue
    /// tail. On failure nothing is enqueued, the queue is exactly as it was,
    /// no invalidation will ever be emitted for the track, and the pipeline
    /// stays alive: selection simply resumes on the next cycle.
    pub fn on_prepared(&mut self, r: Result<ReadyTrack, PrepareError>)
        requires
            old(self).wf(),
            r is Ok ==> old(self).spec_queue().len() < old(self).spec_capacity(),
        ensures
            final(self).wf(),
            final(self).spec_mode() == old(self).spec_mode(),
            final(self).spec_capacity() == old(self).spec_capacity(),
            final(self).spec_draining() == old(self).spec_draining(),
            final(self).spec_cover_slot() == old(self).spec_cover_slot(),
            final(self).spec_stopped() == old(self).spec_stopped(),
            final(self).drained_log() == old(self).drained_log(),
            final(self).invalidated_log() == old(self).invalidated_log(),
            match r {
                Ok(rt) => {
                    &&& final(self).spec_queue() == old(self).spec_queue().push(rt)
                    &&& final(self).enqueued_log() == old(self).enqueued_log().push(rt.track)
                },
                Err(e) => {
                    &&& final(self).spec_queue() == old(self).spec_queue()
                    &&& final(self).enqueued_log() == old(self).enqueued_log()
                },
            },
    {
        match r {
            Ok(rt) => {
                let ghost tr = rt.track;
                self.queue.enqueue(rt);
                self.enqueued = Ghost(self.enqueued@.push(tr));
                proof {
                    assert(self.enqueued@.take(self.drained@.len() as int) =~= old(
                        self,
                    ).enqueued@.take(self.drained@.len() as int));
                    assert(tracks_of(self.queue@) =~= tracks_of(old(self).queue@).push(tr));
                    if self.stopped is None {
                        assert(self.enqueued@ =~= self.drained@ + self.draining_tracks()
                            + tracks_of(self.queue@));
                    }
                }
            },
            Err(_) => {},
        }
    }

    /// Removes the head bundle to drain it: in one step the hand-off slot is
    /// replaced with the head's rendered cover and only then is the head's
    /// audio handle handed out — the polled cover can never lag behind the
    /// audio it describes.
    pub fn begin_drain(&mut self) -> (out: (CoverArtifact, AudioHandle))
        requires
            old(self).wf(),
            old(self).spec_want_drain(),
        ensures
            final(self).wf(),
            final(self).spec_mode() == old(self).spec_mode(),
            final(self).spec_capacity() == old(self).spec_capacity(),
            final(self).spec_stopped() is None,
            final(self).spec_queue() == old(self).spec_queue().drop_first(),
            final(self).spec_draining() == Some(old(self).spec_queue()[0]),
            final(self).spec_cover_slot() == Some(old(self).spec_queue()[0].cover),
            out.0 == old(self).spec_queue()[0].cover,
            out.1 == old(self).spec_queue()[0].audio,
            final(self).enqueued_log() == old(self).enqueued_log(),
            final(self).drained_log() == old(self).drained_log(),
            final(self).invalidated_log() == old(self).invalidated_log(),
    {
        proof {
            if self.queue@.len() == 0 {
                assert(self.queue.spec_capacity() >= 1);
                assert(false);
            }
        }
        let rt = self.queue.dequeue();
        let cover = rt.cover;
        let audio = rt.audio;
        self.cover_slot = Some(cover);
        self.draining = Some(rt);
        proof {
            assert(tracks_of(old(self).queue@) =~= seq![
                old(self).queue@[0].track,
            ] + tracks_of(old(self).queue@.drop_first()));
            assert(self.enqueued@ =~= self.drained@ + self.draining_tracks() + tracks_of(
                self.queue@,
            ));
        }
        (cover, audio)
    }

    /// The drain of the current track ended. On success the track has fully
    /// drained and exactly one invalidation command for it is handed back,
    /// to be fired without blocking the next iteration. On failure the error
    /// is fatal: the pipeline stops for good, and no invalidation is emitted
    /// for the interrupted track.
    pub fn finish_drain(&mut self, outcome: Result<(), DrainError>) -> (r: Result<
        TrackRef,
        DrainError,
    >)
        requires
            old(self).wf(),
            old(self).spec_draining() is Some,
        ensures
            final(self).wf(),
            final(self).spec_mode() == old(self).spec_mode(),
            final(self).spec_capacity() == old(self).spec_capacity(),
            final(self).spec_queue() == old(self).spec_queue(),
            final(self).spec_draining() is None,
            final(self).spec_cover_slot() == old(self).spec_cover_slot(),
            final(self).enqueued_log() == old(self).enqueued_log(),
            old(self).spec_draining() matches Some(rt) ==> match outcome {
                Ok(u) => {
                    &&& r == Ok::<TrackRef, DrainError>(rt.track)
                    &&& final(self).drained_log() == old(self).drained_log().push(rt.track)
                    &&& final(self).invalidated_log() == old(self).invalidated_log().push(rt.track)
                    &&& final(self).spec_stopped() is None
                },
                Err(e) => {
                    &&& r == Err::<TrackRef, DrainError>(e)
                    &&& final(self).drained_log() == old(self).drained_log()
                    &&& final(self).invalidated_log() == old(self).invalidated_log()
                    &&& final(self).spec_stopped() == Some(e)
                },
            },
    {
        let rt = self.draining.take().unwrap();
        let ReadyTrack { track, audio: _audio, cover: _cover } = rt;
        let ghost tr = track;
        match outcome {
            Ok(_) => {
                self.drained = Ghost(self.drained@.push(tr));
                self.invalidated = Ghost(self.invalidated@.push(tr));
                proof {
                    assert(old(self).enqueued@ == old(self).drained@ + seq![tr] + tracks_of(
                        old(self).queue@,
                    ));
                    assert(self.enqueued@.take(self.drained@.len() as int) =~= self.drained@);
                    assert(self.enqueued@ =~= self.drained@ + self.draining_tracks() + tracks_of(
                        self.queue@,
                    ));
                }
                Ok(track)
            },
            Err(e) => {
                self.stopped = Some(e);
                Err(e)
            },
        }
    }
}

/// FIFO law: tracks drain in exactly the order they were enqueued — in every
/// valid pipeline state the log of fully drained tracks is precisely a
/// prefix of the enqueue log.
pub proof fn lemma_fifo_order(p: PlaylistPipeline)
    requires
        p.wf(),
    ensures
        p.drained_log().len() <= p.enqueued_log().len(),
        p.drained_log() == p.enqueued_log().take(p.drained_log().len() as int),
{
}

/// Happens-before law: throughout a track's whole streaming window — every
/// valid state in which it is mid-drain — the cover hand-off slot holds
/// exactly that track's rendered cover, never a stale one.
pub proof fn lemma_cover_handoff(p: PlaylistPipeline)
    requires
        p.wf(),
    ensures
        p.spec_draining() matches Some(rt) ==> p.spec_cover_slot() == Some(rt.cover),
{
}

/// Invalidation law: exactly one invalidation command is emitted per track
/// that fully drains, in drain order, and none for any other track — in
/// particular none for a track whose preparation failed, since such a track
/// never enters the enqueue log at all.
pub proof fn lemma_invalidation_matches_drains(p: PlaylistPipeline)
    requires
        p.wf(),
    ensures
        p.invalidated_log() == p.drained_log(),
        forall|t: TrackRef| p.invalidated_log().contains(t) ==> p.enqueued_log().contains(t),
{
    assert forall|t: TrackRef| p.invalidated_log().contains(t) implies p.enqueued_log().contains(
        t,
    ) by {
        let i = choose|i: int|
            0 <= i < p.invalidated_log().len() && p.invalidated_log()[i] == t;
        assert(p.enqueued_log().take(p.drained_log().len() as int)[i] == t);
        assert(p.enqueued_log()[i] == t);
    }
}

/// Queue bound law: the lookahead queue of a valid pipeline holds between 0
/// and capacity items, whichever operating discipline drives it.
pub proof fn lemma_pipeline_queue_bounded(p: PlaylistPipeline)
    requires
        p.wf(),
    ensures
        0 <= p.spec_queue().len() <= p.spec_capacity(),
{
}

} // verus!

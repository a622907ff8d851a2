use radio_core::errors::DrainError;
use radio_core::errors::FetchError;
use radio_core::errors::PrepareError;
use radio_core::errors::RenderError;
use radio_core::pipeline::PipelineMode;
use radio_core::pipeline::PlaylistPipeline;
use radio_core::prepare::AudioHandle;
use radio_core::prepare::CaptionArtifact;
use radio_core::prepare::CoverArtifact;
use radio_core::prepare::PrepareJob;
use radio_core::prepare::ReadyTrack;
use radio_core::prepare::RenderGuard;
use radio_core::queue::PlaylistQueue;
use radio_core::repo::TrackRef;
use radio_core::repo::TrackType;

fn track_ref(title: &str) -> TrackRef {
    TrackRef {
        album_id: String::from("CAT-001"),
        disc_id: 1,
        track_id: 1,
        disc_total: 1,
        title: String::from(title),
        artist: String::from("Artist"),
        album_title: String::from("Album"),
        track_type: TrackType::Normal,
    }
}

fn ready(title: &str, id: u64) -> ReadyTrack {
    ReadyTrack { track: track_ref(title), audio: AudioHandle { id }, cover: CoverArtifact { id } }
}

#[test]
fn prepare_success_bundles_the_obtained_handles() {
    let mut job = PrepareJob::start(track_ref("One"));
    let caption = job.caption();
    assert!(caption.contains("Title: One"));
    job.on_audio(Ok(AudioHandle { id: 11 }));
    job.on_cover(Ok(()));
    job.on_rendered(Ok(CoverArtifact { id: 22 }));
    let rt = job.into_result().expect("all steps succeeded");
    assert_eq!(rt.track.title, "One");
    assert_eq!(rt.audio, AudioHandle { id: 11 });
    assert_eq!(rt.cover, CoverArtifact { id: 22 });
}

#[test]
fn prepare_audio_fetch_failure_aborts() {
    let mut job = PrepareJob::start(track_ref("One"));
    job.on_audio(Err(FetchError::AudioUnavailable));
    let e = job.into_result().expect_err("failed fetch must abort preparation");
    assert_eq!(e, PrepareError::Fetch(FetchError::AudioUnavailable));
}

#[test]
fn prepare_cover_fetch_failure_aborts() {
    let mut job = PrepareJob::start(track_ref("One"));
    job.on_audio(Ok(AudioHandle { id: 1 }));
    job.on_cover(Err(FetchError::CoverUnavailable));
    let e = job.into_result().expect_err("failed fetch must abort preparation");
    assert_eq!(e, PrepareError::Fetch(FetchError::CoverUnavailable));
}

#[test]
fn prepare_render_failure_aborts() {
    let mut job = PrepareJob::start(track_ref("One"));
    job.on_audio(Ok(AudioHandle { id: 1 }));
    job.on_cover(Ok(()));
    job.on_rendered(Err(RenderError::Compose));
    assert_eq!(job.into_result(), Err(PrepareError::Render(RenderError::Compose)));
    let mut other = PrepareJob::start(track_ref("Two"));
    other.on_audio(Ok(AudioHandle { id: 2 }));
    other.on_cover(Ok(()));
    other.on_rendered(Err(RenderError::CaptionWrite));
    assert_eq!(other.into_result(), Err(PrepareError::Render(RenderError::CaptionWrite)));
}

#[test]
fn render_guard_releases_input_only_after_exit() {
    let mut guard = RenderGuard::new(CaptionArtifact { id: 7 });
    guard.observe_exit();
    assert_eq!(guard.release(), CaptionArtifact { id: 7 });
}

#[test]
fn queue_is_fifo_and_bounded() {
    let mut q = PlaylistQueue::new(2);
    assert_eq!(q.capacity(), 2);
    assert!(q.is_empty());
    q.enqueue(ready("First", 1));
    assert_eq!(q.len(), 1);
    assert!(!q.is_full());
    q.enqueue(ready("Second", 2));
    assert!(q.is_full());
    assert_eq!(q.len(), 2);
    let a = q.dequeue();
    assert_eq!(a.track.title, "First");
    let b = q.dequeue();
    assert_eq!(b.track.title, "Second");
    assert!(q.is_empty());
}

#[test]
fn prefill_alternate_cycle_drains_in_fifo_order() {
    let mut p = PlaylistPipeline::new(PipelineMode::PrefillAlternate, 2);
    assert!(p.want_prepare());
    assert!(!p.want_drain());
    p.on_prepared(Ok(ready("First", 1)));
    assert!(!p.want_drain());
    assert_eq!(p.queue_len(), 1);
    p.on_prepared(Ok(ready("Second", 2)));
    assert!(!p.want_prepare());
    assert!(p.want_drain());
    assert!(p.queue_len() <= p.capacity());

    let (cover, audio) = p.begin_drain();
    assert_eq!(cover, CoverArtifact { id: 1 });
    assert_eq!(audio, AudioHandle { id: 1 });
    let invalidate = p.finish_drain(Ok(())).expect("full drain emits one invalidation");
    assert_eq!(invalidate.title, "First");

    assert!(p.want_prepare());
    assert!(!p.want_drain());
    p.on_prepared(Ok(ready("Third", 3)));
    assert!(p.want_drain());
    let (_, audio2) = p.begin_drain();
    assert_eq!(audio2, AudioHandle { id: 2 });
    assert_eq!(p.finish_drain(Ok(())).expect("second drain").title, "Second");
}

#[test]
fn failed_prepare_leaves_queue_unchanged_and_loop_alive() {
    let mut p = PlaylistPipeline::new(PipelineMode::ForkJoin, 2);
    p.on_prepared(Ok(ready("First", 1)));
    let before = p.queue_len();
    p.on_prepared(Err(PrepareError::Fetch(FetchError::AudioUnavailable)));
    assert_eq!(p.queue_len(), before);
    assert!(!p.is_stopped());
    assert!(p.want_prepare());
}

#[test]
fn drain_error_stops_the_pipeline_and_reports_it() {
    let mut p = PlaylistPipeline::new(PipelineMode::ForkJoin, 2);
    p.on_prepared(Ok(ready("First", 1)));
    assert!(p.want_drain());
    let _ = p.begin_drain();
    let e = p.finish_drain(Err(DrainError::PipeBroken)).expect_err("drain failure is fatal");
    assert_eq!(e, DrainError::PipeBroken);
    assert!(p.is_stopped());
    assert_eq!(p.stop_cause(), Some(DrainError::PipeBroken));
    assert!(!p.want_prepare());
    assert!(!p.want_drain());

    let mut q = PlaylistPipeline::new(PipelineMode::PrefillAlternate, 1);
    q.on_prepared(Ok(ready("Solo", 9)));
    let _ = q.begin_drain();
    assert_eq!(q.finish_drain(Err(DrainError::PipeClosed)), Err(DrainError::PipeClosed));
    assert_eq!(q.stop_cause(), Some(DrainError::PipeClosed));
}

#[test]
fn fork_join_prepare_completion_does_not_block_drain() {
    let mut p = PlaylistPipeline::new(PipelineMode::ForkJoin, 2);
    p.on_prepared(Ok(ready("First", 1)));
    assert!(p.want_drain());

    // Fork: the head starts draining while the next preparation runs.
    let (cover, audio) = p.begin_drain();
    assert_eq!(cover, CoverArtifact { id: 1 });
    assert_eq!(audio, AudioHandle { id: 1 });
    assert_eq!(p.active_cover(), Some(CoverArtifact { id: 1 }));
    assert!(p.want_prepare());

    // The background preparation finishes first; only a fully successful
    // preparation may enqueue, and the running drain is not held up by it.
    let mut job = PrepareJob::start(track_ref("Second"));
    job.on_audio(Ok(AudioHandle { id: 2 }));
    job.on_cover(Ok(()));
    job.on_rendered(Ok(CoverArtifact { id: 2 }));
    p.on_prepared(job.into_result());
    assert_eq!(p.queue_len(), 1);
    // The hand-off slot still shows the draining track's cover, not the
    // newly prepared one.
    assert_eq!(p.active_cover(), Some(CoverArtifact { id: 1 }));

    // Join: the drain ends after the enqueue and still names the old head.
    let invalidate = p.finish_drain(Ok(())).expect("full drain emits one invalidation");
    assert_eq!(invalidate.title, "First");
    assert!(p.want_drain());
    let (_, audio2) = p.begin_drain();
    assert_eq!(audio2, AudioHandle { id: 2 });
}

#[test]
fn one_invalidation_per_fully_drained_track() {
    let mut p = PlaylistPipeline::new(PipelineMode::ForkJoin, 2);
    let mut invalidations: Vec<String> = Vec::new();
    p.on_prepared(Ok(ready("First", 1)));
    p.on_prepared(Err(PrepareError::Render(RenderError::Compose)));
    p.on_prepared(Ok(ready("Second", 2)));
    for _ in 0..2 {
        let _ = p.begin_drain();
        if let Ok(t) = p.finish_drain(Ok(())) {
            invalidations.push(t.title);
        }
    }
    assert_eq!(invalidations, vec![String::from("First"), String::from("Second")]);
}

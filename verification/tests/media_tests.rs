use spur::options::SType;
use spur::overlay::CameraPreview;
use spur::recorder::Recorder;
use spur::streamer::Streamer;
use spur::{BackendOp, Config, Media, PipelineState};

fn record_config() -> Config {
    Config::new(String::from("user-1"), SType::Record, Some("clip"))
}

fn stream_config() -> Config {
    Config::new(String::from("user-1"), SType::Stream, None)
}

#[test]
fn recorder_walks_its_lifecycle_in_order() {
    let mut recorder = Recorder::new(record_config());
    assert_eq!(recorder.state, PipelineState::Unconstructed);
    assert!(recorder.ops.is_empty());

    recorder.create_pipeline();
    assert_eq!(recorder.state, PipelineState::Ready);
    assert_eq!(recorder.ops, vec![BackendOp::ConstructGraph]);

    recorder.start_pipeline();
    assert_eq!(recorder.state, PipelineState::Playing);
    assert_eq!(recorder.ops, vec![BackendOp::ConstructGraph, BackendOp::SetPlaying]);

    recorder.stop_stream();
    assert_eq!(recorder.state, PipelineState::Null);
    assert_eq!(
        recorder.ops,
        vec![
            BackendOp::ConstructGraph,
            BackendOp::SetPlaying,
            BackendOp::SendEos,
            BackendOp::GraceWait,
            BackendOp::SetNull,
        ],
    );
}

#[test]
fn preview_cancel_skips_the_grace_wait() {
    let mut preview = CameraPreview::new(record_config());
    preview.create_pipeline();
    preview.start_pipeline();
    preview.cancel_stream();
    assert_eq!(preview.state, PipelineState::Null);
    assert_eq!(
        preview.ops,
        vec![
            BackendOp::ConstructGraph,
            BackendOp::SetPlaying,
            BackendOp::SendEos,
            BackendOp::SetNull,
        ],
    );
}

#[test]
fn streamer_requests_an_id_then_constructs() {
    let mut streamer = Streamer::new(stream_config());
    streamer.create_pipeline();
    assert_eq!(streamer.state, PipelineState::AwaitingVideoId);
    assert_eq!(streamer.ops, vec![BackendOp::AcquireVideoId]);
    assert_eq!(streamer.config.vid, None);

    streamer.supply_video_id(String::from("v7"));
    assert_eq!(streamer.state, PipelineState::Ready);
    assert_eq!(streamer.ops, vec![BackendOp::AcquireVideoId, BackendOp::ConstructGraph]);
    assert_eq!(streamer.config.vid.as_deref(), Some("v7"));

    streamer.start_pipeline();
    streamer.stop_stream();
    assert_eq!(streamer.state, PipelineState::Null);
    assert_eq!(
        streamer.ops,
        vec![
            BackendOp::AcquireVideoId,
            BackendOp::ConstructGraph,
            BackendOp::SetPlaying,
            BackendOp::SendEos,
            BackendOp::GraceWait,
            BackendOp::SetNull,
            BackendOp::ResolvePreviewUrl,
        ],
    );
}

#[test]
fn streamer_acquire_failure_is_terminal_and_quiet() {
    let mut streamer = Streamer::new(stream_config());
    streamer.create_pipeline();
    streamer.acquire_failed();
    assert_eq!(streamer.state, PipelineState::Failed);
    // Nothing further was requested of any collaborator.
    assert_eq!(streamer.ops, vec![BackendOp::AcquireVideoId]);
    assert_eq!(streamer.config.vid, None);
}

#[test]
fn cancelled_stream_discards_server_state_last() {
    // The backend is asked to drop its server-side state only after the
    // local pipeline is already down.
    let mut streamer = Streamer::new(stream_config());
    streamer.create_pipeline();
    streamer.supply_video_id(String::from("v7"));
    streamer.start_pipeline();
    streamer.cancel_stream();
    assert_eq!(*streamer.ops.last().unwrap(), BackendOp::CancelRecording);
}

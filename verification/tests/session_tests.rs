use spur::options::SType;
use spur::session::{Session, SessionPhase, StartOutcome, Task};
use spur::{BackendOp, Config, FatalError, PipelineState};

fn record_config() -> Config {
    Config::new(String::from("user-1"), SType::Record, Some("clip"))
}

fn stream_config() -> Config {
    Config::new(String::from("user-1"), SType::Stream, None)
}

#[test]
fn start_then_end_empties_the_task_list() {
    let mut session = Session::new(record_config());
    assert_eq!(session.phase, SessionPhase::Created);
    let outcome = session.start();
    assert_eq!(outcome, StartOutcome::Started);
    assert_eq!(session.tasks.len(), 2);
    session.end();
    assert_eq!(session.tasks.len(), 0);
    assert_eq!(session.phase, SessionPhase::Done);
}

#[test]
fn start_then_end_without_overlay_runs_one_task() {
    let mut config = record_config();
    config.overlay = false;
    let mut session = Session::new(config);
    session.start();
    assert_eq!(session.tasks.len(), 1);
    session.end();
    assert_eq!(session.tasks.len(), 0);
}

#[test]
fn teardown_order_is_the_reverse_of_start_order() {
    let mut session = Session::new(record_config());
    session.start();
    // Start order: the record task, then the overlay task.
    assert!(matches!(session.tasks[0], Task::Record(_)));
    assert!(matches!(session.tasks[1], Task::Overlay(_)));
    session.end();
    // Teardown order: the overlay first, the record task last.
    assert_eq!(session.finished.len(), 2);
    assert!(matches!(session.finished[0], Task::Overlay(_)));
    assert!(matches!(session.finished[1], Task::Record(_)));
}

#[test]
fn cancel_order_is_the_reverse_of_start_order() {
    let mut session = Session::new(record_config());
    session.start();
    session.cancel();
    assert_eq!(session.phase, SessionPhase::Cancelled);
    assert!(matches!(session.finished[0], Task::Overlay(_)));
    assert!(matches!(session.finished[1], Task::Record(_)));
}

#[test]
fn graceful_stop_sequences_eos_wait_then_null() {
    let mut session = Session::new(record_config());
    session.start();
    session.end();
    let Task::Record(recorder) = &session.finished[1] else {
        panic!("the record task must be torn down last");
    };
    assert_eq!(recorder.state, PipelineState::Null);
    assert_eq!(
        recorder.ops,
        vec![
            BackendOp::ConstructGraph,
            BackendOp::SetPlaying,
            BackendOp::SendEos,
            BackendOp::GraceWait,
            BackendOp::SetNull,
        ],
    );
}

#[test]
fn cancel_never_requests_the_grace_wait() {
    let mut session = Session::new(record_config());
    session.start();
    session.cancel();
    for task in &session.finished {
        let ops = match task {
            Task::Record(t) => &t.ops,
            Task::Stream(t) => &t.ops,
            Task::Overlay(t) => &t.ops,
        };
        assert!(!ops.contains(&BackendOp::GraceWait));
    }
}

#[test]
fn stream_start_asks_for_a_video_id_before_construction() {
    let mut session = Session::new(stream_config());
    let outcome = session.start();
    assert_eq!(outcome, StartOutcome::NeedsVideoId);
    assert_eq!(session.phase, SessionPhase::AwaitingVideoId);
    let Task::Stream(streamer) = &session.tasks[0] else {
        panic!("a stream session must start a stream task");
    };
    // Acquisition is requested before any construction call exists.
    assert_eq!(streamer.ops, vec![BackendOp::AcquireVideoId]);
    assert_eq!(streamer.state, PipelineState::AwaitingVideoId);

    session.supply_video_id(String::from("v42"));
    assert_eq!(session.phase, SessionPhase::Running);
    let Task::Stream(streamer) = &session.tasks[0] else {
        panic!("the stream task must stay first");
    };
    // Exactly one acquisition, and it precedes the construction call.
    assert_eq!(
        streamer.ops,
        vec![BackendOp::AcquireVideoId, BackendOp::ConstructGraph, BackendOp::SetPlaying],
    );
    assert_eq!(streamer.config.vid.as_deref(), Some("v42"));
}

#[test]
fn stream_stop_resolves_the_preview_url_only_after_teardown() {
    let mut session = Session::new(stream_config());
    session.start();
    session.supply_video_id(String::from("v42"));
    session.end();
    let streamer = session
        .finished
        .iter()
        .find_map(|t| if let Task::Stream(s) = t { Some(s) } else { None })
        .expect("the stream task must be torn down");
    let resolves: Vec<usize> = streamer
        .ops
        .iter()
        .enumerate()
        .filter(|(_, op)| **op == BackendOp::ResolvePreviewUrl)
        .map(|(i, _)| i)
        .collect();
    assert_eq!(resolves.len(), 1);
    let null_at = streamer.ops.iter().position(|op| *op == BackendOp::SetNull).unwrap();
    assert!(resolves[0] > null_at);
    assert_eq!(*streamer.ops.last().unwrap(), BackendOp::ResolvePreviewUrl);
}

#[test]
fn stream_cancel_discards_server_side_state_exactly_once() {
    let mut session = Session::new(stream_config());
    session.start();
    session.supply_video_id(String::from("v42"));
    session.cancel();
    let streamer = session
        .finished
        .iter()
        .find_map(|t| if let Task::Stream(s) = t { Some(s) } else { None })
        .expect("the stream task must be torn down");
    let cancels = streamer.ops.iter().filter(|op| **op == BackendOp::CancelRecording).count();
    assert_eq!(cancels, 1);
    assert!(!streamer.ops.contains(&BackendOp::GraceWait));
    assert_eq!(
        streamer.ops,
        vec![
            BackendOp::AcquireVideoId,
            BackendOp::ConstructGraph,
            BackendOp::SetPlaying,
            BackendOp::SendEos,
            BackendOp::SetNull,
            BackendOp::CancelRecording,
        ],
    );
}

#[test]
fn acquire_failure_prevents_the_pipeline_from_starting() {
    let mut session = Session::new(stream_config());
    let outcome = session.start();
    assert_eq!(outcome, StartOutcome::NeedsVideoId);
    let error = session.video_id_failed();
    assert_eq!(error, FatalError::AcquireVideoId);
    assert_ne!(error, FatalError::PipelineConstruction);
    assert_eq!(session.phase, SessionPhase::Failed);
    let Task::Stream(streamer) = &session.tasks[0] else {
        panic!("the failed stream task is kept for inspection");
    };
    assert_eq!(streamer.state, PipelineState::Failed);
    assert!(!streamer.ops.contains(&BackendOp::SetPlaying));
    assert!(!streamer.ops.contains(&BackendOp::ConstructGraph));
}

#[test]
fn session_new_copies_the_configuration() {
    let config = record_config();
    let session = Session::new(config);
    assert_eq!(session.s_type, SType::Record);
    assert!(session.overlay);
    assert_eq!(session.config.uid, "user-1");
    assert!(session.tasks.is_empty());
    assert!(session.finished.is_empty());
}

#[test]
fn update_session_type_changes_only_the_type() {
    let mut config = record_config();
    let filename = config.filename.clone();
    config.update_session_type(SType::Stream);
    assert_eq!(config.s_type, SType::Stream);
    assert_eq!(config.filename, filename);
    assert_eq!(config.uid, "user-1");
}

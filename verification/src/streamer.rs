use vstd::prelude::*;

use crate::{
    cancel_suffix, graceful_suffix, BackendOp, Config, Media, PipelineState, TaskKind, TaskModel,
};

verus! {

/// The streaming task: captures the desktop and pushes it to the backend's
/// streaming endpoint.  Its sink target depends on a backend-issued video
/// identifier, so pipeline creation first requests that identifier and the
/// graph is constructed only once it is supplied.
#[derive(Debug)]
pub struct Streamer {
    pub config: Config,
    pub state: PipelineState,
    pub ops: Vec<BackendOp>,
}

impl Media for Streamer {
    open spec fn model(&self) -> TaskModel {
        TaskModel {
            kind: TaskKind::Stream,
            config: self.config,
            state: self.state,
            ops: self.ops@,
        }
    }

    fn new(config: Config) -> (t: Self) {
        Streamer { config, state: PipelineState::Unconstructed, ops: Vec::new() }
    }

    fn create_pipeline(&mut self) {
        self.ops.push(BackendOp::AcquireVideoId);
        self.state = PipelineState::AwaitingVideoId;
    }

    fn start_pipeline(&mut self) {
        self.ops.push(BackendOp::SetPlaying);
        self.state = PipelineState::Playing;
    }

    fn stop_stream(&mut self) {
        self.ops.push(BackendOp::SendEos);
        self.ops.push(BackendOp::GraceWait);
        self.ops.push(BackendOp::SetNull);
        if self.config.vid.is_some() {
            self.ops.push(BackendOp::ResolvePreviewUrl);
        }
        self.state = PipelineState::Null;
        proof {
            assert(self.ops@ =~= old(self).ops@ + graceful_suffix(old(self).model()));
        }
    }

    fn cancel_stream(&mut self) {
        self.ops.push(BackendOp::SendEos);
        self.ops.push(BackendOp::SetNull);
        if self.config.vid.is_some() {
            self.ops.push(BackendOp::CancelRecording);
        }
        self.state = PipelineState::Null;
        proof {
            assert(self.ops@ =~= old(self).ops@ + cancel_suffix(old(self).model()));
        }
    }
}

impl Streamer {
    /// Store the backend-issued identifier and construct the pipeline graph:
    /// the one step that may set `config.vid`, and the only path to `Ready`
    /// for a stream task.
    pub fn supply_video_id(&mut self, vid: String)
        requires
            old(self).model().state == PipelineState::AwaitingVideoId,
        ensures
            final(self).model().kind == TaskKind::Stream,
            final(self).model().state == PipelineState::Ready,
            final(self).model().ops == old(self).model().ops.push(BackendOp::ConstructGraph),
            final(self).config.vid == Some(vid),
            final(self).config.s_type == old(self).config.s_type,
            final(self).config.filename == old(self).config.filename,
            final(self).config.quality == old(self).config.quality,
            final(self).config.framerate == old(self).config.framerate,
            final(self).config.overlay == old(self).config.overlay,
            final(self).config.uid == old(self).config.uid,
    {
        self.config.vid = Some(vid);
        self.ops.push(BackendOp::ConstructGraph);
        self.state = PipelineState::Ready;
    }

    /// Record that the backend refused to issue an identifier.  The task
    /// ends in `Failed`, from which `start_pipeline` can never be reached,
    /// and requests nothing further of any collaborator.
    pub fn acquire_failed(&mut self)
        requires
            old(self).model().state == PipelineState::AwaitingVideoId,
        ensures
            final(self).model().kind == TaskKind::Stream,
            final(self).model().state == PipelineState::Failed,
            final(self).model().ops == old(self).model().ops,
            final(self).model().config == old(self).model().config,
    {
        self.state = PipelineState::Failed;
    }
}

/// Law: a stream task acquires its video identifier exactly once, and before
/// its pipeline graph is constructed: after creation and identifier supply
/// the requested calls are exactly `AcquireVideoId` then `ConstructGraph`.
pub proof fn lemma_stream_acquire_once_before_construct(
    pre: TaskModel,
    mid: TaskModel,
    post: TaskModel,
)
    requires
        pre.ops == Seq::<BackendOp>::empty(),
        mid.ops == pre.ops.push(BackendOp::AcquireVideoId),
        post.ops == mid.ops.push(BackendOp::ConstructGraph),
    ensures
        post.ops.len() == 2,
        post.ops[0] == BackendOp::AcquireVideoId,
        post.ops[1] == BackendOp::ConstructGraph,
        forall|i: int|
            0 <= i < post.ops.len() && post.ops[i] == BackendOp::AcquireVideoId ==> i == 0,
{
}

/// Law: a graceful stream stop resolves the preview URL exactly once, and
/// only after the pipeline was forced to `Null`.
pub proof fn lemma_resolve_only_after_teardown(m: TaskModel)
    requires
        m.kind == TaskKind::Stream,
        m.config.vid is Some,
    ensures
        graceful_suffix(m).len() == 4,
        graceful_suffix(m)[3] == BackendOp::ResolvePreviewUrl,
        forall|i: int| 0 <= i < 3 ==> graceful_suffix(m)[i] != BackendOp::ResolvePreviewUrl,
        graceful_suffix(m)[2] == BackendOp::SetNull,
{
}

/// Law: an aborted stream asks the backend to discard its server-side state
/// exactly once, after the local pipeline was torn down.
pub proof fn lemma_cancel_recording_once(m: TaskModel)
    requires
        m.kind == TaskKind::Stream,
        m.config.vid is Some,
    ensures
        cancel_suffix(m).len() == 3,
        cancel_suffix(m)[2] == BackendOp::CancelRecording,
        forall|i: int| 0 <= i < 2 ==> cancel_suffix(m)[i] != BackendOp::CancelRecording,
        cancel_suffix(m)[1] == BackendOp::SetNull,
{
}

} // verus!

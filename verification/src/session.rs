use vstd::prelude::*;

use crate::options::SType;
use crate::overlay::CameraPreview;
use crate::recorder::Recorder;
use crate::streamer::Streamer;
use crate::{
    cancel_suffix, graceful_suffix, BackendOp, Config, FatalError, Media, PipelineState, TaskKind,
    TaskModel,
};

verus! {

/// One running unit of the session.
#[derive(Debug)]
pub enum Task {
    Overlay(CameraPreview),
    Record(Recorder),
    Stream(Streamer),
}

impl Task {
    /// The model of the wrapped task.
    pub open spec fn model(&self) -> TaskModel {
        match self {
            Task::Overlay(t) => t.model(),
            Task::Record(t) => t.model(),
            Task::Stream(t) => t.model(),
        }
    }
}

/// Where the session is in its own lifecycle.
#[derive(Debug, Clone, Copy, PartialEq, Eq, Structural)]
pub enum SessionPhase {
    Created,
    AwaitingVideoId,
    Running,
    Done,
    Cancelled,
    Failed,
}

/// What `start` asks of its driver next.
#[derive(Debug, Clone, Copy, PartialEq, Eq, Structural)]
pub enum StartOutcome {
    /// Every task is running.
    Started,
    /// A stream session: the driver must fetch a video identifier for
    /// `config.uid` and hand it to `supply_video_id`, or report the failure
    /// through `video_id_failed`.
    NeedsVideoId,
}

/// The model of a task just after construction and start: graph built, then
/// set playing.
pub open spec fn running_model(kind: TaskKind, config: Config) -> TaskModel {
    TaskModel {
        kind,
        config,
        state: PipelineState::Playing,
        ops: seq![BackendOp::ConstructGraph, BackendOp::SetPlaying],
    }
}

/// The model of a stream task waiting for its identifier.
pub open spec fn awaiting_model(config: Config) -> TaskModel {
    TaskModel {
        kind: TaskKind::Stream,
        config,
        state: PipelineState::AwaitingVideoId,
        ops: seq![BackendOp::AcquireVideoId],
    }
}

/// The calls a running stream task has on record: identifier acquisition,
/// then graph construction, then the transition to playing.
pub open spec fn stream_running_ops() -> Seq<BackendOp> {
    seq![BackendOp::AcquireVideoId, BackendOp::ConstructGraph, BackendOp::SetPlaying]
}

/// `c` with its video identifier replaced.
pub open spec fn config_with_vid(c: Config, vid: Option<String>) -> Config {
    Config { vid, ..c }
}

/// In the move from `pre` to `post`, the task at reverse index `j` of
/// `pre`'s task list was gracefully stopped into the `j`-th position `post`
/// appended to `finished`.
pub open spec fn stopped_at(pre: Session, post: Session, j: int) -> bool {
    task_stopped(
        pre.tasks@[pre.tasks@.len() - 1 - j].model(),
        post.finished@[pre.finished@.len() + j].model(),
    )
}

/// In the move from `pre` to `post`, the task at reverse index `j` of
/// `pre`'s task list was aborted into the `j`-th position `post` appended to
/// `finished`.
pub open spec fn cancelled_at(pre: Session, post: Session, j: int) -> bool {
    task_cancelled(
        pre.tasks@[pre.tasks@.len() - 1 - j].model(),
        post.finished@[pre.finished@.len() + j].model(),
    )
}

/// `post` is `pre` after a graceful stop.
pub open spec fn task_stopped(pre: TaskModel, post: TaskModel) -> bool {
    &&& post.kind == pre.kind
    &&& post.config == pre.config
    &&& post.state == PipelineState::Null
    &&& post.ops == pre.ops + graceful_suffix(pre)
}

/// `post` is `pre` after an abort.
pub open spec fn task_cancelled(pre: TaskModel, post: TaskModel) -> bool {
    &&& post.kind == pre.kind
    &&& post.config == pre.config
    &&& post.state == PipelineState::Null
    &&& post.ops == pre.ops + cancel_suffix(pre)
}

/// The session: owns the tasks of one run in start order, the configuration
/// they were built from, and the record of tasks already torn down, in
/// teardown order.
#[derive(Debug)]
pub struct Session {
    pub s_type: SType,
    pub overlay: bool,
    pub config: Config,
    pub phase: SessionPhase,
    pub tasks: Vec<Task>,
    pub finished: Vec<Task>,
}

impl Session {
    /// In a running session the primary capture task stands first, the
    /// overlay task second when enabled, and every task is playing with
    /// exactly its start calls on record.
    pub open spec fn running_wf(&self) -> bool {
        &&& self.tasks@.len() == (if self.overlay {
            2int
        } else {
            1int
        })
        &&& (self.s_type == SType::Record ==> self.tasks@[0].model() == running_model(
            TaskKind::Record,
            self.config,
        ))
        &&& (self.s_type == SType::Stream ==> {
            &&& self.tasks@[0].model().config.vid is Some
            &&& self.tasks@[0].model() == (TaskModel {
                kind: TaskKind::Stream,
                config: config_with_vid(self.config, self.tasks@[0].model().config.vid),
                state: PipelineState::Playing,
                ops: stream_running_ops(),
            })
        })
        &&& (self.overlay ==> self.tasks@[1].model() == running_model(
            TaskKind::Overlay,
            self.config,
        ))
    }

    /// Well-formedness: the cached fields agree with the configuration and
    /// the task list is exactly what the phase says.
    pub open spec fn wf(&self) -> bool {
        &&& self.s_type == self.config.s_type
        &&& self.overlay == self.config.overlay
        &&& match self.phase {
            SessionPhase::Created => self.tasks@.len() == 0,
            SessionPhase::AwaitingVideoId => {
                &&& self.s_type == SType::Stream
                &&& self.tasks@.len() == 1
                &&& self.tasks@[0].model() == awaiting_model(self.config)
            },
            SessionPhase::Running => self.running_wf(),
            SessionPhase::Done => self.tasks@.len() == 0,
            SessionPhase::Cancelled => self.tasks@.len() == 0,
            SessionPhase::Failed => {
                &&& self.tasks@.len() == 1
                &&& self.tasks@[0].model().state == PipelineState::Failed
                &&& self.tasks@[0].model().ops == seq![BackendOp::AcquireVideoId]
            },
        }
    }

    /// A session over `config` with no tasks yet.
    pub fn new(config: Config) -> (s: Session)
        ensures
            s.wf(),
            s.phase == SessionPhase::Created,
            s.config == config,
            s.s_type == config.s_type,
            s.overlay == config.overlay,
            s.tasks@.len() == 0,
            s.finished@.len() == 0,
    {
        Session {
            s_type: config.s_type,
            overlay: config.overlay,
            config,
            phase: SessionPhase::Created,
            tasks: Vec::new(),
            finished: Vec::new(),
        }
    }

    /// Build and start the primary capture task.  A record task ends up
    /// playing; a stream task stops at `AwaitingVideoId`, since its sink
    /// target needs the backend-issued identifier first.
    pub fn start_media_pipeline(&self) -> (t: Task)
        ensures
            self.s_type == SType::Record ==> t.model() == running_model(
                TaskKind::Record,
                self.config,
            ),
            self.s_type != SType::Record ==> t.model() == awaiting_model(self.config),
    {
        let conf = self.config.clone();
        if self.s_type == SType::Record {
            let mut task_obj = Recorder::new(conf);
            task_obj.create_pipeline();
            task_obj.start_pipeline();
            proof {
                assert(task_obj.model().ops =~= running_model(TaskKind::Record, self.config).ops);
            }
            Task::Record(task_obj)
        } else {
            let mut task_obj = Streamer::new(conf);
            task_obj.create_pipeline();
            proof {
                assert(task_obj.model().ops =~= awaiting_model(self.config).ops);
            }
            Task::Stream(task_obj)
        }
    }

    /// Build and start the overlay task.
    pub fn start_overlay_pipeline(&self) -> (t: Task)
        ensures
            t.model() == running_model(TaskKind::Overlay, self.config),
    {
        let mut task_obj = CameraPreview::new(self.config.clone());
        task_obj.create_pipeline();
        task_obj.start_pipeline();
        proof {
            assert(task_obj.model().ops =~= running_model(TaskKind::Overlay, self.config).ops);
        }
        Task::Overlay(task_obj)
    }

    /// Start the session's tasks: the primary capture task first, then, when
    /// enabled, the overlay task, so that a stream's identifier exists
    /// before any overlay work.  For a stream session the driver must next
    /// supply the identifier or report its failure.
    pub fn start(&mut self) -> (r: StartOutcome)
        requires
            old(self).wf(),
            old(self).phase == SessionPhase::Created,
        ensures
            final(self).wf(),
            start_transition(*old(self), *final(self), r),
    {
        let primary = self.start_media_pipeline();
        self.tasks.push(primary);
        if self.s_type == SType::Record {
            if self.overlay {
                let ov = self.start_overlay_pipeline();
                self.tasks.push(ov);
            }
            self.phase = SessionPhase::Running;
            StartOutcome::Started
        } else {
            self.phase = SessionPhase::AwaitingVideoId;
            StartOutcome::NeedsVideoId
        }
    }

    /// Hand the backend-issued identifier to the waiting stream task: the
    /// task stores it, constructs its graph and starts playing, and then
    /// the overlay task is started when enabled.
    pub fn supply_video_id(&mut self, vid: String)
        requires
            old(self).wf(),
            old(self).phase == SessionPhase::AwaitingVideoId,
        ensures
            final(self).wf(),
            supply_transition(*old(self), *final(self), vid),
    {
        let task = self.tasks.pop().unwrap();
        match task {
            Task::Stream(mut st) => {
                st.supply_video_id(vid);
                st.start_pipeline();
                proof {
                    assert(st.model().ops =~= stream_running_ops());
                }
                self.tasks.push(Task::Stream(st));
            },
            _ => unreached(),
        }
        if self.overlay {
            let ov = self.start_overlay_pipeline();
            self.tasks.push(ov);
        }
        self.phase = SessionPhase::Running;
    }

    /// Record that the backend refused to issue an identifier: the stream
    /// task can never be started, and the reported error is distinguishable
    /// from a pipeline-construction failure.
    pub fn video_id_failed(&mut self) -> (e: FatalError)
        requires
            old(self).wf(),
            old(self).phase == SessionPhase::AwaitingVideoId,
        ensures
            final(self).wf(),
            fail_transition(*old(self), *final(self), e),
    {
        let task = self.tasks.pop().unwrap();
        match task {
            Task::Stream(mut st) => {
                st.acquire_failed();
                self.tasks.push(Task::Stream(st));
            },
            _ => unreached(),
        }
        self.phase = SessionPhase::Failed;
        FatalError::AcquireVideoId
    }

    /// Gracefully stop every task, most recently started first, so the
    /// overlay tears down before the capture task it previews.  Each task is
    /// moved to `finished` once stopped; `finished` thus records teardown
    /// order.
    pub fn end(&mut self)
        requires
            old(self).wf(),
            old(self).phase == SessionPhase::Running || old(self).phase == SessionPhase::Created,
        ensures
            final(self).wf(),
            end_transition(*old(self), *final(self)),
    {
        loop
            invariant
                old(self).wf(),
                old(self).phase == SessionPhase::Running || old(self).phase
                    == SessionPhase::Created,
                self.config == old(self).config,
                self.s_type == old(self).s_type,
                self.overlay == old(self).overlay,
                self.phase == old(self).phase,
                self.tasks@.len() <= old(self).tasks@.len(),
                self.tasks@ == old(self).tasks@.take(self.tasks@.len() as int),
                self.finished@.len() == old(self).finished@.len() + old(self).tasks@.len()
                    - self.tasks@.len(),
                self.finished@.take(old(self).finished@.len() as int) == old(self).finished@,
                forall|j: int|
                    0 <= j < old(self).tasks@.len() - self.tasks@.len()
                        ==> #[trigger] stopped_at(*old(self), *self, j),
            ensures
                self.tasks@.len() == 0,
                self.config == old(self).config,
                self.s_type == old(self).s_type,
                self.overlay == old(self).overlay,
                self.phase == old(self).phase,
                self.finished@.len() == old(self).finished@.len() + old(self).tasks@.len(),
                self.finished@.take(old(self).finished@.len() as int) == old(self).finished@,
                forall|j: int|
                    0 <= j < old(self).tasks@.len() ==> #[trigger] stopped_at(
                        *old(self),
                        *self,
                        j,
                    ),
            decreases self.tasks.len(),
        {
            let ghost prev = *self;
            match self.tasks.pop() {
                None => {
                    proof {
                        assert forall|j: int| 0 <= j < old(self).tasks@.len() implies #[trigger]
                            stopped_at(*old(self), *self, j) by {
                            assert(stopped_at(*old(self), prev, j));
                        }
                    }
                    break;
                },
                Some(task) => {
                    proof {
                        let k = self.tasks@.len() as int;
                        assert(task == old(self).tasks@[k]);
                        assert(old(self).phase == SessionPhase::Running);
                        assert(old(self).running_wf());
                        if k != 0 {
                            assert(k == 1);
                            assert(old(self).overlay);
                        }
                        assert(task.model().state == PipelineState::Playing);
                        assert(self.tasks@ =~= old(self).tasks@.take(k));
                    }
                    match task {
                        Task::Record(mut obj) => {
                            obj.stop_stream();
                            self.finished.push(Task::Record(obj));
                        },
                        Task::Stream(mut obj) => {
                            obj.stop_stream();
                            self.finished.push(Task::Stream(obj));
                        },
                        Task::Overlay(mut obj) => {
                            obj.stop_stream();
                            self.finished.push(Task::Overlay(obj));
                        },
                    }
                    proof {
                        let k = self.tasks@.len() as int;
                        let jn = old(self).tasks@.len() - self.tasks@.len() - 1;
                        assert(self.finished@.take(old(self).finished@.len() as int)
                            =~= old(self).finished@);
                        assert(task_stopped(
                            old(self).tasks@[k].model(),
                            self.finished@[self.finished@.len() - 1].model(),
                        ));
                        assert(stopped_at(*old(self), *self, jn));
                        assert forall|j: int|
                            0 <= j < old(self).tasks@.len() - self.tasks@.len()
                            implies #[trigger] stopped_at(*old(self), *self, j) by {
                            if j < jn {
                                assert(self.finished@[old(self).finished@.len() + j]
                                    == prev.finished@[old(self).finished@.len() + j]);
                                assert(stopped_at(*old(self), prev, j));
                            }
                        }
                    }
                },
            }
        }
        let ghost after_loop = *self;
        self.phase = SessionPhase::Done;
        proof {
            assert forall|j: int| 0 <= j < old(self).tasks@.len() implies #[trigger] stopped_at(
                *old(self),
                *self,
                j,
            ) by {
                assert(stopped_at(*old(self), after_loop, j));
            }
        }
    }

    /// Abort every task, most recently started first: no grace-period wait,
    /// and a stream additionally asks the backend to discard server-side
    /// state.  Each task is moved to `finished` once aborted.
    pub fn cancel(&mut self)
        requires
            old(self).wf(),
            old(self).phase == SessionPhase::Running || old(self).phase == SessionPhase::Created,
        ensures
            final(self).wf(),
            cancel_transition(*old(self), *final(self)),
    {
        loop
            invariant
                old(self).wf(),
                old(self).phase == SessionPhase::Running || old(self).phase
                    == SessionPhase::Created,
                self.config == old(self).config,
                self.s_type == old(self).s_type,
                self.overlay == old(self).overlay,
                self.phase == old(self).phase,
                self.tasks@.len() <= old(self).tasks@.len(),
                self.tasks@ == old(self).tasks@.take(self.tasks@.len() as int),
                self.finished@.len() == old(self).finished@.len() + old(self).tasks@.len()
                    - self.tasks@.len(),
                self.finished@.take(old(self).finished@.len() as int) == old(self).finished@,
                forall|j: int|
                    0 <= j < old(self).tasks@.len() - self.tasks@.len()
                        ==> #[trigger] cancelled_at(*old(self), *self, j),
            ensures
                self.tasks@.len() == 0,
                self.config == old(self).config,
                self.s_type == old(self).s_type,
                self.overlay == old(self).overlay,
                self.phase == old(self).phase,
                self.finished@.len() == old(self).finished@.len() + old(self).tasks@.len(),
                self.finished@.take(old(self).finished@.len() as int) == old(self).finished@,
                forall|j: int|
                    0 <= j < old(self).tasks@.len() ==> #[trigger] cancelled_at(
                        *old(self),
                        *self,
                        j,
                    ),
            decreases self.tasks.len(),
        {
            let ghost prev = *self;
            match self.tasks.pop() {
                None => {
                    proof {
                        assert forall|j: int| 0 <= j < old(self).tasks@.len() implies #[trigger]
                            cancelled_at(*old(self), *self, j) by {
                            assert(cancelled_at(*old(self), prev, j));
                        }
                    }
                    break;
                },
                Some(task) => {
                    proof {
                        let k = self.tasks@.len() as int;
                        assert(task == old(self).tasks@[k]);
                        assert(old(self).phase == SessionPhase::Running);
                        assert(old(self).running_wf());
                        if k != 0 {
                            assert(k == 1);
                            assert(old(self).overlay);
                        }
                        assert(task.model().state == PipelineState::Playing);
                        assert(self.tasks@ =~= old(self).tasks@.take(k));
                    }
                    match task {
                        Task::Record(mut obj) => {
                            obj.cancel_stream();
                            self.finished.push(Task::Record(obj));
                        },
                        Task::Stream(mut obj) => {
                            obj.cancel_stream();
                            self.finished.push(Task::Stream(obj));
                        },
                        Task::Overlay(mut obj) => {
                            obj.cancel_stream();
                            self.finished.push(Task::Overlay(obj));
                        },
                    }
                    proof {
                        let k = self.tasks@.len() as int;
                        let jn = old(self).tasks@.len() - self.tasks@.len() - 1;
                        assert(self.finished@.take(old(self).finished@.len() as int)
                            =~= old(self).finished@);
                        assert(task_cancelled(
                            old(self).tasks@[k].model(),
                            self.finished@[self.finished@.len() - 1].model(),
                        ));
                        assert(cancelled_at(*old(self), *self, jn));
                        assert forall|j: int|
                            0 <= j < old(self).tasks@.len() - self.tasks@.len()
                            implies #[trigger] cancelled_at(*old(self), *self, j) by {
                            if j < jn {
                                assert(self.finished@[old(self).finished@.len() + j]
                                    == prev.finished@[old(self).finished@.len() + j]);
                                assert(cancelled_at(*old(self), prev, j));
                            }
                        }
                    }
                },
            }
        }
        let ghost after_loop = *self;
        self.phase = SessionPhase::Cancelled;
        proof {
            assert forall|j: int| 0 <= j < old(self).tasks@.len() implies #[trigger] cancelled_at(
                *old(self),
                *self,
                j,
            ) by {
                assert(cancelled_at(*old(self), after_loop, j));
            }
        }
    }
}

/// What `start` did: for a record session every task is running; for a
/// stream session the one stream task waits for its identifier.
pub open spec fn start_transition(pre: Session, post: Session, r: StartOutcome) -> bool {
    &&& post.config == pre.config
    &&& post.s_type == pre.s_type
    &&& post.overlay == pre.overlay
    &&& post.finished == pre.finished
    &&& (pre.s_type == SType::Record ==> r == StartOutcome::Started && post.phase
        == SessionPhase::Running)
    &&& (pre.s_type == SType::Stream ==> r == StartOutcome::NeedsVideoId && post.phase
        == SessionPhase::AwaitingVideoId)
}

/// What supplying the identifier did: the session runs, its stream task
/// holding exactly the supplied identifier.
pub open spec fn supply_transition(pre: Session, post: Session, vid: String) -> bool {
    &&& post.config == pre.config
    &&& post.s_type == pre.s_type
    &&& post.overlay == pre.overlay
    &&& post.finished == pre.finished
    &&& post.phase == SessionPhase::Running
    &&& post.tasks@.len() > 0
    &&& post.tasks@[0].model().config.vid == Some(vid)
}

/// What recording the acquisition failure did.
pub open spec fn fail_transition(pre: Session, post: Session, e: FatalError) -> bool {
    &&& post.config == pre.config
    &&& post.s_type == pre.s_type
    &&& post.overlay == pre.overlay
    &&& post.finished == pre.finished
    &&& post.phase == SessionPhase::Failed
    &&& e == FatalError::AcquireVideoId
    &&& post.tasks@.len() == 1
    &&& post.tasks@[0].model().kind == TaskKind::Stream
    &&& post.tasks@[0].model().state == PipelineState::Failed
    &&& post.tasks@[0].model().ops == seq![BackendOp::AcquireVideoId]
}

/// What `end` did: the task list was emptied back-to-front, each task
/// stopped gracefully and appended to `finished`, so teardown order is the
/// exact reverse of start order.
pub open spec fn end_transition(pre: Session, post: Session) -> bool {
    &&& post.config == pre.config
    &&& post.s_type == pre.s_type
    &&& post.overlay == pre.overlay
    &&& post.phase == SessionPhase::Done
    &&& post.tasks@.len() == 0
    &&& post.finished@.len() == pre.finished@.len() + pre.tasks@.len()
    &&& post.finished@.take(pre.finished@.len() as int) == pre.finished@
    &&& forall|j: int| 0 <= j < pre.tasks@.len() ==> #[trigger] stopped_at(pre, post, j)
}

/// What `cancel` did: as `end`, but each task was aborted.
pub open spec fn cancel_transition(pre: Session, post: Session) -> bool {
    &&& post.config == pre.config
    &&& post.s_type == pre.s_type
    &&& post.overlay == pre.overlay
    &&& post.phase == SessionPhase::Cancelled
    &&& post.tasks@.len() == 0
    &&& post.finished@.len() == pre.finished@.len() + pre.tasks@.len()
    &&& post.finished@.take(pre.finished@.len() as int) == pre.finished@
    &&& forall|j: int| 0 <= j < pre.tasks@.len() ==> #[trigger] cancelled_at(pre, post, j)
}

/// Law: for every valid configuration, starting a session and immediately
/// ending it — supplying an identifier when the backend asks for one, i.e.
/// with the collaborators succeeding on every call — reaches a running
/// session whose teardown leaves the task list empty; each step's
/// precondition is established by the step before, so the sequence cannot
/// fail.
pub proof fn lemma_start_then_end_empties(
    s0: Session,
    s1: Session,
    s2: Session,
    s3: Session,
    r: StartOutcome,
    vid: String,
)
    requires
        s0.wf(),
        s0.phase == SessionPhase::Created,
        start_transition(s0, s1, r),
        s1.wf(),
        r == StartOutcome::Started ==> s2 == s1,
        r == StartOutcome::NeedsVideoId ==> supply_transition(s1, s2, vid) && s2.wf(),
        end_transition(s2, s3),
    ensures
        s2.phase == SessionPhase::Running,
        s3.tasks@.len() == 0,
        s3.phase == SessionPhase::Done,
{
}

/// Law: teardown visits tasks in the exact reverse of start order, whether
/// the session ends gracefully or is cancelled: the task started at index
/// `i` of `N` is the `(N - 1 - i)`-th task torn down.
pub proof fn lemma_teardown_reverse_order(pre: Session, post: Session, j: int)
    requires
        end_transition(pre, post) || cancel_transition(pre, post),
        0 <= j < pre.tasks@.len(),
    ensures
        post.finished@[pre.finished@.len() + j].model().kind == pre.tasks@[pre.tasks@.len() - 1
            - j].model().kind,
        post.finished@[pre.finished@.len() + j].model().state == PipelineState::Null,
{
    if end_transition(pre, post) {
        assert(stopped_at(pre, post, j));
    } else {
        assert(cancelled_at(pre, post, j));
    }
}

/// No grace-period wait appears among these calls.
pub open spec fn no_grace_wait(ops: Seq<BackendOp>) -> bool {
    forall|i: int| 0 <= i < ops.len() ==> ops[i] != BackendOp::GraceWait
}

/// Law: a cancelled session never performs the grace-period wait: the full
/// call record of every task torn down by `cancel` is free of it.
pub proof fn lemma_cancel_never_waits(pre: Session, post: Session, j: int)
    requires
        pre.wf(),
        pre.phase == SessionPhase::Running || pre.phase == SessionPhase::Created,
        cancel_transition(pre, post),
        0 <= j < pre.tasks@.len(),
    ensures
        no_grace_wait(post.finished@[pre.finished@.len() + j].model().ops),
{
    let pre_m = pre.tasks@[pre.tasks@.len() - 1 - j].model();
    let post_m = post.finished@[pre.finished@.len() + j].model();
    assert(cancelled_at(pre, post, j));
    assert(task_cancelled(pre_m, post_m));
    assert(pre.running_wf());
    assert(pre_m.ops == running_model(pre_m.kind, pre.config).ops || pre_m.ops
        == stream_running_ops());
    assert forall|i: int| 0 <= i < post_m.ops.len() implies post_m.ops[i]
        != BackendOp::GraceWait by {
        if i < pre_m.ops.len() {
            assert(post_m.ops[i] == pre_m.ops[i]);
        } else {
            assert(post_m.ops[i] == cancel_suffix(pre_m)[i - pre_m.ops.len()]);
        }
    }
}

/// Law: when identifier acquisition fails, the stream task's pipeline is
/// never started: it never requests `SetPlaying`, its state allows no
/// start, and the reported error differs from a construction failure.
pub proof fn lemma_acquire_failure_blocks_start(pre: Session, post: Session, e: FatalError)
    requires
        pre.wf(),
        pre.phase == SessionPhase::AwaitingVideoId,
        fail_transition(pre, post, e),
    ensures
        post.tasks@[0].model().state != PipelineState::Ready,
        post.tasks@[0].model().state != PipelineState::Playing,
        forall|i: int|
            0 <= i < post.tasks@[0].model().ops.len() ==> post.tasks@[0].model().ops[i]
                != BackendOp::SetPlaying,
        e == FatalError::AcquireVideoId,
        e != FatalError::PipelineConstruction,
{
}

} // verus!

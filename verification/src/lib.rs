use vstd::prelude::*;

pub mod constants;
pub mod digits;
pub mod options;
pub mod overlay;
pub mod parser;
pub mod paths;
pub mod recorder;
pub mod session;
pub mod streamer;

use crate::digits::dec_rep;
use crate::options::{FrameRate, Quality, SType};
use vstd::string::StringExecFns;

verus! {

/// Errors surfaced to callers when an input value cannot be understood or the
/// environment is missing something the tool needs.
#[derive(Debug, Clone, Copy, PartialEq, Eq, Structural)]
pub enum CustomError {
    InvalidAnswer,
    CouldNotFindHome,
}

/// Control messages reserved for future cross-task signalling; no task reads
/// them yet, they document the intended protocol of the control channel.
#[derive(Debug, Clone, Copy, PartialEq, Eq, Structural)]
pub enum ThreadMessages {
    StopPipeline,
    StartPipeline,
    PipelineStoped,
    PipelineStarted,
}

/// The two kinds of fatal failure a session can run into while starting a
/// task: the backend refused to issue a video identifier, or the media
/// pipeline graph could not be built.
#[derive(Debug, Clone, Copy, PartialEq, Eq, Structural)]
pub enum FatalError {
    AcquireVideoId,
    PipelineConstruction,
}

/// Lifecycle of one media task's pipeline, as driven by the session:
/// `Unconstructed -> Ready -> Playing -> Null`, with `AwaitingVideoId`
/// inserted before `Ready` for stream tasks (the sink target depends on a
/// backend-issued identifier) and `Failed` when that identifier could not be
/// acquired.  `Null` and `Failed` are terminal.
#[derive(Debug, Clone, Copy, PartialEq, Eq, Structural)]
pub enum PipelineState {
    Unconstructed,
    AwaitingVideoId,
    Ready,
    Playing,
    Null,
    Failed,
}

/// One observable call a task asks its external collaborators to perform, in
/// the order the calls must happen.  `AcquireVideoId`, `ResolvePreviewUrl`
/// and `CancelRecording` go to the backend coordination service; the rest go
/// to the media pipeline backend.
#[derive(Debug, Clone, Copy, PartialEq, Eq, Structural)]
pub enum BackendOp {
    AcquireVideoId,
    ConstructGraph,
    SetPlaying,
    SendEos,
    GraceWait,
    SetNull,
    ResolvePreviewUrl,
    CancelRecording,
}

/// The three task variants a session can own.
#[derive(Debug, Clone, Copy, PartialEq, Eq, Structural)]
pub enum TaskKind {
    Record,
    Stream,
    Overlay,
}

/// Mathematical model of one media task: its variant, the configuration it
/// was built from, where it is in its lifecycle, and the full sequence of
/// collaborator calls it has requested so far.
pub struct TaskModel {
    pub kind: TaskKind,
    pub config: Config,
    pub state: PipelineState,
    pub ops: Seq<BackendOp>,
}

/// The calls a graceful stop appends: send end-of-stream, wait the grace
/// period, force the pipeline to `Null`, and, for a stream task that holds a
/// video identifier, resolve the preview URL only after the teardown.
pub open spec fn graceful_suffix(m: TaskModel) -> Seq<BackendOp> {
    if m.kind == TaskKind::Stream && m.config.vid is Some {
        seq![BackendOp::SendEos, BackendOp::GraceWait, BackendOp::SetNull, BackendOp::ResolvePreviewUrl]
    } else {
        seq![BackendOp::SendEos, BackendOp::GraceWait, BackendOp::SetNull]
    }
}

/// The calls an abort appends: send end-of-stream and force `Null` at once,
/// with no grace-period wait, then, for a stream task that holds a video
/// identifier, ask the backend to discard its server-side state.
pub open spec fn cancel_suffix(m: TaskModel) -> Seq<BackendOp> {
    if m.kind == TaskKind::Stream && m.config.vid is Some {
        seq![BackendOp::SendEos, BackendOp::SetNull, BackendOp::CancelRecording]
    } else {
        seq![BackendOp::SendEos, BackendOp::SetNull]
    }
}

/// Law: a graceful stop performs end-of-stream, then the grace-period wait,
/// then the forced transition to `Null`, in exactly that order, whatever the
/// task variant.
pub proof fn lemma_graceful_stop_order(m: TaskModel)
    ensures
        graceful_suffix(m).len() >= 3,
        graceful_suffix(m)[0] == BackendOp::SendEos,
        graceful_suffix(m)[1] == BackendOp::GraceWait,
        graceful_suffix(m)[2] == BackendOp::SetNull,
{
}

/// Law: an abort never performs the grace-period wait, whatever the task
/// variant.
pub proof fn lemma_cancel_skips_grace_wait(m: TaskModel)
    ensures
        forall|i: int| 0 <= i < cancel_suffix(m).len() ==> cancel_suffix(m)[i] != BackendOp::GraceWait,
{
}

/*Config*/

/// Everything one run is configured with.  `vid` is `None` until a stream
/// task's pipeline-construction step has stored the backend-issued
/// identifier, and is set at most once.
#[derive(Debug)]
pub struct Config {
    pub s_type: SType,
    pub filename: Option<String>,
    pub quality: Quality,
    pub framerate: FrameRate,
    pub overlay: bool,
    pub vid: Option<String>,
    pub uid: String,
}

fn clone_opt_string(o: &Option<String>) -> (r: Option<String>)
    ensures
        r == *o,
{
    match o {
        Some(s) => Some(s.clone()),
        None => None,
    }
}

impl Clone for Config {
    fn clone(&self) -> (r: Self)
        ensures
            r == *self,
    {
        Config {
            s_type: self.s_type,
            filename: clone_opt_string(&self.filename),
            quality: self.quality,
            framerate: self.framerate,
            overlay: self.overlay,
            vid: clone_opt_string(&self.vid),
            uid: self.uid.clone(),
        }
    }
}

/// Relies on std::time::SystemTime::now and Duration::as_millis: the
/// milliseconds since the Unix epoch, or 0 if the clock reads before the
/// epoch.  The value depends on the moment of the call, so nothing more can
/// be promised of it.
#[verifier::external_body]
pub(crate) fn now_millis() -> u64 {
    match std::time::SystemTime::now().duration_since(std::time::UNIX_EPOCH) {
        Ok(d) => d.as_millis() as u64,
        Err(_) => 0,
    }
}

/// The name a recording is stored under: the given stem, or the current
/// millisecond timestamp when none was given, with the container extension
/// appended.
pub fn get_filename_for_recording(arg_filename: Option<&str>) -> (r: String)
    ensures
        (match arg_filename {
            Some(f) => r@ == f@ + ".mkv"@,
            None => exists|ms: u64| r@ == dec_rep(ms as nat) + ".mkv"@,
        }),
{
    let mut name: String = match arg_filename {
        Some(f) => f.to_owned(),
        None => digits::u64_to_string(now_millis()),
    };
    name.append(".mkv");
    name
}

impl Config {
    /// A fresh configuration: default quality, framerate and overlay flag,
    /// no video identifier, and a filename only for recordings.
    pub fn new(uid: String, st: SType, raw_filename: Option<&str>) -> (c: Config)
        ensures
            c.uid == uid,
            c.s_type == st,
            c.vid is None,
            c.quality == Quality::Q720,
            c.framerate == FrameRate::F24,
            c.overlay == true,
            st == SType::Record ==> (match raw_filename {
                Some(f) => c.filename matches Some(n) && n@ == f@ + ".mkv"@,
                None => c.filename matches Some(n) && (exists|ms: u64| n@ == dec_rep(ms as nat) + ".mkv"@),
            }),
            st != SType::Record ==> c.filename is None,
    {
        let mut filename: Option<String> = None;
        if st == SType::Record {
            filename = Some(get_filename_for_recording(raw_filename));
        }

        Config {
            uid,
            filename,
            framerate: FrameRate::default(),
            quality: Quality::default(),
            overlay: overlay::default(),
            s_type: st,
            vid: None,
        }
    }

    /// The target the pipeline sink writes to: the recording file's path
    /// under the given home directory for a recording session, or the
    /// streaming endpoint of the acquired video identifier for a stream
    /// session.
    pub fn get_target_path(&self, home: &str) -> (r: String)
        requires
            self.s_type == SType::Record ==> self.filename is Some,
            self.s_type == SType::Stream ==> self.vid is Some,
        ensures
            self.s_type == SType::Record ==> (self.filename matches Some(n) && r@ == home@ + "/"@
                + constants::VIDEOS_FOLDER_FROM_HOME@ + "/"@ + n@),
            self.s_type == SType::Stream ==> (self.vid matches Some(id) && r@
                == constants::STREAM_API@ + "/"@ + id@),
    {
        match self.s_type {
            SType::Record => {
                match &self.filename {
                    Some(filename) => paths::get_video_path(home, filename),
                    None => unreached(),
                }
            },
            SType::Stream => {
                match &self.vid {
                    Some(id) => paths::get_stream_path(id),
                    None => unreached(),
                }
            },
        }
    }

    /// Switch the session type; everything else is kept.
    pub fn update_session_type(&mut self, st: SType)
        ensures
            final(self).s_type == st,
            final(self).filename == old(self).filename,
            final(self).quality == old(self).quality,
            final(self).framerate == old(self).framerate,
            final(self).overlay == old(self).overlay,
            final(self).vid == old(self).vid,
            final(self).uid == old(self).uid,
    {
        self.s_type = st;
    }
}

/*Media*/

/// The capability contract shared by the three task variants.  Each task
/// records, in `model().ops`, the exact sequence of collaborator calls it
/// asks for; the driver performs them in that order.
pub trait Media: Sized {
    /// The task's mathematical model.
    spec fn model(&self) -> TaskModel;

    /// A fresh, unconstructed task for the given configuration.
    fn new(config: Config) -> (t: Self)
        ensures
            t.model().config == config,
            t.model().state == PipelineState::Unconstructed,
            t.model().ops == Seq::<BackendOp>::empty(),
    ;

    /// Build the pipeline graph for this variant.  A stream task must first
    /// acquire a video identifier from the backend, so it only requests that
    /// call here and constructs the graph once the identifier is supplied.
    fn create_pipeline(&mut self)
        requires
            old(self).model().state == PipelineState::Unconstructed,
        ensures
            final(self).model().kind == old(self).model().kind,
            final(self).model().config == old(self).model().config,
            old(self).model().kind == TaskKind::Stream ==> final(self).model().state == PipelineState::AwaitingVideoId
                && final(self).model().ops == old(self).model().ops.push(BackendOp::AcquireVideoId),
            old(self).model().kind != TaskKind::Stream ==> final(self).model().state == PipelineState::Ready
                && final(self).model().ops == old(self).model().ops.push(BackendOp::ConstructGraph),
    ;

    /// Drive the constructed pipeline from `Ready` to `Playing`.
    fn start_pipeline(&mut self)
        requires
            old(self).model().state == PipelineState::Ready,
        ensures
            final(self).model().kind == old(self).model().kind,
            final(self).model().config == old(self).model().config,
            final(self).model().state == PipelineState::Playing,
            final(self).model().ops == old(self).model().ops.push(BackendOp::SetPlaying),
    ;

    /// Graceful shutdown: requests exactly `graceful_suffix` and ends in
    /// `Null`.
    fn stop_stream(&mut self)
        requires
            old(self).model().state == PipelineState::Playing,
        ensures
            final(self).model().kind == old(self).model().kind,
            final(self).model().config == old(self).model().config,
            final(self).model().state == PipelineState::Null,
            final(self).model().ops == old(self).model().ops + graceful_suffix(old(self).model()),
    ;

    /// Abort: requests exactly `cancel_suffix` and ends in `Null`.
    fn cancel_stream(&mut self)
        requires
            old(self).model().state == PipelineState::Playing,
        ensures
            final(self).model().kind == old(self).model().kind,
            final(self).model().config == old(self).model().config,
            final(self).model().state == PipelineState::Null,
            final(self).model().ops == old(self).model().ops + cancel_suffix(old(self).model()),
    ;
}

} // verus!

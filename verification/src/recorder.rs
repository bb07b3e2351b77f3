use vstd::prelude::*;

use crate::{
    cancel_suffix, graceful_suffix, BackendOp, Config, Media, PipelineState, TaskKind, TaskModel,
};

verus! {

/// The screen-recording task: captures the desktop and muxes it into a local
/// container file.
#[derive(Debug)]
pub struct Recorder {
    pub config: Config,
    pub state: PipelineState,
    pub ops: Vec<BackendOp>,
}

impl Media for Recorder {
    open spec fn model(&self) -> TaskModel {
        TaskModel {
            kind: TaskKind::Record,
            config: self.config,
            state: self.state,
            ops: self.ops@,
        }
    }

    fn new(config: Config) -> (t: Self) {
        Recorder { config, state: PipelineState::Unconstructed, ops: Vec::new() }
    }

    fn create_pipeline(&mut self) {
        self.ops.push(BackendOp::ConstructGraph);
        self.state = PipelineState::Ready;
    }

    fn start_pipeline(&mut self) {
        self.ops.push(BackendOp::SetPlaying);
        self.state = PipelineState::Playing;
    }

    fn stop_stream(&mut self) {
        self.ops.push(BackendOp::SendEos);
        self.ops.push(BackendOp::GraceWait);
        self.ops.push(BackendOp::SetNull);
        self.state = PipelineState::Null;
        proof {
            assert(self.ops@ =~= old(self).ops@ + graceful_suffix(old(self).model()));
        }
    }

    fn cancel_stream(&mut self) {
        self.ops.push(BackendOp::SendEos);
        self.ops.push(BackendOp::SetNull);
        self.state = PipelineState::Null;
        proof {
            assert(self.ops@ =~= old(self).ops@ + cancel_suffix(old(self).model()));
        }
    }
}

} // verus!

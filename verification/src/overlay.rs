use vstd::prelude::*;

use crate::{
    graceful_suffix, BackendOp, Config, Media, PipelineState, TaskKind, TaskModel,
};

verus! {

/* Utils */

/// A width and height.
#[derive(Debug, Clone, Copy, PartialEq, Eq)]
pub struct Dimension2D<T> {
    pub width: T,
    pub height: T,
}

/// A point.
#[derive(Debug, Clone, Copy, PartialEq, Eq)]
pub struct Coordinate2D<T> {
    pub x: T,
    pub y: T,
}

impl<T> Dimension2D<T> {
    pub fn new(width: T, height: T) -> (r: Self)
        ensures
            r.width == width,
            r.height == height,
    {
        Dimension2D::<T> { width, height }
    }
}

impl<T> Coordinate2D<T> {
    pub fn new(x: T, y: T) -> (r: Self)
        ensures
            r.x == x,
            r.y == y,
    {
        Coordinate2D::<T> { x, y }
    }
}

/// The screen corner the overlay window is first anchored to.
#[derive(Debug, Clone, Copy, PartialEq, Eq, Structural)]
pub enum InitialPosition {
    TopLeft,
    TopRight,
    BottomLeft,
    BottomRight,
}

impl Default for InitialPosition {
    fn default() -> (r: Self)
        ensures
            r == InitialPosition::BottomRight,
    {
        InitialPosition::BottomRight
    }
}

/// Where the overlay window is first placed: on each axis the coordinate is
/// `screen - window - padding` against the anchored far edge, and
/// `screen + padding` against the anchored near edge, so the window sits
/// inset from the chosen corner by the padding.
pub fn coordinates_for_initial_overlay(
    screen: &Dimension2D<u16>,
    window: &Dimension2D<u16>,
    padding: &Coordinate2D<u16>,
    position: InitialPosition,
) -> (r: Coordinate2D<i16>)
    requires
        screen.width + padding.x <= i16::MAX,
        screen.height + padding.y <= i16::MAX,
        window.width + padding.x <= screen.width,
        window.height + padding.y <= screen.height,
    ensures
        (match position {
            InitialPosition::TopLeft => r.x == screen.width + padding.x && r.y == screen.height
                + padding.y,
            InitialPosition::TopRight => r.x == screen.width - window.width - padding.x && r.y
                == screen.height + padding.y,
            InitialPosition::BottomLeft => r.x == screen.width + padding.x && r.y == screen.height
                - window.height - padding.y,
            InitialPosition::BottomRight => r.x == screen.width - window.width - padding.x && r.y
                == screen.height - window.height - padding.y,
        }),
{
    match position {
        InitialPosition::TopLeft => Coordinate2D::<i16>::new(
            (screen.width + padding.x) as i16,
            (screen.height + padding.y) as i16,
        ),
        InitialPosition::TopRight => Coordinate2D::<i16>::new(
            (screen.width - window.width - padding.x) as i16,
            (screen.height + padding.y) as i16,
        ),
        InitialPosition::BottomLeft => Coordinate2D::<i16>::new(
            (screen.width + padding.x) as i16,
            (screen.height - window.height - padding.y) as i16,
        ),
        InitialPosition::BottomRight => Coordinate2D::<i16>::new(
            (screen.width - window.width - padding.x) as i16,
            (screen.height - window.height - padding.y) as i16,
        ),
    }
}

/// One reading of the pointer, as the window system reports it: its position
/// on the screen root and its position relative to the overlay window.
#[derive(Debug, Clone, Copy, PartialEq, Eq, Structural)]
pub struct PointerPosition {
    pub root_x: i16,
    pub root_y: i16,
    pub win_x: i16,
    pub win_y: i16,
}

/// Pixels a single motion event may move the window per axis; any jump this
/// large or larger is rejected as implausible jitter.
pub const DRAG_JITTER_LIMIT: i32 = 75;

/// The drag decision for one pointer-motion event.  `pointer` is the reading
/// taken before the event, so `root - win` is the window's origin and
/// `win - event` is how far the pointer moved; a plausible delta yields the
/// new origin, an implausible one is ignored.
pub fn drag_reposition(pointer: &PointerPosition, event_x: i16, event_y: i16) -> (r: Option<
    Coordinate2D<i32>,
>)
    ensures
        ({
            let limit = DRAG_JITTER_LIMIT as int;
            let dx = pointer.win_x - event_x;
            let dy = pointer.win_y - event_y;
            if -limit < dx < limit && -limit < dy < limit {
                r matches Some(c) && c.x == pointer.root_x - pointer.win_x - dx && c.y
                    == pointer.root_y - pointer.win_y - dy
            } else {
                r is None
            }
        }),
{
    let dx: i32 = pointer.win_x as i32 - event_x as i32;
    let dy: i32 = pointer.win_y as i32 - event_y as i32;
    let window_x: i32 = pointer.root_x as i32 - pointer.win_x as i32;
    let window_y: i32 = pointer.root_y as i32 - pointer.win_y as i32;
    if -DRAG_JITTER_LIMIT < dx && dx < DRAG_JITTER_LIMIT && -DRAG_JITTER_LIMIT < dy && dy
        < DRAG_JITTER_LIMIT {
        Some(Coordinate2D::<i32>::new(window_x - dx, window_y - dy))
    } else {
        None
    }
}

pub const COMMAND_NAME: &'static str = "overlay";

/// Whether the camera-preview overlay is shown when nothing was asked.
pub fn default() -> (b: bool)
    ensures
        b == true,
{
    true
}

/// The camera-preview overlay task: a small override-redirect window glued
/// to the camera feed, started beside the capture task and repositionable by
/// dragging.
#[derive(Debug)]
pub struct CameraPreview {
    pub config: Config,
    pub state: PipelineState,
    pub ops: Vec<BackendOp>,
}

impl Media for CameraPreview {
    open spec fn model(&self) -> TaskModel {
        TaskModel {
            kind: TaskKind::Overlay,
            config: self.config,
            state: self.state,
            ops: self.ops@,
        }
    }

    fn new(config: Config) -> (t: Self) {
        CameraPreview { config, state: PipelineState::Unconstructed, ops: Vec::new() }
    }

    fn create_pipeline(&mut self) {
        self.ops.push(BackendOp::ConstructGraph);
        self.state = PipelineState::Ready;
    }

    fn start_pipeline(&mut self) {
        self.ops.push(BackendOp::SetPlaying);
        self.state = PipelineState::Playing;
    }

    fn stop_stream(&mut self) {
        self.ops.push(BackendOp::SendEos);
        self.ops.push(BackendOp::GraceWait);
        self.ops.push(BackendOp::SetNull);
        self.state = PipelineState::Null;
        proof {
            assert(self.ops@ =~= old(self).ops@ + graceful_suffix(old(self).model()));
        }
    }

    fn cancel_stream(&mut self) {
        self.ops.push(BackendOp::SendEos);
        self.ops.push(BackendOp::SetNull);
        self.state = PipelineState::Null;
        proof {
            assert(self.ops@ =~= old(self).ops@ + crate::cancel_suffix(old(self).model()));
        }
    }
}

} // verus!

//! The frame driver: what the demo does on each lifecycle event of its
//! drawing surface. The toolkit delivers events; the driver answers each with
//! one action for the caller to carry out.
use vstd::prelude::*;
use crate::color::{ClearColor, color_at, clear_color_at};
use crate::geometry::INDEX_COUNT;

verus! {

/// Title of the demo's window.
pub const WINDOW_TITLE: &'static str = "OpenGL Demo";

/// Initial width of the window, in pixels.
pub const WINDOW_WIDTH: i32 = 1200;

/// Initial height of the window, in pixels.
pub const WINDOW_HEIGHT: i32 = 800;

/// Major part of the GL version that the context is asked for.
pub const GL_MAJOR_VERSION: i32 = 3;

/// Minor part of the GL version that the context is asked for.
pub const GL_MINOR_VERSION: i32 = 0;

/// The rectangle of the surface that GL draws into.
#[derive(Clone, Copy, Debug, PartialEq, Eq, Structural)]
pub struct Viewport {
    pub x: i32,
    pub y: i32,
    pub width: i32,
    pub height: i32,
}

/// The handles of the driver-owned objects that every frame draws with.
#[derive(Clone, Copy, Debug, PartialEq, Eq, Structural)]
pub struct GlHandles {
    pub vertex_buffer: u32,
    pub index_buffer: u32,
    pub vertex_array: u32,
    pub program: u32,
}

/// Where the surface is in its lifecycle. The handles exist exactly once the
/// surface is realized.
#[derive(Clone, Copy, Debug, PartialEq, Eq, Structural)]
pub enum Stage {
    Unrealized,
    ContextCreated,
    Realized { handles: GlHandles },
    Terminated,
}

/// An event that the toolkit delivers for the surface.
#[derive(Clone, Copy, Debug, PartialEq, Eq, Structural)]
pub enum SurfaceEvent {
    /// The surface needs a GL context.
    CreateContext,
    /// The surface now measures `width` by `height` pixels.
    Resize { width: i32, height: i32 },
    /// The surface was realized; the caller built the GL objects named by `handles`.
    Realize { handles: GlHandles },
    /// A frame is due, `elapsed_millis` after the demo started.
    Render { elapsed_millis: u64 },
    /// The window was closed.
    Close,
}

/// What one frame draws: clear to `clear`, then draw `index_count` indices
/// as triangles with the objects of `handles`, then ask for the next frame.
#[derive(Clone, Copy, Debug, PartialEq, Eq, Structural)]
pub struct FramePlan {
    pub clear: ClearColor,
    pub handles: GlHandles,
    pub index_count: usize,
}

/// The caller's answer to an event.
#[derive(Clone, Copy, Debug, PartialEq, Eq, Structural)]
pub enum SurfaceAction {
    /// Create a GL context of at least version `major.minor`.
    RequestContext { major: i32, minor: i32 },
    /// Set the GL viewport.
    SetViewport { viewport: Viewport },
    /// Draw one frame and ask for another.
    Draw { plan: FramePlan },
    /// Stop the event loop.
    Quit,
    /// Nothing to do.
    Idle,
}

/// The viewport covering a surface of `width` by `height` pixels.
pub open spec fn viewport_of(width: i32, height: i32) -> Viewport {
    Viewport { x: 0, y: 0, width, height }
}

/// The stage after `e` and the action it calls for, from stage `s`.
pub open spec fn next(s: Stage, e: SurfaceEvent) -> (Stage, SurfaceAction) {
    match (s, e) {
        (Stage::Terminated, _) => (s, SurfaceAction::Idle),
        (_, SurfaceEvent::Close) => (Stage::Terminated, SurfaceAction::Quit),
        (Stage::Unrealized, SurfaceEvent::CreateContext) => (
            Stage::ContextCreated,
            SurfaceAction::RequestContext { major: GL_MAJOR_VERSION, minor: GL_MINOR_VERSION },
        ),
        (Stage::ContextCreated, SurfaceEvent::Realize { handles }) => (
            Stage::Realized { handles },
            SurfaceAction::Idle,
        ),
        (Stage::ContextCreated, SurfaceEvent::Resize { width, height }) => (
            s,
            SurfaceAction::SetViewport { viewport: viewport_of(width, height) },
        ),
        (Stage::Realized { .. }, SurfaceEvent::Resize { width, height }) => (
            s,
            SurfaceAction::SetViewport { viewport: viewport_of(width, height) },
        ),
        (Stage::Realized { handles }, SurfaceEvent::Render { elapsed_millis }) => (
            s,
            SurfaceAction::Draw {
                plan: FramePlan { clear: color_at(elapsed_millis), handles, index_count: 6 },
            },
        ),
        _ => (s, SurfaceAction::Idle),
    }
}

/// The viewport for a surface resized to `width` by `height` pixels: the
/// whole surface, from the origin.
pub fn viewport_for(width: i32, height: i32) -> (r: Viewport)
    ensures
        r == viewport_of(width, height),
{
    Viewport { x: 0, y: 0, width, height }
}

/// The lifecycle of the demo's drawing surface.
pub struct FrameDriver {
    stage: Stage,
}

impl View for FrameDriver {
    type V = Stage;

    closed spec fn view(&self) -> Stage {
        self.stage
    }
}

impl FrameDriver {
    /// A driver for a surface that is not yet realized.
    pub fn new() -> (r: FrameDriver)
        ensures
            r@ == Stage::Unrealized,
    {
        FrameDriver { stage: Stage::Unrealized }
    }

    /// The current stage.
    pub fn stage(&self) -> (r: Stage)
        ensures
            r == self@,
    {
        self.stage
    }

    /// Takes in one event and returns the action it calls for.
    pub fn step(&mut self, event: SurfaceEvent) -> (a: SurfaceAction)
        ensures
            (final(self)@, a) == next(old(self)@, event),
    {
        match (self.stage, event) {
            (Stage::Terminated, _) => SurfaceAction::Idle,
            (_, SurfaceEvent::Close) => {
                self.stage = Stage::Terminated;
                SurfaceAction::Quit
            },
            (Stage::Unrealized, SurfaceEvent::CreateContext) => {
                self.stage = Stage::ContextCreated;
                SurfaceAction::RequestContext { major: GL_MAJOR_VERSION, minor: GL_MINOR_VERSION }
            },
            (Stage::ContextCreated, SurfaceEvent::Realize { handles }) => {
                self.stage = Stage::Realized { handles };
                SurfaceAction::Idle
            },
            (Stage::ContextCreated, SurfaceEvent::Resize { width, height }) => {
                SurfaceAction::SetViewport { viewport: viewport_for(width, height) }
            },
            (Stage::Realized { .. }, SurfaceEvent::Resize { width, height }) => {
                SurfaceAction::SetViewport { viewport: viewport_for(width, height) }
            },
            (Stage::Realized { handles }, SurfaceEvent::Render { elapsed_millis }) => {
                let clear = clear_color_at(elapsed_millis);
                SurfaceAction::Draw { plan: FramePlan { clear, handles, index_count: INDEX_COUNT } }
            },
            _ => SurfaceAction::Idle,
        }
    }
}

/// A frame is drawn only from a realized surface, and with exactly the
/// handles that its realization stored.
pub proof fn lemma_draw_uses_realized_handles(s: Stage, e: SurfaceEvent)
    ensures
        next(s, e).1 is Draw ==> (s is Realized && next(s, e).1->plan.handles == s->handles),
{
}

/// The handles are written once: after realization no event replaces them,
/// and only closing the window leaves the realized stage.
pub proof fn lemma_handles_written_once(s: Stage, e: SurfaceEvent)
    requires
        s is Realized,
    ensures
        next(s, e).0 == s || (e is Close && next(s, e).0 is Terminated),
{
}

/// Once terminated, the driver stays terminated and does nothing.
pub proof fn lemma_terminated_is_final(e: SurfaceEvent)
    ensures
        next(Stage::Terminated, e) == (Stage::Terminated, SurfaceAction::Idle),
{
}

} // verus!

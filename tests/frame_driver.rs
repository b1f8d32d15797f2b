use glarea::color::{ClearColor, COLOR_DENOMINATOR};
use glarea::driver::{
    viewport_for, FrameDriver, FramePlan, GlHandles, Stage, SurfaceAction, SurfaceEvent, Viewport,
};

const HANDLES: GlHandles = GlHandles { vertex_buffer: 1, index_buffer: 2, vertex_array: 3, program: 4 };

fn realized_driver() -> FrameDriver {
    let mut d = FrameDriver::new();
    assert_eq!(
        d.step(SurfaceEvent::CreateContext),
        SurfaceAction::RequestContext { major: 3, minor: 0 }
    );
    assert_eq!(d.step(SurfaceEvent::Realize { handles: HANDLES }), SurfaceAction::Idle);
    assert_eq!(d.stage(), Stage::Realized { handles: HANDLES });
    d
}

fn drawn_color(a: SurfaceAction) -> (f64, f64, f64, f64) {
    match a {
        SurfaceAction::Draw { plan } => {
            assert_eq!(plan.handles, HANDLES);
            assert_eq!(plan.index_count, 6);
            let d = COLOR_DENOMINATOR as f64;
            let c = plan.clear;
            (c.red as f64 / d, c.green as f64 / d, c.blue as f64 / d, c.alpha as f64 / d)
        }
        other => panic!("expected a draw, got {:?}", other),
    }
}

#[test]
fn demo_renders_expected_colors() {
    let mut d = realized_driver();
    assert_eq!(drawn_color(d.step(SurfaceEvent::Render { elapsed_millis: 500 })), (0.25, 0.75, 1.0, 1.0));
    assert_eq!(drawn_color(d.step(SurfaceEvent::Render { elapsed_millis: 1500 })), (0.75, 0.25, 1.0, 1.0));
    assert_eq!(drawn_color(d.step(SurfaceEvent::Render { elapsed_millis: 2500 })), (0.25, 0.75, 1.0, 1.0));
}

#[test]
fn resize_sets_full_viewport() {
    assert_eq!(viewport_for(640, 480), Viewport { x: 0, y: 0, width: 640, height: 480 });
    let mut d = realized_driver();
    assert_eq!(
        d.step(SurfaceEvent::Resize { width: 640, height: 480 }),
        SurfaceAction::SetViewport { viewport: Viewport { x: 0, y: 0, width: 640, height: 480 } }
    );
}

#[test]
fn render_before_realize_draws_nothing() {
    let mut d = FrameDriver::new();
    assert_eq!(d.step(SurfaceEvent::Render { elapsed_millis: 10 }), SurfaceAction::Idle);
    d.step(SurfaceEvent::CreateContext);
    assert_eq!(d.step(SurfaceEvent::Render { elapsed_millis: 10 }), SurfaceAction::Idle);
    assert_eq!(d.stage(), Stage::ContextCreated);
}

#[test]
fn realize_happens_once() {
    let mut d = realized_driver();
    let other = GlHandles { vertex_buffer: 9, index_buffer: 9, vertex_array: 9, program: 9 };
    assert_eq!(d.step(SurfaceEvent::Realize { handles: other }), SurfaceAction::Idle);
    assert_eq!(d.step(SurfaceEvent::CreateContext), SurfaceAction::Idle);
    assert_eq!(d.stage(), Stage::Realized { handles: HANDLES });
    let plan = FramePlan {
        clear: ClearColor { red: 0, green: 4000, blue: 4000, alpha: 4000 },
        handles: HANDLES,
        index_count: 6,
    };
    assert_eq!(d.step(SurfaceEvent::Render { elapsed_millis: 4000 }), SurfaceAction::Draw { plan });
}

#[test]
fn close_quits_and_stays_closed() {
    let mut d = realized_driver();
    assert_eq!(d.step(SurfaceEvent::Close), SurfaceAction::Quit);
    assert_eq!(d.stage(), Stage::Terminated);
    assert_eq!(d.step(SurfaceEvent::Render { elapsed_millis: 1 }), SurfaceAction::Idle);
    assert_eq!(d.step(SurfaceEvent::Close), SurfaceAction::Idle);
    assert_eq!(d.step(SurfaceEvent::Resize { width: 1, height: 1 }), SurfaceAction::Idle);
}

#[test]
fn resize_before_context_is_ignored() {
    let mut d = FrameDriver::new();
    assert_eq!(d.step(SurfaceEvent::Resize { width: 640, height: 480 }), SurfaceAction::Idle);
    d.step(SurfaceEvent::CreateContext);
    assert_eq!(
        d.step(SurfaceEvent::Resize { width: 1200, height: 800 }),
        SurfaceAction::SetViewport { viewport: Viewport { x: 0, y: 0, width: 1200, height: 800 } }
    );
}

use tilegrid::driver::{finish_frame, next_wake, step, LoopAction, LoopEvent, LoopState, FRAME_INTERVAL_NS};
use tilegrid::rat::Rat;
use tilegrid::scene::{frame_setup, fragment_shader_source, vertex_shader_source};

#[test]
fn wake_and_init_trigger_redraw_from_idle() {
    assert_eq!(
        step(LoopState::Idle, LoopEvent::WakeReached),
        (LoopState::Rendering, LoopAction::Redraw)
    );
    assert_eq!(
        step(LoopState::Idle, LoopEvent::Init),
        (LoopState::Rendering, LoopAction::Redraw)
    );
}

#[test]
fn other_events_are_ignored() {
    assert_eq!(
        step(LoopState::Idle, LoopEvent::WindowOther),
        (LoopState::Idle, LoopAction::Ignore)
    );
    assert_eq!(
        step(LoopState::Idle, LoopEvent::Other),
        (LoopState::Idle, LoopAction::Ignore)
    );
}

#[test]
fn frame_completion_returns_to_idle() {
    assert_eq!(finish_frame(LoopState::Rendering), LoopState::Idle);
    assert_eq!(finish_frame(LoopState::Idle), LoopState::Idle);
    assert_eq!(finish_frame(LoopState::Terminated), LoopState::Terminated);
}

#[test]
fn close_request_terminates_and_no_redraw_follows() {
    // A close request delivered mid-stream: every later event, wakes
    // included, decides Exit, never Redraw.
    let events = vec![
        LoopEvent::Init,
        LoopEvent::WakeReached,
        LoopEvent::CloseRequested,
        LoopEvent::WakeReached,
        LoopEvent::WindowOther,
        LoopEvent::Init,
    ];
    let mut state = LoopState::Idle;
    let mut actions = Vec::new();
    for e in events {
        let (next, action) = step(state, e);
        actions.push(action);
        state = finish_frame(next);
    }
    assert_eq!(
        actions,
        vec![
            LoopAction::Redraw,
            LoopAction::Redraw,
            LoopAction::Exit,
            LoopAction::Exit,
            LoopAction::Exit,
            LoopAction::Exit,
        ]
    );
    assert_eq!(state, LoopState::Terminated);
}

#[test]
fn next_wake_is_one_frame_interval_ahead() {
    assert_eq!(FRAME_INTERVAL_NS, 16_666_667);
    assert_eq!(next_wake(0), 16_666_667);
    assert_eq!(next_wake(1_000_000_000), 1_016_666_667);
}

#[test]
fn frame_setup_is_the_fixed_demo_configuration() {
    let fs = frame_setup();
    assert_eq!(fs.model.c0.x, Rat { num: 1, den: 1 });
    assert_eq!(fs.view.c0.x, Rat { num: 10, den: 1 });
    assert_eq!(fs.view.c1.y, Rat { num: 10, den: 1 });
    assert_eq!(fs.view.c3.w, Rat { num: 1, den: 1 });
    assert_eq!(fs.projection.c0.x, Rat { num: 2, den: 1920 });
    assert_eq!(fs.projection.c1.y, Rat { num: -2, den: 1080 });
    assert_eq!(fs.projection.c2.z, Rat { num: -2, den: 200 });
    assert_eq!(fs.clear_color.red, Rat { num: 7, den: 10 });
    assert_eq!(fs.clear_color.alpha, Rat { num: 1, den: 1 });
    assert_eq!(fs.clear_depth, Rat { num: 1, den: 1 });
    assert!(fs.settings.depth_test_less);
    assert!(fs.settings.depth_write);
    assert!(fs.settings.alpha_blend);
}

#[test]
fn frame_setup_is_idempotent() {
    let a = frame_setup();
    let b = frame_setup();
    assert_eq!(a.model, b.model);
    assert_eq!(a.view, b.view);
    assert_eq!(a.projection, b.projection);
    assert_eq!(a.clear_color, b.clear_color);
    assert_eq!(a.settings, b.settings);
}

#[test]
fn shader_sources_declare_the_expected_interface() {
    let vs = vertex_shader_source();
    assert!(vs.contains("uniform mat4 perspective"));
    assert!(vs.contains("uniform mat4 model"));
    assert!(vs.contains("uniform mat4 view"));
    assert!(vs.contains("in vec3 position"));
    assert!(vs.contains("in vec2 tex_coords"));
    let fs = fragment_shader_source();
    assert!(fs.contains("uniform sampler2D diffuse_tex"));
}

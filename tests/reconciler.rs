use mpv_overlay::{Action, ContextStatus, EngineStatus, FrameTarget, LoopEvent, Reconciler};

fn idle() -> LoopEvent {
    LoopEvent::Idle { width: 1920, height: 1080 }
}

fn redraw() -> Vec<Action> {
    vec![
        Action::Render(FrameTarget::for_surface(1920, 1080)),
        Action::DrawOverlay,
        Action::ResetGpuState,
        Action::Present,
    ]
}

fn count_renders(actions: &[Action]) -> usize {
    actions.iter().filter(|a| matches!(a, Action::Render(_))).count()
}

#[test]
fn starts_with_both_handles_alive_and_a_redraw_pending() {
    let r = Reconciler::new();
    assert_eq!(r.render_context, ContextStatus::Created);
    assert_eq!(r.engine, EngineStatus::Running);
    assert!(r.redraw_pending);
    assert!(!r.exited);
}

#[test]
fn session_from_launch_to_close() {
    let mut r = Reconciler::new();
    // The first redraw comes before any media frame.
    assert_eq!(r.step(idle()), redraw());
    assert_eq!(r.step(idle()), vec![]);
    // New content: acknowledged, drawn at the next idle moment.
    assert_eq!(r.step(LoopEvent::RenderReady), vec![Action::AcknowledgeUpdate]);
    assert_eq!(r.step(idle()), redraw());
    assert_eq!(r.step(LoopEvent::EngineEventsPending), vec![Action::DrainEngineEvents]);
    assert_eq!(
        r.step(LoopEvent::CloseRequested),
        vec![Action::DestroyRenderContext, Action::DestroyEngine, Action::Exit]
    );
    assert_eq!(r.render_context, ContextStatus::Destroyed);
    assert_eq!(r.engine, EngineStatus::Destroyed);
    assert!(r.exited);
}

#[test]
fn render_ready_burst_gives_one_redraw() {
    let mut r = Reconciler::new();
    r.step(idle());
    let mut events = vec![LoopEvent::RenderReady; 5];
    events.push(idle());
    let actions = r.step_all(&events);
    assert_eq!(count_renders(&actions), 1);
    assert_eq!(actions.iter().filter(|a| **a == Action::AcknowledgeUpdate).count(), 5);
    assert_eq!(actions[5..].to_vec(), redraw());
}

#[test]
fn signals_without_idle_do_not_redraw() {
    let mut r = Reconciler::new();
    let events = vec![LoopEvent::RenderReady, LoopEvent::WindowInput, LoopEvent::EngineEventsPending];
    let actions = r.step_all(&events);
    assert_eq!(count_renders(&actions), 0);
    assert!(r.redraw_pending);
}

#[test]
fn window_input_is_forwarded_then_redrawn() {
    let mut r = Reconciler::new();
    r.step(idle());
    assert_eq!(r.step(LoopEvent::WindowInput), vec![Action::ForwardInput]);
    assert!(r.redraw_pending);
    assert_eq!(r.step(LoopEvent::Idle { width: 640, height: 480 })[0], Action::Render(FrameTarget::for_surface(640, 480)));
}

#[test]
fn quit_tears_down_like_close() {
    let mut a = Reconciler::new();
    let mut b = Reconciler::new();
    assert_eq!(a.step(LoopEvent::QuitActivated), b.step(LoopEvent::CloseRequested));
    assert_eq!(a, b);
}

#[test]
fn nothing_runs_after_exit() {
    let mut r = Reconciler::new();
    r.step(LoopEvent::CloseRequested);
    let events = vec![
        LoopEvent::RenderReady,
        idle(),
        LoopEvent::EngineEventsPending,
        LoopEvent::WindowInput,
        LoopEvent::CloseRequested,
        LoopEvent::QuitActivated,
    ];
    assert_eq!(r.step_all(&events), vec![]);
}

#[test]
fn no_render_after_teardown_in_a_mixed_run() {
    let mut r = Reconciler::new();
    let events = vec![
        LoopEvent::RenderReady,
        LoopEvent::WindowInput,
        idle(),
        LoopEvent::RenderReady,
        LoopEvent::QuitActivated,
        LoopEvent::RenderReady,
        idle(),
    ];
    let actions = r.step_all(&events);
    let d = actions.iter().position(|a| *a == Action::DestroyRenderContext).unwrap();
    assert!(actions[d + 1..].iter().all(|a| !matches!(a, Action::Render(_)) && *a != Action::AcknowledgeUpdate));
    assert_eq!(actions.last(), Some(&Action::Exit));
}

#[test]
fn overlay_between_video_and_present() {
    let mut r = Reconciler::new();
    let actions = r.step_all(&vec![idle(), LoopEvent::RenderReady, idle()]);
    let overlay: Vec<usize> = actions.iter().enumerate().filter(|(_, a)| **a == Action::DrawOverlay).map(|(i, _)| i).collect();
    assert_eq!(overlay.len(), 2);
    for i in overlay {
        assert!(matches!(actions[i - 1], Action::Render(_)));
        assert_eq!(actions[i + 1], Action::ResetGpuState);
        assert_eq!(actions[i + 2], Action::Present);
    }
}

#[test]
fn exposed_surface_is_redrawn() {
    let mut r = Reconciler::new();
    r.step(idle());
    assert_eq!(r.step(idle()), vec![]);
    assert_eq!(r.step(LoopEvent::SurfaceExposed), vec![]);
    assert!(r.redraw_pending);
    assert_eq!(r.step(idle()), redraw());
}

#[test]
fn first_idle_draws_even_after_early_frame_signal() {
    let mut r = Reconciler::new();
    let actions = r.step_all(&vec![LoopEvent::EngineEventsPending, LoopEvent::RenderReady, idle()]);
    assert_eq!(actions[0], Action::DrainEngineEvents);
    assert_eq!(actions[1], Action::AcknowledgeUpdate);
    assert_eq!(actions[2..].to_vec(), redraw());
    assert_eq!(r.step(idle()), vec![]);
}

#[test]
fn exposed_after_exit_does_nothing() {
    let mut r = Reconciler::new();
    r.step(LoopEvent::CloseRequested);
    assert_eq!(r.step(LoopEvent::SurfaceExposed), vec![]);
    assert!(!r.redraw_pending);
}

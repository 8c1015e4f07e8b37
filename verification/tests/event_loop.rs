use quad_demo::events::{process_events, respond, KeyCode, KeyState, WindowAction, WindowEvent};
use quad_demo::render::{frame_commands, FrameCommand, RenderLoop};

#[test]
fn resize_yields_exactly_one_viewport_action() {
    let events = vec![WindowEvent::FramebufferResize(640, 480)];
    let actions = process_events(&events);
    assert_eq!(actions, vec![WindowAction::SetViewport(640, 480)]);
}

#[test]
fn resize_keeps_exact_dimensions() {
    let events = vec![
        WindowEvent::Ignored,
        WindowEvent::FramebufferResize(1600, 1600),
        WindowEvent::Key(KeyCode::Other, KeyState::Press),
    ];
    let actions = process_events(&events);
    assert_eq!(actions, vec![WindowAction::SetViewport(1600, 1600)]);
}

#[test]
fn two_resizes_yield_two_viewport_actions_in_order() {
    let events = vec![
        WindowEvent::FramebufferResize(100, 200),
        WindowEvent::FramebufferResize(300, 400),
    ];
    let actions = process_events(&events);
    assert_eq!(
        actions,
        vec![
            WindowAction::SetViewport(100, 200),
            WindowAction::SetViewport(300, 400),
        ]
    );
}

#[test]
fn escape_press_requests_close() {
    let r = respond(&WindowEvent::Key(KeyCode::Escape, KeyState::Press));
    assert_eq!(r, Some(WindowAction::RequestClose));
}

#[test]
fn escape_release_and_repeat_do_nothing() {
    assert_eq!(respond(&WindowEvent::Key(KeyCode::Escape, KeyState::Release)), None);
    assert_eq!(respond(&WindowEvent::Key(KeyCode::Escape, KeyState::Repeat)), None);
}

#[test]
fn maximize_key_press_maximizes() {
    let r = respond(&WindowEvent::Key(KeyCode::Maximize, KeyState::Press));
    assert_eq!(r, Some(WindowAction::MaximizeWindow));
}

#[test]
fn other_keys_and_events_are_ignored() {
    assert_eq!(respond(&WindowEvent::Key(KeyCode::Other, KeyState::Press)), None);
    assert_eq!(respond(&WindowEvent::Ignored), None);
    let actions = process_events(&vec![WindowEvent::Ignored, WindowEvent::Ignored]);
    assert!(actions.is_empty());
}

#[test]
fn empty_event_batch_yields_no_actions() {
    let actions = process_events(&Vec::new());
    assert!(actions.is_empty());
}

#[test]
fn escape_press_terminates_the_loop() {
    let mut rl = RenderLoop::new();
    assert!(!rl.should_close);
    assert!(rl.keep_running());

    // The iteration in which Escape arrives still draws its frame
    // unconditionally; the close takes effect only at the next loop check.
    let events = vec![WindowEvent::Key(KeyCode::Escape, KeyState::Press)];
    let actions = rl.handle_events(&events);
    assert_eq!(actions, vec![WindowAction::RequestClose]);
    let cmds = frame_commands();
    assert!(matches!(cmds[4], FrameCommand::Draw(_)));
    assert!(rl.should_close);
    assert!(!rl.keep_running());

    // No later batch of events reopens the loop: no further iteration, and
    // so no further draw call, begins.
    let later = vec![WindowEvent::FramebufferResize(10, 10)];
    rl.handle_events(&later);
    assert!(rl.should_close);
    assert!(!rl.keep_running());
}

#[test]
fn loop_runs_while_no_close_is_requested() {
    let mut rl = RenderLoop::new();
    let events = vec![
        WindowEvent::FramebufferResize(800, 800),
        WindowEvent::Key(KeyCode::Maximize, KeyState::Press),
        WindowEvent::Key(KeyCode::Escape, KeyState::Release),
    ];
    rl.handle_events(&events);
    assert!(!rl.should_close);
    assert!(rl.keep_running());
}

#[test]
fn every_iteration_draws_even_the_one_that_closes() {
    // One simulated run of the loop: three iterations begin, each draws one
    // frame; Escape arrives in the third, so no fourth begins.
    let batches = vec![
        vec![],
        vec![WindowEvent::FramebufferResize(800, 800)],
        vec![WindowEvent::Key(KeyCode::Escape, KeyState::Press)],
        vec![WindowEvent::Ignored],
    ];
    let mut rl = RenderLoop::new();
    let mut draws = 0;
    let mut batches_it = batches.into_iter();
    while rl.keep_running() {
        let batch = batches_it.next().expect("the loop ends before the batches do");
        rl.handle_events(&batch);
        let cmds = frame_commands();
        draws += cmds
            .iter()
            .filter(|c| matches!(c, FrameCommand::Draw(_)))
            .count();
    }
    assert_eq!(draws, 3);
    assert_eq!(batches_it.count(), 1);
}

#[test]
fn frame_issues_one_draw_of_six_unsigned_triangle_indices() {
    let cmds = frame_commands();
    assert_eq!(cmds.len(), 5);
    let draws: Vec<_> = cmds
        .iter()
        .filter_map(|c| match c {
            FrameCommand::Draw(d) => Some(*d),
            _ => None,
        })
        .collect();
    assert_eq!(draws.len(), 1);
    let d = draws[0];
    assert_eq!(d.count, 6);
    assert!(matches!(d.mode, quad_demo::render::DrawMode::Triangles));
    assert!(matches!(d.element_type, quad_demo::render::IndexElementType::UnsignedInt));
}

#[test]
fn frame_clears_before_it_draws() {
    let cmds = frame_commands();
    assert!(matches!(cmds[0], FrameCommand::SetClearColor(_)));
    assert!(matches!(cmds[1], FrameCommand::ClearColorBuffer));
    assert!(matches!(cmds[2], FrameCommand::BindProgram));
    assert!(matches!(cmds[3], FrameCommand::BindVertexArray));
    assert!(matches!(cmds[4], FrameCommand::Draw(_)));
}

#[test]
fn clear_color_is_the_fixed_opaque_violet() {
    let c = quad_demo::render::clear_color();
    assert_eq!((c.red, c.green, c.blue, c.alpha), (4, 2, 8, 10));
}

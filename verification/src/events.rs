//! Window events and the actions the renderer takes in response.
//!
//! Each frame begins by draining the window's event queue. The renderer
//! reacts to exactly three kinds of event: a framebuffer resize adjusts the
//! viewport to the new dimensions, a press of the escape key requests that
//! the window close, and a press of the maximize key maximizes the window.
//! Every other event is ignored.

use vstd::prelude::*;

verus! {

/// The keys the renderer distinguishes. Every key other than escape and the
/// maximize key is reported as `Other`.
#[derive(Clone, Copy, Debug, PartialEq, Eq, Structural)]
pub enum KeyCode {
    Escape,
    Maximize,
    Other,
}

/// What happened to a key. Only a press triggers an action.
#[derive(Clone, Copy, Debug, PartialEq, Eq, Structural)]
pub enum KeyState {
    Press,
    Release,
    Repeat,
}

/// A window event, reduced to the data the renderer reads.
#[derive(Clone, Copy, Debug, PartialEq, Eq, Structural)]
pub enum WindowEvent {
    /// The framebuffer was resized to the given width and height in pixels.
    /// On high-density displays these may exceed the logical window size.
    FramebufferResize(i32, i32),
    /// A key changed state.
    Key(KeyCode, KeyState),
    /// Any event the renderer does not react to.
    Ignored,
}

/// An action the event handler asks the windowing layer to perform.
#[derive(Clone, Copy, Debug, PartialEq, Eq, Structural)]
pub enum WindowAction {
    /// Resize the rendering viewport, anchored at the origin, to the given
    /// width and height in pixels.
    SetViewport(i32, i32),
    /// Ask the window to close; the event loop stops before the next frame.
    RequestClose,
    /// Maximize the window.
    MaximizeWindow,
}

/// The action a single event calls for, if any.
pub open spec fn action_for(e: WindowEvent) -> Option<WindowAction> {
    match e {
        WindowEvent::FramebufferResize(w, h) => Some(WindowAction::SetViewport(w, h)),
        WindowEvent::Key(KeyCode::Escape, KeyState::Press) => Some(WindowAction::RequestClose),
        WindowEvent::Key(KeyCode::Maximize, KeyState::Press) => Some(
            WindowAction::MaximizeWindow,
        ),
        _ => None,
    }
}

/// The actions a batch of events calls for, in event order.
pub open spec fn actions_of(es: Seq<WindowEvent>) -> Seq<WindowAction>
    decreases es.len(),
{
    if es.len() == 0 {
        Seq::empty()
    } else {
        actions_of(es.drop_last()) + match action_for(es.last()) {
            Some(a) => seq![a],
            None => Seq::empty(),
        }
    }
}

/// Whether a batch of events contains a press of the escape key.
pub open spec fn has_escape_press(es: Seq<WindowEvent>) -> bool {
    exists|i: int|
        0 <= i < es.len() && es[i] == WindowEvent::Key(KeyCode::Escape, KeyState::Press)
}

/// Whether a batch of actions contains a close request.
pub open spec fn requests_close(actions: Seq<WindowAction>) -> bool {
    exists|i: int| 0 <= i < actions.len() && actions[i] == WindowAction::RequestClose
}

/// How many times a batch of actions resizes the viewport to exactly
/// `w` by `h`.
pub open spec fn viewport_count(actions: Seq<WindowAction>, w: i32, h: i32) -> nat
    decreases actions.len(),
{
    if actions.len() == 0 {
        0
    } else {
        viewport_count(actions.drop_last(), w, h) + if actions.last()
            == WindowAction::SetViewport(w, h) {
            1nat
        } else {
            0nat
        }
    }
}

/// How many times a batch of events resizes the framebuffer to exactly
/// `w` by `h`.
pub open spec fn resize_count(es: Seq<WindowEvent>, w: i32, h: i32) -> nat
    decreases es.len(),
{
    if es.len() == 0 {
        0
    } else {
        resize_count(es.drop_last(), w, h) + if es.last() == WindowEvent::FramebufferResize(w, h) {
            1nat
        } else {
            0nat
        }
    }
}

/// The action a single event calls for, if any.
pub fn respond(e: &WindowEvent) -> (r: Option<WindowAction>)
    ensures
        r == action_for(*e),
{
    match e {
        WindowEvent::FramebufferResize(w, h) => Some(WindowAction::SetViewport(*w, *h)),
        WindowEvent::Key(KeyCode::Escape, KeyState::Press) => Some(WindowAction::RequestClose),
        WindowEvent::Key(KeyCode::Maximize, KeyState::Press) => Some(
            WindowAction::MaximizeWindow,
        ),
        _ => None,
    }
}

/// The actions a batch of events calls for, in event order.
pub fn process_events(events: &Vec<WindowEvent>) -> (actions: Vec<WindowAction>)
    ensures
        actions@ == actions_of(events@),
{
    let mut actions: Vec<WindowAction> = Vec::new();
    let mut i: usize = 0;
    while i < events.len()
        invariant
            0 <= i <= events.len(),
            actions@ == actions_of(events@.take(i as int)),
        decreases events.len() - i,
    {
        proof {
            assert(events@.take(i + 1 as int).drop_last() =~= events@.take(i as int));
            assert(events@.take(i + 1 as int).last() == events@[i as int]);
        }
        match respond(&events[i]) {
            Some(a) => actions.push(a),
            None => (),
        }
        i = i + 1;
    }
    proof {
        assert(events@.take(events@.len() as int) =~= events@);
    }
    actions
}

/// Each framebuffer resize to `w` by `h` in a batch of events yields exactly
/// one viewport resize to `w` by `h` among the resulting actions, and no
/// other event yields one.
pub proof fn lemma_resize_yields_viewport(es: Seq<WindowEvent>, w: i32, h: i32)
    ensures
        viewport_count(actions_of(es), w, h) == resize_count(es, w, h),
    decreases es.len(),
{
    if es.len() == 0 {
    } else {
        lemma_resize_yields_viewport(es.drop_last(), w, h);
        let tail = match action_for(es.last()) {
            Some(a) => seq![a],
            None => Seq::<WindowAction>::empty(),
        };
        lemma_viewport_count_push(actions_of(es.drop_last()), tail, w, h);
    }
}

/// Appending at most one action changes the viewport count by one exactly
/// when the appended action is that viewport resize.
proof fn lemma_viewport_count_push(actions: Seq<WindowAction>, tail: Seq<WindowAction>, w: i32, h: i32)
    requires
        tail.len() <= 1,
    ensures
        viewport_count(actions + tail, w, h) == viewport_count(actions, w, h) + if tail.len() == 1
            && tail[0] == WindowAction::SetViewport(w, h) {
            1nat
        } else {
            0nat
        },
{
    if tail.len() == 0 {
        assert(actions + tail =~= actions);
    } else {
        assert((actions + tail).drop_last() =~= actions);
        assert((actions + tail).last() == tail[0]);
    }
}

/// A batch of events asks for a close exactly when it contains a press of
/// the escape key.
pub proof fn lemma_escape_requests_close(es: Seq<WindowEvent>)
    ensures
        requests_close(actions_of(es)) == has_escape_press(es),
    decreases es.len(),
{
    if es.len() == 0 {
    } else {
        lemma_escape_requests_close(es.drop_last());
        let prefix = actions_of(es.drop_last());
        let whole = actions_of(es);
        if es.last() == WindowEvent::Key(KeyCode::Escape, KeyState::Press) {
            assert(whole[whole.len() - 1] == WindowAction::RequestClose);
            assert(es[es.len() - 1] == WindowEvent::Key(KeyCode::Escape, KeyState::Press));
        } else {
            if has_escape_press(es.drop_last()) {
                let i = choose|i: int|
                    0 <= i < es.drop_last().len() && es.drop_last()[i] == WindowEvent::Key(
                        KeyCode::Escape,
                        KeyState::Press,
                    );
                assert(es[i] == WindowEvent::Key(KeyCode::Escape, KeyState::Press));
            }
            if has_escape_press(es) {
                let i = choose|i: int|
                    0 <= i < es.len() && es[i] == WindowEvent::Key(
                        KeyCode::Escape,
                        KeyState::Press,
                    );
                assert(es.drop_last()[i] == WindowEvent::Key(KeyCode::Escape, KeyState::Press));
            }
            if requests_close(prefix) {
                let i = choose|i: int|
                    0 <= i < prefix.len() && prefix[i] == WindowAction::RequestClose;
                assert(whole[i] == WindowAction::RequestClose);
            }
            if requests_close(whole) {
                let i = choose|i: int|
                    0 <= i < whole.len() && whole[i] == WindowAction::RequestClose;
                assert(prefix[i] == WindowAction::RequestClose);
            }
        }
    }
}

} // verus!

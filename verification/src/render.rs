//! The render loop's state and the fixed command sequence of one frame.
//!
//! The loop keeps a single bit of state: whether the window has been asked to
//! close. That bit is checked once per iteration, at the top: an iteration
//! begins only while no close has been requested. Every iteration that
//! begins drains the event queue, applies the resulting actions, and then
//! unconditionally emits the same five graphics commands: set the clear
//! color, clear the color buffer, bind the shader program, bind the vertex
//! array, and issue one indexed draw call. A close requested by that
//! iteration's own events takes effect only at the next loop check; the
//! iteration still draws and presents its frame.

use vstd::prelude::*;
use crate::events::{WindowAction, WindowEvent, actions_of, has_escape_press, requests_close};
use crate::events::{lemma_escape_requests_close, process_events};

verus! {

/// How many vertex indices one frame's draw call consumes.
pub const DRAW_INDEX_COUNT: usize = 6;

/// The primitive mode of the draw call.
#[derive(Clone, Copy, Debug, PartialEq, Eq, Structural)]
pub enum DrawMode {
    Triangles,
}

/// The element type of the index buffer read by the draw call.
#[derive(Clone, Copy, Debug, PartialEq, Eq, Structural)]
pub enum IndexElementType {
    UnsignedInt,
}

/// One indexed draw call: `count` indices of type `element_type`, assembled
/// in `mode`, read from the start of the bound index buffer.
#[derive(Clone, Copy, Debug, PartialEq, Eq, Structural)]
pub struct DrawCall {
    pub mode: DrawMode,
    pub count: usize,
    pub element_type: IndexElementType,
}

/// A color with channels stated as tenths, so that the fixed clear color can
/// be written without fractions: `4` stands for an intensity of four tenths.
#[derive(Clone, Copy, Debug, PartialEq, Eq, Structural)]
pub struct ColorTenths {
    pub red: u8,
    pub green: u8,
    pub blue: u8,
    pub alpha: u8,
}

impl ColorTenths {
    /// Each channel names a fraction of one, so it is at most ten tenths.
    pub open spec fn wf(self) -> bool {
        self.red <= 10 && self.green <= 10 && self.blue <= 10 && self.alpha <= 10
    }
}

/// One graphics command of the per-frame sequence.
#[derive(Clone, Copy, Debug, PartialEq, Eq, Structural)]
pub enum FrameCommand {
    SetClearColor(ColorTenths),
    ClearColorBuffer,
    BindProgram,
    BindVertexArray,
    Draw(DrawCall),
}

/// The fixed clear color: a muted violet, fully opaque.
pub open spec fn spec_clear_color() -> ColorTenths {
    ColorTenths { red: 4, green: 2, blue: 8, alpha: 10 }
}

/// The draw call issued every frame: six indices, read as unsigned integers,
/// assembled as triangles.
pub open spec fn spec_draw_call() -> DrawCall {
    DrawCall {
        mode: DrawMode::Triangles,
        count: DRAW_INDEX_COUNT,
        element_type: IndexElementType::UnsignedInt,
    }
}

/// The five commands of one frame, in order.
pub open spec fn spec_frame_commands() -> Seq<FrameCommand> {
    seq![
        FrameCommand::SetClearColor(spec_clear_color()),
        FrameCommand::ClearColorBuffer,
        FrameCommand::BindProgram,
        FrameCommand::BindVertexArray,
        FrameCommand::Draw(spec_draw_call()),
    ]
}

/// The fixed clear color.
pub fn clear_color() -> (c: ColorTenths)
    ensures
        c == spec_clear_color(),
        c.wf(),
{
    ColorTenths { red: 4, green: 2, blue: 8, alpha: 10 }
}

/// The draw call issued every frame.
pub fn quad_draw_call() -> (d: DrawCall)
    ensures
        d == spec_draw_call(),
        d.count == 6,
        d.mode is Triangles,
        d.element_type is UnsignedInt,
{
    DrawCall {
        mode: DrawMode::Triangles,
        count: DRAW_INDEX_COUNT,
        element_type: IndexElementType::UnsignedInt,
    }
}

/// The state the event loop carries from frame to frame.
#[derive(Clone, Copy, Debug, PartialEq, Eq, Structural)]
pub struct RenderLoop {
    /// Whether the window has been asked to close. Once set it stays set,
    /// and no further iteration of the loop begins.
    pub should_close: bool,
}

/// Whether the loop is closing after one iteration's events: it already was,
/// or the batch pressed the escape key.
pub open spec fn spec_close_after(closing: bool, es: Seq<WindowEvent>) -> bool {
    closing || has_escape_press(es)
}

/// The loop check at the top of each iteration: a new iteration begins only
/// while no close has been requested.
pub open spec fn spec_keep_running(s: RenderLoop) -> bool {
    !s.should_close
}

impl RenderLoop {
    /// A fresh loop: nothing has asked the window to close yet.
    pub fn new() -> (r: RenderLoop)
        ensures
            !r.should_close,
    {
        RenderLoop { should_close: false }
    }

    /// Apply one action to the loop state. Only a close request changes it;
    /// the viewport and maximize actions concern the window alone.
    pub fn apply_action(&mut self, a: &WindowAction)
        ensures
            final(self).should_close == (old(self).should_close || *a is RequestClose),
    {
        match a {
            WindowAction::RequestClose => {
                self.should_close = true;
            },
            _ => (),
        }
    }

    /// Apply a batch of actions in order. The loop is closing afterwards
    /// exactly when it already was or some action requested it.
    pub fn apply_actions(&mut self, actions: &Vec<WindowAction>)
        ensures
            final(self).should_close == (old(self).should_close || requests_close(actions@)),
    {
        let ghost all: Seq<WindowAction> = actions@;
        let mut i: usize = 0;
        while i < actions.len()
            invariant
                0 <= i <= actions.len(),
                actions@ == all,
                self.should_close == (old(self).should_close || requests_close(
                    all.take(i as int),
                )),
            decreases actions.len() - i,
        {
            let ghost before: bool = self.should_close;
            self.apply_action(&actions[i]);
            proof {
                let t = all.take(i + 1 as int);
                if self.should_close && !before {
                    assert(t[i as int] == WindowAction::RequestClose);
                }
                if requests_close(t) && !self.should_close {
                    let j = choose|j: int| 0 <= j < t.len() && t[j] == WindowAction::RequestClose;
                    if j < i {
                        assert(all.take(i as int)[j] == WindowAction::RequestClose);
                    }
                }
                if requests_close(all.take(i as int)) {
                    let j = choose|j: int|
                        0 <= j < i && all.take(i as int)[j] == WindowAction::RequestClose;
                    assert(t[j] == WindowAction::RequestClose);
                }
            }
            i = i + 1;
        }
        proof {
            assert(all.take(all.len() as int) =~= all);
        }
    }

    /// Drain one frame's events: turn them into actions and fold the close
    /// requests into the loop state. Afterwards the loop is closing exactly
    /// when it already was or the batch pressed the escape key.
    pub fn handle_events(&mut self, events: &Vec<WindowEvent>) -> (actions: Vec<WindowAction>)
        ensures
            actions@ == actions_of(events@),
            final(self).should_close == spec_close_after(old(self).should_close, events@),
    {
        let actions = process_events(events);
        proof {
            lemma_escape_requests_close(events@);
        }
        self.apply_actions(&actions);
        actions
    }

    /// The loop check: whether a new iteration begins. An iteration that has
    /// already begun is not stopped by this turning false; it still draws
    /// and presents its frame.
    pub fn keep_running(&self) -> (r: bool)
        ensures
            r == spec_keep_running(*self),
    {
        !self.should_close
    }
}

/// The commands of one iteration's frame: the fixed five-command sequence,
/// emitted unconditionally by every iteration that began. Close requests
/// govern only the loop check, never the current frame.
pub fn frame_commands() -> (cmds: Vec<FrameCommand>)
    ensures
        cmds@ == spec_frame_commands(),
{
    let mut cmds: Vec<FrameCommand> = Vec::new();
    cmds.push(FrameCommand::SetClearColor(clear_color()));
    cmds.push(FrameCommand::ClearColorBuffer);
    cmds.push(FrameCommand::BindProgram);
    cmds.push(FrameCommand::BindVertexArray);
    cmds.push(FrameCommand::Draw(quad_draw_call()));
    proof {
        assert(cmds@ =~= spec_frame_commands());
    }
    cmds
}

/// Once a batch of events presses the escape key, the loop is closing, so
/// the next loop check fails and no further iteration — hence no further
/// draw call — begins. The iteration that handled the batch still drew its
/// own frame: only the check at the top of the loop reads the flag.
pub proof fn lemma_escape_terminates(before: RenderLoop, events: Seq<WindowEvent>)
    requires
        has_escape_press(events),
    ensures
        spec_close_after(before.should_close, events),
        !spec_keep_running(
            RenderLoop { should_close: spec_close_after(before.should_close, events) },
        ),
{
}

/// Once the loop is closing it stays closed: no batch of events reopens it,
/// so no later iteration ever begins.
pub proof fn lemma_close_is_final(events: Seq<WindowEvent>)
    ensures
        spec_close_after(true, events),
        !spec_keep_running(RenderLoop { should_close: spec_close_after(true, events) }),
{
}

/// Every rendered frame issues exactly one draw call, as its last command,
/// and that call requests in triangle mode exactly as many unsigned-integer
/// indices as the quad's index buffer holds: six.
pub proof fn lemma_one_draw_per_frame()
    ensures
        spec_frame_commands().len() == 5,
        spec_frame_commands()[4] == FrameCommand::Draw(spec_draw_call()),
        forall|i: int|
            0 <= i < 4 ==> !(#[trigger] spec_frame_commands()[i] is Draw),
        spec_draw_call().count == 6,
        spec_draw_call().count == crate::geometry::spec_quad_indices().len(),
        spec_draw_call().mode is Triangles,
        spec_draw_call().element_type is UnsignedInt,
{
}

} // verus!

use vstd::prelude::*;

verus! {

/// The keys the preview loop tells apart.
#[derive(Clone, Copy, Debug, PartialEq, Eq, Structural)]
pub enum Key {
    /// The designated toggle key.
    Escape,
    /// Any other key, or one without a known key code.
    Other,
}

/// What the platform reports while the preview window is open.
#[derive(Clone, Copy, Debug, PartialEq, Eq, Structural)]
pub enum LoopEvent {
    /// A key went down (`pressed`) or up; `repeat` marks an auto-repeat.
    KeyboardInput { key: Key, pressed: bool, repeat: bool },
    /// The platform asks for the window to be drawn.
    RedrawRequested,
    /// The user asked for the window to close.
    CloseRequested,
    /// Anything else; it leaves the loop as it is.
    Other,
}

/// How the render pass treats the surface before drawing the quad.
#[derive(Clone, Copy, Debug, PartialEq, Eq, Structural)]
pub enum LoadOp {
    /// Clear to the fixed blank colour.
    Clear,
    /// Keep what the surface holds.
    Load,
}

/// What the loop's driver must do after an event.
#[derive(Clone, Copy, Debug, PartialEq, Eq, Structural)]
pub enum LoopAction {
    /// Nothing: wait for the next event.
    Wait,
    /// Ask the platform for a redraw, so that a changed state becomes visible.
    RequestRedraw,
    /// Render one frame: a pass with this load operation, then the quad.
    Redraw(LoadOp),
    /// Stop dispatching events and hand control back for teardown.
    Exit,
}

/// Whether the next redraw blanks the surface instead of showing the image.
#[derive(Clone, Copy, Debug, PartialEq, Eq, Structural)]
pub struct PreviewState {
    pub clear_screen: bool,
}

/// The preview loop: its display state and whether it has ended.
#[derive(Clone, Copy, Debug, PartialEq, Eq, Structural)]
pub struct InteractionLoop {
    pub state: PreviewState,
    pub terminated: bool,
}

/// The event flips the display state: a fresh press of the toggle key.
pub open spec fn is_toggle_press(e: LoopEvent) -> bool {
    e == (LoopEvent::KeyboardInput { key: Key::Escape, pressed: true, repeat: false })
}

/// The load operation a redraw uses in display state `s`.
pub open spec fn load_op_spec(s: PreviewState) -> LoadOp {
    if s.clear_screen {
        LoadOp::Clear
    } else {
        LoadOp::Load
    }
}

/// The loop after event `e`.
pub open spec fn next_loop(l: InteractionLoop, e: LoopEvent) -> InteractionLoop {
    if l.terminated {
        l
    } else if is_toggle_press(e) {
        InteractionLoop { state: PreviewState { clear_screen: !l.state.clear_screen }, terminated: false }
    } else if e is CloseRequested {
        InteractionLoop { state: l.state, terminated: true }
    } else {
        l
    }
}

/// What the driver is told to do for event `e` in loop `l`.
pub open spec fn loop_action(l: InteractionLoop, e: LoopEvent) -> LoopAction {
    if l.terminated {
        LoopAction::Wait
    } else if is_toggle_press(e) {
        LoopAction::RequestRedraw
    } else if e is CloseRequested {
        LoopAction::Exit
    } else if e is RedrawRequested {
        LoopAction::Redraw(load_op_spec(l.state))
    } else {
        LoopAction::Wait
    }
}

/// The loop after the events of `es`, in order.
pub open spec fn run_events(l: InteractionLoop, es: Seq<LoopEvent>) -> InteractionLoop
    decreases es.len(),
{
    if es.len() == 0 {
        l
    } else {
        run_events(next_loop(l, es[0]), es.drop_first())
    }
}

/// The actions that the events of `es` produce, in order.
pub open spec fn actions_of(l: InteractionLoop, es: Seq<LoopEvent>) -> Seq<LoopAction>
    decreases es.len(),
{
    if es.len() == 0 {
        Seq::empty()
    } else {
        seq![loop_action(l, es[0])].add(actions_of(next_loop(l, es[0]), es.drop_first()))
    }
}

proof fn lemma_actions_len(l: InteractionLoop, es: Seq<LoopEvent>)
    ensures
        actions_of(l, es).len() == es.len(),
    decreases es.len(),
{
    if es.len() > 0 {
        lemma_actions_len(next_loop(l, es[0]), es.drop_first());
    }
}

/// Pressing the toggle key `n` times returns the display state to where it
/// was when `n` is even and flips it when `n` is odd; the loop keeps running.
pub proof fn lemma_toggle_parity(l: InteractionLoop, es: Seq<LoopEvent>)
    requires
        !l.terminated,
        forall|i: int| 0 <= i < es.len() ==> is_toggle_press(#[trigger] es[i]),
    ensures
        run_events(l, es).state.clear_screen == (l.state.clear_screen != (es.len() % 2 == 1)),
        !run_events(l, es).terminated,
    decreases es.len(),
{
    if es.len() > 0 {
        assert(is_toggle_press(es[0]));
        let rest = es.drop_first();
        assert forall|i: int| 0 <= i < rest.len() implies is_toggle_press(#[trigger] rest[i]) by {
            assert(rest[i] == es[i + 1]);
        }
        lemma_toggle_parity(next_loop(l, es[0]), rest);
    }
}

/// Once the loop has ended, no event changes it and none is answered with
/// anything but waiting: no redraw and no second exit.
pub proof fn lemma_terminated_is_inert(l: InteractionLoop, es: Seq<LoopEvent>)
    requires
        l.terminated,
    ensures
        run_events(l, es) == l,
        actions_of(l, es).len() == es.len(),
        forall|i: int| 0 <= i < es.len() ==> #[trigger] actions_of(l, es)[i] == LoopAction::Wait,
    decreases es.len(),
{
    lemma_actions_len(l, es);
    if es.len() > 0 {
        let rest = es.drop_first();
        lemma_terminated_is_inert(l, rest);
        assert forall|i: int| 0 <= i < es.len() implies #[trigger] actions_of(l, es)[i]
            == LoopAction::Wait by {
            if i > 0 {
                assert(actions_of(l, es)[i] == actions_of(l, rest)[i - 1]);
            }
        }
    }
}

/// A close request ends the loop exactly once: it is answered with an exit,
/// and every later event with waiting, so no redraw follows it.
pub proof fn lemma_close_is_terminal(l: InteractionLoop, es: Seq<LoopEvent>)
    ensures
        actions_of(l, es).len() == es.len(),
        forall|i: int, j: int|
            0 <= i < j < es.len() && #[trigger] actions_of(l, es)[i] == LoopAction::Exit
                ==> #[trigger] actions_of(l, es)[j] == LoopAction::Wait,
        forall|i: int|
            0 <= i < es.len() && !l.terminated && es[i] is CloseRequested && (forall|k: int|
                0 <= k < i ==> !(#[trigger] es[k] is CloseRequested)) ==> #[trigger] actions_of(
                l,
                es,
            )[i] == LoopAction::Exit,
    decreases es.len(),
{
    lemma_actions_len(l, es);
    if es.len() > 0 {
        let n = next_loop(l, es[0]);
        let rest = es.drop_first();
        let acts = actions_of(l, es);
        lemma_close_is_terminal(n, rest);
        assert forall|i: int| 0 < i < es.len() implies #[trigger] acts[i] == actions_of(n, rest)[i
            - 1] by {}
        if loop_action(l, es[0]) == LoopAction::Exit {
            lemma_terminated_is_inert(n, rest);
        }
        assert forall|i: int, j: int|
            0 <= i < j < es.len() && #[trigger] acts[i] == LoopAction::Exit implies #[trigger] acts[j]
            == LoopAction::Wait by {
            if i > 0 {
                assert(actions_of(n, rest)[i - 1] == LoopAction::Exit);
            } else {
                assert(acts[j] == actions_of(n, rest)[j - 1]);
            }
        }
        assert forall|i: int|
            0 <= i < es.len() && !l.terminated && es[i] is CloseRequested && (forall|k: int|
                0 <= k < i ==> !(#[trigger] es[k] is CloseRequested)) implies #[trigger] acts[i]
            == LoopAction::Exit by {
            if i > 0 {
                assert(!(es[0] is CloseRequested));
                assert(!n.terminated);
                assert(rest[i - 1] == es[i]);
                assert forall|k: int| 0 <= k < i - 1 implies !(#[trigger] rest[k] is CloseRequested) by {
                    assert(rest[k] == es[k + 1]);
                }
            }
        }
    }
}

/// Picks the render pass's load operation for display state `s`.
pub fn load_op(s: PreviewState) -> (r: LoadOp)
    ensures
        r == load_op_spec(s),
{
    if s.clear_screen {
        LoadOp::Clear
    } else {
        LoadOp::Load
    }
}

impl InteractionLoop {
    /// A running loop that shows the captured image.
    pub fn new() -> (r: InteractionLoop)
        ensures
            !r.terminated,
            !r.state.clear_screen,
    {
        InteractionLoop { state: PreviewState { clear_screen: false }, terminated: false }
    }

    /// Handles one platform event and says what the driver must do next.
    pub fn handle_event(&mut self, e: LoopEvent) -> (r: LoopAction)
        ensures
            *final(self) == next_loop(*old(self), e),
            r == loop_action(*old(self), e),
    {
        if self.terminated {
            return LoopAction::Wait;
        }
        match e {
            LoopEvent::KeyboardInput { key, pressed, repeat } => {
                if pressed && !repeat && key == Key::Escape {
                    self.state.clear_screen = !self.state.clear_screen;
                    LoopAction::RequestRedraw
                } else {
                    LoopAction::Wait
                }
            },
            LoopEvent::RedrawRequested => LoopAction::Redraw(load_op(self.state)),
            LoopEvent::CloseRequested => {
                self.terminated = true;
                LoopAction::Exit
            },
            LoopEvent::Other => LoopAction::Wait,
        }
    }
}

} // verus!

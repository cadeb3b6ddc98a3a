use duck_shot::interaction::{load_op, InteractionLoop, Key, LoadOp, LoopAction, LoopEvent, PreviewState};

fn press(key: Key) -> LoopEvent {
    LoopEvent::KeyboardInput { key, pressed: true, repeat: false }
}

#[test]
fn starts_showing_the_image() {
    let mut l = InteractionLoop::new();
    assert!(!l.terminated);
    assert!(!l.state.clear_screen);
    assert_eq!(l.handle_event(LoopEvent::RedrawRequested), LoopAction::Redraw(LoadOp::Load));
}

#[test]
fn toggle_presses_flip_by_parity() {
    for n in 0..7 {
        let mut l = InteractionLoop::new();
        for _ in 0..n {
            assert_eq!(l.handle_event(press(Key::Escape)), LoopAction::RequestRedraw);
        }
        assert_eq!(l.state.clear_screen, n % 2 == 1);
        let expected = if n % 2 == 1 { LoadOp::Clear } else { LoadOp::Load };
        assert_eq!(l.handle_event(LoopEvent::RedrawRequested), LoopAction::Redraw(expected));
    }
}

#[test]
fn only_fresh_toggle_presses_count() {
    let mut l = InteractionLoop::new();
    let others = [
        LoopEvent::KeyboardInput { key: Key::Escape, pressed: false, repeat: false },
        LoopEvent::KeyboardInput { key: Key::Escape, pressed: true, repeat: true },
        press(Key::Other),
        LoopEvent::Other,
    ];
    for e in others {
        assert_eq!(l.handle_event(e), LoopAction::Wait);
        assert!(!l.state.clear_screen);
        assert!(!l.terminated);
    }
}

#[test]
fn close_request_ends_the_loop_once() {
    let mut l = InteractionLoop::new();
    l.handle_event(press(Key::Escape));
    assert_eq!(l.handle_event(LoopEvent::CloseRequested), LoopAction::Exit);
    assert!(l.terminated);
    let after = l;
    for e in [LoopEvent::RedrawRequested, LoopEvent::CloseRequested, press(Key::Escape), LoopEvent::Other] {
        assert_eq!(l.handle_event(e), LoopAction::Wait);
        assert_eq!(l, after);
    }
}

#[test]
fn load_op_follows_state() {
    assert_eq!(load_op(PreviewState { clear_screen: true }), LoadOp::Clear);
    assert_eq!(load_op(PreviewState { clear_screen: false }), LoadOp::Load);
}

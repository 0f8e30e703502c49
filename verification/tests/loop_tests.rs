use windowed::event::{ControlFlow, Event};
use windowed::event_loop::{step_for, EventLoop, InnerSize, LoopStep, RedrawPolicy};
use windowed::rwd::{RawWindowHandle, WindowHandle, WindowsDisplayHandle, XlibWindowHandle};

#[test]
fn steps() {
    assert_eq!(step_for(ControlFlow::Exit), LoopStep::Exit);
    assert_eq!(step_for(ControlFlow::WarpAndPoll(3, -4)), LoopStep::WarpCursor { x: 3, y: -4 });
    assert_eq!(step_for(ControlFlow::Poll), LoopStep::Proceed);
    assert_eq!(step_for(ControlFlow::Continue), LoopStep::Proceed);
}

#[test]
fn redraw_policy() {
    let mut p = RedrawPolicy::new();
    assert_eq!(p.dispatch(ControlFlow::Continue), LoopStep::Proceed);
    assert!(!p.finish_batch());
    assert_eq!(p.dispatch(ControlFlow::WarpAndPoll(1, 2)), LoopStep::WarpCursor { x: 1, y: 2 });
    assert!(!p.polling);
    assert!(p.finish_batch());
    assert_eq!(p.dispatch(ControlFlow::Continue), LoopStep::Proceed);
    assert!(p.finish_batch());
    assert_eq!(p.dispatch(ControlFlow::Exit), LoopStep::Exit);
    let mut q = RedrawPolicy::new();
    q.dispatch(ControlFlow::Poll);
    assert!(q.finish_batch());
}

#[test]
fn inner_size_follows_resizes() {
    let mut s = InnerSize::new(800, 600);
    s.observe(&Event::FocusGained);
    assert_eq!(s.inner_size(), (800, 600));
    s.observe(&Event::Resized { width: 1, height: 2 });
    assert_eq!(s.inner_size(), (1, 2));
    assert_eq!(s.report(1, 2, false), None);
    assert_eq!(s.report(0, 2, true), None);
    assert_eq!(s.inner_size(), (1, 2));
    assert_eq!(s.report(0, 2, false), Some(Event::Resized { width: 0, height: 2 }));
    assert_eq!(s.report(30, 40, true), Some(Event::Resized { width: 30, height: 40 }));
    assert_eq!(s.inner_size(), (30, 40));
}

#[test]
fn raw_handles() {
    let x = XlibWindowHandle::new(0x40_0001);
    assert_eq!((x.window, x.visual_id), (0x40_0001, 0));
    let h = WindowHandle::borrow_raw(RawWindowHandle::Xlib(x));
    assert_eq!(h.as_raw(), RawWindowHandle::Xlib(x));
    assert_eq!(WindowsDisplayHandle::new(), WindowsDisplayHandle);
}

#[test]
fn continue_waits_and_requests_redraw_once() {
    let mut p = RedrawPolicy::new();
    assert!(p.can_wait());
    p.request();
    assert!(!p.can_wait());
    assert_eq!(p.dispatch(ControlFlow::Continue), LoopStep::Proceed);
    assert!(p.finish_batch());
    assert!(p.can_wait());
    assert!(!p.finish_batch());
}

#[test]
fn event_loop_exit_is_final() {
    let mut lp = EventLoop::new();
    assert_eq!(lp.answer(ControlFlow::Poll), LoopStep::Proceed);
    assert_eq!(lp.answer(ControlFlow::Exit), LoopStep::Exit);
    assert!(lp.exited);
    assert_eq!(lp.answer(ControlFlow::WarpAndPoll(1, 1)), LoopStep::Exit);
    assert_eq!(lp.answer(ControlFlow::Continue), LoopStep::Exit);
    assert!(!lp.finish_batch());
}

#[test]
fn event_loop_polls_after_poll_answer() {
    let mut lp = EventLoop::new();
    assert_eq!(lp.answer(ControlFlow::Continue), LoopStep::Proceed);
    assert!(!lp.finish_batch());
    assert_eq!(lp.answer(ControlFlow::WarpAndPoll(5, 6)), LoopStep::WarpCursor { x: 5, y: 6 });
    assert!(lp.finish_batch());
    assert!(lp.finish_batch());
    assert!(!lp.redraw.can_wait());
}

#[test]
fn resize_requests_redraw_when_asked() {
    let mut lp = EventLoop::new();
    lp.note_event(&Event::Resized { width: 3, height: 4 }, false);
    assert!(!lp.finish_batch());
    lp.note_event(&Event::FocusLost, true);
    assert!(!lp.finish_batch());
    lp.note_event(&Event::Resized { width: 3, height: 4 }, true);
    assert!(lp.finish_batch());
}

#[test]
fn continue_answers_keep_waiting() {
    let mut lp = EventLoop::new();
    for _ in 0..5 {
        assert_eq!(lp.answer(ControlFlow::Continue), LoopStep::Proceed);
        assert!(lp.redraw.can_wait());
    }
    assert!(!lp.finish_batch());
    assert!(lp.redraw.can_wait());
}

#[test]
fn requested_redraw_survives_the_batch() {
    let mut lp = EventLoop::new();
    lp.redraw.request();
    for cf in [ControlFlow::Continue, ControlFlow::Poll, ControlFlow::Continue] {
        lp.answer(cf);
        assert!(lp.redraw.requested);
    }
    assert!(lp.finish_batch());
    assert!(!lp.redraw.requested);
}

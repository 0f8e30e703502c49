use vstd::prelude::*;
use crate::event::{ControlFlow, Event};

verus! {

/// What an event loop does once the callback has answered an event.
#[derive(Debug, Clone, Copy, PartialEq, Eq, Structural)]
pub enum LoopStep {
    /// Stop the loop and return from `run`.
    Exit,
    /// Move the cursor to these window coordinates, then go on.
    WarpCursor { x: i32, y: i32 },
    /// Go on with the next event.
    Proceed,
}

/// The step the loop takes for a callback answer.
pub open spec fn spec_step_for(cf: ControlFlow) -> LoopStep {
    match cf {
        ControlFlow::Exit => LoopStep::Exit,
        ControlFlow::WarpAndPoll(x, y) => LoopStep::WarpCursor { x, y },
        ControlFlow::Poll => LoopStep::Proceed,
        ControlFlow::Continue => LoopStep::Proceed,
    }
}

/// `Exit` stops the loop, `WarpAndPoll(x, y)` warps the cursor to `(x, y)`
/// (not `(y, x)`), and `Poll` and `Continue` go on.
pub proof fn lemma_steps(x: i32, y: i32)
    ensures
        spec_step_for(ControlFlow::Exit) == LoopStep::Exit,
        spec_step_for(ControlFlow::WarpAndPoll(x, y)) == (LoopStep::WarpCursor { x: x, y: y }),
        spec_step_for(ControlFlow::Poll) == LoopStep::Proceed,
        spec_step_for(ControlFlow::Continue) == LoopStep::Proceed,
{
}

/// Whether a callback answer asks for continuous redraws.
pub open spec fn asks_to_poll(cf: ControlFlow) -> bool {
    cf is Poll || cf is WarpAndPoll
}

/// Decides what the loop does with a callback answer: `Exit` stops it,
/// `WarpAndPoll(x, y)` warps the cursor to `(x, y)`, the others go on.
pub fn step_for(cf: ControlFlow) -> (res: LoopStep)
    ensures
        res == spec_step_for(cf),
{
    match cf {
        ControlFlow::Exit => LoopStep::Exit,
        ControlFlow::WarpAndPoll(x, y) => LoopStep::WarpCursor { x, y },
        ControlFlow::Poll => LoopStep::Proceed,
        ControlFlow::Continue => LoopStep::Proceed,
    }
}

/// The redraw policy of an event loop: `Continue` waits for the next event,
/// and a redraw comes at the end of a batch only when one was requested
/// (a new or resized window, `request_redraw`); from the first `Poll` or
/// `WarpAndPoll` answer on, every batch ends with a redraw.
#[derive(Debug, Clone, Copy, PartialEq, Eq, Structural)]
pub struct RedrawPolicy {
    /// Redraw after every batch from now on.
    pub polling: bool,
    /// An answer of the current batch asked to poll.
    pub want_poll: bool,
    /// A redraw was requested for the end of the current batch.
    pub requested: bool,
}

impl RedrawPolicy {
    /// The policy after the callback answered `cf` within a batch.
    pub open spec fn after_answer(self, cf: ControlFlow) -> RedrawPolicy {
        RedrawPolicy { want_poll: self.want_poll || asks_to_poll(cf), ..self }
    }

    /// The policy after a batch ends, and whether a redraw comes then.
    pub open spec fn after_batch(self) -> (RedrawPolicy, bool) {
        let polling: bool = self.polling || self.want_poll;
        (RedrawPolicy { polling, want_poll: false, requested: false }, polling || self.requested)
    }

    /// Whether the loop may block until the next event: nothing asks for a
    /// redraw of its own accord.
    pub open spec fn may_wait(self) -> bool {
        !self.polling && !self.want_poll && !self.requested
    }

    pub fn new() -> (res: Self)
        ensures
            !res.polling,
            !res.want_poll,
            !res.requested,
    {
        RedrawPolicy { polling: false, want_poll: false, requested: false }
    }

    /// Asks for a redraw at the end of the current batch.
    pub fn request(&mut self)
        ensures
            *final(self) == (RedrawPolicy { requested: true, ..*old(self) }),
    {
        self.requested = true;
    }

    /// Takes a callback answer within a batch and says what the loop does.
    pub fn dispatch(&mut self, cf: ControlFlow) -> (res: LoopStep)
        ensures
            res == spec_step_for(cf),
            *final(self) == old(self).after_answer(cf),
    {
        match cf {
            ControlFlow::Exit => LoopStep::Exit,
            ControlFlow::Poll => {
                self.want_poll = true;
                LoopStep::Proceed
            },
            ControlFlow::WarpAndPoll(x, y) => {
                self.want_poll = true;
                LoopStep::WarpCursor { x, y }
            },
            ControlFlow::Continue => LoopStep::Proceed,
        }
    }

    /// Ends a batch of events; says whether `RedrawRequested` comes now.
    pub fn finish_batch(&mut self) -> (redraw: bool)
        ensures
            (*final(self), redraw) == old(self).after_batch(),
    {
        if self.want_poll {
            self.polling = true;
        }
        self.want_poll = false;
        let redraw: bool = self.polling || self.requested;
        self.requested = false;
        redraw
    }

    /// Whether the loop may block until the next event.
    pub fn can_wait(&self) -> (res: bool)
        ensures
            res == self.may_wait(),
    {
        !self.polling && !self.want_poll && !self.requested
    }
}

/// The state of a running event loop: its redraw policy, and whether the
/// callback has asked it to stop.
#[derive(Debug, Clone, Copy, PartialEq, Eq, Structural)]
pub struct EventLoop {
    pub redraw: RedrawPolicy,
    pub exited: bool,
}

impl EventLoop {
    /// The loop after the callback answered `cf`, and the step it takes: a
    /// loop that has exited stays so and takes no other step.
    pub open spec fn answer_step(self, cf: ControlFlow) -> (EventLoop, LoopStep) {
        if self.exited {
            (self, LoopStep::Exit)
        } else {
            (
                EventLoop { redraw: self.redraw.after_answer(cf), exited: cf is Exit },
                spec_step_for(cf),
            )
        }
    }

    /// The loop after a sequence of answers.
    pub open spec fn after_answers(self, answers: Seq<ControlFlow>) -> EventLoop
        decreases answers.len(),
    {
        if answers.len() == 0 {
            self
        } else {
            self.after_answers(answers.drop_last()).answer_step(answers.last()).0
        }
    }

    /// The loop after a batch ends, and whether `RedrawRequested` comes then;
    /// nothing comes after the loop has exited.
    pub open spec fn batch_end(self) -> (EventLoop, bool) {
        if self.exited {
            (self, false)
        } else {
            let (redraw, now) = self.redraw.after_batch();
            (EventLoop { redraw, exited: false }, now)
        }
    }

    pub fn new() -> (res: Self)
        ensures
            res.redraw.may_wait(),
            !res.exited,
    {
        EventLoop { redraw: RedrawPolicy::new(), exited: false }
    }

    /// Takes the callback's answer and says what the loop does next.
    pub fn answer(&mut self, cf: ControlFlow) -> (res: LoopStep)
        ensures
            (*final(self), res) == old(self).answer_step(cf),
    {
        if self.exited {
            return LoopStep::Exit;
        }
        let step: LoopStep = self.redraw.dispatch(cf);
        if let LoopStep::Exit = step {
            self.exited = true;
        }
        step
    }

    /// Ends a batch of events; says whether `RedrawRequested` comes now.
    pub fn finish_batch(&mut self) -> (redraw: bool)
        ensures
            (*final(self), redraw) == old(self).batch_end(),
    {
        if self.exited {
            return false;
        }
        self.redraw.finish_batch()
    }

    /// Takes note of an event about to be delivered: a resized window is to
    /// be redrawn when `redraw_on_resize`.
    pub fn note_event(&mut self, e: &Event, redraw_on_resize: bool)
        ensures
            final(self).exited == old(self).exited,
            final(self).redraw == (if redraw_on_resize && e is Resized {
                RedrawPolicy { requested: true, ..old(self).redraw }
            } else {
                old(self).redraw
            }),
    {
        if redraw_on_resize {
            if let Event::Resized { .. } = e {
                self.redraw.request();
            }
        }
    }
}

/// The size of a window's client area as the event stream reports it.
#[derive(Debug, Clone, Copy, PartialEq, Eq, Structural)]
pub struct InnerSize {
    pub width: u32,
    pub height: u32,
}

impl InnerSize {
    pub fn new(width: u32, height: u32) -> (res: Self)
        ensures
            res == (InnerSize { width, height }),
    {
        InnerSize { width, height }
    }

    /// The client-area size, `(width, height)`, in physical pixels.
    pub fn inner_size(&self) -> (res: (u32, u32))
        ensures
            res == (self.width, self.height),
    {
        (self.width, self.height)
    }

    /// The size after an event has been seen: a `Resized` event sets it.
    pub open spec fn after_event(self, e: Event) -> InnerSize {
        match e {
            Event::Resized { width, height } => InnerSize { width, height },
            _ => self,
        }
    }

    /// Takes note of an event that the loop hands to the callback.
    pub fn observe(&mut self, e: &Event)
        ensures
            *final(self) == old(self).after_event(*e),
    {
        if let Event::Resized { width, height } = e {
            self.width = *width;
            self.height = *height;
        }
    }

    /// A size report of the window system, and the `Resized` event it gives
    /// when the size differs from the one known; `need_positive` also drops
    /// reports with a zero dimension.
    pub open spec fn after_report(self, width: u32, height: u32, need_positive: bool) -> (
        InnerSize,
        Option<Event>,
    ) {
        if (width != self.width || height != self.height) && (!need_positive || (width > 0
            && height > 0)) {
            (InnerSize { width, height }, Some(Event::Resized { width, height }))
        } else {
            (self, None)
        }
    }

    /// Takes a size report (an X11 `ConfigureNotify`, or the bounds of a
    /// Cocoa view with `need_positive`) and gives the `Resized` event to
    /// deliver, if any.
    pub fn report(&mut self, width: u32, height: u32, need_positive: bool) -> (res: Option<Event>)
        ensures
            (*final(self), res) == old(self).after_report(width, height, need_positive),
    {
        if (width != self.width || height != self.height) && (!need_positive || (width > 0
            && height > 0)) {
            self.width = width;
            self.height = height;
            Some(Event::Resized { width, height })
        } else {
            None
        }
    }
}

/// The size of the latest `Resized` event of a sequence, if it holds one.
pub open spec fn last_resize(es: Seq<Event>) -> Option<(u32, u32)>
    decreases es.len(),
{
    if es.len() == 0 {
        None
    } else {
        match es.last() {
            Event::Resized { width, height } => Some((width, height)),
            _ => last_resize(es.drop_last()),
        }
    }
}

impl InnerSize {
    /// The size after a sequence of delivered events.
    pub open spec fn after_events(self, es: Seq<Event>) -> InnerSize
        decreases es.len(),
    {
        if es.len() == 0 {
            self
        } else {
            self.after_events(es.drop_last()).after_event(es.last())
        }
    }

    /// The size after a sequence of size reports that are all delivered
    /// when they differ.
    pub open spec fn after_reports(self, rs: Seq<(u32, u32)>) -> InnerSize
        decreases rs.len(),
    {
        if rs.len() == 0 {
            self
        } else {
            self.after_reports(rs.drop_last()).after_report(rs.last().0, rs.last().1, false).0
        }
    }
}

/// Over a whole run, the inner size is that of the latest `Resized` event
/// delivered, or the initial size when none was.
pub proof fn lemma_inner_size_is_last_resize(s: InnerSize, es: Seq<Event>)
    ensures
        s.after_events(es) == (match last_resize(es) {
            Some((width, height)) => InnerSize { width, height },
            None => s,
        }),
    decreases es.len(),
{
    if es.len() > 0 {
        lemma_inner_size_is_last_resize(s, es.drop_last());
    }
}

/// Over a run of size reports (X11 `ConfigureNotify`), the inner size is the
/// latest report, or the initial size when there was none.
pub proof fn lemma_inner_size_is_last_report(s: InnerSize, rs: Seq<(u32, u32)>)
    ensures
        s.after_reports(rs) == (if rs.len() == 0 {
            s
        } else {
            InnerSize { width: rs.last().0, height: rs.last().1 }
        }),
    decreases rs.len(),
{
    if rs.len() > 0 {
        lemma_inner_size_is_last_report(s, rs.drop_last());
    }
}

/// A size report is delivered, and recorded, exactly when it differs from
/// the known size in either dimension (and, with `need_positive`, neither
/// dimension is zero); otherwise nothing changes.
pub proof fn lemma_report_delivers_changes(s: InnerSize, width: u32, height: u32, need_positive: bool)
    ensures
        (width != s.width || height != s.height) && (!need_positive || (width > 0 && height > 0))
            ==> s.after_report(width, height, need_positive) == (
            InnerSize { width, height },
            Some(Event::Resized { width, height }),
        ),
        width == s.width && height == s.height ==> s.after_report(width, height, need_positive) == (
            s,
            None::<Event>,
        ),
        need_positive && (width == 0 || height == 0) ==> s.after_report(width, height, need_positive)
            == (s, None::<Event>),
{
}

/// After a `Resized` event is seen, the inner size is the event's size.
pub proof fn lemma_resized_sets_inner_size(s: InnerSize, width: u32, height: u32)
    ensures
        s.after_event(Event::Resized { width, height }) == (InnerSize { width, height }),
{
}

/// Events other than `Resized` leave the inner size alone.
pub proof fn lemma_other_events_keep_size(s: InnerSize, e: Event)
    requires
        !(e is Resized),
    ensures
        s.after_event(e) == s,
{
}

/// A size report yields a `Resized` event exactly for the new size it
/// records, and reporting the same size again yields nothing.
pub proof fn lemma_report_once(s: InnerSize, width: u32, height: u32, need_positive: bool)
    ensures
        ({
            let (s1, e1) = s.after_report(width, height, need_positive);
            &&& (e1 is Some ==> e1 == Some(Event::Resized { width, height }) && s1 == (InnerSize {
                width,
                height,
            }))
            &&& (e1 is None ==> s1 == s)
            &&& s1.after_report(width, height, need_positive).1 is None
        }),
{
}

/// Once a loop polls it keeps polling: every later answer and every later
/// batch leaves it polling, and each batch end brings a redraw.
pub proof fn lemma_polling_is_sticky(p: RedrawPolicy, cf: ControlFlow)
    requires
        p.polling,
    ensures
        p.after_answer(cf).polling,
        p.after_batch().0.polling,
        p.after_batch().1,
        !p.after_batch().0.may_wait(),
{
}

/// An answer of `Poll` or `WarpAndPoll` brings a redraw at the end of its
/// batch; a loop that was never asked to poll or to redraw brings none, and
/// may wait for the next event after the batch (`Continue` waits).
pub proof fn lemma_poll_answer_starts_polling(p: RedrawPolicy, cf: ControlFlow)
    ensures
        asks_to_poll(cf) ==> p.after_answer(cf).after_batch().1,
        p.may_wait() && !asks_to_poll(cf) ==> !p.after_answer(cf).after_batch().1
            && p.after_answer(cf).after_batch().0.may_wait(),
        p.requested ==> p.after_answer(cf).after_batch().1,
{
}

/// `Exit` ends the loop for good: from the first `Exit` answer on, the loop
/// stays exited whatever else comes, every further answer gives only
/// `Exit`, and no batch end brings a redraw.
pub proof fn lemma_exit_is_final(lp: EventLoop, answers: Seq<ControlFlow>, k: int)
    requires
        !lp.exited,
        0 <= k < answers.len(),
        answers[k] is Exit,
    ensures
        lp.after_answers(answers.take(k + 1)).exited,
        lp.after_answers(answers).exited,
        lp.after_answers(answers).answer_step(ControlFlow::Continue).1 == LoopStep::Exit,
        !lp.after_answers(answers).batch_end().1,
    decreases answers.len(),
{
    assert(answers.take(k + 1).drop_last() =~= answers.take(k));
    if k + 1 < answers.len() {
        lemma_exit_is_final(lp, answers.drop_last(), k);
        assert(answers.drop_last().take(k + 1) =~= answers.take(k + 1));
    } else {
        assert(answers.take(k + 1) =~= answers);
    }
}

/// Until it exits, the loop answers each callback answer as `step_for`
/// does: it warps the cursor for `WarpAndPoll` at once, before anything
/// else is delivered.
pub proof fn lemma_steps_before_exit(lp: EventLoop, answers: Seq<ControlFlow>, cf: ControlFlow)
    requires
        !lp.after_answers(answers).exited,
    ensures
        lp.after_answers(answers.push(cf)).exited == (cf is Exit),
        lp.after_answers(answers).answer_step(cf).1 == spec_step_for(cf),
{
    assert(answers.push(cf).drop_last() =~= answers);
}

/// Whether some answer of a sequence asks to poll.
pub open spec fn some_polls(answers: Seq<ControlFlow>) -> bool {
    exists|i: int| 0 <= i < answers.len() && #[trigger] asks_to_poll(answers[i])
}

/// Whether no answer of a sequence is `Exit`.
pub open spec fn no_exit(answers: Seq<ControlFlow>) -> bool {
    forall|i: int| 0 <= i < answers.len() ==> !(#[trigger] answers[i] is Exit)
}

/// A running loop that gets answers without `Exit` keeps running, keeps its
/// polling and requested redraw, and wants to poll exactly when it did or
/// some answer asked to.
pub proof fn lemma_batch_without_exit(lp: EventLoop, answers: Seq<ControlFlow>)
    requires
        !lp.exited,
        no_exit(answers),
    ensures
        lp.after_answers(answers) == (EventLoop {
            redraw: RedrawPolicy {
                polling: lp.redraw.polling,
                want_poll: lp.redraw.want_poll || some_polls(answers),
                requested: lp.redraw.requested,
            },
            exited: false,
        }),
    decreases answers.len(),
{
    if answers.len() > 0 {
        let prev = answers.drop_last();
        assert forall|i: int| 0 <= i < prev.len() implies !(#[trigger] prev[i] is Exit) by {
            assert(prev[i] == answers[i]);
        }
        lemma_batch_without_exit(lp, prev);
        assert(!(answers[answers.len() - 1] is Exit));
        if some_polls(answers) {
            let i = choose|i: int| 0 <= i < answers.len() && #[trigger] asks_to_poll(answers[i]);
            if i < prev.len() {
                assert(prev[i] == answers[i]);
                assert(some_polls(prev));
            }
        }
        if some_polls(prev) {
            let i = choose|i: int| 0 <= i < prev.len() && #[trigger] asks_to_poll(prev[i]);
            assert(prev[i] == answers[i]);
        }
        if asks_to_poll(answers.last()) {
            assert(asks_to_poll(answers[answers.len() - 1]));
        }
    }
}

/// `Continue` waits: a running loop that may wait and gets only `Continue`
/// answers, however many, brings no redraw at the end of the batch and may
/// wait again after it.
pub proof fn lemma_continue_waits(lp: EventLoop, answers: Seq<ControlFlow>)
    requires
        !lp.exited,
        lp.redraw.may_wait(),
        forall|i: int| 0 <= i < answers.len() ==> #[trigger] answers[i] == ControlFlow::Continue,
    ensures
        lp.after_answers(answers).redraw.may_wait(),
        !lp.after_answers(answers).batch_end().1,
        lp.after_answers(answers).batch_end().0.redraw.may_wait(),
{
    assert(no_exit(answers));
    assert(!some_polls(answers));
    lemma_batch_without_exit(lp, answers);
}

/// A requested redraw comes: whatever answers without `Exit` the batch
/// brings, it ends with a redraw, and the request is then used up.
pub proof fn lemma_requested_redraw_comes(lp: EventLoop, answers: Seq<ControlFlow>)
    requires
        !lp.exited,
        lp.redraw.requested,
        no_exit(answers),
    ensures
        lp.after_answers(answers).redraw.requested,
        lp.after_answers(answers).batch_end().1,
        !lp.after_answers(answers).batch_end().0.redraw.requested,
{
    lemma_batch_without_exit(lp, answers);
}

/// Within a batch of a running loop, a `Poll` or `WarpAndPoll` answer
/// anywhere before an `Exit` brings a redraw when the batch ends, and the
/// loop polls from then on.
pub proof fn lemma_poll_in_batch_redraws(lp: EventLoop, answers: Seq<ControlFlow>, k: int)
    requires
        !lp.exited,
        0 <= k < answers.len(),
        asks_to_poll(answers[k]),
        no_exit(answers),
    ensures
        lp.after_answers(answers).batch_end().1,
        lp.after_answers(answers).batch_end().0.redraw.polling,
{
    assert(some_polls(answers));
    lemma_batch_without_exit(lp, answers);
}

} // verus!

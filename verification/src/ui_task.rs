//! The task that draws: for ever takes a free buffer, has it drawn in, passes it on to be displayed
//! and lets as much time pass as the drawing asked for.
//!
//! The task is a machine: it says what has to be done, takes what came of it, and says what has to
//! be done next. `B` is the type of the buffers.
use vstd::prelude::*;

use crate::status::Phase;

verus! {

/// Where the task stands.
pub enum UiStep<B> {
    /// A round begins.
    ShowWaiting,
    /// A free buffer is being waited for.
    Receiving,
    /// A buffer has come.
    ShowDrawing { buffer: B },
    /// The buffer is being drawn in.
    Drawing { passed: Ghost<B> },
    /// The drawn buffer is passed on; the drawing asked for a delay.
    Sending { passed: Ghost<B>, delay: u64 },
    /// The buffer is gone.
    ShowSent { delay: u64 },
    /// The delay is running.
    Waiting { delay: u64 },
}

/// What the task has to do.
#[derive(Debug, PartialEq)]
pub enum UiAction<B> {
    /// Make this phase known.
    Show(Phase),
    /// Wait for a free buffer and take it.
    ReceiveBuffer,
    /// Draw the next picture in this buffer.
    Draw(B),
    /// Pass this buffer on to be displayed.
    SendBuffer(B),
    /// Let this many milliseconds pass.
    Wait(u64),
}

/// What came of an action.
pub enum UiEvent<B> {
    Done,
    /// The buffer that was waited for.
    Received(B),
    /// The buffer with a picture drawn in it; the next is due after so many milliseconds.
    Drawn(B, u64),
}

/// What has to be done at each step.
pub open spec fn ui_action_at<B>(step: UiStep<B>) -> UiAction<B> {
    match step {
        UiStep::ShowWaiting => UiAction::Show(Phase::UiWaiting),
        UiStep::Receiving => UiAction::ReceiveBuffer,
        UiStep::ShowDrawing { .. } => UiAction::Show(Phase::Drawing),
        UiStep::Drawing { passed } => UiAction::Draw(passed@),
        UiStep::Sending { passed, .. } => UiAction::SendBuffer(passed@),
        UiStep::ShowSent { .. } => UiAction::Show(Phase::Idle),
        UiStep::Waiting { delay } => UiAction::Wait(delay),
    }
}

/// Whether `event` can come of the action of `step`: a buffer comes when one is waited for, a
/// drawn one when one was given to be drawn in, and only then.
pub open spec fn ui_fits<B>(step: UiStep<B>, event: UiEvent<B>) -> bool {
    &&& step is Receiving <==> event is Received
    &&& step is Drawing <==> event is Drawn
}

/// The step that follows `step` when `event` came of its action.
pub open spec fn ui_step_after<B>(step: UiStep<B>, event: UiEvent<B>) -> UiStep<B> {
    match step {
        UiStep::ShowWaiting => UiStep::Receiving,
        UiStep::Receiving => match event {
            UiEvent::Received(buffer) => UiStep::ShowDrawing { buffer },
            _ => step,
        },
        UiStep::ShowDrawing { buffer } => UiStep::Drawing { passed: Ghost(buffer) },
        UiStep::Drawing { .. } => match event {
            UiEvent::Drawn(buffer, delay) => UiStep::Sending { passed: Ghost(buffer), delay },
            _ => step,
        },
        UiStep::Sending { delay, .. } => UiStep::ShowSent { delay },
        UiStep::ShowSent { delay } => UiStep::Waiting { delay },
        UiStep::Waiting { .. } => UiStep::ShowWaiting,
    }
}

/// The task that draws.
pub struct UiTask<B> {
    step: UiStep<B>,
}

impl<B> View for UiTask<B> {
    type V = UiStep<B>;

    closed spec fn view(&self) -> UiStep<B> {
        self.step
    }
}

impl<B> UiTask<B> {
    /// The task at its beginning, and what has to be done first.
    pub fn start() -> (r: (Self, UiAction<B>))
        ensures
            r.0@ == UiStep::<B>::ShowWaiting,
            r.1 == ui_action_at(r.0@),
            r.1 == UiAction::<B>::Show(Phase::UiWaiting),
    {
        (UiTask { step: UiStep::ShowWaiting }, UiAction::Show(Phase::UiWaiting))
    }

    /// Takes what came of the action, and says what has to be done next.
    pub fn next(&mut self, event: UiEvent<B>) -> (r: UiAction<B>)
        requires
            ui_fits(old(self)@, event),
        ensures
            final(self)@ == ui_step_after(old(self)@, event),
            r == ui_action_at(final(self)@),
    {
        let mut step = UiStep::ShowWaiting;
        core::mem::swap(&mut step, &mut self.step);
        match (step, event) {
            (UiStep::ShowWaiting, _) => {
                self.step = UiStep::Receiving;
                UiAction::ReceiveBuffer
            },
            (UiStep::Receiving, UiEvent::Received(buffer)) => {
                self.step = UiStep::ShowDrawing { buffer };
                UiAction::Show(Phase::Drawing)
            },
            (UiStep::ShowDrawing { buffer }, _) => {
                self.step = UiStep::Drawing { passed: Ghost(buffer) };
                UiAction::Draw(buffer)
            },
            (UiStep::Drawing { .. }, UiEvent::Drawn(buffer, delay)) => {
                self.step = UiStep::Sending { passed: Ghost(buffer), delay };
                UiAction::SendBuffer(buffer)
            },
            (UiStep::Sending { delay, .. }, _) => {
                self.step = UiStep::ShowSent { delay };
                UiAction::Show(Phase::Idle)
            },
            (UiStep::ShowSent { delay }, _) => {
                self.step = UiStep::Waiting { delay };
                UiAction::Wait(delay)
            },
            (_, _) => {
                self.step = UiStep::ShowWaiting;
                UiAction::Show(Phase::UiWaiting)
            },
        }
    }
}

/// The step after `events` came of the task's actions, one after the other.
pub open spec fn ui_run<B>(step: UiStep<B>, events: Seq<UiEvent<B>>) -> UiStep<B>
    decreases events.len(),
{
    if events.len() == 0 {
        step
    } else {
        ui_step_after(ui_run(step, events.drop_last()), events.last())
    }
}

/// The actions that `events` came of, one for each.
pub open spec fn ui_actions_run<B>(step: UiStep<B>, events: Seq<UiEvent<B>>) -> Seq<UiAction<B>>
    decreases events.len(),
{
    if events.len() == 0 {
        seq![]
    } else {
        ui_actions_run(step, events.drop_last()).push(
            ui_action_at(ui_run(step, events.drop_last())),
        )
    }
}

/// A run after a run is one run.
pub proof fn law_ui_runs_join<B>(step: UiStep<B>, a: Seq<UiEvent<B>>, b: Seq<UiEvent<B>>)
    ensures
        ui_run(step, a + b) == ui_run(ui_run(step, a), b),
        ui_actions_run(step, a + b) == ui_actions_run(step, a) + ui_actions_run(
            ui_run(step, a),
            b,
        ),
    decreases b.len(),
{
    if b.len() == 0 {
        assert(a + b =~= a);
        assert(ui_actions_run(step, a) =~= ui_actions_run(step, a) + seq![]);
    } else {
        assert((a + b).drop_last() =~= a + b.drop_last());
        law_ui_runs_join(step, a, b.drop_last());
        assert(ui_actions_run(step, a + b) =~= ui_actions_run(step, a) + ui_actions_run(
            ui_run(step, a),
            b,
        ));
    }
}

proof fn lemma_ui_push<B>(step: UiStep<B>, events: Seq<UiEvent<B>>, event: UiEvent<B>)
    ensures
        ui_run(step, events.push(event)) == ui_step_after(ui_run(step, events), event),
        ui_actions_run(step, events.push(event)) == ui_actions_run(step, events).push(
            ui_action_at(ui_run(step, events)),
        ),
{
    assert(events.push(event).drop_last() =~= events);
}

/// What a round consists of that takes `buffer`, gets it back as `picture`, and has to let `delay`
/// milliseconds pass.
pub open spec fn ui_round<B>(buffer: B, picture: B, delay: u64) -> Seq<UiAction<B>> {
    seq![
        UiAction::Show(Phase::UiWaiting),
        UiAction::ReceiveBuffer,
        UiAction::Show(Phase::Drawing),
        UiAction::Draw(buffer),
        UiAction::SendBuffer(picture),
        UiAction::Show(Phase::Idle),
        UiAction::Wait(delay),
    ]
}

/// A round takes one buffer, has that very buffer drawn in once, passes on what the drawing gave,
/// waits just as long as it asked for, and ends where it began. The phase is made known before
/// each part.
pub proof fn law_ui_round<B>(events: Seq<UiEvent<B>>, buffer: B, picture: B, delay: u64)
    requires
        events.len() == 7,
        events[1] == UiEvent::Received(buffer),
        events[3] == UiEvent::Drawn(picture, delay),
    ensures
        ui_run(UiStep::<B>::ShowWaiting, events) == UiStep::<B>::ShowWaiting,
        ui_actions_run(UiStep::<B>::ShowWaiting, events) == ui_round(buffer, picture, delay),
{
    let step = UiStep::<B>::ShowWaiting;
    assert forall|i: int| 0 <= i < 7 implies events.take(i + 1) == #[trigger] events.take(i).push(
        events[i],
    ) by {
        assert(events.take(i + 1) =~= events.take(i).push(events[i]));
    }
    assert(events.take(0) =~= seq![]);
    lemma_ui_push(step, events.take(0), events[0]);
    lemma_ui_push(step, events.take(1), events[1]);
    lemma_ui_push(step, events.take(2), events[2]);
    lemma_ui_push(step, events.take(3), events[3]);
    lemma_ui_push(step, events.take(4), events[4]);
    lemma_ui_push(step, events.take(5), events[5]);
    lemma_ui_push(step, events.take(6), events[6]);
    assert(events.take(7) =~= events);
    assert(ui_actions_run(step, events) =~= ui_round(buffer, picture, delay));
}

/// The order of a round. The buffer that came is the one to draw in, the one that the drawing gave
/// is the one passed on, and the delay that it asked for, however long, is kept to the end.
pub proof fn law_ui_order<B>(step: UiStep<B>, event: UiEvent<B>, buffer: B, delay: u64)
    ensures
        step is ShowWaiting ==> ui_step_after(step, event) is Receiving,
        step is Receiving && event == UiEvent::Received(buffer) ==> ui_step_after(step, event) == (
        UiStep::ShowDrawing { buffer }),
        step == (UiStep::ShowDrawing { buffer }) ==> ui_step_after(step, event) == (
        UiStep::Drawing { passed: Ghost(buffer) }),
        step is Drawing && event == UiEvent::Drawn(buffer, delay) ==> ui_step_after(step, event)
            == (UiStep::Sending { passed: Ghost(buffer), delay }),
        step == (UiStep::Sending { passed: Ghost(buffer), delay }) ==> ui_step_after(step, event)
            == (UiStep::<B>::ShowSent { delay }),
        step == (UiStep::<B>::ShowSent { delay }) ==> ui_step_after(step, event) == (
        UiStep::<B>::Waiting { delay }),
        step is Waiting ==> ui_step_after(step, event) is ShowWaiting,
{
}

/// What is done at each step, for every buffer and every delay.
pub proof fn law_ui_actions<B>(buffer: B, delay: u64)
    ensures
        ui_action_at(UiStep::<B>::ShowWaiting) == UiAction::<B>::Show(Phase::UiWaiting),
        ui_action_at(UiStep::<B>::Receiving) == UiAction::<B>::ReceiveBuffer,
        ui_action_at(UiStep::ShowDrawing { buffer }) == UiAction::<B>::Show(Phase::Drawing),
        ui_action_at(UiStep::Drawing { passed: Ghost(buffer) }) == UiAction::Draw(buffer),
        ui_action_at(UiStep::Sending { passed: Ghost(buffer), delay }) == UiAction::SendBuffer(
            buffer,
        ),
        ui_action_at(UiStep::<B>::ShowSent { delay }) == UiAction::<B>::Show(Phase::Idle),
        ui_action_at(UiStep::<B>::Waiting { delay }) == UiAction::<B>::Wait(delay),
{
}

/// Any buffer can come where one is waited for, any picture with any delay where one is being
/// drawn, and the bare end of an action everywhere else.
pub proof fn law_ui_answers<B>(step: UiStep<B>, event: UiEvent<B>, buffer: B, delay: u64)
    ensures
        step is Receiving ==> ui_fits(step, UiEvent::Received(buffer)),
        step is Drawing ==> ui_fits(step, UiEvent::Drawn(buffer, delay)),
        !(step is Receiving || step is Drawing) ==> ui_fits(step, UiEvent::Done),
        step is Receiving && ui_fits(step, event) ==> event is Received,
        step is Drawing && ui_fits(step, event) ==> event is Drawn,
{
}

/// What a round comes to: the buffer that came is drawn in, what the drawing gave is passed on, and
/// the last thing is a wait for just the delay that the drawing asked for.
pub proof fn law_ui_round_in_full<B>(
    events: Seq<UiEvent<B>>,
    buffer: B,
    picture: B,
    delay: u64,
)
    requires
        events.len() == 7,
        events[1] == UiEvent::Received(buffer),
        events[3] == UiEvent::Drawn(picture, delay),
    ensures
        ui_actions_run(UiStep::<B>::ShowWaiting, events) == seq![
            UiAction::Show(Phase::UiWaiting),
            UiAction::ReceiveBuffer,
            UiAction::Show(Phase::Drawing),
            UiAction::Draw(buffer),
            UiAction::SendBuffer(picture),
            UiAction::Show(Phase::Idle),
            UiAction::Wait(delay),
        ],
{
    law_ui_round(events, buffer, picture, delay);
}

/// Whether each of `events` can come of the action that it came of.
pub open spec fn ui_fitting<B>(step: UiStep<B>, events: Seq<UiEvent<B>>) -> bool
    decreases events.len(),
{
    events.len() == 0 || {
        &&& ui_fitting(step, events.drop_last())
        &&& ui_fits(ui_run(step, events.drop_last()), events.last())
    }
}

/// The buffers that came, in order.
pub open spec fn ui_received<B>(events: Seq<UiEvent<B>>) -> Seq<B>
    decreases events.len(),
{
    if events.len() == 0 {
        seq![]
    } else {
        let before = ui_received(events.drop_last());
        match events.last() {
            UiEvent::Received(buffer) => before.push(buffer),
            _ => before,
        }
    }
}

/// The drawn buffers that came back, in order.
pub open spec fn ui_pictures<B>(events: Seq<UiEvent<B>>) -> Seq<B>
    decreases events.len(),
{
    if events.len() == 0 {
        seq![]
    } else {
        let before = ui_pictures(events.drop_last());
        match events.last() {
            UiEvent::Drawn(buffer, _) => before.push(buffer),
            _ => before,
        }
    }
}

/// The buffers that were given to be drawn in, in order.
pub open spec fn ui_drawn_in<B>(actions: Seq<UiAction<B>>) -> Seq<B>
    decreases actions.len(),
{
    if actions.len() == 0 {
        seq![]
    } else {
        let before = ui_drawn_in(actions.drop_last());
        match actions.last() {
            UiAction::Draw(buffer) => before.push(buffer),
            _ => before,
        }
    }
}

/// The buffers that were passed on, in order.
pub open spec fn ui_sent<B>(actions: Seq<UiAction<B>>) -> Seq<B>
    decreases actions.len(),
{
    if actions.len() == 0 {
        seq![]
    } else {
        let before = ui_sent(actions.drop_last());
        match actions.last() {
            UiAction::SendBuffer(buffer) => before.push(buffer),
            _ => before,
        }
    }
}

/// The buffer that came and has not been drawn in yet, if there is one.
pub open spec fn to_draw<B>(step: UiStep<B>) -> Seq<B> {
    match step {
        UiStep::ShowDrawing { buffer } => seq![buffer],
        UiStep::Drawing { passed } => seq![passed@],
        _ => seq![],
    }
}

/// The drawn buffer that has not been passed on yet, if there is one.
pub open spec fn to_send<B>(step: UiStep<B>) -> Seq<B> {
    match step {
        UiStep::Sending { passed, .. } => seq![passed@],
        _ => seq![],
    }
}

/// Every buffer that comes is given to be drawn in exactly once, and every buffer that the drawing
/// gives back is passed on exactly once, in the order in which they came. At any time all were but
/// for one that may be in hand.
pub proof fn law_pictures_pass_through<B>(step: UiStep<B>, events: Seq<UiEvent<B>>)
    requires
        ui_fitting(step, events),
    ensures
        to_draw(step) + ui_received(events) == ui_drawn_in(ui_actions_run(step, events)) + to_draw(
            ui_run(step, events),
        ),
        to_send(step) + ui_pictures(events) == ui_sent(ui_actions_run(step, events)) + to_send(
            ui_run(step, events),
        ),
    decreases events.len(),
{
    let now = ui_run(step, events);
    let done = ui_actions_run(step, events);
    if events.len() > 0 {
        let before = events.drop_last();
        law_pictures_pass_through(step, before);
        assert(done.drop_last() =~= ui_actions_run(step, before));
    }
    assert(to_draw(step) + ui_received(events) =~= ui_drawn_in(done) + to_draw(now));
    assert(to_send(step) + ui_pictures(events) =~= ui_sent(done) + to_send(now));
}

} // verus!

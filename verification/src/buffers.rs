//! The two display buffers on their way round: free ones queue for the user interface, drawn ones
//! queue for the I2C task, and each of the two queues has room for both.
use vstd::prelude::*;

use crate::i2c_task::{self, Action, Event, Step};
use crate::ui_task::{self, UiAction, UiEvent, UiStep};

verus! {

/// How many buffers there are, which is also what each queue has room for.
pub const NUM_BUFFERS: usize = 2;

/// The queues, first in first out, and where the two tasks stand.
pub struct Circuit<B> {
    pub free: Seq<B>,
    pub drawn: Seq<B>,
    pub ui: UiStep<B>,
    pub i2c: Step<B>,
}

/// The buffers that the user interface has in hand.
pub open spec fn held_by_ui<B>(step: UiStep<B>) -> nat {
    match step {
        UiStep::ShowDrawing { .. } | UiStep::Drawing { .. } | UiStep::Sending { .. } => 1,
        _ => 0,
    }
}

/// The buffers that the I2C task has in hand.
pub open spec fn held_by_i2c<B>(step: Step<B>) -> nat {
    match step {
        Step::ShowFlushing { .. } | Step::Flushing { .. } | Step::FlushFault { .. }
        | Step::Returning { .. } => 1,
        _ => 0,
    }
}

/// Whether the user interface's action can be completed now: taking a buffer needs one in the
/// queue, passing one on needs room.
pub open spec fn ui_ready<B>(c: Circuit<B>) -> bool {
    match ui_task::ui_action_at(c.ui) {
        UiAction::ReceiveBuffer => c.free.len() > 0,
        UiAction::SendBuffer(_) => c.drawn.len() < NUM_BUFFERS,
        _ => true,
    }
}

/// Whether the I2C task's action can be completed now.
pub open spec fn i2c_ready<B>(c: Circuit<B>) -> bool {
    match i2c_task::action_at(c.i2c) {
        Action::ReceiveBuffer => c.drawn.len() > 0,
        Action::ReturnBuffer(_) => c.free.len() < NUM_BUFFERS,
        _ => true,
    }
}

/// One of the tasks completes its action.
pub enum Move<B> {
    Ui(UiEvent<B>),
    I2c(Event<B>),
}

/// Whether a task can complete its action now, and so: what is taken is the first of its queue.
pub open spec fn can_move<B>(c: Circuit<B>, m: Move<B>) -> bool {
    match m {
        Move::Ui(event) => {
            &&& ui_ready(c)
            &&& ui_task::ui_fits(c.ui, event)
            &&& event matches UiEvent::Received(buffer) ==> buffer == c.free[0]
        },
        Move::I2c(event) => {
            &&& i2c_ready(c)
            &&& i2c_task::fits(c.i2c, event)
            &&& event matches Event::Received(buffer) ==> buffer == c.drawn[0]
        },
    }
}

/// The circuit once a task has completed its action.
pub open spec fn moved<B>(c: Circuit<B>, m: Move<B>) -> Circuit<B> {
    match m {
        Move::Ui(event) => {
            let next = Circuit { ui: ui_task::ui_step_after(c.ui, event), ..c };
            match ui_task::ui_action_at(c.ui) {
                UiAction::ReceiveBuffer => Circuit { free: c.free.skip(1), ..next },
                UiAction::SendBuffer(buffer) => Circuit { drawn: c.drawn.push(buffer), ..next },
                _ => next,
            }
        },
        Move::I2c(event) => {
            let next = Circuit { i2c: i2c_task::step_after(c.i2c, event), ..c };
            match i2c_task::action_at(c.i2c) {
                Action::ReceiveBuffer => Circuit { drawn: c.drawn.skip(1), ..next },
                Action::ReturnBuffer(buffer) => Circuit { free: c.free.push(buffer), ..next },
                _ => next,
            }
        },
    }
}

/// Every buffer is in one of the queues or in the hands of one of the tasks.
pub open spec fn complete<B>(c: Circuit<B>) -> bool {
    c.free.len() + c.drawn.len() + held_by_ui(c.ui) + held_by_i2c(c.i2c) == NUM_BUFFERS
}

/// The circuit at the start: both buffers are free, and neither task has begun.
pub open spec fn at_start<B>(first: B, second: B) -> Circuit<B> {
    Circuit {
        free: seq![first, second],
        drawn: seq![],
        ui: UiStep::ShowWaiting,
        i2c: Step::InitSelect { ch: 0 },
    }
}

/// No buffer is lost and none appears: all are there after whatever either task does.
pub proof fn law_buffers_kept<B>(c: Circuit<B>, m: Move<B>)
    requires
        complete(c),
        can_move(c, m),
    ensures
        complete(moved(c, m)),
{
}

/// While no buffer is lost, neither queue holds more than it has room for, and a task that passes
/// a buffer on always finds room.
pub proof fn law_never_full<B>(c: Circuit<B>)
    requires
        complete(c),
    ensures
        c.free.len() <= NUM_BUFFERS,
        c.drawn.len() <= NUM_BUFFERS,
        ui_task::ui_action_at(c.ui) is SendBuffer ==> ui_ready(c),
        i2c_task::action_at(c.i2c) is ReturnBuffer ==> i2c_ready(c),
{
}

/// While no buffer is lost, the two tasks never wait for each other: one of them can go on.
pub proof fn law_no_deadlock<B>(c: Circuit<B>)
    requires
        complete(c),
    ensures
        ui_ready(c) || i2c_ready(c),
{
}

/// Whether `moves` can follow each other from `start`.
pub open spec fn possible<B>(start: Circuit<B>, moves: Seq<Move<B>>) -> bool
    decreases moves.len(),
{
    moves.len() == 0 || {
        &&& possible(start, moves.drop_last())
        &&& can_move(reached(start, moves.drop_last()), moves.last())
    }
}

/// The circuit after `moves` from `start`.
pub open spec fn reached<B>(start: Circuit<B>, moves: Seq<Move<B>>) -> Circuit<B>
    decreases moves.len(),
{
    if moves.len() == 0 {
        start
    } else {
        moved(reached(start, moves.drop_last()), moves.last())
    }
}

/// However the two tasks take turns, both buffers are always somewhere, neither queue overflows,
/// and one of the tasks can go on.
pub proof fn law_circulation<B>(first: B, second: B, moves: Seq<Move<B>>)
    requires
        possible(at_start(first, second), moves),
    ensures
        ({
            let c = reached(at_start(first, second), moves);
            &&& complete(c)
            &&& c.free.len() <= NUM_BUFFERS
            &&& c.drawn.len() <= NUM_BUFFERS
            &&& ui_ready(c) || i2c_ready(c)
        }),
    decreases moves.len(),
{
    let start = at_start(first, second);
    if moves.len() > 0 {
        law_circulation(first, second, moves.drop_last());
        law_buffers_kept(reached(start, moves.drop_last()), moves.last());
    }
    law_never_full(reached(start, moves));
    law_no_deadlock(reached(start, moves));
}

} // verus!

//! What the I2C task does over many steps, whatever the bus and the panel answer.
use vstd::prelude::*;

use crate::bus::{ByteWrite, RegisterWrite, WordRead};
use crate::devices::at42qt::{self, InitStep};
use crate::i2c_task::{self, Action, Event, Step, TaskView};
use crate::status::Phase;

verus! {

/// The task after `events` came of its actions, one after the other.
pub open spec fn task_run<B>(task: TaskView<B>, events: Seq<Event<B>>) -> TaskView<B>
    decreases events.len(),
{
    if events.len() == 0 {
        task
    } else {
        i2c_task::task_after(task_run(task, events.drop_last()), events.last())
    }
}

/// The actions that `events` came of, one for each.
pub open spec fn actions_run<'a, B>(task: TaskView<B>, events: Seq<Event<B>>) -> Seq<
    Action<'a, B>,
>
    decreases events.len(),
{
    if events.len() == 0 {
        seq![]
    } else {
        actions_run(task, events.drop_last()).push(
            i2c_task::action_at(task_run(task, events.drop_last()).step),
        )
    }
}

/// A run after a run is one run.
pub proof fn law_runs_join<B>(task: TaskView<B>, a: Seq<Event<B>>, b: Seq<Event<B>>)
    ensures
        task_run(task, a + b) == task_run(task_run(task, a), b),
        actions_run(task, a + b) == actions_run(task, a) + actions_run(task_run(task, a), b),
    decreases b.len(),
{
    if b.len() == 0 {
        assert(a + b =~= a);
        assert(actions_run(task, a) =~= actions_run(task, a) + seq![]);
    } else {
        assert((a + b).drop_last() =~= a + b.drop_last());
        law_runs_join(task, a, b.drop_last());
        assert(actions_run(task, a + b) =~= actions_run(task, a) + actions_run(
            task_run(task, a),
            b,
        ));
    }
}

/// One event more.
proof fn lemma_run_one<B>(task: TaskView<B>, event: Event<B>)
    ensures
        task_run(task, seq![event]) == i2c_task::task_after(task, event),
        actions_run(task, seq![event]) == seq![i2c_task::action_at(task.step)],
{
    let one = seq![event];
    assert(one.drop_last() =~= Seq::<Event<B>>::empty());
    reveal_with_fuel(task_run, 2);
    reveal_with_fuel(actions_run, 2);
    assert(actions_run(task, one) =~= seq![i2c_task::action_at(task.step)]);
}

proof fn lemma_run_push<B>(task: TaskView<B>, events: Seq<Event<B>>, event: Event<B>)
    ensures
        task_run(task, events.push(event)) == i2c_task::task_after(task_run(task, events), event),
        actions_run(task, events.push(event)) == actions_run(task, events).push(
            i2c_task::action_at(task_run(task, events).step),
        ),
{
    assert(events.push(event).drop_last() =~= events);
}

/// Each sensor is a channel of the one multiplexer there is.
pub proof fn law_sensor_select(ch: u8)
    requires
        ch < 4,
    ensures
        i2c_task::sensor_select(ch) == (ByteWrite { addr: 0x74, byte: (4 + ch) as u8 }),
{
}

/// What goes over the bus: the multiplexer is told the channel of the sensor, a sensor gets zero
/// in two of its registers, and a key is read from two registers of its own.
pub proof fn law_transfers<B>(ch: u8, key: u8)
    requires
        ch < 4,
        key < 6,
    ensures
        i2c_task::action_at(Step::<B>::InitSelect { ch }) == Action::<B>::Select(
            ByteWrite { addr: 0x74, byte: (4 + ch) as u8 },
        ),
        i2c_task::action_at(Step::<B>::InitSensor { ch, write: InitStep::LowPower })
            == Action::<B>::Configure(RegisterWrite { addr: 0x1B, register: 54, value: 0 }),
        i2c_task::action_at(Step::<B>::InitSensor { ch, write: InitStep::MaxDuration })
            == Action::<B>::Configure(RegisterWrite { addr: 0x1B, register: 55, value: 0 }),
        i2c_task::action_at(Step::<B>::ScanSelect { ch }) == Action::<B>::Select(
            ByteWrite { addr: 0x74, byte: (4 + ch) as u8 },
        ),
        i2c_task::action_at(Step::<B>::ScanRead { ch, key }) == Action::<B>::Read(
            WordRead { addr: 0x1B, register: (4 + 2 * key) as u8 },
        ),
{
}

/// What is done beside the transfers: the phases that are made known, the one counted failure of
/// the panel at its initialisation and with each buffer, and the very buffer that came, to the
/// panel and back.
pub proof fn law_other_actions<B>(buffer: B)
    ensures
        i2c_task::action_at(Step::<B>::PanelInit) == Action::<B>::InitPanel,
        i2c_task::action_at(Step::<B>::PanelFault) == Action::<B>::CountFailure,
        i2c_task::action_at(Step::<B>::ShowWaiting) == Action::<B>::Show(Phase::I2cWaiting),
        i2c_task::action_at(Step::<B>::Receiving) == Action::<B>::ReceiveBuffer,
        i2c_task::action_at(Step::ShowFlushing { buffer }) == Action::<B>::Show(Phase::Flushing),
        i2c_task::action_at(Step::Flushing { buffer }) == Action::<B>::FlushBuffer(&buffer),
        i2c_task::action_at(Step::FlushFault { buffer }) == Action::<B>::CountFailure,
        i2c_task::action_at(Step::Returning { passed: Ghost(buffer) }) == Action::ReturnBuffer(
            buffer,
        ),
        i2c_task::action_at(Step::<B>::ShowReturned) == Action::<B>::Show(Phase::Idle),
        i2c_task::action_at(Step::<B>::ShowScanning) == Action::<B>::Show(Phase::Scanning),
        i2c_task::action_at(Step::<B>::ShowScanned) == Action::<B>::Show(Phase::Idle),
{
}

/// An answer without a buffer can come at every step but the one that waits for a buffer; one with
/// a buffer, whichever it is, can come there.
pub proof fn law_answers<B>(step: Step<B>, event: Event<B>, bytes: [u8; 2], buffer: B)
    ensures
        !(step is Receiving) ==> i2c_task::fits(step, Event::Done) && i2c_task::fits(
            step,
            Event::Failed,
        ) && i2c_task::fits(step, Event::Word(bytes)),
        step is Receiving ==> i2c_task::fits(step, Event::Received(buffer)),
        step is Receiving && i2c_task::fits(step, event) ==> event is Received,
{
}

/// The order of the set-up. It goes on from sensor to sensor and to the panel; a failure only
/// takes the second write from its sensor, or adds a step that counts it.
pub proof fn law_setup_order<B>(task: TaskView<B>, ch: u8, event: Event<B>)
    requires
        ch < 4,
    ensures
        task.step == (Step::<B>::InitSelect { ch }) ==> i2c_task::task_after(task, event).step == (
        Step::<B>::InitSensor { ch, write: InitStep::LowPower }),
        task.step == (Step::<B>::InitSensor { ch, write: InitStep::LowPower }) && !(
        event is Failed) ==> i2c_task::task_after(task, event).step == (Step::<B>::InitSensor {
            ch,
            write: InitStep::MaxDuration,
        }),
        task.step == (Step::<B>::InitSensor { ch, write: InitStep::LowPower }) && event is Failed
            && ch < 3 ==> i2c_task::task_after(task, event).step == (Step::<B>::InitSelect {
            ch: (ch + 1) as u8,
        }),
        task.step == (Step::<B>::InitSensor { ch, write: InitStep::MaxDuration }) && ch < 3
            ==> i2c_task::task_after(task, event).step == (Step::<B>::InitSelect {
            ch: (ch + 1) as u8,
        }),
        task.step == (Step::<B>::InitSensor { ch, write: InitStep::LowPower }) && event is Failed
            && ch == 3 ==> i2c_task::task_after(task, event).step == Step::<B>::PanelInit,
        task.step == (Step::<B>::InitSensor { ch, write: InitStep::MaxDuration }) && ch == 3
            ==> i2c_task::task_after(task, event).step == Step::<B>::PanelInit,
        task.step is PanelInit && event is Failed ==> i2c_task::task_after(
            task,
            event,
        ).step is PanelFault,
        task.step is PanelInit && !(event is Failed) ==> i2c_task::task_after(
            task,
            event,
        ).step is ShowWaiting,
        task.step is PanelFault ==> i2c_task::task_after(task, event).step is ShowWaiting,
{
}

/// The order of a round up to its scan. The buffer that came is the one that is offered and handed
/// back, and only a refusal of the panel adds a step.
pub proof fn law_display_order<B>(task: TaskView<B>, buffer: B, event: Event<B>)
    ensures
        task.step is ShowWaiting ==> i2c_task::task_after(task, event).step is Receiving,
        task.step is Receiving && event == Event::Received(buffer) ==> i2c_task::task_after(
            task,
            event,
        ).step == (Step::ShowFlushing { buffer }),
        task.step == (Step::ShowFlushing { buffer }) ==> i2c_task::task_after(task, event).step == (
        Step::Flushing { buffer }),
        task.step == (Step::Flushing { buffer }) && event is Failed ==> i2c_task::task_after(
            task,
            event,
        ).step == (Step::FlushFault { buffer }),
        task.step == (Step::Flushing { buffer }) && !(event is Failed) ==> i2c_task::task_after(
            task,
            event,
        ).step == (Step::Returning { passed: Ghost(buffer) }),
        task.step == (Step::FlushFault { buffer }) ==> i2c_task::task_after(task, event).step == (
        Step::Returning { passed: Ghost(buffer) }),
        task.step is Returning ==> i2c_task::task_after(task, event).step is ShowReturned,
        task.step is ShowReturned ==> i2c_task::task_after(task, event).step is ShowScanning,
        task.step is ShowScanning ==> i2c_task::task_after(task, event).step == (
        Step::<B>::ScanSelect { ch: 0 }),
{
}

/// The order of the scan, which no answer changes: all keys of a sensor, and then the next sensor.
pub proof fn law_scan_order<B>(task: TaskView<B>, ch: u8, key: u8, event: Event<B>)
    requires
        ch < 4,
        key < 6,
    ensures
        task.step == (Step::<B>::ScanSelect { ch }) ==> i2c_task::task_after(task, event).step == (
        Step::<B>::ScanRead { ch, key: 0 }),
        task.step == (Step::<B>::ScanRead { ch, key }) && key < 5 ==> i2c_task::task_after(
            task,
            event,
        ).step == (Step::<B>::ScanRead { ch, key: (key + 1) as u8 }),
        task.step == (Step::<B>::ScanRead { ch, key }) && key == 5 && ch < 3
            ==> i2c_task::task_after(task, event).step == (Step::<B>::ScanSelect {
            ch: (ch + 1) as u8,
        }),
        task.step == (Step::<B>::ScanRead { ch, key }) && key == 5 && ch == 3
            ==> i2c_task::task_after(task, event).step is ShowScanned,
        task.step is ShowScanned ==> i2c_task::task_after(task, event).step is ShowWaiting,
{
}

/// What is done next is the action of the step that the task has come to.
pub proof fn law_next_action<B>(task: TaskView<B>, event: Event<B>)
    ensures
        i2c_task::action_at(i2c_task::step_after(task.step, event)) == i2c_task::action_at::<B>(
            i2c_task::task_after(task, event).step,
        ),
{
}

/// Bytes that came for a key are the new entry of that key, the first of them the upper byte. All
/// other entries, and the entry of a key for which no bytes came, stay as they were.
pub proof fn law_one_reading<B>(task: TaskView<B>, ch: u8, key: u8, event: Event<B>, i: int)
    requires
        task.step == (Step::<B>::ScanRead { ch, key }),
        task.readings.len() == 24,
        ch < 4,
        key < 6,
        0 <= i < 24,
    ensures
        i2c_task::task_after(task, event).readings.len() == 24,
        i == 6 * ch + key ==> (event matches Event::Word(bytes) ==> i2c_task::task_after(
            task,
            event,
        ).readings[i] == 256 * bytes@[0] + bytes@[1]),
        i != 6 * ch + key || !(event is Word) ==> i2c_task::task_after(task, event).readings[i]
            == task.readings[i],
{
}

/// The table changes at no step but the read of a key.
pub proof fn law_readings_stay<B>(task: TaskView<B>, event: Event<B>)
    requires
        !(task.step is ScanRead),
    ensures
        i2c_task::task_after(task, event).readings == task.readings,
{
}

/// Every key has a place of its own in the table.
pub proof fn law_key_index(ch1: u8, key1: u8, ch2: u8, key2: u8)
    requires
        ch1 < 4,
        ch2 < 4,
        key1 < 6,
        key2 < 6,
    ensures
        0 <= i2c_task::key_index(ch1, key1) < 24,
        i2c_task::key_index(ch1, key1) == i2c_task::key_index(ch2, key2) <==> ch1 == ch2 && key1
            == key2,
{
}

/// What the bus answers while one sensor is set up: to the selection, to the first write and, if
/// it comes to that, to the second.
pub struct SetupReplies<B> {
    pub select: Event<B>,
    pub first: Event<B>,
    pub second: Event<B>,
}

/// Those of the replies that are asked for: after a failed first write there is no second.
pub open spec fn sensor_events<B>(replies: SetupReplies<B>) -> Seq<Event<B>> {
    if replies.first is Failed {
        seq![replies.select, replies.first]
    } else {
        seq![replies.select, replies.first, replies.second]
    }
}

/// What the set-up of the sensor `ch` consists of.
pub open spec fn sensor_actions<'a, B>(ch: u8, replies: SetupReplies<B>) -> Seq<Action<'a, B>> {
    let begun = seq![
        Action::Select(i2c_task::sensor_select(ch)),
        Action::Configure(at42qt::init_write(InitStep::LowPower)),
    ];
    if replies.first is Failed {
        begun
    } else {
        begun.push(Action::Configure(at42qt::init_write(InitStep::MaxDuration)))
    }
}

/// The replies that are asked for while the sensors from the first on are set up.
pub open spec fn setup_events<B>(replies: Seq<SetupReplies<B>>) -> Seq<Event<B>>
    decreases replies.len(),
{
    if replies.len() == 0 {
        seq![]
    } else {
        setup_events(replies.drop_last()) + sensor_events(replies.last())
    }
}

/// What the set-up of the sensors from the first on consists of.
pub open spec fn setup_actions<'a, B>(replies: Seq<SetupReplies<B>>) -> Seq<Action<'a, B>>
    decreases replies.len(),
{
    if replies.len() == 0 {
        seq![]
    } else {
        setup_actions(replies.drop_last()) + sensor_actions(
            (replies.len() - 1) as u8,
            replies.last(),
        )
    }
}

/// One sensor is set up by its selection and the writes of the initialisation, the second only if
/// the first did not fail. Then comes the next sensor or, after the last, the panel.
pub proof fn law_sensor_setup<B>(task: TaskView<B>, ch: u8, replies: SetupReplies<B>)
    requires
        task.step == (Step::<B>::InitSelect { ch }),
        ch < 4,
    ensures
        task_run(task, sensor_events(replies)).step == i2c_task::after_sensor::<B>(ch),
        task_run(task, sensor_events(replies)).readings == task.readings,
        actions_run(task, sensor_events(replies)) == sensor_actions(ch, replies),
{
    let e1 = seq![replies.select];
    let e2 = e1.push(replies.first);
    lemma_run_one(task, replies.select);
    lemma_run_push(task, e1, replies.first);
    lemma_run_push(task, e2, replies.second);
    assert(e2 =~= seq![replies.select, replies.first]);
    assert(e2.push(replies.second) =~= seq![replies.select, replies.first, replies.second]);
    assert(actions_run(task, sensor_events(replies)) =~= sensor_actions(ch, replies));
}

/// One sensor on the wire: its channel is selected, then zero is written to register 54 of it and,
/// unless that failed, to register 55. A failed selection changes nothing of this.
pub proof fn law_sensor_setup_on_the_wire<B>(
    task: TaskView<B>,
    ch: u8,
    select: Event<B>,
    first: Event<B>,
    second: Event<B>,
)
    requires
        task.step == (Step::<B>::InitSelect { ch }),
        ch < 4,
    ensures
        first is Failed ==> actions_run(task, seq![select, first]) == seq![
            Action::<B>::Select(ByteWrite { addr: 0x74, byte: (4 + ch) as u8 }),
            Action::<B>::Configure(RegisterWrite { addr: 0x1B, register: 54, value: 0 }),
        ],
        !(first is Failed) ==> actions_run(task, seq![select, first, second]) == seq![
            Action::<B>::Select(ByteWrite { addr: 0x74, byte: (4 + ch) as u8 }),
            Action::<B>::Configure(RegisterWrite { addr: 0x1B, register: 54, value: 0 }),
            Action::<B>::Configure(RegisterWrite { addr: 0x1B, register: 55, value: 0 }),
        ],
{
    let replies = SetupReplies { select, first, second };
    law_sensor_setup(task, ch, replies);
    law_transfers::<B>(ch, 0);
}

proof fn lemma_setup<B>(task: TaskView<B>, replies: Seq<SetupReplies<B>>)
    requires
        task.step == (Step::<B>::InitSelect { ch: 0 }),
        replies.len() <= 4,
    ensures
        task_run(task, setup_events(replies)).step == (if replies.len() < 4 {
            Step::<B>::InitSelect { ch: replies.len() as u8 }
        } else {
            Step::<B>::PanelInit
        }),
        task_run(task, setup_events(replies)).readings == task.readings,
        actions_run(task, setup_events(replies)) == setup_actions(replies),
    decreases replies.len(),
{
    if replies.len() > 0 {
        let before = replies.drop_last();
        lemma_setup(task, before);
        law_runs_join(task, setup_events(before), sensor_events(replies.last()));
        law_sensor_setup(
            task_run(task, setup_events(before)),
            (replies.len() - 1) as u8,
            replies.last(),
        );
    }
}

/// The set-up reaches every sensor and then the panel, whatever the bus answers. No key is read.
pub proof fn law_setup<B>(task: TaskView<B>, replies: Seq<SetupReplies<B>>)
    requires
        task.step == (Step::<B>::InitSelect { ch: 0 }),
        replies.len() == 4,
    ensures
        task_run(task, setup_events(replies)).step == Step::<B>::PanelInit,
        task_run(task, setup_events(replies)).readings == task.readings,
        actions_run(task, setup_events(replies)) == setup_actions(replies),
{
    lemma_setup(task, replies);
}

/// What came of initialising the panel and, if that failed, of counting the failure.
pub open spec fn panel_events<B>(answer: Event<B>, counted: Event<B>) -> Seq<Event<B>> {
    if answer is Failed {
        seq![answer, counted]
    } else {
        seq![answer]
    }
}

/// What initialising the panel consists of, the panel having answered `answer`.
pub open spec fn panel_actions<'a, B>(answer: Event<B>) -> Seq<Action<'a, B>> {
    if answer is Failed {
        seq![Action::InitPanel, Action::CountFailure]
    } else {
        seq![Action::InitPanel]
    }
}

/// A panel that does not initialise is counted as one failure, and the task goes on all the same.
pub proof fn law_panel_setup<B>(task: TaskView<B>, answer: Event<B>, counted: Event<B>)
    requires
        task.step == Step::<B>::PanelInit,
    ensures
        task_run(task, panel_events(answer, counted)).step == Step::<B>::ShowWaiting,
        task_run(task, panel_events(answer, counted)).readings == task.readings,
        actions_run(task, panel_events(answer, counted)) == panel_actions(answer),
{
    lemma_run_one(task, answer);
    lemma_run_push(task, seq![answer], counted);
    assert(seq![answer].push(counted) =~= seq![answer, counted]);
    assert(actions_run(task, panel_events(answer, counted)) =~= panel_actions(answer));
}

/// What passing `buffer` to the panel consists of, the panel having answered `flushed`.
pub open spec fn display_actions<'a, B>(buffer: B, flushed: Event<B>) -> Seq<Action<'a, B>> {
    let begun = seq![
        Action::Show(Phase::I2cWaiting),
        Action::ReceiveBuffer,
        Action::Show(Phase::Flushing),
        Action::FlushBuffer(&buffer),
    ];
    let ended = seq![
        Action::ReturnBuffer(buffer),
        Action::Show(Phase::Idle),
        Action::Show(Phase::Scanning),
    ];
    if flushed is Failed {
        begun.push(Action::CountFailure) + ended
    } else {
        begun + ended
    }
}

/// Whether `events` are what can come of passing `buffer` to the panel.
pub open spec fn display_events<B>(buffer: B, events: Seq<Event<B>>) -> bool {
    &&& events.len() == if events[3] is Failed {
        8int
    } else {
        7int
    }
    &&& events[1] == Event::Received(buffer)
}

/// A buffer is taken, offered to the panel once, and that very buffer is handed back, whether or
/// not the panel took it; a refusal is counted as one failure. Then the scan begins. No key is
/// read meanwhile.
pub proof fn law_display<B>(task: TaskView<B>, buffer: B, events: Seq<Event<B>>)
    requires
        task.step == Step::<B>::ShowWaiting,
        display_events(buffer, events),
    ensures
        task_run(task, events).step == (Step::<B>::ScanSelect { ch: 0 }),
        task_run(task, events).readings == task.readings,
        actions_run(task, events) == display_actions(buffer, events[3]),
{
    let n = events.len() as int;
    assert forall|i: int| 0 <= i < n implies events.take(i + 1) == #[trigger] events.take(
        i,
    ).push(events[i]) by {
        assert(events.take(i + 1) =~= events.take(i).push(events[i]));
    }
    assert(events.take(0) =~= seq![]);
    lemma_run_push(task, events.take(0), events[0]);
    lemma_run_push(task, events.take(1), events[1]);
    lemma_run_push(task, events.take(2), events[2]);
    lemma_run_push(task, events.take(3), events[3]);
    lemma_run_push(task, events.take(4), events[4]);
    lemma_run_push(task, events.take(5), events[5]);
    lemma_run_push(task, events.take(6), events[6]);
    if n == 8 {
        lemma_run_push(task, events.take(7), events[7]);
    }
    assert(events.take(n) =~= events);
    assert(actions_run(task, events) =~= display_actions(buffer, events[3]));
}

/// One buffer on its way, action by action: it comes, goes to the panel and goes back, and a failed
/// flush is counted in between.
pub proof fn law_buffer_on_its_way<B>(task: TaskView<B>, buffer: B, events: Seq<Event<B>>)
    requires
        task.step == Step::<B>::ShowWaiting,
        events.len() >= 7,
        events[1] == Event::Received(buffer),
        events[3] is Failed <==> events.len() == 8,
        events.len() <= 8,
    ensures
        actions_run(task, events)[0] == Action::<B>::Show(Phase::I2cWaiting),
        actions_run(task, events)[1] == Action::<B>::ReceiveBuffer,
        actions_run(task, events)[2] == Action::<B>::Show(Phase::Flushing),
        actions_run(task, events)[3] == Action::<B>::FlushBuffer(&buffer),
        events[3] is Failed ==> actions_run(task, events)[4] == Action::<B>::CountFailure,
        actions_run(task, events).len() == events.len(),
        actions_run(task, events)[events.len() - 3] == Action::ReturnBuffer(buffer),
        actions_run(task, events)[events.len() - 2] == Action::<B>::Show(Phase::Idle),
        actions_run(task, events)[events.len() - 1] == Action::<B>::Show(Phase::Scanning),
{
    law_display(task, buffer, events);
}

/// The step of a scan that its action number `k` belongs to: for each sensor its selection, then
/// its keys in order.
pub open spec fn scan_step<B>(k: int) -> Step<B> {
    if k >= 28 {
        Step::ShowScanned
    } else if k % 7 == 0 {
        Step::ScanSelect { ch: (k / 7) as u8 }
    } else {
        Step::ScanRead { ch: (k / 7) as u8, key: (k % 7 - 1) as u8 }
    }
}

/// The number of the scan's action that reads the key at `index` of the table.
pub open spec fn read_number(index: int) -> int {
    7 * (index / 6) + 1 + index % 6
}

/// What the table holds of a key once its read was answered: the new reading or, if none came,
/// the old one.
pub open spec fn reading_after<B>(old_reading: u16, answer: Event<B>) -> u16 {
    match answer {
        Event::Word(bytes) => at42qt::word(bytes@[0], bytes@[1]),
        _ => old_reading,
    }
}

/// The first `n` actions of a scan.
pub open spec fn scan_actions<'a, B>(n: nat) -> Seq<Action<'a, B>> {
    Seq::new(n, |k: int| i2c_task::action_at(scan_step::<B>(k)))
}

/// The table once the first actions of a scan were answered with `events`.
pub open spec fn scanned<B>(readings: Seq<u16>, events: Seq<Event<B>>) -> Seq<u16> {
    Seq::new(
        24,
        |i: int|
            if read_number(i) < events.len() {
                reading_after(readings[i], events[read_number(i)])
            } else {
                readings[i]
            },
    )
}

proof fn lemma_scan<B>(task: TaskView<B>, events: Seq<Event<B>>)
    requires
        task.step == (Step::<B>::ScanSelect { ch: 0 }),
        task.readings.len() == 24,
        events.len() <= 28,
    ensures
        task_run(task, events).step == scan_step::<B>(events.len() as int),
        task_run(task, events).readings == scanned(task.readings, events),
        actions_run(task, events) == scan_actions::<B>(events.len()),
    decreases events.len(),
{
    let n = events.len() as int;
    if n > 0 {
        let before = events.drop_last();
        lemma_scan(task, before);
        let now = task_run(task, before);
        assert(now.step == scan_step::<B>(n - 1));
        assert forall|i: int| 0 <= i < 24 implies #[trigger] task_run(task, events).readings[i]
            == scanned(task.readings, events)[i] by {
            if read_number(i) == n - 1 {
                assert((n - 1) / 7 == i / 6 && (n - 1) % 7 - 1 == i % 6);
                assert(events.last() == events[read_number(i)]);
            } else {
                assert(now.step matches Step::ScanRead { ch, key } ==> i2c_task::key_index(ch, key)
                    != i);
                if read_number(i) < n - 1 {
                    assert(before[read_number(i)] == events[read_number(i)]);
                }
            }
        }
    }
    assert(task_run(task, events).readings =~= scanned(task.readings, events));
    assert(actions_run(task, events) =~= scan_actions::<B>(events.len()));
}

/// A scan selects each sensor in turn and reads each of its keys once, whatever the bus answers.
/// Afterwards the table holds, of every key, the new reading or, where the read failed, the old
/// one.
pub proof fn law_scan<B>(task: TaskView<B>, events: Seq<Event<B>>)
    requires
        task.step == (Step::<B>::ScanSelect { ch: 0 }),
        task.readings.len() == 24,
        events.len() == 28,
    ensures
        task_run(task, events).step == Step::<B>::ShowScanned,
        actions_run(task, events) == scan_actions::<B>(28),
        task_run(task, events).readings.len() == 24,
        forall|ch: u8, key: u8|
            ch < 4 && key < 6 ==> #[trigger] task_run(task, events).readings[i2c_task::key_index(
                ch,
                key,
            )] == reading_after(
                task.readings[i2c_task::key_index(ch, key)],
                events[7 * ch + 1 + key],
            ),
{
    lemma_scan(task, events);
    assert forall|ch: u8, key: u8| ch < 4 && key < 6 implies #[trigger] task_run(
        task,
        events,
    ).readings[i2c_task::key_index(ch, key)] == reading_after(
        task.readings[i2c_task::key_index(ch, key)],
        events[7 * ch + 1 + key],
    ) by {
        assert(read_number(i2c_task::key_index(ch, key)) == 7 * ch + 1 + key);
    }
}

/// A scan, key by key: the channel of the sensor is selected, its six keys are read from register 4
/// on, two registers each, and the table has afterwards, at the key's place, just the bytes that
/// came for it, the first of them the upper one. Only where none came has it what it had.
pub proof fn law_every_key_is_read<B>(task: TaskView<B>, events: Seq<Event<B>>, ch: u8, key: u8)
    requires
        task.step == (Step::<B>::ScanSelect { ch: 0 }),
        task.readings.len() == 24,
        events.len() == 28,
        ch < 4,
        key < 6,
    ensures
        actions_run(task, events).len() == 28,
        actions_run(task, events)[7 * ch] == Action::<B>::Select(
            ByteWrite { addr: 0x74, byte: (4 + ch) as u8 },
        ),
        actions_run(task, events)[7 * ch + 1 + key] == Action::<B>::Read(
            WordRead { addr: 0x1B, register: (4 + 2 * key) as u8 },
        ),
        events[7 * ch + 1 + key] matches Event::Word(bytes) ==> task_run(task, events).readings[6
            * ch + key] == 256 * bytes@[0] + bytes@[1],
        !(events[7 * ch + 1 + key] is Word) ==> task_run(task, events).readings[6 * ch + key]
            == task.readings[6 * ch + key],
{
    lemma_scan(task, events);
    law_transfers::<B>(ch, key);
    assert(read_number(6 * ch + key) == 7 * ch + 1 + key);
    assert((7 * ch + 1 + key) / 7 == ch && (7 * ch + 1 + key) % 7 == 1 + key);
    assert((7 * ch) / 7 == ch && (7 * ch) % 7 == 0);
}

/// What comes of the actions of one round.
pub struct RoundEvents<B> {
    pub buffer: B,
    pub display: Seq<Event<B>>,
    pub scan: Seq<Event<B>>,
    pub shown: Event<B>,
}

impl<B> RoundEvents<B> {
    /// Whether these can come of a round in which `buffer` is taken.
    pub open spec fn wf(self) -> bool {
        display_events(self.buffer, self.display) && self.scan.len() == 28
    }

    pub open spec fn events(self) -> Seq<Event<B>> {
        self.display + self.scan + seq![self.shown]
    }

    /// What the round consists of.
    pub open spec fn actions<'a>(self) -> Seq<Action<'a, B>> {
        display_actions(self.buffer, self.display[3]) + scan_actions(28) + seq![
            Action::Show(Phase::Idle),
        ]
    }
}

/// A round of the task passes one buffer to the panel, scans every key, and ends where it began.
pub proof fn law_round<B>(task: TaskView<B>, round: RoundEvents<B>)
    requires
        task.step == Step::<B>::ShowWaiting,
        task.readings.len() == 24,
        round.wf(),
    ensures
        task_run(task, round.events()).step == Step::<B>::ShowWaiting,
        task_run(task, round.events()).readings == scanned(task.readings, round.scan),
        actions_run(task, round.events()) == round.actions(),
{
    let displayed = round.display + round.scan;
    law_display(task, round.buffer, round.display);
    law_runs_join(task, round.display, round.scan);
    lemma_scan(task_run(task, round.display), round.scan);
    law_runs_join(task, displayed, seq![round.shown]);
    lemma_run_one(task_run(task, displayed), round.shown);
}

/// What comes of the actions of `rounds`, one after the other.
pub open spec fn rounds_events<B>(rounds: Seq<RoundEvents<B>>) -> Seq<Event<B>>
    decreases rounds.len(),
{
    if rounds.len() == 0 {
        seq![]
    } else {
        rounds_events(rounds.drop_last()) + rounds.last().events()
    }
}

/// What `rounds` consist of, one after the other.
pub open spec fn rounds_actions<'a, B>(rounds: Seq<RoundEvents<B>>) -> Seq<Action<'a, B>>
    decreases rounds.len(),
{
    if rounds.len() == 0 {
        seq![]
    } else {
        rounds_actions(rounds.drop_last()) + rounds.last().actions()
    }
}

/// The table after `rounds`.
pub open spec fn rounds_readings<B>(readings: Seq<u16>, rounds: Seq<RoundEvents<B>>) -> Seq<u16>
    decreases rounds.len(),
{
    if rounds.len() == 0 {
        readings
    } else {
        scanned(rounds_readings(readings, rounds.drop_last()), rounds.last().scan)
    }
}

/// However many rounds there are, each is a whole one, and the task is ready for another.
pub proof fn law_rounds<B>(task: TaskView<B>, rounds: Seq<RoundEvents<B>>)
    requires
        task.step == Step::<B>::ShowWaiting,
        task.readings.len() == 24,
        forall|i: int| 0 <= i < rounds.len() ==> (#[trigger] rounds[i]).wf(),
    ensures
        task_run(task, rounds_events(rounds)).step == Step::<B>::ShowWaiting,
        task_run(task, rounds_events(rounds)).readings.len() == 24,
        task_run(task, rounds_events(rounds)).readings == rounds_readings(task.readings, rounds),
        actions_run(task, rounds_events(rounds)) == rounds_actions(rounds),
    decreases rounds.len(),
{
    if rounds.len() > 0 {
        let before = rounds.drop_last();
        let last = rounds.last();
        assert(rounds[rounds.len() - 1].wf());
        assert forall|i: int| 0 <= i < before.len() implies (#[trigger] before[i]).wf() by {
            assert(before[i] == rounds[i]);
        }
        law_rounds(task, before);
        law_runs_join(task, rounds_events(before), last.events());
        law_round(task_run(task, rounds_events(before)), last);
    }
}

/// From its beginning the task sets up every sensor, then the panel, and then does one round after
/// the other, for as long as it runs and whatever fails.
pub proof fn law_whole_run<B>(
    task: TaskView<B>,
    replies: Seq<SetupReplies<B>>,
    answer: Event<B>,
    counted: Event<B>,
    rounds: Seq<RoundEvents<B>>,
)
    requires
        task.step == (Step::<B>::InitSelect { ch: 0 }),
        task.readings.len() == 24,
        replies.len() == 4,
        forall|i: int| 0 <= i < rounds.len() ==> (#[trigger] rounds[i]).wf(),
    ensures
        ({
            let events = setup_events(replies) + panel_events(answer, counted) + rounds_events(
                rounds,
            );
            &&& task_run(task, events).step == Step::<B>::ShowWaiting
            &&& task_run(task, events).readings == rounds_readings(task.readings, rounds)
            &&& actions_run(task, events) == setup_actions(replies) + panel_actions(answer)
                + rounds_actions(rounds)
        }),
{
    let panel = panel_events(answer, counted);
    law_setup(task, replies);
    law_runs_join(task, setup_events(replies), panel);
    law_panel_setup(task_run(task, setup_events(replies)), answer, counted);
    let ready = setup_events(replies) + panel;
    law_runs_join(task, ready, rounds_events(rounds));
    law_rounds(task_run(task, ready), rounds);
}

/// Whether each of `events` can come of the action that it came of.
pub open spec fn fitting<B>(task: TaskView<B>, events: Seq<Event<B>>) -> bool
    decreases events.len(),
{
    events.len() == 0 || {
        &&& fitting(task, events.drop_last())
        &&& i2c_task::fits(task_run(task, events.drop_last()).step, events.last())
    }
}

/// The buffers that came, in order.
pub open spec fn received<B>(events: Seq<Event<B>>) -> Seq<B>
    decreases events.len(),
{
    if events.len() == 0 {
        seq![]
    } else {
        let before = received(events.drop_last());
        match events.last() {
            Event::Received(buffer) => before.push(buffer),
            _ => before,
        }
    }
}

/// The buffers that were handed back, in order.
pub open spec fn returned<'a, B>(actions: Seq<Action<'a, B>>) -> Seq<B>
    decreases actions.len(),
{
    if actions.len() == 0 {
        seq![]
    } else {
        let before = returned(actions.drop_last());
        match actions.last() {
            Action::ReturnBuffer(buffer) => before.push(buffer),
            _ => before,
        }
    }
}

/// The buffers that were offered to the panel, in order.
pub open spec fn flushed<'a, B>(actions: Seq<Action<'a, B>>) -> Seq<B>
    decreases actions.len(),
{
    if actions.len() == 0 {
        seq![]
    } else {
        let before = flushed(actions.drop_last());
        match actions.last() {
            Action::FlushBuffer(buffer) => before.push(*buffer),
            _ => before,
        }
    }
}

/// The buffer that came and has not been handed back yet, if there is one.
pub open spec fn in_hand<B>(step: Step<B>) -> Seq<B> {
    match step {
        Step::ShowFlushing { buffer } => seq![buffer],
        Step::Flushing { buffer } => seq![buffer],
        Step::FlushFault { buffer } => seq![buffer],
        Step::Returning { passed } => seq![passed@],
        _ => seq![],
    }
}

/// The buffer that came and has not been offered to the panel yet, if there is one.
pub open spec fn to_flush<B>(step: Step<B>) -> Seq<B> {
    match step {
        Step::ShowFlushing { buffer } => seq![buffer],
        Step::Flushing { buffer } => seq![buffer],
        _ => seq![],
    }
}

/// Every buffer that comes is offered to the panel exactly once and is itself handed back exactly
/// once, in the order in which they came. At any time all were but for one that may be in hand.
pub proof fn law_buffers_pass_through<B>(task: TaskView<B>, events: Seq<Event<B>>)
    requires
        fitting(task, events),
    ensures
        in_hand(task.step) + received(events) == returned(actions_run(task, events)) + in_hand(
            task_run(task, events).step,
        ),
        to_flush(task.step) + received(events) == flushed(actions_run(task, events)) + to_flush(
            task_run(task, events).step,
        ),
    decreases events.len(),
{
    let now = task_run(task, events);
    let done = actions_run(task, events);
    if events.len() > 0 {
        let before = events.drop_last();
        law_buffers_pass_through(task, before);
        assert(done.drop_last() =~= actions_run(task, before));
    }
    assert(in_hand(task.step) + received(events) =~= returned(done) + in_hand(now.step));
    assert(to_flush(task.step) + received(events) =~= flushed(done) + to_flush(now.step));
}

} // verus!

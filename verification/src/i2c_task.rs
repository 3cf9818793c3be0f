//! The task that owns the I2C bus. It sets up the sensors and the panel, then for ever passes one
//! drawn buffer to the panel and reads every key once.
//!
//! The task is a machine: it says what has to be done, takes what came of it, and says what has to
//! be done next. `B` is the type of the buffers.
use vstd::prelude::*;

use crate::bus::{ByteWrite, RegisterWrite, WordRead};
use crate::devices::at42qt::{self, At42Qt1070, InitNext, InitStep};
use crate::devices::pca9544::{self, Pca9544};
use crate::status::Phase;

verus! {

/// Channels of one multiplexer.
pub const PCA9544_NUM_CHANNELS: u8 = 4;

/// Multiplexers on the bus.
pub const PCA9544_NUM_DEVICES: u8 = 1;

/// Keys of one sensor that are in use.
pub const AT42QT_KEYS_PER_DEVICE: u8 = 6;

/// Sensors on the bus: one for each channel of each multiplexer.
pub const NUM_SENSORS: u8 = PCA9544_NUM_CHANNELS * PCA9544_NUM_DEVICES;

/// Where the task stands.
pub enum Step<B> {
    /// Setting up: the sensor `ch` is being selected.
    InitSelect { ch: u8 },
    /// Setting up: the sensor `ch` is being initialised.
    InitSensor { ch: u8, write: InitStep },
    /// Setting up: the panel is being initialised.
    PanelInit,
    /// The panel's initialisation failed.
    PanelFault,
    /// A round begins.
    ShowWaiting,
    /// A drawn buffer is being waited for.
    Receiving,
    /// A buffer has come.
    ShowFlushing { buffer: B },
    /// The buffer goes to the panel.
    Flushing { buffer: B },
    /// The panel did not take the buffer.
    FlushFault { buffer: B },
    /// The buffer goes back.
    Returning { passed: Ghost<B> },
    /// The buffer is back.
    ShowReturned,
    /// The scan begins.
    ShowScanning,
    /// Scanning: the sensor `ch` is being selected.
    ScanSelect { ch: u8 },
    /// Scanning: a key of the sensor `ch` is being read.
    ScanRead { ch: u8, key: u8 },
    /// The scan is over.
    ShowScanned,
}

/// What the task has to do.
#[derive(Debug, PartialEq)]
pub enum Action<'a, B> {
    Select(ByteWrite),
    Configure(RegisterWrite),
    Read(WordRead),
    InitPanel,
    /// Wait for a drawn buffer and take it.
    ReceiveBuffer,
    /// Send this buffer to the panel.
    FlushBuffer(&'a B),
    /// Hand this buffer back to be drawn in again.
    ReturnBuffer(B),
    /// Make this phase known.
    Show(Phase),
    CountFailure,
}

/// What came of an action.
pub enum Event<B> {
    Done,
    Failed,
    /// The bytes that a read brought.
    Word([u8; 2]),
    /// The buffer that was waited for.
    Received(B),
}

/// Where the task stands and what it last read of each key.
pub struct TaskView<B> {
    pub step: Step<B>,
    pub readings: Seq<u16>,
}

impl<B> Step<B> {
    /// Whether the sensor and the key that the step names exist.
    pub open spec fn wf(self) -> bool {
        match self {
            Step::InitSelect { ch } => ch < 4,
            Step::InitSensor { ch, .. } => ch < 4,
            Step::ScanSelect { ch } => ch < 4,
            Step::ScanRead { ch, key } => ch < 4 && key < 6,
            _ => true,
        }
    }
}

/// The write that selects the sensor `ch`, the sensors being numbered over all multiplexers.
pub open spec fn sensor_select(ch: u8) -> ByteWrite {
    pca9544::select_write(ch / 4, ch % 4)
}

/// The read of the signal of `key`.
pub open spec fn key_read(key: u8) -> WordRead {
    WordRead { addr: 0x1B, register: at42qt::key_register(key, false) as u8 }
}

/// The place of a key in the table of readings.
pub open spec fn key_index(ch: u8, key: u8) -> int {
    6 * ch + key
}

/// What has to be done at each step.
pub open spec fn action_at<'a, B>(step: Step<B>) -> Action<'a, B> {
    match step {
        Step::InitSelect { ch } => Action::Select(sensor_select(ch)),
        Step::InitSensor { write, .. } => Action::Configure(at42qt::init_write(write)),
        Step::PanelInit => Action::InitPanel,
        Step::PanelFault => Action::CountFailure,
        Step::ShowWaiting => Action::Show(Phase::I2cWaiting),
        Step::Receiving => Action::ReceiveBuffer,
        Step::ShowFlushing { .. } => Action::Show(Phase::Flushing),
        Step::Flushing { buffer } => Action::FlushBuffer(&buffer),
        Step::FlushFault { .. } => Action::CountFailure,
        Step::Returning { passed } => Action::ReturnBuffer(passed@),
        Step::ShowReturned => Action::Show(Phase::Idle),
        Step::ShowScanning => Action::Show(Phase::Scanning),
        Step::ScanSelect { ch } => Action::Select(sensor_select(ch)),
        Step::ScanRead { key, .. } => Action::Read(key_read(key)),
        Step::ShowScanned => Action::Show(Phase::Idle),
    }
}

/// The step after the set-up of the sensor `ch`.
pub open spec fn after_sensor<B>(ch: u8) -> Step<B> {
    if ch < 3 {
        Step::InitSelect { ch: (ch + 1) as u8 }
    } else {
        Step::PanelInit
    }
}

/// The step after the read of `key` of the sensor `ch`.
pub open spec fn after_read<B>(ch: u8, key: u8) -> Step<B> {
    if key < 5 {
        Step::ScanRead { ch, key: (key + 1) as u8 }
    } else if ch < 3 {
        Step::ScanSelect { ch: (ch + 1) as u8 }
    } else {
        Step::ShowScanned
    }
}

/// Whether `event` can come of the action of `step`: a buffer comes when one is waited for, and
/// only then.
pub open spec fn fits<B>(step: Step<B>, event: Event<B>) -> bool {
    step is Receiving <==> event is Received
}

/// The step that follows `step` when `event` came of its action. A failed transfer stops neither
/// the set-up of the other sensors nor the scan.
pub open spec fn step_after<B>(step: Step<B>, event: Event<B>) -> Step<B> {
    match step {
        Step::InitSelect { ch } => Step::InitSensor { ch, write: InitStep::LowPower },
        Step::InitSensor { ch, write } => if write is LowPower && !(event is Failed) {
            Step::InitSensor { ch, write: InitStep::MaxDuration }
        } else {
            after_sensor(ch)
        },
        Step::PanelInit => if event is Failed {
            Step::PanelFault
        } else {
            Step::ShowWaiting
        },
        Step::PanelFault => Step::ShowWaiting,
        Step::ShowWaiting => Step::Receiving,
        Step::Receiving => match event {
            Event::Received(buffer) => Step::ShowFlushing { buffer },
            _ => Step::Receiving,
        },
        Step::ShowFlushing { buffer } => Step::Flushing { buffer },
        Step::Flushing { buffer } => if event is Failed {
            Step::FlushFault { buffer }
        } else {
            Step::Returning { passed: Ghost(buffer) }
        },
        Step::FlushFault { buffer } => Step::Returning { passed: Ghost(buffer) },
        Step::Returning { .. } => Step::ShowReturned,
        Step::ShowReturned => Step::ShowScanning,
        Step::ShowScanning => Step::ScanSelect { ch: 0 },
        Step::ScanSelect { ch } => Step::ScanRead { ch, key: 0 },
        Step::ScanRead { ch, key } => after_read(ch, key),
        Step::ShowScanned => Step::ShowWaiting,
    }
}

/// The table of readings when `event` came of the action of `step`: a read that brought its bytes
/// changes the entry of its key, and nothing else changes any.
pub open spec fn readings_after<B>(
    readings: Seq<u16>,
    step: Step<B>,
    event: Event<B>,
) -> Seq<u16> {
    match (step, event) {
        (Step::ScanRead { ch, key }, Event::Word(bytes)) => readings.update(
            key_index(ch, key),
            at42qt::word(bytes@[0], bytes@[1]),
        ),
        _ => readings,
    }
}

/// The task after `event` came of its action.
pub open spec fn task_after<B>(task: TaskView<B>, event: Event<B>) -> TaskView<B> {
    TaskView {
        step: step_after(task.step, event),
        readings: readings_after(task.readings, task.step, event),
    }
}

/// The task that owns the I2C bus.
pub struct I2cTask<B> {
    pca: Pca9544,
    at42: At42Qt1070,
    step: Step<B>,
    prev: [u16; 24],
}

impl<B> View for I2cTask<B> {
    type V = TaskView<B>;

    closed spec fn view(&self) -> TaskView<B> {
        TaskView { step: self.step, readings: self.prev@ }
    }
}

impl<B> I2cTask<B> {
    /// The sensor and the key in hand exist, and the table has an entry for each key.
    pub open spec fn wf(&self) -> bool {
        self@.step.wf() && self@.readings.len() == 24
    }

    /// The task at its beginning, with no key read yet, and what has to be done first.
    pub fn start<'a>() -> (r: (Self, Action<'a, B>))
        ensures
            r.0.wf(),
            r.0@.step == (Step::<B>::InitSelect { ch: 0 }),
            r.0@.readings == Seq::new(24, |i: int| 0u16),
            r.1 == action_at(r.0@.step),
            r.1 == Action::<'a, B>::Select(ByteWrite { addr: 0x74, byte: 4 }),
    {
        let task = I2cTask {
            pca: Pca9544::new(),
            at42: At42Qt1070::new(),
            step: Step::InitSelect { ch: 0 },
            prev: [0u16; 24],
        };
        assert(task@.readings =~= Seq::new(24, |i: int| 0u16));
        let first = Action::Select(task.select_sensor(0));
        (task, first)
    }

    /// What was last read of each key, sensor by sensor; zero where nothing was.
    pub fn readings(&self) -> (r: &[u16; 24])
        ensures
            r@ == self@.readings,
    {
        &self.prev
    }

    /// Takes what came of the action, and says what has to be done next.
    pub fn next<'a>(&'a mut self, event: Event<B>) -> (r: Action<'a, B>)
        requires
            old(self).wf(),
            fits(old(self)@.step, event),
        ensures
            final(self).wf(),
            final(self)@ == task_after(old(self)@, event),
            r == action_at(step_after(old(self)@.step, event)),
            r == action_at(final(self)@.step),
            old(self)@.step matches Step::ScanRead { ch, key } ==> (event matches Event::Word(bytes)
                ==> final(self)@.readings == old(self)@.readings.update(
                6 * ch + key,
                (256 * bytes@[0] + bytes@[1]) as u16,
            )),
            !(old(self)@.step is ScanRead && event is Word) ==> final(self)@.readings == old(
                self,
            )@.readings,
    {
        let mut step = Step::ShowWaiting;
        core::mem::swap(&mut step, &mut self.step);
        self.step = match step {
            Step::InitSelect { ch } => Step::InitSensor { ch, write: self.at42.init().0 },
            Step::InitSensor { ch, write } => {
                let reply: Result<(), ()> = match event {
                    Event::Failed => Err(()),
                    _ => Ok(()),
                };
                match self.at42.init_reply(write, reply) {
                    InitNext::Write(later, _) => Step::InitSensor { ch, write: later },
                    InitNext::Finished(_) => if ch + 1 < NUM_SENSORS {
                        Step::InitSelect { ch: ch + 1 }
                    } else {
                        Step::PanelInit
                    },
                }
            },
            Step::PanelInit => match event {
                Event::Failed => Step::PanelFault,
                _ => Step::ShowWaiting,
            },
            Step::PanelFault => Step::ShowWaiting,
            Step::ShowWaiting => Step::Receiving,
            Step::Receiving => match event {
                Event::Received(buffer) => Step::ShowFlushing { buffer },
                _ => Step::Receiving,
            },
            Step::ShowFlushing { buffer } => Step::Flushing { buffer },
            Step::Flushing { buffer } => match event {
                Event::Failed => Step::FlushFault { buffer },
                _ => {
                    self.step = Step::Returning { passed: Ghost(buffer) };
                    return Action::ReturnBuffer(buffer);
                },
            },
            Step::FlushFault { buffer } => {
                self.step = Step::Returning { passed: Ghost(buffer) };
                return Action::ReturnBuffer(buffer);
            },
            Step::Returning { .. } => Step::ShowReturned,
            Step::ShowReturned => Step::ShowScanning,
            Step::ShowScanning => Step::ScanSelect { ch: 0 },
            Step::ScanSelect { ch } => Step::ScanRead { ch, key: 0 },
            Step::ScanRead { ch, key } => {
                let reply: Result<[u8; 2], ()> = match event {
                    Event::Word(bytes) => Ok(bytes),
                    _ => Err(()),
                };
                if let Ok(value) = self.at42.read_state_reply(reply) {
                    let sid: usize = (ch * AT42QT_KEYS_PER_DEVICE + key) as usize;
                    self.prev[sid] = value;
                }
                if key + 1 < AT42QT_KEYS_PER_DEVICE {
                    Step::ScanRead { ch, key: key + 1 }
                } else if ch + 1 < NUM_SENSORS {
                    Step::ScanSelect { ch: ch + 1 }
                } else {
                    Step::ShowScanned
                }
            },
            Step::ShowScanned => Step::ShowWaiting,
        };
        self.action()
    }

    /// What has to be done at a step that passes no buffer on.
    fn action<'a>(&'a mut self) -> (r: Action<'a, B>)
        requires
            old(self).wf(),
            !(old(self)@.step is Returning),
        ensures
            final(self)@ == old(self)@,
            r == action_at(old(self)@.step),
    {
        match &self.step {
            Step::InitSelect { ch } => Action::Select(self.select_sensor(*ch)),
            Step::InitSensor { write, .. } => Action::Configure(write.write()),
            Step::PanelInit => Action::InitPanel,
            Step::PanelFault => Action::CountFailure,
            Step::ShowWaiting => Action::Show(Phase::I2cWaiting),
            Step::Receiving => Action::ReceiveBuffer,
            Step::ShowFlushing { .. } => Action::Show(Phase::Flushing),
            Step::Flushing { buffer } => Action::FlushBuffer(buffer),
            Step::FlushFault { .. } => Action::CountFailure,
            Step::ShowScanning => Action::Show(Phase::Scanning),
            Step::ScanSelect { ch } => Action::Select(self.select_sensor(*ch)),
            Step::ScanRead { key, .. } => Action::Read(self.at42.read_state(*key, false)),
            _ => Action::Show(Phase::Idle),
        }
    }

    /// The write that selects the sensor `ch`.
    fn select_sensor(&self, ch: u8) -> (r: ByteWrite)
        requires
            ch < 4,
        ensures
            r == sensor_select(ch),
    {
        self.pca.select(ch / PCA9544_NUM_CHANNELS, ch % PCA9544_NUM_CHANNELS)
    }
}

} // verus!

//! The two numbers that the tasks share: what the board is doing, and how often it failed.
use vstd::prelude::*;

use crate::shared::{Op, SharedByte};

verus! {

/// What the board is doing.
#[derive(Clone, Copy, Debug, PartialEq, Eq, Structural)]
pub enum Phase {
    /// Nothing special.
    Idle,
    /// The user interface waits for a free buffer.
    UiWaiting,
    /// The I2C task waits for a drawn buffer.
    I2cWaiting,
    /// A buffer goes to the panel.
    Flushing,
    /// The touch sensors are read.
    Scanning,
    /// The user interface draws.
    Drawing,
}

/// A failure that is reported by a number of its own, not merely counted.
#[derive(Clone, Copy, Debug, PartialEq, Eq, Structural)]
pub enum Fault {
    /// The first display buffer found no room.
    FirstBuffer,
    /// The second display buffer found no room.
    SecondBuffer,
    /// The task could not be started: the status light.
    LedTask,
    /// The task could not be started: the I2C bus.
    I2cTask,
    /// The task could not be started: the user interface.
    UiTask,
    /// The task could not be started: USB.
    UsbTask,
    /// The task could not be started: outgoing MIDI.
    MidiTask,
    /// The task could not be started: incoming MIDI.
    MidiRxTask,
    /// The task could not be started: the pixels.
    NeopixelTask,
    /// The program panicked.
    Panic,
}

/// The number that stands for a phase.
pub open spec fn phase_code(phase: Phase) -> u8 {
    match phase {
        Phase::Idle => 0,
        Phase::UiWaiting => 1,
        Phase::I2cWaiting => 2,
        Phase::Flushing => 3,
        Phase::Scanning => 4,
        Phase::Drawing => 5,
    }
}

/// The number that stands for a fault.
pub open spec fn fault_code(fault: Fault) -> u8 {
    match fault {
        Fault::FirstBuffer => 1,
        Fault::SecondBuffer => 2,
        Fault::LedTask => 10,
        Fault::I2cTask => 11,
        Fault::UiTask => 12,
        Fault::UsbTask => 20,
        Fault::MidiTask => 21,
        Fault::MidiRxTask => 22,
        Fault::NeopixelTask => 23,
        Fault::Panic => 255,
    }
}

/// The error count after one more failure. It has eight bits and wraps.
pub open spec fn count_after(count: u8) -> u8 {
    ((count + 1) % 256) as u8
}

impl Phase {
    pub fn code(self) -> (r: u8)
        ensures
            r == phase_code(self),
    {
        match self {
            Phase::Idle => 0,
            Phase::UiWaiting => 1,
            Phase::I2cWaiting => 2,
            Phase::Flushing => 3,
            Phase::Scanning => 4,
            Phase::Drawing => 5,
        }
    }

    /// Makes the phase known in `state`.
    pub fn show(self, state: &mut SharedByte)
        ensures
            final(state).cell() == old(state).cell(),
            final(state).log() == old(state).log().push(Op::Store(phase_code(self))),
    {
        state.store(self.code())
    }
}

impl Fault {
    pub fn code(self) -> (r: u8)
        ensures
            r == fault_code(self),
    {
        match self {
            Fault::FirstBuffer => 1,
            Fault::SecondBuffer => 2,
            Fault::LedTask => 10,
            Fault::I2cTask => 11,
            Fault::UiTask => 12,
            Fault::UsbTask => 20,
            Fault::MidiTask => 21,
            Fault::MidiRxTask => 22,
            Fault::NeopixelTask => 23,
            Fault::Panic => 255,
        }
    }

    /// Puts the fault's number in place of the count in `errors`.
    pub fn report(self, errors: &mut SharedByte)
        ensures
            final(errors).cell() == old(errors).cell(),
            final(errors).log() == old(errors).log().push(Op::Store(fault_code(self))),
    {
        errors.store(self.code())
    }
}

/// The error count after one more failure.
pub fn next_count(count: u8) -> (r: u8)
    ensures
        r == count_after(count),
        count < 255 ==> r == count + 1,
        count == 255 ==> r == 0,
{
    count.wrapping_add(1)
}

/// Counts one more failure in `errors`, and tells the count that this gave.
pub fn count_failure(errors: &mut SharedByte) -> (r: u8)
    ensures
        final(errors).cell() == old(errors).cell(),
        exists|before: u8|
            r == #[trigger] count_after(before) && final(errors).log() == old(errors).log().push(
                Op::Add { amount: 1, before },
            ) && r == (before + 1) % 256,
{
    let before: u8 = errors.fetch_add(1);
    next_count(before)
}

/// One more failure is one more on the count, but for a full one, which starts again at none.
pub proof fn law_one_failure(count: u8)
    ensures
        count < 255 ==> count_after(count) == count + 1,
        count == 255 ==> count_after(count) == 0,
{
}

/// The error count after `m` more failures.
pub open spec fn count_run(count: u8, m: nat) -> u8
    decreases m,
{
    if m == 0 {
        count
    } else {
        count_after(count_run(count, (m - 1) as nat))
    }
}

/// Failures add up, in eight bits.
pub proof fn law_failures_add_up(count: u8, m: nat)
    ensures
        count_run(count, m) == (count + m) % 256,
    decreases m,
{
    if m > 0 {
        law_failures_add_up(count, (m - 1) as nat);
    }
}

/// The numbers of the phases are those of the order in which they are named, from zero on.
pub proof fn law_phase_numbers(phase: Phase)
    ensures
        phase is Idle <==> phase_code(phase) == 0,
        phase is UiWaiting <==> phase_code(phase) == 1,
        phase is I2cWaiting <==> phase_code(phase) == 2,
        phase is Flushing <==> phase_code(phase) == 3,
        phase is Scanning <==> phase_code(phase) == 4,
        phase is Drawing <==> phase_code(phase) == 5,
{
}

/// The buffers' numbers count the buffers, the tasks' numbers start at ten for the tasks of the
/// board and at twenty for those of the devices beside it, and a panic has the largest byte.
pub proof fn law_fault_numbers(fault: Fault)
    ensures
        fault is FirstBuffer <==> fault_code(fault) == 1,
        fault is SecondBuffer <==> fault_code(fault) == 2,
        fault is LedTask <==> fault_code(fault) == 10,
        fault is I2cTask <==> fault_code(fault) == 11,
        fault is UiTask <==> fault_code(fault) == 12,
        fault is UsbTask <==> fault_code(fault) == 20,
        fault is MidiTask <==> fault_code(fault) == 21,
        fault is MidiRxTask <==> fault_code(fault) == 22,
        fault is NeopixelTask <==> fault_code(fault) == 23,
        fault is Panic <==> fault_code(fault) == 255,
{
}

/// Phases have numbers of their own, below ten; only an idle board shows zero.
pub proof fn law_phase_codes(a: Phase, b: Phase)
    ensures
        phase_code(a) < 10,
        phase_code(a) == phase_code(b) <==> a == b,
        phase_code(a) == 0 <==> a is Idle,
{
}

/// Faults have numbers of their own, none of them zero, which stands for no error. All but those
/// of the two buffers are ten or more.
pub proof fn law_fault_codes(a: Fault, b: Fault)
    ensures
        fault_code(a) != 0,
        fault_code(a) == fault_code(b) <==> a == b,
        fault_code(a) >= 10 <==> !(a is FirstBuffer || a is SecondBuffer),
{
}

} // verus!

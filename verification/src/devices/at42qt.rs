//! The AT42QT1070 touch sensor. Every sensor sits behind a multiplexer, so all of them answer at
//! the same address.
use vstd::prelude::*;

use crate::bus::{RegisterWrite, WordRead};

verus! {

pub const AT42QT_ADDR: u8 = 0x1B;

/// Register of the low power mode.
pub const LP_MODE: u8 = 54;

/// Register of the maximum on duration.
pub const MAX_DUR: u8 = 55;

/// First register of the key signals.
pub const KEY_SIGNAL: u8 = 4;

/// First register of the key reference levels.
pub const KEY_REFERENCE: u8 = 18;

/// An AT42QT1070 touch sensor.
pub struct At42Qt1070 {}

/// The writes of the initialisation, in order.
#[derive(Clone, Copy, Debug, PartialEq, Eq, Structural)]
pub enum InitStep {
    LowPower,
    MaxDuration,
}

/// What follows a write of the initialisation.
pub enum InitNext<E> {
    /// This write comes next.
    Write(InitStep, RegisterWrite),
    /// The initialisation is over, with this outcome.
    Finished(Result<(), E>),
}

/// The write made at each step of the initialisation.
pub open spec fn init_write(step: InitStep) -> RegisterWrite {
    match step {
        InitStep::LowPower => RegisterWrite { addr: 0x1B, register: 54, value: 0 },
        InitStep::MaxDuration => RegisterWrite { addr: 0x1B, register: 55, value: 0 },
    }
}

/// What follows once the bus has answered the write of `step` with `reply`: a failure ends the
/// initialisation, and so does the second write.
pub open spec fn init_next<E>(step: InitStep, reply: Result<(), E>) -> InitNext<E> {
    if step is LowPower && reply is Ok {
        InitNext::Write(InitStep::MaxDuration, init_write(InitStep::MaxDuration))
    } else {
        InitNext::Finished(reply)
    }
}

/// The first register of the two that hold the signal of `key`, or its reference level.
pub open spec fn key_register(key: u8, reference: bool) -> int {
    if reference {
        18 + 2 * key
    } else {
        4 + 2 * key
    }
}

/// The number that two bytes stand for, the high one first.
pub open spec fn word(hi: u8, lo: u8) -> u16 {
    (hi * 256 + lo) as u16
}

impl InitStep {
    /// The write made at this step.
    pub fn write(self) -> (r: RegisterWrite)
        ensures
            r == init_write(self),
    {
        let register: u8 = match self {
            InitStep::LowPower => LP_MODE,
            InitStep::MaxDuration => MAX_DUR,
        };
        RegisterWrite { addr: AT42QT_ADDR, register, value: 0 }
    }
}

impl At42Qt1070 {
    pub fn new() -> (r: Self)
        ensures
            r == (At42Qt1070 {}),
    {
        At42Qt1070 {  }
    }

    /// Starts the initialisation: the first step and its write.
    pub fn init(&mut self) -> (r: (InitStep, RegisterWrite))
        ensures
            r.0 == InitStep::LowPower,
            r.1 == init_write(InitStep::LowPower),
            r.1 == (RegisterWrite { addr: 0x1B, register: 54, value: 0 }),
            *final(self) == *old(self),
    {
        (InitStep::LowPower, InitStep::LowPower.write())
    }

    /// Goes on with the initialisation once the bus has answered the write of `step`.
    pub fn init_reply<E>(&mut self, step: InitStep, reply: Result<(), E>) -> (r: InitNext<E>)
        ensures
            r == init_next(step, reply),
            step is LowPower && reply is Ok ==> r == InitNext::<E>::Write(
                InitStep::MaxDuration,
                RegisterWrite { addr: 0x1B, register: 55, value: 0 },
            ),
            step is MaxDuration || reply is Err ==> r == InitNext::<E>::Finished(reply),
            *final(self) == *old(self),
    {
        match (step, reply) {
            (InitStep::LowPower, Ok(())) => InitNext::Write(
                InitStep::MaxDuration,
                InitStep::MaxDuration.write(),
            ),
            (_, outcome) => InitNext::Finished(outcome),
        }
    }

    /// The read of the signal of `key`, or of its reference level.
    pub fn read_state(&mut self, key: u8, reference: bool) -> (r: WordRead)
        requires
            key_register(key, reference) <= u8::MAX,
        ensures
            r.addr == 0x1B,
            r.register == key_register(key, reference),
            reference ==> r.register == 18 + 2 * key,
            !reference ==> r.register == 4 + 2 * key,
            *final(self) == *old(self),
    {
        let register: u8 = if reference {
            KEY_REFERENCE + key * 2
        } else {
            KEY_SIGNAL + key * 2
        };
        WordRead { addr: AT42QT_ADDR, register }
    }

    /// What the bus's answer to a read means: the two bytes as one number, or the bus's failure.
    pub fn read_state_reply<E>(&mut self, reply: Result<[u8; 2], E>) -> (r: Result<u16, E>)
        ensures
            match reply {
                Ok(bytes) => r == Ok::<u16, E>(word(bytes@[0], bytes@[1])),
                Err(e) => r == Err::<u16, E>(e),
            },
            reply matches Ok(bytes) ==> r is Ok && r->Ok_0 == 256 * bytes@[0] + bytes@[1],
            *final(self) == *old(self),
    {
        match reply {
            Ok(bytes) => {
                let value: u16 = bytes[0] as u16 * 256 + bytes[1] as u16;
                Ok(value)
            },
            Err(e) => Err(e),
        }
    }
}

/// The writes that an initialisation makes from the write of `step` on, when the bus answers them
/// with `replies` in turn, and its outcome, if the replies reach that far.
pub open spec fn init_transcript<E>(step: InitStep, replies: Seq<Result<(), E>>) -> (
    Seq<RegisterWrite>,
    Option<Result<(), E>>,
)
    decreases replies.len(),
{
    if replies.len() == 0 {
        (seq![init_write(step)], None)
    } else {
        match init_next(step, replies[0]) {
            InitNext::Write(later, _) => {
                let rest = init_transcript(later, replies.skip(1));
                (seq![init_write(step)] + rest.0, rest.1)
            },
            InitNext::Finished(outcome) => (seq![init_write(step)], Some(outcome)),
        }
    }
}

/// An initialisation whose first write fails makes no other and reports that failure. Otherwise
/// it makes both writes, low power mode first, and reports what the bus answered to the second.
pub proof fn law_init<E>(first: Result<(), E>, second: Result<(), E>)
    ensures
        init_transcript(InitStep::LowPower, seq![first, second]) == (if first is Err {
            (seq![init_write(InitStep::LowPower)], Some(first))
        } else {
            (
                seq![init_write(InitStep::LowPower), init_write(InitStep::MaxDuration)],
                Some(second),
            )
        }),
{
    let replies = seq![first, second];
    reveal_with_fuel(init_transcript, 3);
    assert(replies.skip(1)[0] == second);
    if first is Ok {
        let both = seq![init_write(InitStep::LowPower), init_write(InitStep::MaxDuration)];
        assert(seq![init_write(InitStep::LowPower)] + seq![init_write(InitStep::MaxDuration)]
            =~= both);
    }
}

/// Initialisation zeroes two registers of the sensor, and the low power mode comes first.
pub proof fn law_init_writes(step: InitStep)
    ensures
        init_write(step).addr == 0x1B,
        init_write(step).value == 0,
        init_write(step).register == if step is LowPower {
            54int
        } else {
            55int
        },
{
}

/// Only a first write that succeeded leads on; anything else is the outcome, as the bus gave it.
pub proof fn law_init_outcome<E>(step: InitStep, reply: Result<(), E>)
    ensures
        step is LowPower && reply is Ok <==> init_next(step, reply) is Write,
        init_next(step, reply) matches InitNext::Write(later, write) ==> later is MaxDuration
            && write == (RegisterWrite { addr: 0x1B, register: 55, value: 0 }),
        init_next(step, reply) matches InitNext::Finished(outcome) ==> outcome == reply,
{
}

/// Signals start at register 4 and reference levels at register 18; the next key is always two
/// registers on.
pub proof fn law_key_registers(key: u8, reference: bool)
    ensures
        key_register(0, false) == 4,
        key_register(key, true) - key_register(key, false) == 14,
        key_register(key, reference) - key_register(0, reference) == 2 * key,
{
}

/// The registers of two different readings never overlap: neither two keys of one kind, nor, on
/// the sensor's seven keys, a signal and a reference level.
pub proof fn law_key_registers_disjoint(key1: u8, ref1: bool, key2: u8, ref2: bool)
    requires
        key1 != key2 || ref1 != ref2,
        ref1 == ref2 || key1 <= 6 && key2 <= 6,
    ensures
        key_register(key1, ref1) + 2 <= key_register(key2, ref2) || key_register(key2, ref2) + 2
            <= key_register(key1, ref1),
{
}

/// Every reading is a number of its own: the two bytes can be told from it.
pub proof fn law_word(hi: u8, lo: u8)
    ensures
        word(hi, lo) as int == 256 * hi + lo,
        word(hi, lo) / 256 == hi,
        word(hi, lo) % 256 == lo,
{
}

} // verus!

use touchboard::bus::{ByteWrite, RegisterWrite, WordRead};
use touchboard::i2c_task::{Action, Event, I2cTask};
use touchboard::status::Phase;

/// What the task did; buffers are told by a number.
#[derive(Clone, Copy, Debug, PartialEq)]
enum Did {
    Select(ByteWrite),
    Configure(RegisterWrite),
    Read(WordRead),
    InitPanel,
    ReceiveBuffer,
    FlushBuffer(u32),
    ReturnBuffer(u32),
    Show(Phase),
    CountFailure,
}

fn did(action: &Action<u32>) -> Did {
    match action {
        Action::Select(w) => Did::Select(*w),
        Action::Configure(w) => Did::Configure(*w),
        Action::Read(r) => Did::Read(*r),
        Action::InitPanel => Did::InitPanel,
        Action::ReceiveBuffer => Did::ReceiveBuffer,
        Action::FlushBuffer(b) => Did::FlushBuffer(**b),
        Action::ReturnBuffer(b) => Did::ReturnBuffer(*b),
        Action::Show(p) => Did::Show(*p),
        Action::CountFailure => Did::CountFailure,
    }
}

/// A task under test, with what it has to do next.
struct Bench {
    task: I2cTask<u32>,
    next: Did,
    buffers: u32,
}

impl Bench {
    fn new() -> Self {
        let (task, first) = I2cTask::start();
        Bench { task, next: did(&first), buffers: 0 }
    }

    /// A task that has been set up and is about to wait for a buffer.
    fn ready() -> Self {
        let mut bench = Bench::new();
        bench.run(13, fine);
        bench
    }

    /// Runs the task, with `answer` for the bus and the panel, and lists what it did. The buffers
    /// that come are numbered.
    fn run(&mut self, count: usize, answer: impl Fn(usize, Did) -> Event<u32>) -> Vec<Did> {
        let mut done = vec![];
        for n in 0..count {
            done.push(self.next);
            let event = if self.next == Did::ReceiveBuffer {
                self.buffers += 1;
                Event::Received(self.buffers)
            } else {
                answer(n, self.next)
            };
            self.next = did(&self.task.next(event));
        }
        done
    }
}

fn select(ch: u8) -> Did {
    Did::Select(ByteWrite { addr: 0x74, byte: 4 + ch })
}

fn configure(register: u8) -> Did {
    Did::Configure(RegisterWrite { addr: 0x1B, register, value: 0 })
}

fn read(key: u8) -> Did {
    Did::Read(WordRead { addr: 0x1B, register: 4 + 2 * key })
}

fn fine(_: usize, action: Did) -> Event<u32> {
    match action {
        Did::Read(_) => Event::Word([0, 1]),
        _ => Event::Done,
    }
}

#[test]
fn setup_reaches_every_sensor_and_the_panel() {
    let mut task = Bench::new();
    let done = task.run(13, fine);
    let mut expected = vec![];
    for ch in 0..4 {
        expected.extend([select(ch), configure(54), configure(55)]);
    }
    expected.push(Did::InitPanel);
    assert_eq!(done, expected);
    assert_eq!(task.next, Did::Show(Phase::I2cWaiting));
    assert_eq!(*task.task.readings(), [0; 24]);
}

#[test]
fn setup_goes_on_when_everything_fails() {
    let mut task = Bench::new();
    let done = task.run(10, |_, _| Event::Failed);
    let mut expected = vec![];
    for ch in 0..4 {
        expected.extend([select(ch), configure(54)]);
    }
    expected.extend([Did::InitPanel, Did::CountFailure]);
    assert_eq!(done, expected);
    assert_eq!(task.next, Did::Show(Phase::I2cWaiting));
}

#[test]
fn one_failed_write_skips_only_its_own_sensor() {
    let mut task = Bench::new();
    let done = task.run(12, |n, _| if n == 4 { Event::Failed } else { Event::Done });
    assert_eq!(done[3..6], [select(1), configure(54), select(2)]);
    assert_eq!(done[11], Did::InitPanel);
}

#[test]
fn a_round_flushes_and_scans() {
    let mut task = Bench::ready();
    let done = task.run(36, fine);
    let mut expected = vec![
        Did::Show(Phase::I2cWaiting),
        Did::ReceiveBuffer,
        Did::Show(Phase::Flushing),
        Did::FlushBuffer(1),
        Did::ReturnBuffer(1),
        Did::Show(Phase::Idle),
        Did::Show(Phase::Scanning),
    ];
    for ch in 0..4 {
        expected.push(select(ch));
        for key in 0..6 {
            expected.push(read(key));
        }
    }
    expected.push(Did::Show(Phase::Idle));
    assert_eq!(done, expected);
    assert_eq!(task.next, Did::Show(Phase::I2cWaiting));
}

#[test]
fn a_failed_flush_is_counted_and_the_buffer_returned() {
    let mut task = Bench::ready();
    let done = task.run(8, |_, action| match action {
        Did::FlushBuffer(_) => Event::Failed,
        _ => Event::Done,
    });
    assert_eq!(
        done[3..],
        [
            Did::FlushBuffer(1),
            Did::CountFailure,
            Did::ReturnBuffer(1),
            Did::Show(Phase::Idle),
            Did::Show(Phase::Scanning),
        ]
    );
    assert_eq!(task.next, select(0));
}

#[test]
fn a_scan_fills_the_table() {
    let mut task = Bench::ready();
    task.run(36, |n, action| match action {
        Did::Read(_) => Event::Word([1, n as u8]),
        _ => Event::Done,
    });
    // The first read is the ninth action of the round, and each sensor's selection comes between.
    for sid in 0..24 {
        let n = 8 + sid + sid / 6;
        assert_eq!(task.task.readings()[sid], 256 + n as u16);
    }
}

#[test]
fn a_failed_read_keeps_the_old_reading() {
    let mut task = Bench::ready();
    task.run(36, |_, action| match action {
        Did::Read(_) => Event::Word([0x0A, 0x0B]),
        _ => Event::Done,
    });
    assert_eq!(*task.task.readings(), [0x0A0B; 24]);
    // The reads of the first key and of the last fail.
    task.run(36, |n, action| match action {
        Did::Read(_) if n == 8 || n == 34 => Event::Failed,
        Did::Read(_) => Event::Word([0, 2]),
        _ => Event::Done,
    });
    assert_eq!(task.task.readings()[0], 0x0A0B);
    assert_eq!(task.task.readings()[1..23], [2; 22]);
    assert_eq!(task.task.readings()[23], 0x0A0B);
}

#[test]
fn a_failed_selection_does_not_stop_the_scan() {
    let mut task = Bench::ready();
    task.run(36, |_, action| match action {
        Did::Select(_) => Event::Failed,
        Did::Read(_) => Event::Word([0, 3]),
        _ => Event::Done,
    });
    assert_eq!(*task.task.readings(), [3; 24]);
}

#[test]
fn buffers_are_flushed_and_returned_in_order() {
    let mut task = Bench::ready();
    let done = task.run(500, |n, action| match action {
        Did::FlushBuffer(_) if n % 2 == 0 => Event::Failed,
        _ => Event::Done,
    });
    let mut flushed = vec![];
    let mut returned = vec![];
    for action in done {
        match action {
            Did::FlushBuffer(b) => flushed.push(b),
            Did::ReturnBuffer(b) => returned.push(b),
            _ => {}
        }
    }
    assert!(returned.len() > 10);
    assert_eq!(returned, (1..=returned.len() as u32).collect::<Vec<u32>>());
    assert_eq!(flushed[..returned.len()], returned);
}

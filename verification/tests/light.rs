use portable_atomic::{AtomicU8, Ordering};
use touchboard::led::{BlinkPlan, Blinker, LedAction, LedTask};
use touchboard::shared::SharedByte;
use touchboard::status::{count_failure, next_count, Fault, Phase};

fn plan(flashes: u8, on_ms: u64, off_ms: u64, pause_ms: u64) -> BlinkPlan {
    BlinkPlan { flashes, on_ms, off_ms, pause_ms }
}

fn actions(plan: BlinkPlan) -> Vec<LedAction> {
    let mut blinker = Blinker::new(plan);
    let mut done = vec![];
    while let Some(action) = blinker.next() {
        done.push(action);
    }
    assert_eq!(blinker.next(), None);
    done
}

fn duration(actions: &[LedAction]) -> u64 {
    actions.iter().map(|a| if let LedAction::Wait(ms) = a { *ms } else { 0 }).sum()
}

#[test]
fn states_have_their_rounds() {
    assert_eq!(BlinkPlan::of(0, 0), plan(1, 100, 900, 0));
    assert_eq!(BlinkPlan::of(1, 0), plan(2, 100, 100, 600));
    assert_eq!(BlinkPlan::of(2, 0), plan(3, 100, 100, 400));
    assert_eq!(BlinkPlan::of(3, 0), plan(3, 100, 100, 500));
    assert_eq!(BlinkPlan::of(9, 0), plan(9, 100, 100, 500));
    assert_eq!(BlinkPlan::of(10, 0), plan(10, 100, 100, 500));
    assert_eq!(BlinkPlan::of(255, 0), plan(10, 100, 100, 500));
}

#[test]
fn errors_come_first() {
    for state in [0u8, 1, 2, 7, 255] {
        assert_eq!(BlinkPlan::of(state, 1), plan(1, 50, 50, 500));
        assert_eq!(BlinkPlan::of(state, 10), plan(10, 50, 50, 500));
        assert_eq!(BlinkPlan::of(state, 255), plan(10, 50, 50, 500));
    }
}

#[test]
fn an_idle_round_has_no_pause() {
    assert_eq!(
        actions(BlinkPlan::of(0, 0)),
        vec![LedAction::High, LedAction::Wait(100), LedAction::Low, LedAction::Wait(900)]
    );
}

#[test]
fn a_round_is_its_flashes_and_a_pause() {
    let flash = [LedAction::High, LedAction::Wait(100), LedAction::Low, LedAction::Wait(100)];
    let mut expected = vec![];
    expected.extend(flash);
    expected.extend(flash);
    expected.push(LedAction::Wait(600));
    assert_eq!(actions(BlinkPlan::of(1, 0)), expected);
    assert_eq!(actions(BlinkPlan::of(4, 0)).len(), 4 * 4 + 1);
    assert_eq!(actions(BlinkPlan::of(4, 99)).len(), 10 * 4 + 1);
}

#[test]
fn rounds_last_and_end_dark() {
    for state in 0..=255u8 {
        for errors in [0u8, 1, 11] {
            let p = BlinkPlan::of(state, errors);
            assert!(1 <= p.flashes && p.flashes <= 10);
            let done = actions(p);
            let total = p.flashes as u64 * (p.on_ms + p.off_ms) + p.pause_ms;
            assert_eq!(duration(&done), total);
            let level = done.iter().rev().find(|a| !matches!(a, LedAction::Wait(_)));
            assert_eq!(level, Some(&LedAction::Low));
        }
    }
    for state in 0..3u8 {
        assert_eq!(duration(&actions(BlinkPlan::of(state, 0))), 1000);
    }
}

#[test]
fn a_round_without_flashes_is_its_pause() {
    assert_eq!(actions(plan(0, 1, 1, 7)), vec![LedAction::Wait(7)]);
    assert_eq!(actions(plan(0, 1, 1, 0)), vec![]);
}

#[test]
fn the_shared_numbers_are_read() {
    let state = AtomicU8::new(2);
    let errors = AtomicU8::new(0);
    let mut s = SharedByte::new(&state);
    let mut e = SharedByte::new(&errors);
    assert_eq!(BlinkPlan::current(&mut s, &mut e), plan(3, 100, 100, 400));
    errors.store(4, Ordering::Relaxed);
    assert_eq!(BlinkPlan::current(&mut s, &mut e), plan(4, 50, 50, 500));
    assert_eq!(state.load(Ordering::Relaxed), 2);
    assert_eq!(errors.load(Ordering::Relaxed), 4);
}

#[test]
fn the_light_shows_round_after_round_and_writes_nothing() {
    let state = AtomicU8::new(0);
    let errors = AtomicU8::new(0);
    let mut s = SharedByte::new(&state);
    let mut e = SharedByte::new(&errors);
    let mut task = LedTask::new();
    for (shown, failed) in [(0u8, 0u8), (2, 0), (5, 3), (5, 3), (1, 0)] {
        state.store(shown, Ordering::Relaxed);
        errors.store(failed, Ordering::Relaxed);
        for expected in actions(BlinkPlan::of(shown, failed)) {
            assert_eq!(task.next(&mut s, &mut e), expected);
        }
        assert_eq!(state.load(Ordering::Relaxed), shown);
        assert_eq!(errors.load(Ordering::Relaxed), failed);
    }
}

#[test]
fn a_round_under_way_is_not_broken_off() {
    let state = AtomicU8::new(1);
    let errors = AtomicU8::new(0);
    let mut s = SharedByte::new(&state);
    let mut e = SharedByte::new(&errors);
    let mut task = LedTask::new();
    let expected = actions(BlinkPlan::of(1, 0));
    assert_eq!(task.next(&mut s, &mut e), expected[0]);
    errors.store(9, Ordering::Relaxed);
    for action in &expected[1..] {
        assert_eq!(task.next(&mut s, &mut e), *action);
    }
    assert_eq!(task.next(&mut s, &mut e), LedAction::High);
    assert_eq!(task.next(&mut s, &mut e), LedAction::Wait(50));
}

const PHASES: [Phase; 6] = [
    Phase::Idle,
    Phase::UiWaiting,
    Phase::I2cWaiting,
    Phase::Flushing,
    Phase::Scanning,
    Phase::Drawing,
];

#[test]
fn phases_are_numbered_and_look_different() {
    for (n, phase) in PHASES.iter().enumerate() {
        assert_eq!(phase.code() as usize, n);
        for other in PHASES {
            let same = BlinkPlan::of(phase.code(), 0) == BlinkPlan::of(other.code(), 0);
            assert_eq!(same, *phase == other);
        }
    }
}

#[test]
fn faults_are_numbered() {
    let faults = [
        (Fault::FirstBuffer, 1),
        (Fault::SecondBuffer, 2),
        (Fault::LedTask, 10),
        (Fault::I2cTask, 11),
        (Fault::UiTask, 12),
        (Fault::UsbTask, 20),
        (Fault::MidiTask, 21),
        (Fault::MidiRxTask, 22),
        (Fault::NeopixelTask, 23),
        (Fault::Panic, 255),
    ];
    for (fault, code) in faults {
        assert_eq!(fault.code(), code);
        assert_eq!(BlinkPlan::of(0, fault.code()).on_ms, 50);
    }
}

#[test]
fn failures_are_counted() {
    let errors = AtomicU8::new(0);
    let mut handle = SharedByte::new(&errors);
    assert_eq!(count_failure(&mut handle), 1);
    assert_eq!(count_failure(&mut handle), 2);
    assert_eq!(errors.load(Ordering::Relaxed), 2);
}

#[test]
fn failures_add_up_and_the_counter_wraps() {
    let errors = AtomicU8::new(250);
    let mut handle = SharedByte::new(&errors);
    for m in 1..=600usize {
        assert_eq!(count_failure(&mut handle) as usize, (250 + m) % 256);
        assert_eq!(errors.load(Ordering::Relaxed) as usize, (250 + m) % 256);
    }
    assert_eq!(next_count(0), 1);
    assert_eq!(next_count(254), 255);
    assert_eq!(next_count(255), 0);
}

#[test]
fn phases_are_made_known() {
    let state = AtomicU8::new(77);
    let mut handle = SharedByte::new(&state);
    for phase in PHASES {
        phase.show(&mut handle);
        assert_eq!(state.load(Ordering::Relaxed), phase.code());
    }
}

#[test]
fn faults_are_reported_in_place_of_the_count() {
    let errors = AtomicU8::new(3);
    let mut handle = SharedByte::new(&errors);
    Fault::NeopixelTask.report(&mut handle);
    assert_eq!(errors.load(Ordering::Relaxed), 23);
    Fault::Panic.report(&mut handle);
    assert_eq!(errors.load(Ordering::Relaxed), 255);
}

use std::collections::VecDeque;

use touchboard::buffers::NUM_BUFFERS;
use touchboard::i2c_task::{Action, Event, I2cTask};
use touchboard::status::Phase;
use touchboard::ui_task::{UiAction, UiEvent, UiTask};

#[test]
fn a_round_draws_once_and_waits() {
    let (mut task, mut action) = UiTask::<String>::start();
    for delay in [33u64, 0, u64::MAX] {
        let mut done = vec![];
        for _ in 0..7 {
            let (said, event) = match action {
                UiAction::Show(phase) => (format!("show {:?}", phase), UiEvent::Done),
                UiAction::ReceiveBuffer => {
                    (format!("receive"), UiEvent::Received(format!("blank {}", delay)))
                }
                UiAction::Draw(buffer) => {
                    (format!("draw {}", buffer), UiEvent::Drawn(format!("picture"), delay))
                }
                UiAction::SendBuffer(buffer) => (format!("send {}", buffer), UiEvent::Done),
                UiAction::Wait(ms) => (format!("wait {}", ms), UiEvent::Done),
            };
            done.push(said);
            action = task.next(event);
        }
        assert_eq!(
            done,
            vec![
                format!("show UiWaiting"),
                format!("receive"),
                format!("show Drawing"),
                format!("draw blank {}", delay),
                format!("send picture"),
                format!("show Idle"),
                format!("wait {}", delay),
            ]
        );
    }
    assert_eq!(action, UiAction::Show(Phase::UiWaiting));
}

/// Runs both tasks against two queues, the user interface `pace` times for each step of the other.
/// Checks that neither queue overflows, that the two never stop, and that the pictures reach the
/// panel in the order in which they were drawn. A buffer is its number and its picture's number.
fn circulate(pace: usize) {
    let mut free: VecDeque<(u32, u32)> = VecDeque::from([(1, 0), (2, 0)]);
    let mut drawn: VecDeque<(u32, u32)> = VecDeque::new();
    let (mut ui, mut ui_action) = UiTask::start();
    let (mut i2c, first) = I2cTask::<(u32, u32)>::start();
    let mut pending = matches!(first, Action::ReceiveBuffer);
    let mut pictures = 0;
    let mut shown = vec![];
    for n in 0..2000 {
        let mut moved = false;
        for _ in 0..pace {
            let event = match ui_action {
                UiAction::ReceiveBuffer => match free.pop_front() {
                    Some(buffer) => UiEvent::Received(buffer),
                    None => {
                        ui_action = UiAction::ReceiveBuffer;
                        break;
                    }
                },
                UiAction::Draw((number, _)) => {
                    pictures += 1;
                    UiEvent::Drawn((number, pictures), 1)
                }
                UiAction::SendBuffer(buffer) => {
                    drawn.push_back(buffer);
                    UiEvent::Done
                }
                _ => UiEvent::Done,
            };
            ui_action = ui.next(event);
            moved = true;
        }
        let event = if pending {
            drawn.pop_front().map(Event::Received)
        } else {
            Some(if n % 3 == 0 { Event::Failed } else { Event::Done })
        };
        if let Some(event) = event {
            let action = i2c.next(event);
            pending = matches!(action, Action::ReceiveBuffer);
            match action {
                Action::FlushBuffer(buffer) => shown.push(buffer.1),
                Action::ReturnBuffer(buffer) => {
                    assert_eq!(shown.last(), Some(&buffer.1));
                    free.push_back(buffer);
                }
                _ => {}
            }
            moved = true;
        }
        assert!(moved);
        assert!(free.len() <= NUM_BUFFERS);
        assert!(drawn.len() <= NUM_BUFFERS);
    }
    assert!(shown.len() > 10);
    assert_eq!(shown, (1..=shown.len() as u32).collect::<Vec<u32>>());
}

#[test]
fn buffers_go_round_when_drawing_is_slow() {
    circulate(1);
}

#[test]
fn buffers_go_round_when_drawing_is_fast() {
    circulate(9);
}

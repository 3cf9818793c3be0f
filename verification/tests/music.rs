use touchboard::midi::{decode, receive, MidiAction, MidiTask, NoteEvent, Packet, RxAction};

/// What a read of `data` means, with `n` bytes of it valid.
fn notes(data: &[u8], n: usize) -> Vec<NoteEvent> {
    let mut buf = [0xAAu8; 64];
    buf[..data.len()].copy_from_slice(data);
    match receive::<()>(&buf, Ok(n)) {
        RxAction::Notes(list) => {
            assert_eq!(list.get(list.len()), None);
            (0..list.len()).map(|i| list.get(i).unwrap()).collect()
        }
        RxAction::CountFailure => panic!("no failure was reported"),
    }
}

#[test]
fn a_note_is_struck_and_released() {
    let mut task = MidiTask::new();
    let mut done = vec![];
    for _ in 0..5 {
        done.push(task.action());
        task.advance();
    }
    let on = Packet { header: 0x09, status: 0x90, note: 60, velocity: 64 };
    let off = Packet { header: 0x08, status: 0x80, note: 60, velocity: 64 };
    assert_eq!(
        done,
        vec![
            MidiAction::Send(on),
            MidiAction::Wait(500),
            MidiAction::Send(off),
            MidiAction::Wait(500),
            MidiAction::Send(Packet { note: 61, ..on }),
        ]
    );
    assert_eq!(on.bytes(), [0x09, 0x90, 60, 64]);
    assert_eq!(off.bytes(), [0x08, 0x80, 60, 64]);
}

#[test]
fn the_scale_climbs_and_begins_again() {
    let mut task = MidiTask::new();
    for n in 0..40u8 {
        match task.action() {
            MidiAction::Send(packet) => assert_eq!(packet.note, 60 + n % 13),
            MidiAction::Wait(_) => panic!("a note was due"),
        }
        for _ in 0..4 {
            task.advance();
        }
    }
}

#[test]
fn messages_are_told_apart() {
    assert_eq!(decode(0x90, 60, 1), NoteEvent::On { note: 60, velocity: 1 });
    assert_eq!(decode(0x9F, 60, 127), NoteEvent::On { note: 60, velocity: 127 });
    assert_eq!(decode(0x90, 60, 0), NoteEvent::Off { note: 60 });
    assert_eq!(decode(0x80, 61, 64), NoteEvent::Off { note: 61 });
    assert_eq!(decode(0x8A, 61, 0), NoteEvent::Off { note: 61 });
    assert_eq!(decode(0xA0, 60, 64), NoteEvent::Other);
    assert_eq!(decode(0x7F, 60, 64), NoteEvent::Other);
    assert_eq!(decode(0xB0, 7, 64), NoteEvent::Other);
}

#[test]
fn packets_are_read_in_order() {
    let mut buf = [0u8; 64];
    buf[..10].copy_from_slice(&[0x09, 0x90, 60, 64, 0x08, 0x80, 60, 64, 0x09, 0x90]);
    assert_eq!(notes(&buf, 0), vec![]);
    assert_eq!(notes(&buf, 3), vec![]);
    assert_eq!(notes(&buf, 4), vec![NoteEvent::On { note: 60, velocity: 64 }]);
    let both = vec![NoteEvent::On { note: 60, velocity: 64 }, NoteEvent::Off { note: 60 }];
    assert_eq!(notes(&buf, 8), both);
    assert_eq!(notes(&buf, 10), both);
    assert_eq!(notes(&buf, 64).len(), 16);
    assert_eq!(notes(&buf, 64)[15], NoteEvent::Other);
}

#[test]
fn packets_mean_what_they_mean_alone() {
    let data = [9u8, 0x91, 1, 2, 9, 0x92, 3, 0, 11, 0xB0, 5, 6];
    let mut one_by_one = vec![];
    for packet in data.chunks(4) {
        one_by_one.extend(notes(packet, 4));
    }
    assert_eq!(notes(&data, 12), one_by_one);
}

#[test]
fn a_failed_read_is_counted() {
    assert!(matches!(receive(&[0u8; 64], Err("overflow")), RxAction::CountFailure));
}

#[test]
fn the_board_understands_what_it_plays() {
    let mut task = MidiTask::new();
    for n in 0..26 {
        if let MidiAction::Send(packet) = task.action() {
            let expected = if n % 4 == 0 {
                NoteEvent::On { note: packet.note, velocity: 64 }
            } else {
                NoteEvent::Off { note: packet.note }
            };
            assert_eq!(notes(&packet.bytes(), 4), vec![expected]);
        }
        task.advance();
    }
}

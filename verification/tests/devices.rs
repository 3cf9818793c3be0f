use touchboard::bus::{ByteWrite, RegisterWrite, WordRead};
use touchboard::devices::at42qt::{At42Qt1070, InitNext, InitStep};
use touchboard::devices::pca9544::Pca9544;

#[test]
fn select_addresses_the_multiplexer_and_the_channel() {
    let pca = Pca9544::new();
    assert_eq!(pca.select(0, 0), ByteWrite { addr: 0x74, byte: 0x04 });
    assert_eq!(pca.select(0, 3), ByteWrite { addr: 0x74, byte: 0x07 });
    assert_eq!(pca.select(2, 1), ByteWrite { addr: 0x76, byte: 0x05 });
    assert_eq!(pca.select(0, 2).bytes(), [0x06]);
}

#[test]
fn select_takes_the_largest_arguments() {
    let pca = Pca9544::new();
    assert_eq!(pca.select(139, 251), ByteWrite { addr: 255, byte: 255 });
}

#[test]
fn control_bytes_enable_their_channel() {
    let pca = Pca9544::new();
    for ch in 0..4u8 {
        let byte = pca.select(0, ch).byte;
        assert_eq!(byte & 0x04, 0x04);
        assert_eq!(byte & 0x03, ch);
        assert_eq!(byte & 0xF8, 0);
    }
}

#[test]
fn selections_differ() {
    let pca = Pca9544::new();
    let mut seen = vec![];
    for dev in 0..4u8 {
        for ch in 0..4u8 {
            let write = pca.select(dev, ch);
            assert!(!seen.contains(&write));
            seen.push(write);
        }
    }
}

#[test]
fn init_makes_two_writes() {
    let mut at42 = At42Qt1070::new();
    let (step, write) = at42.init();
    assert_eq!(step, InitStep::LowPower);
    assert_eq!(write, RegisterWrite { addr: 0x1B, register: 54, value: 0 });
    assert_eq!(write.bytes(), [54, 0]);
    match at42.init_reply::<u8>(step, Ok(())) {
        InitNext::Write(step, write) => {
            assert_eq!(step, InitStep::MaxDuration);
            assert_eq!(write.addr, 0x1B);
            assert_eq!(write.bytes(), [55, 0]);
            assert!(matches!(at42.init_reply::<u8>(step, Ok(())), InitNext::Finished(Ok(()))));
        }
        InitNext::Finished(_) => panic!("the second write is missing"),
    }
}

#[test]
fn init_stops_at_a_failed_first_write() {
    let mut at42 = At42Qt1070::new();
    let (step, _) = at42.init();
    assert!(matches!(at42.init_reply(step, Err(7u8)), InitNext::Finished(Err(7))));
}

#[test]
fn init_reports_a_failed_second_write() {
    let mut at42 = At42Qt1070::new();
    let next = at42.init_reply(InitStep::MaxDuration, Err(9u8));
    assert!(matches!(next, InitNext::Finished(Err(9))));
}

#[test]
fn key_registers() {
    let mut at42 = At42Qt1070::new();
    assert_eq!(at42.read_state(0, false), WordRead { addr: 0x1B, register: 4 });
    assert_eq!(at42.read_state(6, false).register, 16);
    assert_eq!(at42.read_state(0, true).register, 18);
    assert_eq!(at42.read_state(6, true).register, 30);
    assert_eq!(at42.read_state(6, true).bytes(), [30]);
    assert_eq!(at42.read_state(125, false).register, 254);
    assert_eq!(at42.read_state(118, true).register, 254);
}

#[test]
fn key_registers_do_not_overlap() {
    let mut at42 = At42Qt1070::new();
    let mut used = vec![];
    for reference in [false, true] {
        for key in 0..7u8 {
            let register = at42.read_state(key, reference).register;
            assert!(!used.contains(&register));
            assert!(!used.contains(&(register + 1)));
            used.push(register);
            used.push(register + 1);
        }
    }
}

#[test]
fn readings_are_big_endian() {
    let mut at42 = At42Qt1070::new();
    assert_eq!(at42.read_state_reply::<u8>(Ok([0x12, 0x34])), Ok(0x1234));
    assert_eq!(at42.read_state_reply::<u8>(Ok([0xFF, 0xFF])), Ok(0xFFFF));
    assert_eq!(at42.read_state_reply::<u8>(Ok([0, 1])), Ok(1));
    assert_eq!(at42.read_state_reply(Err(3u8)), Err(3));
}

use inky_epd::driver::busy_wait_step;
use inky_epd::driver::chunk_end;
use inky_epd::driver::coarse_wait_ms;
use inky_epd::driver::setup_ops;
use inky_epd::driver::SETUP_BUSY_TIMEOUT_LONG_MS;
use inky_epd::driver::SETUP_BUSY_TIMEOUT_SHORT_MS;
use inky_epd::driver::BusOp;
use inky_epd::driver::BusyStep;
use inky_epd::driver::DriverState;
use inky_epd::driver::Inky;
use inky_epd::epd::decode_eeprom_record;
use inky_epd::epd::EPDType;

fn descriptor(width: u16, height: u16) -> EPDType {
    let mut raw = vec![
        (width % 256) as u8,
        (width / 256) as u8,
        (height % 256) as u8,
        (height / 256) as u8,
        0x05,
        1,
        2,
        0,
    ];
    raw.extend_from_slice(&[0u8; 21]);
    decode_eeprom_record(&raw).unwrap()
}

fn send_parts(op: &BusOp) -> (u8, Vec<u8>) {
    match op {
        BusOp::Send(c) => (c.cmd, c.data.clone()),
        _ => panic!("expected a command write"),
    }
}

#[test]
fn setup_sequence_is_exact_and_ordered() {
    let ops = setup_ops(SETUP_BUSY_TIMEOUT_LONG_MS);
    assert_eq!(ops.len(), 27);
    assert!(matches!(ops[0], BusOp::SetResetLow));
    assert!(matches!(ops[1], BusOp::SleepMs(100)));
    assert!(matches!(ops[2], BusOp::SetResetHigh));
    assert!(matches!(ops[3], BusOp::SleepMs(100)));
    assert!(matches!(ops[4], BusOp::SetResetLow));
    assert!(matches!(ops[5], BusOp::SleepMs(100)));
    assert!(matches!(ops[6], BusOp::SetResetHigh));
    assert!(matches!(ops[7], BusOp::WaitBusy(10000)));
    let expected: [(u8, &[u8]); 19] = [
        (0xAA, &[0x49, 0x55, 0x20, 0x08, 0x09, 0x18]),
        (0x01, &[0x3F, 0x00, 0x32, 0x2A, 0x0E, 0x2A]),
        (0x00, &[0x5F, 0x69]),
        (0x03, &[0x00, 0x54, 0x00, 0x44]),
        (0x05, &[0x40, 0x1F, 0x1F, 0x2C]),
        (0x06, &[0x6F, 0x1F, 0x16, 0x25]),
        (0x08, &[0x6F, 0x1F, 0x1F, 0x22]),
        (0x13, &[0x00, 0x04]),
        (0x30, &[0x02]),
        (0x41, &[0x00]),
        (0x50, &[0x3F]),
        (0x60, &[0x02, 0x00]),
        (0x61, &[0x03, 0x20, 0x01, 0xE0]),
        (0x82, &[0x1E]),
        (0x84, &[0x00]),
        (0x86, &[0x00]),
        (0xE3, &[0x2F]),
        (0xE0, &[0x00]),
        (0xE6, &[0x00]),
    ];
    for (i, (cmd, data)) in expected.iter().enumerate() {
        let (c, d) = send_parts(&ops[8 + i]);
        assert_eq!(c, *cmd, "command {i}");
        assert_eq!(d.as_slice(), *data, "parameters of command {i:#x}");
    }
}

#[test]
fn show_runs_setup_transfer_and_finish_in_order() {
    let mut inky = Inky::new(descriptor(4, 2));
    assert_eq!(inky.state(), DriverState::Identified);
    let cfg = inky.configure_ops(SETUP_BUSY_TIMEOUT_SHORT_MS);
    assert_eq!(cfg.len(), 27);
    assert_eq!(inky.state(), DriverState::Configured);

    inky.set_pixel(0, 0, 4);
    inky.set_pixel(1, 0, 7);
    let ops = inky.show_ops(SETUP_BUSY_TIMEOUT_SHORT_MS);
    assert_eq!(inky.state(), DriverState::Configured);
    assert_eq!(ops.len(), 27 + 1 + 6);
    // The transfer command carries the packed frame.
    let (cmd, frame) = send_parts(&ops[27]);
    assert_eq!(cmd, 0x10);
    assert_eq!(frame, vec![0x41, 0x00, 0x00, 0x00]);
    // Power on, refresh, power off, each with its busy wait.
    let (c1, d1) = send_parts(&ops[28]);
    assert_eq!((c1, d1.as_slice()), (0x04, &[][..]));
    assert!(matches!(ops[29], BusOp::WaitBusy(400)));
    let (c2, d2) = send_parts(&ops[30]);
    assert_eq!((c2, d2.as_slice()), (0x12, &[0x00][..]));
    assert!(matches!(ops[31], BusOp::WaitBusy(45000)));
    let (c3, d3) = send_parts(&ops[32]);
    assert_eq!((c3, d3.as_slice()), (0x02, &[0x00][..]));
    assert!(matches!(ops[33], BusOp::WaitBusy(400)));
}

#[test]
fn transition_methods_walk_the_protocol_states() {
    let mut inky = Inky::new(descriptor(2, 2));
    let _ = inky.configure_ops(10000);
    assert_eq!(inky.state(), DriverState::Configured);
    let _ = inky.transfer_ops(10000);
    assert_eq!(inky.state(), DriverState::Transferring);
    let _ = inky.power_on_ops();
    assert_eq!(inky.state(), DriverState::Refreshing);
    let _ = inky.refresh_ops();
    assert_eq!(inky.state(), DriverState::PowerOff);
    let _ = inky.power_off_ops();
    assert_eq!(inky.state(), DriverState::Configured);
}

#[test]
fn load_frame_fills_row_major() {
    let mut inky = Inky::new(descriptor(2, 2));
    inky.load_frame(&vec![1, 2, 3, 4]);
    assert_eq!(inky.get_pixel(0, 0), 1);
    assert_eq!(inky.get_pixel(1, 0), 2);
    assert_eq!(inky.get_pixel(0, 1), 3);
    assert_eq!(inky.get_pixel(1, 1), 4);
}

#[test]
fn busy_wait_decisions_are_bounded() {
    assert_eq!(busy_wait_step(false, 0, 400), BusyStep::Proceed);
    assert_eq!(busy_wait_step(false, 999, 400), BusyStep::Proceed);
    assert_eq!(busy_wait_step(true, 0, 400), BusyStep::PollAgain);
    assert_eq!(busy_wait_step(true, 399, 400), BusyStep::PollAgain);
    assert_eq!(busy_wait_step(true, 400, 400), BusyStep::TimedOut);
    assert_eq!(busy_wait_step(true, 401, 400), BusyStep::TimedOut);
    assert_eq!(coarse_wait_ms(true, 45000), 45000);
    assert_eq!(coarse_wait_ms(false, 45000), 0);
}

#[test]
fn bus_writes_are_chunked_to_the_transport_limit() {
    assert_eq!(chunk_end(0, 200), 64);
    assert_eq!(chunk_end(64, 200), 128);
    assert_eq!(chunk_end(128, 200), 192);
    assert_eq!(chunk_end(192, 200), 200);
    assert_eq!(chunk_end(0, 64), 64);
    assert_eq!(chunk_end(0, 10), 10);
}

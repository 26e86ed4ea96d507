use ssd1680::config::DisplayConfig;
use ssd1680::driver::SSD1680;
use ssd1680::recording::{BusRecord, RecordingInterface};

fn fresh(config: DisplayConfig) -> SSD1680<RecordingInterface> {
    SSD1680::new(RecordingInterface::new(0x00), config)
}

/// The records of one command issue: busy observed clear, command mode, the
/// opcode byte.
fn cmd(op: u8) -> Vec<BusRecord> {
    vec![BusRecord::Ready, BusRecord::Select(false), BusRecord::Write(vec![op])]
}

/// The records of one data payload: data mode, the bytes.
fn data(bytes: Vec<u8>) -> Vec<BusRecord> {
    vec![BusRecord::Select(true), BusRecord::Write(bytes)]
}

fn transaction(op: u8, bytes: Vec<u8>) -> Vec<BusRecord> {
    let mut r = cmd(op);
    r.extend(data(bytes));
    r
}

#[test]
fn init_default_exact_byte_stream() {
    // Default configuration: 176 x 296, GSTransition(true, LUT1) border,
    // Normal RAM option, internal sensor.
    let mut drv = fresh(DisplayConfig::default());
    drv.hw_init().unwrap();
    let iface = drv.free();

    let mut expected = vec![
        BusRecord::Reset(false),
        BusRecord::Delay(20),
        BusRecord::Reset(true),
        BusRecord::Delay(20),
        BusRecord::Ready,
    ];
    expected.extend(cmd(0x12)); // software reset
    expected.push(BusRecord::Ready);
    expected.extend(transaction(0x01, vec![0x27, 0x01, 0x00])); // output control: 295
    expected.extend(transaction(0x11, vec![0x03])); // data entry mode
    expected.extend(transaction(0x44, vec![0x00, 0x15])); // X range: 176 / 8 - 1
    expected.extend(transaction(0x45, vec![0x00, 0x00, 0x27, 0x01])); // Y range: 0..295
    expected.extend(transaction(0x3C, vec![0x05])); // border waveform
    expected.extend(transaction(0x21, vec![0x00, 0x80])); // update control 1
    expected.extend(transaction(0x18, vec![0x80])); // internal sensor
    expected.extend(transaction(0x4E, vec![0x00])); // X counter
    expected.extend(transaction(0x4F, vec![0x00, 0x00])); // Y counter
    expected.push(BusRecord::Ready);

    assert_eq!(iface.log(), &expected);
}

#[test]
fn init_software_reset_only_after_busy_clear() {
    let mut drv = fresh(DisplayConfig::default());
    drv.hw_init().unwrap();
    let iface = drv.free();
    let log = iface.log();

    // The first occurrence of the soft-reset opcode comes after the first
    // Ready that follows the reset pulse, and the counter resets come after
    // border waveform and update control 1.
    let pos = |op: u8| {
        log.iter().position(|r| matches!(r, BusRecord::Write(v) if v == &vec![op])).unwrap()
    };
    let first_ready = log.iter().position(|r| matches!(r, BusRecord::Ready)).unwrap();
    assert!(first_ready < pos(0x12));
    assert!(pos(0x3C) < pos(0x4E));
    assert!(pos(0x21) < pos(0x4E));
    assert!(pos(0x4E) < pos(0x4F));
}

#[test]
fn fill_screen_manual_counts_4736_bytes() {
    // 128 x 296 / 8 = 4736 data bytes of 0xFF for a white fill.
    let mut drv = fresh(DisplayConfig::epd_290_t94());
    drv.fill_bw_screen(true).unwrap();
    let iface = drv.free();
    let log = iface.log();

    let fills = log
        .iter()
        .filter(|r| matches!(r, BusRecord::Write(v) if v == &vec![0xFF]))
        .count();
    assert_eq!(fills, 4736);
    // Ready, then the write-RAM command, the fill bytes, the no-op, and the
    // final Ready.
    assert_eq!(log.len(), 1 + 3 + 2 * 4736 + 3 + 1);
    assert_eq!(log[0], BusRecord::Ready);
    assert_eq!(log[3], BusRecord::Write(vec![0x24]));
    assert_eq!(log[log.len() - 2], BusRecord::Write(vec![0x7F]));
    assert_eq!(log[log.len() - 1], BusRecord::Ready);
}

#[test]
fn fill_screen_manual_black_uses_zero_bytes() {
    let mut drv = fresh(DisplayConfig::epd_290_t94());
    drv.fill_bw_screen(false).unwrap();
    let iface = drv.free();
    let fills = iface
        .log()
        .iter()
        .filter(|r| matches!(r, BusRecord::Write(v) if v == &vec![0x00u8]))
        .count();
    assert_eq!(fills, 4736);
}

#[test]
fn fill_screen_internal_stream() {
    let mut drv = fresh(DisplayConfig::epd_290_t94());
    drv.fill_bw_screen_internal(true).unwrap();
    let iface = drv.free();
    let mut expected = vec![BusRecord::Ready];
    expected.extend(transaction(0x47, vec![0xE4]));
    expected.push(BusRecord::Ready);
    assert_eq!(iface.log(), &expected);
}

#[test]
fn deep_sleep_always_sends_mode_1() {
    // Fresh driver.
    let mut drv = fresh(DisplayConfig::default());
    drv.enter_deep_sleep().unwrap();
    let iface = drv.free();
    assert_eq!(iface.log(), &transaction(0x10, vec![0x01]));

    // And regardless of prior state.
    let mut drv = fresh(DisplayConfig::default());
    drv.hw_init().unwrap();
    drv.full_refresh().unwrap();
    drv.enter_deep_sleep().unwrap();
    let iface = drv.free();
    let log = iface.log();
    let tail = &log[log.len() - 5..];
    assert_eq!(tail, transaction(0x10, vec![0x01]).as_slice());
}

#[test]
fn lut_register_transfers_exactly_153_bytes() {
    let mut register = [0u8; 153];
    for (i, b) in register.iter_mut().enumerate() {
        *b = i as u8;
    }
    let mut drv = fresh(DisplayConfig::default());
    drv.write_lut_register(&register).unwrap();
    let iface = drv.free();
    let expected = transaction(0x32, register.to_vec());
    assert_eq!(iface.log(), &expected);
    match &iface.log()[4] {
        BusRecord::Write(v) => assert_eq!(v.len(), 153),
        other => panic!("unexpected record {:?}", other),
    }
}

#[test]
fn refresh_custom_sequence_stream() {
    let mut drv = fresh(DisplayConfig::default());
    drv.refresh_screen_custom_sequence(0xA5).unwrap();
    let iface = drv.free();
    let mut expected = transaction(0x22, vec![0xA5]);
    expected.extend(cmd(0x20));
    expected.push(BusRecord::Ready);
    assert_eq!(iface.log(), &expected);
}

#[test]
fn partial_and_full_refresh_use_configured_sequences() {
    let mut drv = fresh(DisplayConfig::default());
    drv.partial_refresh().unwrap();
    let iface = drv.free();
    assert_eq!(iface.log()[4], BusRecord::Write(vec![0xFC]));

    let mut drv = fresh(DisplayConfig::default());
    drv.full_refresh().unwrap();
    let iface = drv.free();
    assert_eq!(iface.log()[4], BusRecord::Write(vec![0xF7]));

    let config = DisplayConfig::default().with_partial_refresh_sequence(0x2A);
    let mut drv = fresh(config);
    drv.partial_refresh().unwrap();
    let iface = drv.free();
    assert_eq!(iface.log()[4], BusRecord::Write(vec![0x2A]));
}

#[test]
fn ram_writes_streams() {
    let mut drv = fresh(DisplayConfig::default());
    drv.write_bw_byte(0xAA).unwrap();
    drv.write_bw_bytes(&[1, 2, 3]).unwrap();
    drv.write_red_byte(0x55).unwrap();
    drv.write_red_bytes(&[4, 5]).unwrap();
    let iface = drv.free();
    let mut expected = transaction(0x24, vec![0xAA]);
    expected.extend(transaction(0x24, vec![1, 2, 3]));
    expected.extend(transaction(0x26, vec![0x55]));
    expected.extend(transaction(0x26, vec![4, 5]));
    assert_eq!(iface.log(), &expected);
}

#[test]
fn ram_counters_and_window_streams() {
    let mut drv = fresh(DisplayConfig::default());
    drv.set_ram_counter_x(0x0307).unwrap();
    drv.set_ram_counter_y(0x0102).unwrap();
    drv.set_ram_start_end_x(0, 21).unwrap();
    drv.set_ram_start_end_y(0, 295).unwrap();
    let iface = drv.free();
    let mut expected = transaction(0x4E, vec![0x07]);
    expected.extend(transaction(0x4F, vec![0x02, 0x01]));
    expected.extend(transaction(0x44, vec![0x00, 0x15]));
    expected.extend(transaction(0x45, vec![0x00, 0x00, 0x27, 0x01]));
    assert_eq!(iface.log(), &expected);
}

#[test]
fn temperature_sensor_streams() {
    let mut drv = fresh(DisplayConfig::default());
    drv.select_internal_temperature_sensor(true).unwrap();
    drv.select_internal_temperature_sensor(false).unwrap();
    let iface = drv.free();
    let mut expected = transaction(0x18, vec![0x80]);
    expected.extend(transaction(0x18, vec![0x48]));
    assert_eq!(iface.log(), &expected);
}

#[test]
fn read_ram_returns_second_byte() {
    let mut drv = SSD1680::new(RecordingInterface::new(0xAB), DisplayConfig::default());
    let byte = drv.read_ram().unwrap();
    assert_eq!(byte, 0xAB);
    let iface = drv.free();
    let mut expected = vec![BusRecord::Ready];
    expected.extend(cmd(0x27));
    expected.push(BusRecord::Read(vec![0xAB, 0xAB]));
    assert_eq!(iface.log(), &expected);
}

#[test]
fn init_with_external_sensor_and_custom_scan() {
    let config = DisplayConfig::default()
        .with_use_internal_temperature_sensor(false)
        .with_gate_scanning(true, true, true);
    let mut drv = fresh(config);
    drv.hw_init().unwrap();
    let iface = drv.free();
    let log = iface.log();
    // Output control carries all three scan direction flags; the sensor
    // byte is the external one.
    assert!(log.contains(&BusRecord::Write(vec![0x27, 0x01, 0x07])));
    assert!(log.contains(&BusRecord::Write(vec![0x48])));
}

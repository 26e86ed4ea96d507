use ssd1680::commands::SsdCommand;
use ssd1680::config::{LUTSelect, UpdateRamOption, VDBLevel, VDBMode};
use ssd1680::protocol;

#[test]
fn output_control_height_one() {
    // H = 1 encodes H - 1 = 0 in little-endian order.
    assert_eq!(protocol::output_control_data(1, false, false, false), vec![0x00, 0x00, 0x00]);
}

#[test]
fn output_control_height_296() {
    // 295 = 0x0127: low byte first.
    assert_eq!(protocol::output_control_data(296, false, false, false), vec![0x27, 0x01, 0x00]);
}

#[test]
fn output_control_height_zero_does_not_wrap() {
    assert_eq!(protocol::output_control_data(0, false, false, false), vec![0x00, 0x00, 0x00]);
}

#[test]
fn output_control_height_max() {
    // 65534 = 0xFFFE.
    assert_eq!(protocol::output_control_data(65535, false, false, false), vec![0xFE, 0xFF, 0x00]);
}

#[test]
fn output_control_gate_scanning_bits() {
    assert_eq!(protocol::output_control_data(1, false, false, true)[2], 0x01);
    assert_eq!(protocol::output_control_data(1, false, true, false)[2], 0x02);
    assert_eq!(protocol::output_control_data(1, true, false, false)[2], 0x04);
    assert_eq!(protocol::output_control_data(1, true, true, true)[2], 0x07);
}

#[test]
fn data_entry_mode_bits() {
    assert_eq!(protocol::data_entry_mode_byte(false, false, false), 0x00);
    assert_eq!(protocol::data_entry_mode_byte(true, false, false), 0x01);
    assert_eq!(protocol::data_entry_mode_byte(false, true, false), 0x02);
    assert_eq!(protocol::data_entry_mode_byte(true, true, false), 0x03);
    assert_eq!(protocol::data_entry_mode_byte(false, false, true), 0x04);
    assert_eq!(protocol::data_entry_mode_byte(true, true, true), 0x07);
}

#[test]
fn ram_x_range_truncates_to_low_byte() {
    assert_eq!(protocol::ram_x_range_data(0x1234, 0x00FF), vec![0x34, 0xFF]);
    assert_eq!(protocol::ram_x_range_data(0, 21), vec![0x00, 0x15]);
}

#[test]
fn ram_y_range_low_high_low_high() {
    assert_eq!(protocol::ram_y_range_data(0, 295), vec![0x00, 0x00, 0x27, 0x01]);
    assert_eq!(protocol::ram_y_range_data(0x1234, 0xABCD), vec![0x34, 0x12, 0xCD, 0xAB]);
}

#[test]
fn ram_y_range_always_four_bytes() {
    assert_eq!(protocol::ram_y_range_data(0, 0).len(), 4);
    assert_eq!(protocol::ram_y_range_data(0xFFFF, 0xFFFF).len(), 4);
}

#[test]
fn ram_counters() {
    assert_eq!(protocol::ram_x_counter_byte(0x0102), 0x02);
    assert_eq!(protocol::ram_y_counter_data(0x0102), vec![0x02, 0x01]);
    assert_eq!(protocol::ram_y_counter_data(0), vec![0x00, 0x00]);
}

#[test]
fn temperature_sensor_bytes() {
    assert_eq!(protocol::temperature_sensor_byte(true), 0x80);
    assert_eq!(protocol::temperature_sensor_byte(false), 0x48);
}

#[test]
fn border_waveform_all_variants() {
    assert_eq!(protocol::border_waveform_byte(VDBMode::VCOM), 0x80);
    assert_eq!(protocol::border_waveform_byte(VDBMode::HiZ), 0xC0);
    assert_eq!(protocol::border_waveform_byte(VDBMode::FixLevel(VDBLevel::VSS)), 0x10);
    assert_eq!(protocol::border_waveform_byte(VDBMode::FixLevel(VDBLevel::VSH1)), 0x10);
    assert_eq!(protocol::border_waveform_byte(VDBMode::FixLevel(VDBLevel::VSL)), 0x30);
    assert_eq!(protocol::border_waveform_byte(VDBMode::FixLevel(VDBLevel::VSH2)), 0x30);
    assert_eq!(protocol::border_waveform_byte(VDBMode::GSTransition(false, LUTSelect::LUT0)), 0x00);
    assert_eq!(protocol::border_waveform_byte(VDBMode::GSTransition(true, LUTSelect::LUT0)), 0x04);
    assert_eq!(protocol::border_waveform_byte(VDBMode::GSTransition(true, LUTSelect::LUT1)), 0x05);
    assert_eq!(protocol::border_waveform_byte(VDBMode::GSTransition(false, LUTSelect::LUT3)), 0x03);
    assert_eq!(protocol::border_waveform_byte(VDBMode::GSTransition(true, LUTSelect::LUT3)), 0x07);
}

#[test]
fn display_update_control_1_all_nine_pairs() {
    let options = [
        (UpdateRamOption::Normal, 0x0u8),
        (UpdateRamOption::Bypass0, 0x4u8),
        (UpdateRamOption::Inverse, 0x8u8),
    ];
    for &(red, red_code) in options.iter() {
        for &(bw, bw_code) in options.iter() {
            let data = protocol::display_update_control_1_data(red, bw, false);
            assert_eq!(data.len(), 2);
            assert_eq!(data[0], bw_code | (red_code << 4));
            assert_eq!(data[1], 0x00);
        }
    }
}

#[test]
fn display_update_control_1_source_output_mode_is_bit_7() {
    let data = protocol::display_update_control_1_data(
        UpdateRamOption::Normal,
        UpdateRamOption::Normal,
        true,
    );
    assert_eq!(data[1], 0x80);
    assert_eq!(data[1] & 0x7F, 0x00);
}

#[test]
fn auto_write_param_bytes() {
    assert_eq!(protocol::auto_write_param_byte(false), 0x64);
    assert_eq!(protocol::auto_write_param_byte(true), 0xE4);
}

#[test]
fn fill_color_bytes() {
    assert_eq!(protocol::fill_color_byte(false), 0x00);
    assert_eq!(protocol::fill_color_byte(true), 0xFF);
}

#[test]
fn lut_select_codes() {
    assert_eq!(LUTSelect::LUT0.into_u8(), 0x00);
    assert_eq!(LUTSelect::LUT1.into_u8(), 0x01);
    assert_eq!(LUTSelect::LUT2.into_u8(), 0x02);
    assert_eq!(LUTSelect::LUT3.into_u8(), 0x03);
}

#[test]
fn vdb_level_codes() {
    assert_eq!(VDBLevel::VSS.into_u8(), 0x00);
    assert_eq!(VDBLevel::VSH1.into_u8(), 0x10);
    assert_eq!(VDBLevel::VSL.into_u8(), 0x20);
    assert_eq!(VDBLevel::VSH2.into_u8(), 0x30);
}

#[test]
fn update_ram_option_codes() {
    assert_eq!(UpdateRamOption::Normal.into_u8(), 0x0);
    assert_eq!(UpdateRamOption::Bypass0.into_u8(), 0x4);
    assert_eq!(UpdateRamOption::Inverse.into_u8(), 0x8);
}

#[test]
fn command_opcodes() {
    assert_eq!(SsdCommand::DriveOutputControl.into_u8(), 0x01);
    assert_eq!(SsdCommand::DeepSleepMode.into_u8(), 0x10);
    assert_eq!(SsdCommand::DataEntryModeSetting.into_u8(), 0x11);
    assert_eq!(SsdCommand::SWReset.into_u8(), 0x12);
    assert_eq!(SsdCommand::TemperatureSensorControl.into_u8(), 0x18);
    assert_eq!(SsdCommand::MasterActivation.into_u8(), 0x20);
    assert_eq!(SsdCommand::DisplayUpdateControl1.into_u8(), 0x21);
    assert_eq!(SsdCommand::DisplayUpdateControl2.into_u8(), 0x22);
    assert_eq!(SsdCommand::WriteRamBW.into_u8(), 0x24);
    assert_eq!(SsdCommand::WriteRamRed.into_u8(), 0x26);
    assert_eq!(SsdCommand::ReadRam.into_u8(), 0x27);
    assert_eq!(SsdCommand::WriteLutRegister.into_u8(), 0x32);
    assert_eq!(SsdCommand::BorderWaveformControl.into_u8(), 0x3C);
    assert_eq!(SsdCommand::SetRamXStartEnd.into_u8(), 0x44);
    assert_eq!(SsdCommand::SetRamYStartEnd.into_u8(), 0x45);
    assert_eq!(SsdCommand::AutoWriteBWRam.into_u8(), 0x47);
    assert_eq!(SsdCommand::SetRamXCounter.into_u8(), 0x4E);
    assert_eq!(SsdCommand::SetRamYCounter.into_u8(), 0x4F);
    assert_eq!(SsdCommand::Nop.into_u8(), 0x7F);
}

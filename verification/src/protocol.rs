use vstd::prelude::*;

use crate::commands::SsdCommand;
use crate::config::{DisplayConfig, UpdateRamOption, VDBLevel, VDBMode};
use crate::interface::BusEvent;

verus! {

/// Parameter byte selecting deep sleep mode 1.
pub const DEEP_SLEEP_MODE_1: u8 = 0x01;

/// A boolean as the one-bit value the chip's registers hold for it.
pub open spec fn spec_bit(b: bool) -> u8 {
    if b {
        1
    } else {
        0
    }
}

// ---------------------------------------------------------------------------
// Byte layouts: the pure encoding of each operation's parameters.
// ---------------------------------------------------------------------------

/// The height field of drive output control: H - 1, except that a height of
/// 0 is encoded as 0 rather than wrapping.
pub open spec fn spec_effective_height(height: u16) -> u16 {
    if height == 0 {
        0
    } else {
        (height - 1) as u16
    }
}

/// Gate scanning byte: tb in bit 0, sm in bit 1, gd in bit 2.
pub open spec fn spec_gate_scanning_byte(gd: bool, sm: bool, tb: bool) -> u8 {
    (spec_bit(tb) + 2 * spec_bit(sm) + 4 * spec_bit(gd)) as u8
}

/// Drive output control data: the effective height as a little-endian
/// 16-bit value, then one byte of scan direction flags.
pub open spec fn spec_output_control_data(height: u16, gd: bool, sm: bool, tb: bool) -> Seq<u8> {
    seq![
        (spec_effective_height(height) % 256) as u8,
        (spec_effective_height(height) / 256) as u8,
        spec_gate_scanning_byte(gd, sm, tb),
    ]
}

pub fn output_control_data(height: u16, gd: bool, sm: bool, tb: bool) -> (r: Vec<u8>)
    ensures
        r@ == spec_output_control_data(height, gd, sm, tb),
{
    let h: u16 = if height == 0 {
        0
    } else {
        height - 1
    };
    let gate_scanning: u8 = (if tb {
        1u8
    } else {
        0u8
    }) + (if sm {
        2u8
    } else {
        0u8
    }) + (if gd {
        4u8
    } else {
        0u8
    });
    let mut r: Vec<u8> = Vec::new();
    r.push((h % 256) as u8);
    r.push((h / 256) as u8);
    r.push(gate_scanning);
    proof {
        assert(r@ =~= spec_output_control_data(height, gd, sm, tb));
    }
    r
}

/// Data entry mode byte: x-increment in bit 0, y-increment in bit 1,
/// counter direction in bit 2.
pub open spec fn spec_data_entry_mode_byte(x: bool, y: bool, direction: bool) -> u8 {
    (spec_bit(x) + 2 * spec_bit(y) + 4 * spec_bit(direction)) as u8
}

pub fn data_entry_mode_byte(x: bool, y: bool, direction: bool) -> (r: u8)
    ensures
        r == spec_data_entry_mode_byte(x, y, direction),
{
    (if x {
        1u8
    } else {
        0u8
    }) + (if y {
        2u8
    } else {
        0u8
    }) + (if direction {
        4u8
    } else {
        0u8
    })
}

/// RAM X start/end data: each address truncated to its low 8 bits
/// (addresses are column-granular).
pub open spec fn spec_ram_x_range_data(start: u16, end: u16) -> Seq<u8> {
    seq![(start % 256) as u8, (end % 256) as u8]
}

pub fn ram_x_range_data(start: u16, end: u16) -> (r: Vec<u8>)
    ensures
        r@ == spec_ram_x_range_data(start, end),
{
    let mut r: Vec<u8> = Vec::new();
    r.push((start % 256) as u8);
    r.push((end % 256) as u8);
    proof {
        assert(r@ =~= spec_ram_x_range_data(start, end));
    }
    r
}

/// RAM Y start/end data: start low, start high, end low, end high
/// (row-granular, full 16-bit range).
pub open spec fn spec_ram_y_range_data(start: u16, end: u16) -> Seq<u8> {
    seq![
        (start % 256) as u8,
        (start / 256) as u8,
        (end % 256) as u8,
        (end / 256) as u8,
    ]
}

pub fn ram_y_range_data(start: u16, end: u16) -> (r: Vec<u8>)
    ensures
        r@ == spec_ram_y_range_data(start, end),
{
    let mut r: Vec<u8> = Vec::new();
    r.push((start % 256) as u8);
    r.push((start / 256) as u8);
    r.push((end % 256) as u8);
    r.push((end / 256) as u8);
    proof {
        assert(r@ =~= spec_ram_y_range_data(start, end));
    }
    r
}

/// RAM X counter byte: the bank position, truncated to 8 bits.
pub open spec fn spec_ram_x_counter_byte(x: u16) -> u8 {
    (x % 256) as u8
}

pub fn ram_x_counter_byte(x: u16) -> (r: u8)
    ensures
        r == spec_ram_x_counter_byte(x),
{
    (x % 256) as u8
}

/// RAM Y counter data: the row position as a little-endian 16-bit value.
pub open spec fn spec_ram_y_counter_data(y: u16) -> Seq<u8> {
    seq![(y % 256) as u8, (y / 256) as u8]
}

pub fn ram_y_counter_data(y: u16) -> (r: Vec<u8>)
    ensures
        r@ == spec_ram_y_counter_data(y),
{
    let mut r: Vec<u8> = Vec::new();
    r.push((y % 256) as u8);
    r.push((y / 256) as u8);
    proof {
        assert(r@ =~= spec_ram_y_counter_data(y));
    }
    r
}

/// Temperature sensor select byte: 0x80 for the internal sensor, 0x48 for
/// the external one.  These are chip-fixed constants, not derived.
pub open spec fn spec_temperature_sensor_byte(internal: bool) -> u8 {
    if internal {
        0x80
    } else {
        0x48
    }
}

pub fn temperature_sensor_byte(internal: bool) -> (r: u8)
    ensures
        r == spec_temperature_sensor_byte(internal),
{
    if internal {
        0x80
    } else {
        0x48
    }
}

/// Border waveform control byte, one encoding path per variant:
/// VCOM is 0x80, HiZ is 0xC0, a fixed level is 0x10 | level code, and a
/// GS transition is the follow-LUT bit in bit 2 over the LUT bank code.
pub open spec fn spec_border_waveform_byte(mode: VDBMode) -> u8 {
    match mode {
        VDBMode::VCOM => 0x80,
        VDBMode::HiZ => 0xC0,
        VDBMode::FixLevel(level) => 0x10 | level.spec_u8(),
        VDBMode::GSTransition(follow_lut, lut) => (4 * spec_bit(follow_lut) + lut.spec_u8()) as u8,
    }
}

pub fn border_waveform_byte(mode: VDBMode) -> (r: u8)
    ensures
        r == spec_border_waveform_byte(mode),
{
    match mode {
        VDBMode::VCOM => 0x80,
        VDBMode::HiZ => 0xC0,
        VDBMode::FixLevel(level) => 0x10 | level.into_u8(),
        VDBMode::GSTransition(follow_lut, lut) => (if follow_lut {
            4u8
        } else {
            0u8
        }) + lut.into_u8(),
    }
}

/// Display update control 1 data: byte 0 holds the black/white plane option
/// in its low nibble and the red plane option in its high nibble; byte 1
/// holds the source output mode flag in bit 7 and nothing else.
pub open spec fn spec_display_update_control_1_data(
    red: UpdateRamOption,
    bw: UpdateRamOption,
    source_output_mode: bool,
) -> Seq<u8> {
    seq![
        (bw.spec_u8() + 16 * red.spec_u8()) as u8,
        (128 * spec_bit(source_output_mode)) as u8,
    ]
}

pub fn display_update_control_1_data(
    red: UpdateRamOption,
    bw: UpdateRamOption,
    source_output_mode: bool,
) -> (r: Vec<u8>)
    ensures
        r@ == spec_display_update_control_1_data(red, bw, source_output_mode),
{
    let first_byte: u8 = bw.into_u8() + 16 * red.into_u8();
    let second_byte: u8 = if source_output_mode {
        0x80
    } else {
        0x00
    };
    let mut r: Vec<u8> = Vec::new();
    r.push(first_byte);
    r.push(second_byte);
    proof {
        assert(r@ =~= spec_display_update_control_1_data(red, bw, source_output_mode));
    }
    r
}

/// Auto-write parameter byte: the fill color in bit 7 over the fixed
/// pattern 0x64 for the default 296 x 128 geometry.
pub open spec fn spec_auto_write_param_byte(color: bool) -> u8 {
    (128 * spec_bit(color) + 0x64) as u8
}

pub fn auto_write_param_byte(color: bool) -> (r: u8)
    ensures
        r == spec_auto_write_param_byte(color),
{
    (if color {
        0x80u8
    } else {
        0x00u8
    }) + 0x64
}

/// The byte the manual fill writes for each group of eight pixels: all ones
/// for white, all zeros for black.
pub open spec fn spec_fill_color_byte(color: bool) -> u8 {
    if color {
        0xFF
    } else {
        0x00
    }
}

pub fn fill_color_byte(color: bool) -> (r: u8)
    ensures
        r == spec_fill_color_byte(color),
{
    if color {
        0xFF
    } else {
        0x00
    }
}

// ---------------------------------------------------------------------------
// Transactions: what each logical operation leaves on the bus trace.
// ---------------------------------------------------------------------------

/// Issuing one command: the chip is seen idle, command mode is selected,
/// and the single opcode byte is written.
pub open spec fn command_events(c: SsdCommand) -> Seq<BusEvent> {
    seq![BusEvent::Ready, BusEvent::Select(false), BusEvent::Write(seq![c.spec_u8()])]
}

/// Sending one data payload: data mode is selected and the bytes are
/// written.
pub open spec fn data_events(data: Seq<u8>) -> Seq<BusEvent> {
    seq![BusEvent::Select(true), BusEvent::Write(data)]
}

/// One whole transaction: the opcode, then its parameter bytes.
pub open spec fn transaction_events(c: SsdCommand, data: Seq<u8>) -> Seq<BusEvent> {
    command_events(c) + data_events(data)
}

/// n one-byte data payloads of the same byte, as the manual fill loop
/// issues them.
pub open spec fn repeated_byte_events(b: u8, n: nat) -> Seq<BusEvent>
    decreases n,
{
    if n == 0 {
        Seq::empty()
    } else {
        repeated_byte_events(b, (n - 1) as nat) + data_events(seq![b])
    }
}

/// The manual fill's data stream holds exactly n one-byte payloads of the
/// fill byte: 2 n events, alternating a data select and a one-byte write.
pub proof fn lemma_repeated_byte_events_layout(b: u8, n: nat)
    ensures
        repeated_byte_events(b, n).len() == 2 * n,
        forall|i: int|
            0 <= i < n ==> #[trigger] repeated_byte_events(b, n)[2 * i] == BusEvent::Select(true)
                && repeated_byte_events(b, n)[2 * i + 1] == BusEvent::Write(seq![b]),
    decreases n,
{
    if n > 0 {
        lemma_repeated_byte_events_layout(b, (n - 1) as nat);
    }
}

/// A refresh: display update control 2 with the chosen sequence, master
/// activation, then a wait for the (long-running) refresh to complete.
pub open spec fn refresh_events(sequence: u8) -> Seq<BusEvent> {
    transaction_events(SsdCommand::DisplayUpdateControl2, seq![sequence]) + command_events(
        SsdCommand::MasterActivation,
    ) + seq![BusEvent::Ready]
}

/// The manual fill: one write-RAM command, then width * height / 8 single
/// fill bytes, a no-op, and a final wait.
pub open spec fn fill_screen_events(width: u16, height: u16, color: bool) -> Seq<BusEvent> {
    seq![BusEvent::Ready] + command_events(SsdCommand::WriteRamBW) + repeated_byte_events(
        spec_fill_color_byte(color),
        (width * height / 8) as nat,
    ) + command_events(SsdCommand::Nop) + seq![BusEvent::Ready]
}

/// The hardware-assisted fill: the auto-write command with its fixed
/// parameter byte, bracketed by waits.
pub open spec fn fill_screen_internal_events(color: bool) -> Seq<BusEvent> {
    seq![BusEvent::Ready] + transaction_events(
        SsdCommand::AutoWriteBWRam,
        seq![spec_auto_write_param_byte(color)],
    ) + seq![BusEvent::Ready]
}

/// A RAM readback: a wait, the read command, then a two-byte transfer whose
/// first byte is dummy data.
pub open spec fn read_ram_events(data: Seq<u8>) -> Seq<BusEvent> {
    seq![BusEvent::Ready] + command_events(SsdCommand::ReadRam) + seq![BusEvent::Read(data)]
}

/// The whole initialization sequence, in its mandated order: the physical
/// reset pulse with its two holds, a wait, the software reset, a wait, then
/// output control, data entry mode, the RAM X and Y windows (the X window
/// in column-byte units: width / 8 - 1), border waveform, display update
/// control 1, temperature sensor select, both RAM counters zeroed, and a
/// final wait.
pub open spec fn init_events(c: DisplayConfig) -> Seq<BusEvent> {
    seq![
        BusEvent::Reset(false),
        BusEvent::Delay(20),
        BusEvent::Reset(true),
        BusEvent::Delay(20),
        BusEvent::Ready,
    ] + command_events(SsdCommand::SWReset) + seq![BusEvent::Ready] + transaction_events(
        SsdCommand::DriveOutputControl,
        spec_output_control_data(c.height, c.gate_scanning_gd, c.gate_scanning_sm, c.gate_scanning_tb),
    ) + transaction_events(
        SsdCommand::DataEntryModeSetting,
        seq![spec_data_entry_mode_byte(true, true, false)],
    ) + transaction_events(
        SsdCommand::SetRamXStartEnd,
        spec_ram_x_range_data(0, (c.width / 8 - 1) as u16),
    ) + transaction_events(
        SsdCommand::SetRamYStartEnd,
        spec_ram_y_range_data(0, (c.height - 1) as u16),
    ) + transaction_events(
        SsdCommand::BorderWaveformControl,
        seq![spec_border_waveform_byte(c.border_waveform_control)],
    ) + transaction_events(
        SsdCommand::DisplayUpdateControl1,
        spec_display_update_control_1_data(
            c.ram_content_for_display_update,
            c.ram_content_for_display_update,
            c.s8_source_output_mode,
        ),
    ) + transaction_events(
        SsdCommand::TemperatureSensorControl,
        seq![spec_temperature_sensor_byte(c.use_internal_temperature_sensor)],
    ) + transaction_events(SsdCommand::SetRamXCounter, seq![spec_ram_x_counter_byte(0)])
        + transaction_events(SsdCommand::SetRamYCounter, spec_ram_y_counter_data(0)) + seq![
        BusEvent::Ready,
    ]
}

// ---------------------------------------------------------------------------
// Laws of the encodings.
// ---------------------------------------------------------------------------

/// For every height H >= 1, the first two output-control bytes hold H - 1
/// as a little-endian 16-bit value; a height of 0 is encoded as 0 rather
/// than wrapping.
pub proof fn lemma_output_control_height(height: u16, gd: bool, sm: bool, tb: bool)
    ensures
        spec_output_control_data(height, gd, sm, tb).len() == 3,
        height >= 1 ==> spec_output_control_data(height, gd, sm, tb)[0] + 256
            * spec_output_control_data(height, gd, sm, tb)[1] == height - 1,
        height == 0 ==> spec_output_control_data(height, gd, sm, tb)[0] == 0
            && spec_output_control_data(height, gd, sm, tb)[1] == 0,
{
    let h = spec_effective_height(height);
    vstd::arithmetic::div_mod::lemma_fundamental_div_mod(h as int, 256);
}

/// RAM Y start/end always encodes to exactly 4 bytes in low/high, low/high
/// order: both 16-bit inputs are recoverable from them.
pub proof fn lemma_ram_y_range_round_trip(start: u16, end: u16)
    ensures
        spec_ram_y_range_data(start, end).len() == 4,
        spec_ram_y_range_data(start, end)[0] + 256 * spec_ram_y_range_data(start, end)[1]
            == start,
        spec_ram_y_range_data(start, end)[2] + 256 * spec_ram_y_range_data(start, end)[3] == end,
{
    vstd::arithmetic::div_mod::lemma_fundamental_div_mod(start as int, 256);
    vstd::arithmetic::div_mod::lemma_fundamental_div_mod(end as int, 256);
}

/// For all nine option pairs, byte 0 of display update control 1 carries
/// the black/white option in its low nibble and the red option in its high
/// nibble, and byte 1 has only bit 7 set, exactly when the source output
/// mode flag is set.
pub proof fn lemma_display_update_control_1_decomposes(
    red: UpdateRamOption,
    bw: UpdateRamOption,
    source_output_mode: bool,
)
    ensures
        spec_display_update_control_1_data(red, bw, source_output_mode).len() == 2,
        spec_display_update_control_1_data(red, bw, source_output_mode)[0] % 16 == bw.spec_u8(),
        spec_display_update_control_1_data(red, bw, source_output_mode)[0] / 16 == red.spec_u8(),
        spec_display_update_control_1_data(red, bw, source_output_mode)[1] == if source_output_mode {
            0x80u8
        } else {
            0x00u8
        },
{
    let b0 = spec_display_update_control_1_data(red, bw, source_output_mode)[0];
    vstd::arithmetic::div_mod::lemma_fundamental_div_mod_converse(
        b0 as int,
        16,
        red.spec_u8() as int,
        bw.spec_u8() as int,
    );
}

/// Every border waveform byte lies in the band its variant owns: 0x80 for
/// VCOM, 0xC0 for HiZ, 0x10 or 0x30 for a fixed level, and at most 0x07 for
/// a GS transition.
pub proof fn lemma_border_waveform_byte_shape(m: VDBMode)
    ensures
        m is VCOM ==> spec_border_waveform_byte(m) == 0x80,
        m is HiZ ==> spec_border_waveform_byte(m) == 0xC0,
        m is FixLevel ==> (spec_border_waveform_byte(m) == 0x10 || spec_border_waveform_byte(m)
            == 0x30),
        m is GSTransition ==> spec_border_waveform_byte(m) <= 0x07,
{
    match m {
        VDBMode::FixLevel(level) => {
            match level {
                VDBLevel::VSS => {
                    assert(0x10u8 | 0x00u8 == 0x10u8) by (bit_vector);
                },
                VDBLevel::VSH1 => {
                    assert(0x10u8 | 0x10u8 == 0x10u8) by (bit_vector);
                },
                VDBLevel::VSL => {
                    assert(0x10u8 | 0x20u8 == 0x30u8) by (bit_vector);
                },
                VDBLevel::VSH2 => {
                    assert(0x10u8 | 0x30u8 == 0x30u8) by (bit_vector);
                },
            }
        },
        _ => {},
    }
}

/// The border waveform byte determines the variant: the bands of the four
/// variants never overlap.  (Within the fix-level variant two pairs of
/// levels share a byte, so only the variant, not the level, is recoverable
/// from it.)
pub proof fn lemma_border_waveform_byte_discriminates(m1: VDBMode, m2: VDBMode)
    ensures
        spec_border_waveform_byte(m1) == spec_border_waveform_byte(m2) ==> ((m1 is VCOM <==> m2
            is VCOM) && (m1 is HiZ <==> m2 is HiZ) && (m1 is FixLevel <==> m2 is FixLevel) && (m1
            is GSTransition <==> m2 is GSTransition)),
{
    lemma_border_waveform_byte_shape(m1);
    lemma_border_waveform_byte_shape(m2);
}

/// Within the GS transition variant the encoding is injective: the follow
/// flag and the LUT bank are both recoverable from the byte.
pub proof fn lemma_border_waveform_byte_gs_transition_injective(m1: VDBMode, m2: VDBMode)
    requires
        m1 is GSTransition,
        m2 is GSTransition,
        spec_border_waveform_byte(m1) == spec_border_waveform_byte(m2),
    ensures
        m1 == m2,
{
}

} // verus!

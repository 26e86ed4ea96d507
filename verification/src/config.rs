use vstd::prelude::*;

verus! {

/// Waveform look-up-table bank selector, bits 1:0 of the border waveform
/// control register.
#[derive(Clone, Copy, Debug, PartialEq, Eq, Structural)]
pub enum LUTSelect {
    LUT0,
    LUT1,
    LUT2,
    LUT3,
}

impl LUTSelect {
    /// The two-bit code the chip assigns to this bank.
    pub open spec fn spec_u8(self) -> u8 {
        match self {
            LUTSelect::LUT0 => 0x00,
            LUTSelect::LUT1 => 0x01,
            LUTSelect::LUT2 => 0x02,
            LUTSelect::LUT3 => 0x03,
        }
    }

    pub fn into_u8(&self) -> (r: u8)
        ensures
            r == self.spec_u8(),
    {
        match self {
            LUTSelect::LUT0 => 0x00,
            LUTSelect::LUT1 => 0x01,
            LUTSelect::LUT2 => 0x02,
            LUTSelect::LUT3 => 0x03,
        }
    }
}

/// In border waveform control, bits 4 and 5: the fixed voltage level driven
/// on the border when the fix-level mode is selected.
#[derive(Clone, Copy, Debug, PartialEq, Eq, Structural)]
pub enum VDBLevel {
    VSS,
    VSH1,
    VSL,
    VSH2,
}

impl VDBLevel {
    /// The code of this level, already placed in bits 4 and 5.
    pub open spec fn spec_u8(self) -> u8 {
        match self {
            VDBLevel::VSS => 0x00,
            VDBLevel::VSH1 => 0x10,
            VDBLevel::VSL => 0x20,
            VDBLevel::VSH2 => 0x30,
        }
    }

    pub fn into_u8(&self) -> (r: u8)
        ensures
            r == self.spec_u8(),
    {
        match self {
            VDBLevel::VSS => 0x00,
            VDBLevel::VSH1 => 0x10,
            VDBLevel::VSL => 0x20,
            VDBLevel::VSH2 => 0x30,
        }
    }
}

/// The border waveform mode: exactly one variant is active at a time.
#[derive(Clone, Copy, Debug, PartialEq, Eq, Structural)]
pub enum VDBMode {
    /// GSTransition( follow_lut (false is "output VCOM @ RED"), lut_select )
    GSTransition(bool, LUTSelect),
    FixLevel(VDBLevel),
    VCOM,
    HiZ,
}

/// How the RAM content of a plane enters the display update, one option per
/// plane in display update control 1.
#[derive(Clone, Copy, Debug, PartialEq, Eq, Structural)]
pub enum UpdateRamOption {
    Normal,
    /// Bypass RAM content as 0
    Bypass0,
    /// Inverse RAM content
    Inverse,
}

impl UpdateRamOption {
    /// The option's code as it stands in the low nibble of the register.
    pub open spec fn spec_u8(self) -> u8 {
        match self {
            UpdateRamOption::Normal => 0x0,
            UpdateRamOption::Bypass0 => 0x4,
            UpdateRamOption::Inverse => 0x8,
        }
    }

    pub fn into_u8(&self) -> (r: u8)
        ensures
            r == self.spec_u8(),
    {
        match self {
            UpdateRamOption::Normal => 0x0,
            UpdateRamOption::Bypass0 => 0x4,
            UpdateRamOption::Inverse => 0x8,
        }
    }
}

/// Display geometry and the electrical and waveform parameters that the
/// initialization sequence writes into the chip's registers.
#[derive(Clone, Copy, Debug, PartialEq, Eq, Structural)]
pub struct DisplayConfig {
    pub width: u16,
    pub height: u16,

    // gate scanning sequence :
    pub gate_scanning_gd: bool,
    pub gate_scanning_sm: bool,
    pub gate_scanning_tb: bool,

    // which sequence to use to refresh (command 0x22)
    pub partial_refresh_sequence: u8,
    pub full_refresh_sequence: u8,

    pub border_waveform_control: VDBMode,

    // display update control 1
    pub ram_content_for_display_update: UpdateRamOption,
    pub s8_source_output_mode: bool,

    pub use_internal_temperature_sensor: bool,
}

impl DisplayConfig {
    /// The defaults: the full 176 x 296 RAM, black/white refresh sequences of
    /// the 2.9" panels, border following LUT1, and the internal sensor.
    pub open spec fn spec_default() -> DisplayConfig {
        DisplayConfig {
            width: 176,
            height: 296,
            gate_scanning_gd: false,
            gate_scanning_sm: false,
            gate_scanning_tb: false,
            partial_refresh_sequence: 0xFC,
            full_refresh_sequence: 0xF7,
            border_waveform_control: VDBMode::GSTransition(true, LUTSelect::LUT1),
            ram_content_for_display_update: UpdateRamOption::Normal,
            s8_source_output_mode: true,
            use_internal_temperature_sensor: true,
        }
    }
}

/// Sensible defaults using the full ram
impl Default for DisplayConfig {
    fn default() -> (r: Self)
        ensures
            r == DisplayConfig::spec_default(),
    {
        DisplayConfig {
            width: 176,
            height: 296,
            gate_scanning_gd: false,
            gate_scanning_sm: false,
            gate_scanning_tb: false,
            partial_refresh_sequence: 0xFC,
            full_refresh_sequence: 0xF7,
            border_waveform_control: VDBMode::GSTransition(true, LUTSelect::LUT1),
            ram_content_for_display_update: UpdateRamOption::Normal,
            s8_source_output_mode: true,
            use_internal_temperature_sensor: true,
        }
    }
}

impl DisplayConfig {
    /// Default config for EPD 2.9" T94
    pub fn epd_290_t94() -> (r: Self)
        ensures
            r == (DisplayConfig { width: 128, height: 296, ..DisplayConfig::spec_default() }),
    {
        DisplayConfig::default().with_width(128).with_height(296)
    }

    pub fn with_width(self, width: u16) -> (r: Self)
        ensures
            r == (DisplayConfig { width, ..self }),
    {
        DisplayConfig { width, ..self }
    }

    pub fn with_height(self, height: u16) -> (r: Self)
        ensures
            r == (DisplayConfig { height, ..self }),
    {
        DisplayConfig { height, ..self }
    }

    pub fn with_gate_scanning(self, gd: bool, sm: bool, tb: bool) -> (r: Self)
        ensures
            r == (DisplayConfig {
                gate_scanning_gd: gd,
                gate_scanning_sm: sm,
                gate_scanning_tb: tb,
                ..self
            }),
    {
        DisplayConfig {
            gate_scanning_gd: gd,
            gate_scanning_sm: sm,
            gate_scanning_tb: tb,
            ..self
        }
    }

    pub fn with_border_waveform_control(self, mode: VDBMode) -> (r: Self)
        ensures
            r == (DisplayConfig { border_waveform_control: mode, ..self }),
    {
        DisplayConfig { border_waveform_control: mode, ..self }
    }

    pub fn with_partial_refresh_sequence(self, sequence: u8) -> (r: Self)
        ensures
            r == (DisplayConfig { partial_refresh_sequence: sequence, ..self }),
    {
        DisplayConfig { partial_refresh_sequence: sequence, ..self }
    }

    pub fn with_full_refresh_sequence(self, sequence: u8) -> (r: Self)
        ensures
            r == (DisplayConfig { full_refresh_sequence: sequence, ..self }),
    {
        DisplayConfig { full_refresh_sequence: sequence, ..self }
    }

    pub fn with_ram_content_for_display_update(
        self,
        option: UpdateRamOption,
        s8_source_output_mode: bool,
    ) -> (r: Self)
        ensures
            r == (DisplayConfig {
                ram_content_for_display_update: option,
                s8_source_output_mode,
                ..self
            }),
    {
        DisplayConfig {
            ram_content_for_display_update: option,
            s8_source_output_mode,
            ..self
        }
    }

    pub fn with_use_internal_temperature_sensor(self, internal: bool) -> (r: Self)
        ensures
            r == (DisplayConfig { use_internal_temperature_sensor: internal, ..self }),
    {
        DisplayConfig { use_internal_temperature_sensor: internal, ..self }
    }
}

} // verus!

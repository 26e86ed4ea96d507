use vstd::prelude::*;

verus! {

/// The chip's command table: each logical operation maps to exactly one
/// opcode byte.  The mapping is a permanent chip contract and is never
/// computed at runtime.
#[derive(Clone, Copy, Debug, PartialEq, Eq, Structural)]
pub enum SsdCommand {
    DriveOutputControl,
    DeepSleepMode,
    DataEntryModeSetting,
    SWReset,
    TemperatureSensorControl,
    MasterActivation,
    DisplayUpdateControl1,
    DisplayUpdateControl2,
    WriteRamBW,
    WriteRamRed,
    ReadRam,
    WriteLutRegister,
    BorderWaveformControl,
    SetRamXStartEnd,
    SetRamYStartEnd,
    AutoWriteBWRam,
    SetRamXCounter,
    SetRamYCounter,
    Nop,
}

impl SsdCommand {
    /// The opcode byte of this command.
    pub open spec fn spec_u8(self) -> u8 {
        match self {
            SsdCommand::DriveOutputControl => 0x01,
            SsdCommand::DeepSleepMode => 0x10,
            SsdCommand::DataEntryModeSetting => 0x11,
            SsdCommand::SWReset => 0x12,
            SsdCommand::TemperatureSensorControl => 0x18,
            SsdCommand::MasterActivation => 0x20,
            SsdCommand::DisplayUpdateControl1 => 0x21,
            SsdCommand::DisplayUpdateControl2 => 0x22,
            SsdCommand::WriteRamBW => 0x24,
            SsdCommand::WriteRamRed => 0x26,
            SsdCommand::ReadRam => 0x27,
            SsdCommand::WriteLutRegister => 0x32,
            SsdCommand::BorderWaveformControl => 0x3C,
            SsdCommand::SetRamXStartEnd => 0x44,
            SsdCommand::SetRamYStartEnd => 0x45,
            SsdCommand::AutoWriteBWRam => 0x47,
            SsdCommand::SetRamXCounter => 0x4E,
            SsdCommand::SetRamYCounter => 0x4F,
            SsdCommand::Nop => 0x7F,
        }
    }

    pub fn into_u8(&self) -> (r: u8)
        ensures
            r == self.spec_u8(),
    {
        match self {
            SsdCommand::DriveOutputControl => 0x01,
            SsdCommand::DeepSleepMode => 0x10,
            SsdCommand::DataEntryModeSetting => 0x11,
            SsdCommand::SWReset => 0x12,
            SsdCommand::TemperatureSensorControl => 0x18,
            SsdCommand::MasterActivation => 0x20,
            SsdCommand::DisplayUpdateControl1 => 0x21,
            SsdCommand::DisplayUpdateControl2 => 0x22,
            SsdCommand::WriteRamBW => 0x24,
            SsdCommand::WriteRamRed => 0x26,
            SsdCommand::ReadRam => 0x27,
            SsdCommand::WriteLutRegister => 0x32,
            SsdCommand::BorderWaveformControl => 0x3C,
            SsdCommand::SetRamXStartEnd => 0x44,
            SsdCommand::SetRamYStartEnd => 0x45,
            SsdCommand::AutoWriteBWRam => 0x47,
            SsdCommand::SetRamXCounter => 0x4E,
            SsdCommand::SetRamYCounter => 0x4F,
            SsdCommand::Nop => 0x7F,
        }
    }
}

} // verus!

use vstd::prelude::*;

use crate::commands::SsdCommand;
use crate::config::{DisplayConfig, UpdateRamOption, VDBMode};
use crate::error::Error;
use crate::interface::{BusEvent, DisplayInterface};
use crate::protocol;
use crate::protocol::{
    command_events, data_events, fill_screen_events, fill_screen_internal_events, init_events,
    read_ram_events, refresh_events, repeated_byte_events, spec_border_waveform_byte,
    spec_data_entry_mode_byte, spec_display_update_control_1_data, spec_fill_color_byte,
    spec_output_control_data, spec_ram_x_counter_byte, spec_ram_x_range_data,
    spec_ram_y_counter_data, spec_ram_y_range_data, spec_temperature_sensor_byte,
    transaction_events, DEEP_SLEEP_MODE_1,
};

verus! {

/// The driver's error for a given transport: one kind per capability.
pub type IfaceError<I> = Error<
    <I as DisplayInterface>::SpiError,
    <I as DisplayInterface>::RstError,
    <I as DisplayInterface>::DcError,
    <I as DisplayInterface>::BusyError,
>;

/// The connection with the display's controller chip: a transport plus the
/// configuration that parameterizes initialization.  Every operation's
/// contract pins the bus events it appends to the transport's trace.
pub struct SSD1680<I: DisplayInterface> {
    iface: I,
    config: DisplayConfig,
}

impl<I: DisplayInterface> SSD1680<I> {
    /// The transport's ghost trace as this driver has extended it.
    pub closed spec fn events(&self) -> Seq<BusEvent> {
        self.iface.events()
    }

    /// The configuration this driver was built with.
    pub closed spec fn spec_config(&self) -> DisplayConfig {
        self.config
    }

    /// Whether the underlying transport is one that cannot fail.
    pub closed spec fn infallible(&self) -> bool {
        self.iface.infallible()
    }

    pub fn new(iface: I, config: DisplayConfig) -> (r: Self)
        ensures
            r.spec_config() == config,
            r.infallible() == iface.infallible(),
            r.events() == iface.events(),
    {
        SSD1680 { iface, config }
    }

    /// Consume the driver and hand the transport back.
    pub fn free(self) -> (r: I)
        ensures
            r.events() == self.events(),
            r.infallible() == self.infallible(),
    {
        self.iface
    }

    /// Wait until the busy pin is low, meaning the chip is ready to receive
    /// new commands or data.
    pub fn wait_for_busy(&mut self) -> (r: Result<(), IfaceError<I>>)
        ensures
            final(self).spec_config() == old(self).spec_config(),
            final(self).infallible() == old(self).infallible(),
            old(self).infallible() ==> r is Ok,
            match r {
                Ok(()) => final(self).events() == old(self).events().push(BusEvent::Ready),
                Err(e) => final(self).events() == old(self).events() && e is BusyPinError,
            },
    {
        match self.iface.wait_while_busy() {
            Ok(()) => Ok(()),
            Err(e) => Err(Error::BusyPinError(e)),
        }
    }

    /// Send a command to the chip.
    pub fn write_command(&mut self, command: SsdCommand) -> (r: Result<(), IfaceError<I>>)
        ensures
            final(self).spec_config() == old(self).spec_config(),
            final(self).infallible() == old(self).infallible(),
            old(self).infallible() ==> r is Ok,
            match r {
                Ok(()) => final(self).events() == old(self).events() + command_events(command),
                Err(e) => match e {
                    Error::BusyPinError(_) => final(self).events() == old(self).events(),
                    Error::DcPinError(_) => final(self).events() == old(self).events().push(
                        BusEvent::Ready,
                    ),
                    Error::SpiError(_) => final(self).events() == old(self).events()
                        + seq![BusEvent::Ready, BusEvent::Select(false)],
                    Error::RstPinError(_) => false,
                },
            },
    {
        let ghost pre = self.iface.events();
        match self.iface.wait_while_busy() {
            Ok(()) => {},
            Err(e) => {
                return Err(Error::BusyPinError(e));
            },
        }
        match self.iface.set_dc(false) {
            Ok(()) => {},
            Err(e) => {
                return Err(Error::DcPinError(e));
            },
        }
        let mut op: Vec<u8> = Vec::new();
        op.push(command.into_u8());
        match self.iface.write_bytes(op.as_slice()) {
            Ok(()) => {
                proof {
                    assert(self.iface.events() =~= pre + command_events(command));
                }
                Ok(())
            },
            Err(e) => {
                proof {
                    assert(self.iface.events() =~= pre + seq![
                        BusEvent::Ready,
                        BusEvent::Select(false),
                    ]);
                }
                Err(Error::SpiError(e))
            },
        }
    }

    /// Send data to the chip.
    pub fn write_data(&mut self, data: &[u8]) -> (r: Result<(), IfaceError<I>>)
        ensures
            final(self).spec_config() == old(self).spec_config(),
            final(self).infallible() == old(self).infallible(),
            old(self).infallible() ==> r is Ok,
            match r {
                Ok(()) => final(self).events() == old(self).events() + data_events(data@),
                Err(e) => match e {
                    Error::DcPinError(_) => final(self).events() == old(self).events(),
                    Error::SpiError(_) => final(self).events() == old(self).events().push(
                        BusEvent::Select(true),
                    ),
                    _ => false,
                },
            },
    {
        let ghost pre = self.iface.events();
        match self.iface.set_dc(true) {
            Ok(()) => {},
            Err(e) => {
                return Err(Error::DcPinError(e));
            },
        }
        match self.iface.write_bytes(data) {
            Ok(()) => {
                proof {
                    assert(self.iface.events() =~= pre + data_events(data@));
                }
                Ok(())
            },
            Err(e) => Err(Error::SpiError(e)),
        }
    }

    /// One whole transaction: the command, then its parameter bytes.
    fn send(&mut self, command: SsdCommand, data: &[u8]) -> (r: Result<(), IfaceError<I>>)
        ensures
            final(self).spec_config() == old(self).spec_config(),
            final(self).infallible() == old(self).infallible(),
            old(self).infallible() ==> r is Ok,
            r is Ok ==> final(self).events() == old(self).events() + transaction_events(
                command,
                data@,
            ),
    {
        let ghost pre = self.iface.events();
        match self.write_command(command) {
            Ok(()) => {},
            Err(e) => {
                return Err(e);
            },
        }
        match self.write_data(data) {
            Ok(()) => {
                proof {
                    assert(self.iface.events() =~= pre + transaction_events(command, data@));
                }
                Ok(())
            },
            Err(e) => Err(e),
        }
    }

    /// Write a byte to the black/white RAM.
    pub fn write_bw_byte(&mut self, byte: u8) -> (r: Result<(), IfaceError<I>>)
        ensures
            final(self).spec_config() == old(self).spec_config(),
            final(self).infallible() == old(self).infallible(),
            old(self).infallible() ==> r is Ok,
            r is Ok ==> final(self).events() == old(self).events() + transaction_events(
                SsdCommand::WriteRamBW,
                seq![byte],
            ),
    {
        let mut data: Vec<u8> = Vec::new();
        data.push(byte);
        proof {
            assert(data@ =~= seq![byte]);
        }
        self.send(SsdCommand::WriteRamBW, data.as_slice())
    }

    /// Write bytes to the black/white RAM.
    pub fn write_bw_bytes(&mut self, bytes: &[u8]) -> (r: Result<(), IfaceError<I>>)
        ensures
            final(self).spec_config() == old(self).spec_config(),
            final(self).infallible() == old(self).infallible(),
            old(self).infallible() ==> r is Ok,
            r is Ok ==> final(self).events() == old(self).events() + transaction_events(
                SsdCommand::WriteRamBW,
                bytes@,
            ),
    {
        self.send(SsdCommand::WriteRamBW, bytes)
    }

    /// Write a byte to the red RAM.
    pub fn write_red_byte(&mut self, byte: u8) -> (r: Result<(), IfaceError<I>>)
        ensures
            final(self).spec_config() == old(self).spec_config(),
            final(self).infallible() == old(self).infallible(),
            old(self).infallible() ==> r is Ok,
            r is Ok ==> final(self).events() == old(self).events() + transaction_events(
                SsdCommand::WriteRamRed,
                seq![byte],
            ),
    {
        let mut data: Vec<u8> = Vec::new();
        data.push(byte);
        proof {
            assert(data@ =~= seq![byte]);
        }
        self.send(SsdCommand::WriteRamRed, data.as_slice())
    }

    /// Write bytes to the red RAM.
    pub fn write_red_bytes(&mut self, bytes: &[u8]) -> (r: Result<(), IfaceError<I>>)
        ensures
            final(self).spec_config() == old(self).spec_config(),
            final(self).infallible() == old(self).infallible(),
            old(self).infallible() ==> r is Ok,
            r is Ok ==> final(self).events() == old(self).events() + transaction_events(
                SsdCommand::WriteRamRed,
                bytes@,
            ),
    {
        self.send(SsdCommand::WriteRamRed, bytes)
    }

    /// Set the ram counter x position, this represents the data bank
    /// (8 bits), so you need to divide by 8.
    pub fn set_ram_counter_x(&mut self, x: u16) -> (r: Result<(), IfaceError<I>>)
        ensures
            final(self).spec_config() == old(self).spec_config(),
            final(self).infallible() == old(self).infallible(),
            old(self).infallible() ==> r is Ok,
            r is Ok ==> final(self).events() == old(self).events() + transaction_events(
                SsdCommand::SetRamXCounter,
                seq![spec_ram_x_counter_byte(x)],
            ),
    {
        let mut data: Vec<u8> = Vec::new();
        data.push(protocol::ram_x_counter_byte(x));
        proof {
            assert(data@ =~= seq![spec_ram_x_counter_byte(x)]);
        }
        self.send(SsdCommand::SetRamXCounter, data.as_slice())
    }

    /// Set the ram counter y position.
    pub fn set_ram_counter_y(&mut self, y: u16) -> (r: Result<(), IfaceError<I>>)
        ensures
            final(self).spec_config() == old(self).spec_config(),
            final(self).infallible() == old(self).infallible(),
            old(self).infallible() ==> r is Ok,
            r is Ok ==> final(self).events() == old(self).events() + transaction_events(
                SsdCommand::SetRamYCounter,
                spec_ram_y_counter_data(y),
            ),
    {
        let data = protocol::ram_y_counter_data(y);
        self.send(SsdCommand::SetRamYCounter, data.as_slice())
    }

    /// Select the internal or the external temperature sensor.
    pub fn select_internal_temperature_sensor(&mut self, internal: bool) -> (r: Result<
        (),
        IfaceError<I>,
    >)
        ensures
            final(self).spec_config() == old(self).spec_config(),
            final(self).infallible() == old(self).infallible(),
            old(self).infallible() ==> r is Ok,
            r is Ok ==> final(self).events() == old(self).events() + transaction_events(
                SsdCommand::TemperatureSensorControl,
                seq![spec_temperature_sensor_byte(internal)],
            ),
    {
        let mut data: Vec<u8> = Vec::new();
        data.push(protocol::temperature_sensor_byte(internal));
        proof {
            assert(data@ =~= seq![spec_temperature_sensor_byte(internal)]);
        }
        self.send(SsdCommand::TemperatureSensorControl, data.as_slice())
    }

    /// Set the border waveform mode.
    pub fn set_border_waveform(&mut self, mode: VDBMode) -> (r: Result<(), IfaceError<I>>)
        ensures
            final(self).spec_config() == old(self).spec_config(),
            final(self).infallible() == old(self).infallible(),
            old(self).infallible() ==> r is Ok,
            r is Ok ==> final(self).events() == old(self).events() + transaction_events(
                SsdCommand::BorderWaveformControl,
                seq![spec_border_waveform_byte(mode)],
            ),
    {
        let mut data: Vec<u8> = Vec::new();
        data.push(protocol::border_waveform_byte(mode));
        proof {
            assert(data@ =~= seq![spec_border_waveform_byte(mode)]);
        }
        self.send(SsdCommand::BorderWaveformControl, data.as_slice())
    }

    /// red : red ram data
    /// bw : black and white ram data
    /// source_output_mode : true is "Available Source from S8 to S167",
    /// false is "Available Source from S0 to S175".
    pub fn display_update_control_1(
        &mut self,
        red: UpdateRamOption,
        bw: UpdateRamOption,
        source_output_mode: bool,
    ) -> (r: Result<(), IfaceError<I>>)
        ensures
            final(self).spec_config() == old(self).spec_config(),
            final(self).infallible() == old(self).infallible(),
            old(self).infallible() ==> r is Ok,
            r is Ok ==> final(self).events() == old(self).events() + transaction_events(
                SsdCommand::DisplayUpdateControl1,
                spec_display_update_control_1_data(red, bw, source_output_mode),
            ),
    {
        let data = protocol::display_update_control_1_data(red, bw, source_output_mode);
        self.send(SsdCommand::DisplayUpdateControl1, data.as_slice())
    }

    /// Set the RAM X window; addresses are column-granular, truncated to
    /// their low 8 bits.
    pub fn set_ram_start_end_x(&mut self, start: u16, end: u16) -> (r: Result<(), IfaceError<I>>)
        ensures
            final(self).spec_config() == old(self).spec_config(),
            final(self).infallible() == old(self).infallible(),
            old(self).infallible() ==> r is Ok,
            r is Ok ==> final(self).events() == old(self).events() + transaction_events(
                SsdCommand::SetRamXStartEnd,
                spec_ram_x_range_data(start, end),
            ),
    {
        let data = protocol::ram_x_range_data(start, end);
        self.send(SsdCommand::SetRamXStartEnd, data.as_slice())
    }

    /// Set the RAM Y window; row-granular over the full 16-bit range.
    pub fn set_ram_start_end_y(&mut self, start: u16, end: u16) -> (r: Result<(), IfaceError<I>>)
        ensures
            final(self).spec_config() == old(self).spec_config(),
            final(self).infallible() == old(self).infallible(),
            old(self).infallible() ==> r is Ok,
            r is Ok ==> final(self).events() == old(self).events() + transaction_events(
                SsdCommand::SetRamYStartEnd,
                spec_ram_y_range_data(start, end),
            ),
    {
        let data = protocol::ram_y_range_data(start, end);
        self.send(SsdCommand::SetRamYStartEnd, data.as_slice())
    }

    /// Write LUT Register, 153 bytes long.
    pub fn write_lut_register(&mut self, register: &[u8; 153]) -> (r: Result<(), IfaceError<I>>)
        ensures
            final(self).spec_config() == old(self).spec_config(),
            final(self).infallible() == old(self).infallible(),
            old(self).infallible() ==> r is Ok,
            r is Ok ==> final(self).events() == old(self).events() + transaction_events(
                SsdCommand::WriteLutRegister,
                register@,
            ),
    {
        self.send(SsdCommand::WriteLutRegister, register.as_slice())
    }

    /// Issue drive output control with the given height and scan direction
    /// flags.
    pub fn output_control(&mut self, height: u16, gd: bool, sm: bool, tb: bool) -> (r: Result<
        (),
        IfaceError<I>,
    >)
        ensures
            final(self).spec_config() == old(self).spec_config(),
            final(self).infallible() == old(self).infallible(),
            old(self).infallible() ==> r is Ok,
            r is Ok ==> final(self).events() == old(self).events() + transaction_events(
                SsdCommand::DriveOutputControl,
                spec_output_control_data(height, gd, sm, tb),
            ),
    {
        let data = protocol::output_control_data(height, gd, sm, tb);
        self.send(SsdCommand::DriveOutputControl, data.as_slice())
    }

    /// For x and y, true means increment/false means decrement.
    /// For direction, true means the address counter is updated in the Y
    /// direction after data has been written to the RAM, false will update
    /// the X counter.
    pub fn data_entry_mode(&mut self, x: bool, y: bool, direction: bool) -> (r: Result<
        (),
        IfaceError<I>,
    >)
        ensures
            final(self).spec_config() == old(self).spec_config(),
            final(self).infallible() == old(self).infallible(),
            old(self).infallible() ==> r is Ok,
            r is Ok ==> final(self).events() == old(self).events() + transaction_events(
                SsdCommand::DataEntryModeSetting,
                seq![spec_data_entry_mode_byte(x, y, direction)],
            ),
    {
        let mut data: Vec<u8> = Vec::new();
        data.push(protocol::data_entry_mode_byte(x, y, direction));
        proof {
            assert(data@ =~= seq![spec_data_entry_mode_byte(x, y, direction)]);
        }
        self.send(SsdCommand::DataEntryModeSetting, data.as_slice())
    }

    /// Send the command to soft reset the chip (used by hw_init).
    pub fn sw_reset(&mut self) -> (r: Result<(), IfaceError<I>>)
        ensures
            final(self).spec_config() == old(self).spec_config(),
            final(self).infallible() == old(self).infallible(),
            old(self).infallible() ==> r is Ok,
            r is Ok ==> final(self).events() == old(self).events() + command_events(
                SsdCommand::SWReset,
            ),
    {
        self.write_command(SsdCommand::SWReset)
    }

    /// Initialize the hardware according to the configuration: the physical
    /// reset pulse, the software reset once the chip has deasserted busy,
    /// then every register write of the mandated sequence, in order.  The
    /// RAM X window is set in column-byte units (width / 8 - 1), matching
    /// the chip's byte-addressed columns.  This is used to initialize the
    /// hardware the first time, and to reinitialize it after deep sleep.
    pub fn hw_init(&mut self) -> (r: Result<(), IfaceError<I>>)
        requires
            old(self).spec_config().width >= 8,
            old(self).spec_config().height >= 1,
        ensures
            final(self).spec_config() == old(self).spec_config(),
            final(self).infallible() == old(self).infallible(),
            old(self).infallible() ==> r is Ok,
            r is Ok ==> final(self).events() == old(self).events() + init_events(
                old(self).spec_config(),
            ),
    {
        let ghost pre = self.iface.events();
        let ghost c = self.config;

        match self.iface.set_reset(false) {
            Ok(()) => {},
            Err(e) => {
                return Err(Error::RstPinError(e));
            },
        }
        self.iface.delay_ms(20);
        match self.iface.set_reset(true) {
            Ok(()) => {},
            Err(e) => {
                return Err(Error::RstPinError(e));
            },
        }
        self.iface.delay_ms(20);

        match self.wait_for_busy() {
            Ok(()) => {},
            Err(e) => {
                return Err(e);
            },
        }
        match self.sw_reset() {
            Ok(()) => {},
            Err(e) => {
                return Err(e);
            },
        }
        match self.wait_for_busy() {
            Ok(()) => {},
            Err(e) => {
                return Err(e);
            },
        }
        let ghost a1 = seq![
            BusEvent::Reset(false),
            BusEvent::Delay(20),
            BusEvent::Reset(true),
            BusEvent::Delay(20),
            BusEvent::Ready,
        ] + command_events(SsdCommand::SWReset) + seq![BusEvent::Ready];
        proof {
            assert(self.iface.events() =~= pre + a1);
        }

        let height = self.config.height;
        let gd = self.config.gate_scanning_gd;
        let sm = self.config.gate_scanning_sm;
        let tb = self.config.gate_scanning_tb;
        match self.output_control(height, gd, sm, tb) {
            Ok(()) => {},
            Err(e) => {
                return Err(e);
            },
        }
        let ghost a2 = a1 + transaction_events(
            SsdCommand::DriveOutputControl,
            spec_output_control_data(c.height, c.gate_scanning_gd, c.gate_scanning_sm, c.gate_scanning_tb),
        );
        proof {
            assert(self.iface.events() =~= pre + a2);
        }

        match self.data_entry_mode(true, true, false) {
            Ok(()) => {},
            Err(e) => {
                return Err(e);
            },
        }
        let ghost a3 = a2 + transaction_events(
            SsdCommand::DataEntryModeSetting,
            seq![spec_data_entry_mode_byte(true, true, false)],
        );
        proof {
            assert(self.iface.events() =~= pre + a3);
        }

        let end_x = self.config.width / 8 - 1;
        match self.set_ram_start_end_x(0, end_x) {
            Ok(()) => {},
            Err(e) => {
                return Err(e);
            },
        }
        let ghost a4 = a3 + transaction_events(
            SsdCommand::SetRamXStartEnd,
            spec_ram_x_range_data(0, (c.width / 8 - 1) as u16),
        );
        proof {
            assert(self.iface.events() =~= pre + a4);
        }

        let end_y = self.config.height - 1;
        match self.set_ram_start_end_y(0, end_y) {
            Ok(()) => {},
            Err(e) => {
                return Err(e);
            },
        }
        let ghost a5 = a4 + transaction_events(
            SsdCommand::SetRamYStartEnd,
            spec_ram_y_range_data(0, (c.height - 1) as u16),
        );
        proof {
            assert(self.iface.events() =~= pre + a5);
        }

        let border = self.config.border_waveform_control;
        match self.set_border_waveform(border) {
            Ok(()) => {},
            Err(e) => {
                return Err(e);
            },
        }
        let ghost a6 = a5 + transaction_events(
            SsdCommand::BorderWaveformControl,
            seq![spec_border_waveform_byte(c.border_waveform_control)],
        );
        proof {
            assert(self.iface.events() =~= pre + a6);
        }

        let ram_option = self.config.ram_content_for_display_update;
        let source_output_mode = self.config.s8_source_output_mode;
        match self.display_update_control_1(ram_option, ram_option, source_output_mode) {
            Ok(()) => {},
            Err(e) => {
                return Err(e);
            },
        }
        let ghost a7 = a6 + transaction_events(
            SsdCommand::DisplayUpdateControl1,
            spec_display_update_control_1_data(
                c.ram_content_for_display_update,
                c.ram_content_for_display_update,
                c.s8_source_output_mode,
            ),
        );
        proof {
            assert(self.iface.events() =~= pre + a7);
        }

        let internal = self.config.use_internal_temperature_sensor;
        match self.select_internal_temperature_sensor(internal) {
            Ok(()) => {},
            Err(e) => {
                return Err(e);
            },
        }
        let ghost a8 = a7 + transaction_events(
            SsdCommand::TemperatureSensorControl,
            seq![spec_temperature_sensor_byte(c.use_internal_temperature_sensor)],
        );
        proof {
            assert(self.iface.events() =~= pre + a8);
        }

        match self.set_ram_counter_x(0) {
            Ok(()) => {},
            Err(e) => {
                return Err(e);
            },
        }
        let ghost a9 = a8 + transaction_events(
            SsdCommand::SetRamXCounter,
            seq![spec_ram_x_counter_byte(0)],
        );
        proof {
            assert(self.iface.events() =~= pre + a9);
        }

        match self.set_ram_counter_y(0) {
            Ok(()) => {},
            Err(e) => {
                return Err(e);
            },
        }
        let ghost a10 = a9 + transaction_events(
            SsdCommand::SetRamYCounter,
            spec_ram_y_counter_data(0),
        );
        proof {
            assert(self.iface.events() =~= pre + a10);
        }

        match self.wait_for_busy() {
            Ok(()) => {},
            Err(e) => {
                return Err(e);
            },
        }
        proof {
            assert(self.iface.events() =~= pre + (a10 + seq![BusEvent::Ready]));
            assert(a10 + seq![BusEvent::Ready] == init_events(c));
        }
        Ok(())
    }

    /// Set how the display should be updated.
    pub fn display_update_control_2(&mut self, sequence: u8) -> (r: Result<(), IfaceError<I>>)
        ensures
            final(self).spec_config() == old(self).spec_config(),
            final(self).infallible() == old(self).infallible(),
            old(self).infallible() ==> r is Ok,
            r is Ok ==> final(self).events() == old(self).events() + transaction_events(
                SsdCommand::DisplayUpdateControl2,
                seq![sequence],
            ),
    {
        let mut data: Vec<u8> = Vec::new();
        data.push(sequence);
        proof {
            assert(data@ =~= seq![sequence]);
        }
        self.send(SsdCommand::DisplayUpdateControl2, data.as_slice())
    }

    /// Run the update sequence, the chip will send the correct frequencies
    /// to the display to reflect the image in memory.
    pub fn activate_update(&mut self) -> (r: Result<(), IfaceError<I>>)
        ensures
            final(self).spec_config() == old(self).spec_config(),
            final(self).infallible() == old(self).infallible(),
            old(self).infallible() ==> r is Ok,
            r is Ok ==> final(self).events() == old(self).events() + command_events(
                SsdCommand::MasterActivation,
            ),
    {
        self.write_command(SsdCommand::MasterActivation)
    }

    /// Refresh screen using a custom sequence.
    ///
    /// On the 290_T94 screen, 0xF7 is the full refresh sequence and 0xFC is
    /// the partial refresh sequence.
    pub fn refresh_screen_custom_sequence(&mut self, sequence: u8) -> (r: Result<
        (),
        IfaceError<I>,
    >)
        ensures
            final(self).spec_config() == old(self).spec_config(),
            final(self).infallible() == old(self).infallible(),
            old(self).infallible() ==> r is Ok,
            r is Ok ==> final(self).events() == old(self).events() + refresh_events(sequence),
    {
        let ghost pre = self.iface.events();
        match self.display_update_control_2(sequence) {
            Ok(()) => {},
            Err(e) => {
                return Err(e);
            },
        }
        match self.activate_update() {
            Ok(()) => {},
            Err(e) => {
                return Err(e);
            },
        }
        match self.wait_for_busy() {
            Ok(()) => {},
            Err(e) => {
                return Err(e);
            },
        }
        proof {
            assert(self.iface.events() =~= pre + refresh_events(sequence));
        }
        Ok(())
    }

    /// Partial refresh using the configured sequence.
    pub fn partial_refresh(&mut self) -> (r: Result<(), IfaceError<I>>)
        ensures
            final(self).spec_config() == old(self).spec_config(),
            final(self).infallible() == old(self).infallible(),
            old(self).infallible() ==> r is Ok,
            r is Ok ==> final(self).events() == old(self).events() + refresh_events(
                old(self).spec_config().partial_refresh_sequence,
            ),
    {
        let sequence = self.config.partial_refresh_sequence;
        self.refresh_screen_custom_sequence(sequence)
    }

    /// Full refresh using the configured sequence.
    pub fn full_refresh(&mut self) -> (r: Result<(), IfaceError<I>>)
        ensures
            final(self).spec_config() == old(self).spec_config(),
            final(self).infallible() == old(self).infallible(),
            old(self).infallible() ==> r is Ok,
            r is Ok ==> final(self).events() == old(self).events() + refresh_events(
                old(self).spec_config().full_refresh_sequence,
            ),
    {
        let sequence = self.config.full_refresh_sequence;
        self.refresh_screen_custom_sequence(sequence)
    }

    /// Let the chip fill its ram with a single color.  The parameter byte
    /// carries the fixed auto-write pattern for the default 296 x 128
    /// geometry.
    pub fn fill_bw_screen_internal(&mut self, color: bool) -> (r: Result<(), IfaceError<I>>)
        ensures
            final(self).spec_config() == old(self).spec_config(),
            final(self).infallible() == old(self).infallible(),
            old(self).infallible() ==> r is Ok,
            r is Ok ==> final(self).events() == old(self).events() + fill_screen_internal_events(
                color,
            ),
    {
        let ghost pre = self.iface.events();
        match self.wait_for_busy() {
            Ok(()) => {},
            Err(e) => {
                return Err(e);
            },
        }
        let mut data: Vec<u8> = Vec::new();
        data.push(protocol::auto_write_param_byte(color));
        match self.send(SsdCommand::AutoWriteBWRam, data.as_slice()) {
            Ok(()) => {},
            Err(e) => {
                return Err(e);
            },
        }
        match self.wait_for_busy() {
            Ok(()) => {},
            Err(e) => {
                return Err(e);
            },
        }
        proof {
            assert(self.iface.events() =~= pre + fill_screen_internal_events(color));
        }
        Ok(())
    }

    /// Manually fill the memory with a single color: one write-RAM command,
    /// then width * height / 8 single fill bytes, a no-op, and a final
    /// wait.  If width * height is not a multiple of 8 the quotient is
    /// truncated, so such geometries see a short fill and must pad
    /// explicitly.
    #[verifier::loop_isolation(false)]
    pub fn fill_bw_screen(&mut self, color: bool) -> (r: Result<(), IfaceError<I>>)
        ensures
            final(self).spec_config() == old(self).spec_config(),
            final(self).infallible() == old(self).infallible(),
            old(self).infallible() ==> r is Ok,
            r is Ok ==> final(self).events() == old(self).events() + fill_screen_events(
                old(self).spec_config().width,
                old(self).spec_config().height,
                color,
            ),
    {
        let ghost pre = self.iface.events();
        let ghost c = self.config;
        match self.wait_for_busy() {
            Ok(()) => {},
            Err(e) => {
                return Err(e);
            },
        }
        match self.write_command(SsdCommand::WriteRamBW) {
            Ok(()) => {},
            Err(e) => {
                return Err(e);
            },
        }
        let mut data: Vec<u8> = Vec::new();
        data.push(protocol::fill_color_byte(color));
        proof {
            assert(data@ =~= seq![spec_fill_color_byte(color)]);
        }
        let w = self.config.width;
        let h = self.config.height;
        proof {
            assert(w * h <= 0xFFFF * 0xFFFF) by (nonlinear_arith)
                requires
                    w <= 0xFFFF,
                    h <= 0xFFFF,
            ;
        }
        let n: u32 = (w as u32) * (h as u32) / 8;
        let mut i: u32 = 0;
        proof {
            assert(self.iface.events() =~= pre + seq![BusEvent::Ready] + command_events(
                SsdCommand::WriteRamBW,
            ) + repeated_byte_events(spec_fill_color_byte(color), 0));
        }
        while i < n
            invariant
                i <= n,
                self.config == c,
                self.iface.infallible() == old(self).infallible(),
                data@ == seq![spec_fill_color_byte(color)],
                self.iface.events() == pre + seq![BusEvent::Ready] + command_events(
                    SsdCommand::WriteRamBW,
                ) + repeated_byte_events(spec_fill_color_byte(color), i as nat),
            decreases n - i,
        {
            match self.write_data(data.as_slice()) {
                Ok(()) => {},
                Err(e) => {
                    return Err(e);
                },
            }
            i = i + 1;
            proof {
                assert(repeated_byte_events(spec_fill_color_byte(color), i as nat)
                    == repeated_byte_events(spec_fill_color_byte(color), (i - 1) as nat)
                    + data_events(seq![spec_fill_color_byte(color)]));
                assert(self.iface.events() =~= pre + seq![BusEvent::Ready] + command_events(
                    SsdCommand::WriteRamBW,
                ) + repeated_byte_events(spec_fill_color_byte(color), i as nat));
            }
        }
        match self.write_command(SsdCommand::Nop) {
            Ok(()) => {},
            Err(e) => {
                return Err(e);
            },
        }
        match self.wait_for_busy() {
            Ok(()) => {},
            Err(e) => {
                return Err(e);
            },
        }
        proof {
            assert(n == c.width * c.height / 8);
            assert(self.iface.events() =~= pre + fill_screen_events(c.width, c.height, color));
        }
        Ok(())
    }

    /// Enter deep sleep mode, it is recommended to enter deep sleep after
    /// drawing to the screen.  The parameter byte 0x01 selects mode 1,
    /// whatever the prior state.  No further bus activity is valid until a
    /// full hardware reset re-runs initialization.
    pub fn enter_deep_sleep(&mut self) -> (r: Result<(), IfaceError<I>>)
        ensures
            final(self).spec_config() == old(self).spec_config(),
            final(self).infallible() == old(self).infallible(),
            old(self).infallible() ==> r is Ok,
            r is Ok ==> final(self).events() == old(self).events() + transaction_events(
                SsdCommand::DeepSleepMode,
                seq![DEEP_SLEEP_MODE_1],
            ),
    {
        let mut data: Vec<u8> = Vec::new();
        data.push(DEEP_SLEEP_MODE_1);
        proof {
            assert(data@ =~= seq![DEEP_SLEEP_MODE_1]);
        }
        self.send(SsdCommand::DeepSleepMode, data.as_slice())
    }

    /// Read one byte from the chip's RAM: a two-byte transfer whose first
    /// byte is dummy data, per the chip's documented protocol; the second
    /// byte is returned.
    pub fn read_ram(&mut self) -> (r: Result<u8, IfaceError<I>>)
        ensures
            final(self).spec_config() == old(self).spec_config(),
            final(self).infallible() == old(self).infallible(),
            old(self).infallible() ==> r is Ok,
            r is Ok ==> exists|data: Seq<u8>|
                data.len() == 2 && final(self).events() == old(self).events() + #[trigger] read_ram_events(data)
                    && r->Ok_0 == data[1],
    {
        let ghost pre = self.iface.events();
        match self.wait_for_busy() {
            Ok(()) => {},
            Err(e) => {
                return Err(e);
            },
        }
        match self.write_command(SsdCommand::ReadRam) {
            Ok(()) => {},
            Err(e) => {
                return Err(e);
            },
        }
        let mut buf: Vec<u8> = Vec::new();
        buf.push(0);
        buf.push(0);
        match self.iface.read_bytes(&mut buf) {
            Ok(()) => {},
            Err(e) => {
                return Err(Error::SpiError(e));
            },
        }
        proof {
            assert(self.iface.events() =~= pre + read_ram_events(buf@));
        }
        Ok(buf[1])
    }
}

} // verus!

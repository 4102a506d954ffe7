//! The controller's command set and the opcode of each command.
use vstd::prelude::*;

verus! {

/// A command of the panel controller.
#[derive(Clone, Copy, PartialEq, Eq, Debug, Structural)]
pub enum Command {
    /// Set Resolution, LUT selection, BWR pixels, gate scan direction, source shift
    /// direction, booster switch, soft reset.
    PanelSetting,
    /// Selecting internal and external power
    PowerSetting,
    /// After the Power Off command, the driver will power off following the Power Off
    /// Sequence; BUSY signal will become "0".
    PowerOff,
    /// Setting Power OFF sequence
    PowerOffSequenceSetting,
    /// Turning On the Power. Once the power on sequence completes, the BUSY signal
    /// will become "1".
    PowerOn,
    /// Starting data transmission
    BoosterSoftStart,
    /// Makes the chip enter deep sleep; it returns to stand-by only by hardware
    /// reset. The only parameter is a check code: the command runs only if it is 0xA5.
    DeepSleep,
    /// Starts transmitting data and writing it into SRAM; finished by Data Stop.
    DataStartTransmission1,
    /// Stops data transmission; BUSY becomes "0" until the display update is finished.
    DataStop,
    /// Refreshes the display (data/VCOM) according to SRAM data and LUT.
    DisplayRefresh,
    /// Image Process Command
    ImageProcess,
    /// Controls the PLL clock frequency.
    PllControl,
    /// Reads the temperature sensed by the temperature sensor.
    TemperatureSensor,
    /// Selects the internal or external temperature sensor.
    TemperatureCalibration,
    /// Writes data to the external temperature sensor.
    TemperatureSensorWrite,
    /// Reads data from the external temperature sensor.
    TemperatureSensorRead,
    /// Sets the interval of Vcom and data output.
    VcomAndDataIntervalSetting,
    /// Reports the input power condition.
    LowPowerDetection,
    /// Defines the non-overlap period of Gate and Source.
    TconSetting,
    /// Defines the resolution; of higher priority than RES\[1:0\] in R00H (PSR).
    TconResolution,
    /// Defines MCU host direct access external memory mode.
    SpiFlashControl,
    /// Reads the LUT / chip revision from OTP.
    Revision,
    /// Reads the IC status.
    GetStatus,
    /// VCOM sensing setting.
    AutoMeasurementVcom,
    /// Gets the VCOM value.
    ReadVcomValue,
    /// Sets the `VCOM_DC` value.
    VcmDcSetting,
    /// Vendor flash mode command, present in every driver for this controller family.
    FlashMode,
    /// Vendor register present in every driver for this controller.
    TsSet,
}

/// The opcode byte of a command.
pub open spec fn opcode(c: Command) -> u8 {
    match c {
        Command::PanelSetting => 0x00,
        Command::PowerSetting => 0x01,
        Command::PowerOff => 0x02,
        Command::PowerOffSequenceSetting => 0x03,
        Command::PowerOn => 0x04,
        Command::BoosterSoftStart => 0x06,
        Command::DeepSleep => 0x07,
        Command::DataStartTransmission1 => 0x10,
        Command::DataStop => 0x11,
        Command::DisplayRefresh => 0x12,
        Command::ImageProcess => 0x13,
        Command::PllControl => 0x30,
        Command::TemperatureSensor => 0x40,
        Command::TemperatureCalibration => 0x41,
        Command::TemperatureSensorWrite => 0x42,
        Command::TemperatureSensorRead => 0x43,
        Command::VcomAndDataIntervalSetting => 0x50,
        Command::LowPowerDetection => 0x51,
        Command::TconSetting => 0x60,
        Command::TconResolution => 0x61,
        Command::SpiFlashControl => 0x65,
        Command::Revision => 0x70,
        Command::GetStatus => 0x71,
        Command::AutoMeasurementVcom => 0x80,
        Command::ReadVcomValue => 0x81,
        Command::VcmDcSetting => 0x82,
        Command::FlashMode => 0xE3,
        Command::TsSet => 0xE5,
    }
}

impl Command {
    /// The opcode byte sent on the bus for this command.
    pub fn address(self) -> (r: u8)
        ensures
            r == opcode(self),
    {
        match self {
            Command::PanelSetting => 0x00,
            Command::PowerSetting => 0x01,
            Command::PowerOff => 0x02,
            Command::PowerOffSequenceSetting => 0x03,
            Command::PowerOn => 0x04,
            Command::BoosterSoftStart => 0x06,
            Command::DeepSleep => 0x07,
            Command::DataStartTransmission1 => 0x10,
            Command::DataStop => 0x11,
            Command::DisplayRefresh => 0x12,
            Command::ImageProcess => 0x13,
            Command::PllControl => 0x30,
            Command::TemperatureSensor => 0x40,
            Command::TemperatureCalibration => 0x41,
            Command::TemperatureSensorWrite => 0x42,
            Command::TemperatureSensorRead => 0x43,
            Command::VcomAndDataIntervalSetting => 0x50,
            Command::LowPowerDetection => 0x51,
            Command::TconSetting => 0x60,
            Command::TconResolution => 0x61,
            Command::SpiFlashControl => 0x65,
            Command::Revision => 0x70,
            Command::GetStatus => 0x71,
            Command::AutoMeasurementVcom => 0x80,
            Command::ReadVcomValue => 0x81,
            Command::VcmDcSetting => 0x82,
            Command::FlashMode => 0xE3,
            Command::TsSet => 0xE5,
        }
    }
}

} // verus!

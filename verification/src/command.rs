use vstd::prelude::*;

verus! {

/// Fixed commands that occupy the lower 48 speed values.
///
/// Each command has a fixed numeric code in [0, 48); the unassigned codes in
/// that range (15-19 and 36-41) have no variant and cannot be constructed.
///
/// Some commands need to be sent multiple times to be acted upon, to prevent
/// accidental bit-flips wreaking havoc; enforcing that repetition is the
/// caller's responsibility.
#[derive(Copy, Clone, Debug)]
pub enum Command {
    MotorStop,
    /// Wait at least 260ms before next command.
    Beep1,
    /// Wait at least 260ms before next command.
    Beep2,
    /// Wait at least 260ms before next command.
    Beep3,
    /// Wait at least 260ms before next command.
    Beep4,
    /// Wait at least 260ms before next command.
    Beep5,
    /// Wait at least 12ms before next command.
    ESCInfo,
    /// Needs 6 transmissions.
    SpinDirection1,
    /// Needs 6 transmissions.
    SpinDirection2,
    /// Needs 6 transmissions.
    ThreeDModeOn,
    /// Needs 6 transmissions.
    ThreeDModeOff,
    SettingsRequest,
    /// Needs 6 transmissions. Wait at least 35ms before next command.
    SettingsSave,
    /// Needs 6 transmissions.
    ExtendedTelemetryEnable,
    /// Needs 6 transmissions.
    ExtendedTelemetryDisable,
    /// Needs 6 transmissions.
    SpinDirectionNormal,
    /// Needs 6 transmissions.
    SpinDirectonReversed,
    Led0On,
    Led1On,
    Led2On,
    Led3On,
    Led0Off,
    Led1Off,
    Led2Off,
    Led3Off,
    AudioStreamModeToggle,
    SilentModeToggle,
    /// Needs 6 transmissions. Enables individual signal line commands.
    SignalLineTelemetryEnable,
    /// Needs 6 transmissions. Disables individual signal line commands.
    SignalLineTelemetryDisable,
    /// Needs 6 transmissions. Enables individual signal line commands.
    SignalLineContinuousERPMTelemetry,
    /// Needs 6 transmissions. Enables individual signal line commands.
    SignalLineContinuousERPMPeriodTelemetry,
    /// 1 degree Celsius per LSB.
    SignalLineTemperatureTelemetry,
    /// 10mV per LSB, 40.95V max.
    SignalLineVoltageTelemetry,
    /// 100mA per LSB, 409.5A max.
    SignalLineCurrentTelemetry,
    /// 10mAh per LSB, 40.95Ah max.
    SignalLineConsumptionTelemetry,
    /// 100erpm per LSB, 409500erpm max.
    SignalLineERPMTelemetry,
    /// 16us per LSB, 65520us max.
    SignalLineERPMPeriodTelemetry,
}

impl Command {
    /// The fixed wire code of the command, an integer in [0, 48).
    pub open spec fn code_spec(self) -> u16 {
        match self {
            Command::MotorStop => 0,
            Command::Beep1 => 1,
            Command::Beep2 => 2,
            Command::Beep3 => 3,
            Command::Beep4 => 4,
            Command::Beep5 => 5,
            Command::ESCInfo => 6,
            Command::SpinDirection1 => 7,
            Command::SpinDirection2 => 8,
            Command::ThreeDModeOn => 9,
            Command::ThreeDModeOff => 10,
            Command::SettingsRequest => 11,
            Command::SettingsSave => 12,
            Command::ExtendedTelemetryEnable => 13,
            Command::ExtendedTelemetryDisable => 14,
            Command::SpinDirectionNormal => 20,
            Command::SpinDirectonReversed => 21,
            Command::Led0On => 22,
            Command::Led1On => 23,
            Command::Led2On => 24,
            Command::Led3On => 25,
            Command::Led0Off => 26,
            Command::Led1Off => 27,
            Command::Led2Off => 28,
            Command::Led3Off => 29,
            Command::AudioStreamModeToggle => 30,
            Command::SilentModeToggle => 31,
            Command::SignalLineTelemetryEnable => 32,
            Command::SignalLineTelemetryDisable => 33,
            Command::SignalLineContinuousERPMTelemetry => 34,
            Command::SignalLineContinuousERPMPeriodTelemetry => 35,
            Command::SignalLineTemperatureTelemetry => 42,
            Command::SignalLineVoltageTelemetry => 43,
            Command::SignalLineCurrentTelemetry => 44,
            Command::SignalLineConsumptionTelemetry => 45,
            Command::SignalLineERPMTelemetry => 46,
            Command::SignalLineERPMPeriodTelemetry => 47,
        }
    }

    /// The fixed wire code of the command, an integer in [0, 48).
    pub fn code(self) -> (r: u16)
        ensures
            r == self.code_spec(),
    {
        match self {
            Command::MotorStop => 0,
            Command::Beep1 => 1,
            Command::Beep2 => 2,
            Command::Beep3 => 3,
            Command::Beep4 => 4,
            Command::Beep5 => 5,
            Command::ESCInfo => 6,
            Command::SpinDirection1 => 7,
            Command::SpinDirection2 => 8,
            Command::ThreeDModeOn => 9,
            Command::ThreeDModeOff => 10,
            Command::SettingsRequest => 11,
            Command::SettingsSave => 12,
            Command::ExtendedTelemetryEnable => 13,
            Command::ExtendedTelemetryDisable => 14,
            Command::SpinDirectionNormal => 20,
            Command::SpinDirectonReversed => 21,
            Command::Led0On => 22,
            Command::Led1On => 23,
            Command::Led2On => 24,
            Command::Led3On => 25,
            Command::Led0Off => 26,
            Command::Led1Off => 27,
            Command::Led2Off => 28,
            Command::Led3Off => 29,
            Command::AudioStreamModeToggle => 30,
            Command::SilentModeToggle => 31,
            Command::SignalLineTelemetryEnable => 32,
            Command::SignalLineTelemetryDisable => 33,
            Command::SignalLineContinuousERPMTelemetry => 34,
            Command::SignalLineContinuousERPMPeriodTelemetry => 35,
            Command::SignalLineTemperatureTelemetry => 42,
            Command::SignalLineVoltageTelemetry => 43,
            Command::SignalLineCurrentTelemetry => 44,
            Command::SignalLineConsumptionTelemetry => 45,
            Command::SignalLineERPMTelemetry => 46,
            Command::SignalLineERPMPeriodTelemetry => 47,
        }
    }
}

/// Every command code lies in the reserved range below the first throttle
/// value: the command set occupies the lower 48 values of the value field.
pub proof fn lemma_command_code_in_range(command: Command)
    ensures
        command.code_spec() < 48,
{
}

} // verus!

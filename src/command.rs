use vstd::prelude::*;

verus! {

/// The controller's opcodes that this driver issues.
#[derive(Clone, Copy, Debug, PartialEq, Eq, Structural)]
pub enum Command {
    PanelSetting,
    PowerSetting,
    PowerOff,
    PowerOn,
    BoosterSoftStart,
    DeepSleep,
    DataStartTransmission1,
    DisplayRefresh,
    DataStartTransmission2,
    LutForVcom,
    LutWhiteToWhite,
    LutBlackToWhite,
    LutWhiteToBlack,
    LutBlackToBlack,
    VcomAndDataIntervalSetting,
    ResolutionSetting,
    VcmDcSetting,
}

impl Command {
    /// The opcode's byte on the wire.
    pub open spec fn spec_address(self) -> u8 {
        match self {
            Command::PanelSetting => 0x00u8,
            Command::PowerSetting => 0x01u8,
            Command::PowerOff => 0x02u8,
            Command::PowerOn => 0x04u8,
            Command::BoosterSoftStart => 0x06u8,
            Command::DeepSleep => 0x07u8,
            Command::DataStartTransmission1 => 0x10u8,
            Command::DisplayRefresh => 0x12u8,
            Command::DataStartTransmission2 => 0x13u8,
            Command::LutForVcom => 0x20u8,
            Command::LutWhiteToWhite => 0x21u8,
            Command::LutBlackToWhite => 0x22u8,
            Command::LutWhiteToBlack => 0x23u8,
            Command::LutBlackToBlack => 0x24u8,
            Command::VcomAndDataIntervalSetting => 0x50u8,
            Command::ResolutionSetting => 0x61u8,
            Command::VcmDcSetting => 0x82u8,
        }
    }

    /// The opcode's byte on the wire.
    pub fn address(&self) -> (r: u8)
        ensures
            r == self.spec_address(),
    {
        match self {
            Command::PanelSetting => 0x00,
            Command::PowerSetting => 0x01,
            Command::PowerOff => 0x02,
            Command::PowerOn => 0x04,
            Command::BoosterSoftStart => 0x06,
            Command::DeepSleep => 0x07,
            Command::DataStartTransmission1 => 0x10,
            Command::DisplayRefresh => 0x12,
            Command::DataStartTransmission2 => 0x13,
            Command::LutForVcom => 0x20,
            Command::LutWhiteToWhite => 0x21,
            Command::LutBlackToWhite => 0x22,
            Command::LutWhiteToBlack => 0x23,
            Command::LutBlackToBlack => 0x24,
            Command::VcomAndDataIntervalSetting => 0x50,
            Command::ResolutionSetting => 0x61,
            Command::VcmDcSetting => 0x82,
        }
    }
}

} // verus!

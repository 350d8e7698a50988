//! Standardized LE controller opcodes: a fixed catalog of two-byte command
//! identifiers, each composed of a 6-bit group code (OGF) and a 10-bit
//! sub-code (OCF), with validated round-trip conversion between the raw
//! sub-code and its enumerated form.

use vstd::prelude::*;

verus! {

/// A raw code lay outside the standardized catalog; recoverable, never
/// fatal.
#[derive(Clone, Copy, PartialEq, Eq, Structural, Debug)]
pub struct HCIConversionError;

/// 6-bit opcode group field of a controller command.
#[derive(Clone, Copy, PartialEq, Eq, Structural, Debug)]
pub enum OGF {
    NoCommand,
    LinkControl,
    LinkPolicy,
    ControllerBaseband,
    InformationalParameters,
    StatusParameters,
    Testing,
    LEController,
    VendorSpecific,
}

impl OGF {
    /// The group's 6-bit wire value.
    pub open spec fn spec_value(self) -> u8 {
        match self {
            OGF::NoCommand => 0x00,
            OGF::LinkControl => 0x01,
            OGF::LinkPolicy => 0x02,
            OGF::ControllerBaseband => 0x03,
            OGF::InformationalParameters => 0x04,
            OGF::StatusParameters => 0x05,
            OGF::Testing => 0x06,
            OGF::LEController => 0x08,
            OGF::VendorSpecific => 0x3F,
        }
    }

    /// The group's 6-bit wire value.
    pub fn value(&self) -> (r: u8)
        ensures
            r == self.spec_value(),
            r < 0x40,
    {
        match self {
            OGF::NoCommand => 0x00,
            OGF::LinkControl => 0x01,
            OGF::LinkPolicy => 0x02,
            OGF::ControllerBaseband => 0x03,
            OGF::InformationalParameters => 0x04,
            OGF::StatusParameters => 0x05,
            OGF::Testing => 0x06,
            OGF::LEController => 0x08,
            OGF::VendorSpecific => 0x3F,
        }
    }
}

/// 10-bit opcode command field of a controller command.
#[derive(Clone, Copy, PartialEq, Eq, Structural, Debug)]
pub struct OCF(pub u16);

impl OCF {
    /// Wraps a 10-bit sub-code.
    pub fn new(value: u16) -> (r: OCF)
        requires
            value < 0x400,
        ensures
            r.0 == value,
    {
        OCF(value)
    }

    pub fn value(&self) -> (r: u16)
        ensures
            r == self.0,
    {
        self.0
    }
}

/// A full 2-byte controller command identifier: group code plus sub-code.
#[derive(Clone, Copy, PartialEq, Eq, Structural, Debug)]
pub struct Opcode(pub OGF, pub OCF);

impl Opcode {
    /// The packed 2-byte wire value: the 6-bit group in the high bits, the
    /// 10-bit sub-code in the low bits.
    pub fn as_u16(&self) -> (r: u16)
        requires
            self.1.0 < 0x400,
        ensures
            r == self.0.spec_value() * 0x400 + self.1.0,
    {
        self.0.value() as u16 * 0x400 + self.1.value()
    }
}

/// The standardized LE controller commands: sub-codes `0x0001..=0x001F`,
/// with `0x0004` unassigned.
#[derive(Clone, Copy, PartialEq, Eq, Structural, Debug)]
pub enum LEControllerOpcode {
    SetEventMask,
    ReadBufferSize,
    ReadLocalSupportedFeatures,
    SetRandomAddress,
    SetAdvertisingParameters,
    ReadAdvertisingChannelTxPower,
    SetAdvertisingData,
    SetScanResponseData,
    SetAdvertisingEnable,
    SetScanParameters,
    SetScanEnable,
    CreateConnection,
    CreateConnectionCancel,
    ReadWhitelistSize,
    ClearWhitelist,
    AddDeviceToWhitelist,
    RemoveDeviceFromWhitelist,
    ConnectionUpdate,
    SetHostChannelClassification,
    ReadChannelMap,
    ReadRemoteUsedFeatures,
    Encrypt,
    Rand,
    StartEncryption,
    LongTermKeyRequestReply,
    LongTermKeyRequestNegativeReply,
    ReadSupportedState,
    ReceiverTest,
    TransmitterTest,
    TestEnd,
}

/// The enumerated command a raw 10-bit sub-code stands for, or the
/// conversion error when the value is not among the standardized set.
pub open spec fn spec_opcode_of_code(code: u16) -> Result<LEControllerOpcode, HCIConversionError> {
    match code {
        0x0001 => Ok(LEControllerOpcode::SetEventMask),
        0x0002 => Ok(LEControllerOpcode::ReadBufferSize),
        0x0003 => Ok(LEControllerOpcode::ReadLocalSupportedFeatures),
        0x0005 => Ok(LEControllerOpcode::SetRandomAddress),
        0x0006 => Ok(LEControllerOpcode::SetAdvertisingParameters),
        0x0007 => Ok(LEControllerOpcode::ReadAdvertisingChannelTxPower),
        0x0008 => Ok(LEControllerOpcode::SetAdvertisingData),
        0x0009 => Ok(LEControllerOpcode::SetScanResponseData),
        0x000A => Ok(LEControllerOpcode::SetAdvertisingEnable),
        0x000B => Ok(LEControllerOpcode::SetScanParameters),
        0x000C => Ok(LEControllerOpcode::SetScanEnable),
        0x000D => Ok(LEControllerOpcode::CreateConnection),
        0x000E => Ok(LEControllerOpcode::CreateConnectionCancel),
        0x000F => Ok(LEControllerOpcode::ReadWhitelistSize),
        0x0010 => Ok(LEControllerOpcode::ClearWhitelist),
        0x0011 => Ok(LEControllerOpcode::AddDeviceToWhitelist),
        0x0012 => Ok(LEControllerOpcode::RemoveDeviceFromWhitelist),
        0x0013 => Ok(LEControllerOpcode::ConnectionUpdate),
        0x0014 => Ok(LEControllerOpcode::SetHostChannelClassification),
        0x0015 => Ok(LEControllerOpcode::ReadChannelMap),
        0x0016 => Ok(LEControllerOpcode::ReadRemoteUsedFeatures),
        0x0017 => Ok(LEControllerOpcode::Encrypt),
        0x0018 => Ok(LEControllerOpcode::Rand),
        0x0019 => Ok(LEControllerOpcode::StartEncryption),
        0x001A => Ok(LEControllerOpcode::LongTermKeyRequestReply),
        0x001B => Ok(LEControllerOpcode::LongTermKeyRequestNegativeReply),
        0x001C => Ok(LEControllerOpcode::ReadSupportedState),
        0x001D => Ok(LEControllerOpcode::ReceiverTest),
        0x001E => Ok(LEControllerOpcode::TransmitterTest),
        0x001F => Ok(LEControllerOpcode::TestEnd),
        _ => Err(HCIConversionError),
    }
}

impl LEControllerOpcode {
    /// The command's standardized 10-bit sub-code.
    pub open spec fn spec_code(self) -> u16 {
        match self {
            LEControllerOpcode::SetEventMask => 0x0001,
            LEControllerOpcode::ReadBufferSize => 0x0002,
            LEControllerOpcode::ReadLocalSupportedFeatures => 0x0003,
            LEControllerOpcode::SetRandomAddress => 0x0005,
            LEControllerOpcode::SetAdvertisingParameters => 0x0006,
            LEControllerOpcode::ReadAdvertisingChannelTxPower => 0x0007,
            LEControllerOpcode::SetAdvertisingData => 0x0008,
            LEControllerOpcode::SetScanResponseData => 0x0009,
            LEControllerOpcode::SetAdvertisingEnable => 0x000A,
            LEControllerOpcode::SetScanParameters => 0x000B,
            LEControllerOpcode::SetScanEnable => 0x000C,
            LEControllerOpcode::CreateConnection => 0x000D,
            LEControllerOpcode::CreateConnectionCancel => 0x000E,
            LEControllerOpcode::ReadWhitelistSize => 0x000F,
            LEControllerOpcode::ClearWhitelist => 0x0010,
            LEControllerOpcode::AddDeviceToWhitelist => 0x0011,
            LEControllerOpcode::RemoveDeviceFromWhitelist => 0x0012,
            LEControllerOpcode::ConnectionUpdate => 0x0013,
            LEControllerOpcode::SetHostChannelClassification => 0x0014,
            LEControllerOpcode::ReadChannelMap => 0x0015,
            LEControllerOpcode::ReadRemoteUsedFeatures => 0x0016,
            LEControllerOpcode::Encrypt => 0x0017,
            LEControllerOpcode::Rand => 0x0018,
            LEControllerOpcode::StartEncryption => 0x0019,
            LEControllerOpcode::LongTermKeyRequestReply => 0x001A,
            LEControllerOpcode::LongTermKeyRequestNegativeReply => 0x001B,
            LEControllerOpcode::ReadSupportedState => 0x001C,
            LEControllerOpcode::ReceiverTest => 0x001D,
            LEControllerOpcode::TransmitterTest => 0x001E,
            LEControllerOpcode::TestEnd => 0x001F,
        }
    }

    /// Every LE controller command sits in the LE controller group.
    pub fn ogf(&self) -> (r: OGF)
        ensures
            r == OGF::LEController,
    {
        OGF::LEController
    }

    /// The command's standardized 10-bit sub-code.
    pub fn ocf(&self) -> (r: OCF)
        ensures
            r.0 == self.spec_code(),
            r.0 < 0x400,
    {
        let code: u16 = match self {
            LEControllerOpcode::SetEventMask => 0x0001,
            LEControllerOpcode::ReadBufferSize => 0x0002,
            LEControllerOpcode::ReadLocalSupportedFeatures => 0x0003,
            LEControllerOpcode::SetRandomAddress => 0x0005,
            LEControllerOpcode::SetAdvertisingParameters => 0x0006,
            LEControllerOpcode::ReadAdvertisingChannelTxPower => 0x0007,
            LEControllerOpcode::SetAdvertisingData => 0x0008,
            LEControllerOpcode::SetScanResponseData => 0x0009,
            LEControllerOpcode::SetAdvertisingEnable => 0x000A,
            LEControllerOpcode::SetScanParameters => 0x000B,
            LEControllerOpcode::SetScanEnable => 0x000C,
            LEControllerOpcode::CreateConnection => 0x000D,
            LEControllerOpcode::CreateConnectionCancel => 0x000E,
            LEControllerOpcode::ReadWhitelistSize => 0x000F,
            LEControllerOpcode::ClearWhitelist => 0x0010,
            LEControllerOpcode::AddDeviceToWhitelist => 0x0011,
            LEControllerOpcode::RemoveDeviceFromWhitelist => 0x0012,
            LEControllerOpcode::ConnectionUpdate => 0x0013,
            LEControllerOpcode::SetHostChannelClassification => 0x0014,
            LEControllerOpcode::ReadChannelMap => 0x0015,
            LEControllerOpcode::ReadRemoteUsedFeatures => 0x0016,
            LEControllerOpcode::Encrypt => 0x0017,
            LEControllerOpcode::Rand => 0x0018,
            LEControllerOpcode::StartEncryption => 0x0019,
            LEControllerOpcode::LongTermKeyRequestReply => 0x001A,
            LEControllerOpcode::LongTermKeyRequestNegativeReply => 0x001B,
            LEControllerOpcode::ReadSupportedState => 0x001C,
            LEControllerOpcode::ReceiverTest => 0x001D,
            LEControllerOpcode::TransmitterTest => 0x001E,
            LEControllerOpcode::TestEnd => 0x001F,
        };
        OCF::new(code)
    }

    /// The command's full 2-byte identifier: LE controller group plus
    /// sub-code.
    pub fn opcode(&self) -> (r: Opcode)
        ensures
            r.0 == OGF::LEController,
            r.1.0 == self.spec_code(),
    {
        Opcode(OGF::LEController, self.ocf())
    }

    /// Converts a raw 10-bit sub-code to its enumerated command; a value
    /// outside the standardized set yields the recoverable conversion
    /// error.
    pub fn try_from_ocf(ocf: OCF) -> (r: Result<LEControllerOpcode, HCIConversionError>)
        ensures
            r == spec_opcode_of_code(ocf.0),
    {
        match ocf.value() {
            0x0001 => Ok(LEControllerOpcode::SetEventMask),
            0x0002 => Ok(LEControllerOpcode::ReadBufferSize),
            0x0003 => Ok(LEControllerOpcode::ReadLocalSupportedFeatures),
            0x0005 => Ok(LEControllerOpcode::SetRandomAddress),
            0x0006 => Ok(LEControllerOpcode::SetAdvertisingParameters),
            0x0007 => Ok(LEControllerOpcode::ReadAdvertisingChannelTxPower),
            0x0008 => Ok(LEControllerOpcode::SetAdvertisingData),
            0x0009 => Ok(LEControllerOpcode::SetScanResponseData),
            0x000A => Ok(LEControllerOpcode::SetAdvertisingEnable),
            0x000B => Ok(LEControllerOpcode::SetScanParameters),
            0x000C => Ok(LEControllerOpcode::SetScanEnable),
            0x000D => Ok(LEControllerOpcode::CreateConnection),
            0x000E => Ok(LEControllerOpcode::CreateConnectionCancel),
            0x000F => Ok(LEControllerOpcode::ReadWhitelistSize),
            0x0010 => Ok(LEControllerOpcode::ClearWhitelist),
            0x0011 => Ok(LEControllerOpcode::AddDeviceToWhitelist),
            0x0012 => Ok(LEControllerOpcode::RemoveDeviceFromWhitelist),
            0x0013 => Ok(LEControllerOpcode::ConnectionUpdate),
            0x0014 => Ok(LEControllerOpcode::SetHostChannelClassification),
            0x0015 => Ok(LEControllerOpcode::ReadChannelMap),
            0x0016 => Ok(LEControllerOpcode::ReadRemoteUsedFeatures),
            0x0017 => Ok(LEControllerOpcode::Encrypt),
            0x0018 => Ok(LEControllerOpcode::Rand),
            0x0019 => Ok(LEControllerOpcode::StartEncryption),
            0x001A => Ok(LEControllerOpcode::LongTermKeyRequestReply),
            0x001B => Ok(LEControllerOpcode::LongTermKeyRequestNegativeReply),
            0x001C => Ok(LEControllerOpcode::ReadSupportedState),
            0x001D => Ok(LEControllerOpcode::ReceiverTest),
            0x001E => Ok(LEControllerOpcode::TransmitterTest),
            0x001F => Ok(LEControllerOpcode::TestEnd),
            _ => Err(HCIConversionError),
        }
    }
}

/// Converting a standardized command's sub-code back to the enumerated form
/// reproduces the command.
pub proof fn lemma_opcode_round_trip(op: LEControllerOpcode)
    ensures
        spec_opcode_of_code(op.spec_code()) == Ok::<LEControllerOpcode, HCIConversionError>(op),
{
}

/// Every raw sub-code a standardized command converts from is reproduced by
/// converting the command back; every other raw value fails with the
/// conversion error, and recognized values are exactly `0x0001..=0x001F`
/// without `0x0004`.
pub proof fn lemma_code_round_trip(code: u16)
    ensures
        (spec_opcode_of_code(code) matches Ok(op) ==> op.spec_code() == code),
        spec_opcode_of_code(code) is Ok <==> (1 <= code <= 0x001F && code != 0x0004),
        spec_opcode_of_code(code) is Err <==> !(1 <= code <= 0x001F && code != 0x0004),
{
}

} // verus!

//! Round-trip tests for the standardized LE controller opcode catalog.

use mesh_security::hci::{HCIConversionError, LEControllerOpcode, Opcode, OCF, OGF};

fn all_opcodes() -> [LEControllerOpcode; 30] {
    [
        LEControllerOpcode::SetEventMask,
        LEControllerOpcode::ReadBufferSize,
        LEControllerOpcode::ReadLocalSupportedFeatures,
        LEControllerOpcode::SetRandomAddress,
        LEControllerOpcode::SetAdvertisingParameters,
        LEControllerOpcode::ReadAdvertisingChannelTxPower,
        LEControllerOpcode::SetAdvertisingData,
        LEControllerOpcode::SetScanResponseData,
        LEControllerOpcode::SetAdvertisingEnable,
        LEControllerOpcode::SetScanParameters,
        LEControllerOpcode::SetScanEnable,
        LEControllerOpcode::CreateConnection,
        LEControllerOpcode::CreateConnectionCancel,
        LEControllerOpcode::ReadWhitelistSize,
        LEControllerOpcode::ClearWhitelist,
        LEControllerOpcode::AddDeviceToWhitelist,
        LEControllerOpcode::RemoveDeviceFromWhitelist,
        LEControllerOpcode::ConnectionUpdate,
        LEControllerOpcode::SetHostChannelClassification,
        LEControllerOpcode::ReadChannelMap,
        LEControllerOpcode::ReadRemoteUsedFeatures,
        LEControllerOpcode::Encrypt,
        LEControllerOpcode::Rand,
        LEControllerOpcode::StartEncryption,
        LEControllerOpcode::LongTermKeyRequestReply,
        LEControllerOpcode::LongTermKeyRequestNegativeReply,
        LEControllerOpcode::ReadSupportedState,
        LEControllerOpcode::ReceiverTest,
        LEControllerOpcode::TransmitterTest,
        LEControllerOpcode::TestEnd,
    ]
}

#[test]
fn opcode_round_trip_all() {
    for op in all_opcodes() {
        let raw = op.ocf();
        assert_eq!(LEControllerOpcode::try_from_ocf(raw), Ok(op));
    }
}

#[test]
fn opcode_codes_cover_expected_range() {
    // The standardized sub-codes are exactly 0x0001..=0x001F without
    // 0x0004.
    let mut seen = [false; 0x20];
    for op in all_opcodes() {
        let code = op.ocf().value();
        assert!(code >= 0x0001 && code <= 0x001F);
        assert!(!seen[code as usize]);
        seen[code as usize] = true;
    }
    assert!(!seen[0]);
    assert!(!seen[4]);
    assert_eq!(seen.iter().filter(|taken| **taken).count(), 30);
}

#[test]
fn unrecognized_code_fails() {
    for raw in [0x0000, 0x0004, 0x0020, 0x01FF, 0x03FF] {
        assert_eq!(
            LEControllerOpcode::try_from_ocf(OCF::new(raw)),
            Err(HCIConversionError),
        );
    }
}

#[test]
fn specific_codes() {
    assert_eq!(LEControllerOpcode::SetEventMask.ocf().value(), 0x0001);
    assert_eq!(LEControllerOpcode::Encrypt.ocf().value(), 0x0017);
    assert_eq!(LEControllerOpcode::TestEnd.ocf().value(), 0x001F);
    assert_eq!(
        LEControllerOpcode::try_from_ocf(OCF::new(0x0018)),
        Ok(LEControllerOpcode::Rand),
    );
}

#[test]
fn opcode_group_and_packing() {
    for op in all_opcodes() {
        assert_eq!(op.ogf(), OGF::LEController);
    }
    let full = LEControllerOpcode::SetEventMask.opcode();
    assert_eq!(full, Opcode(OGF::LEController, OCF::new(0x0001)));
    // LE controller group 0x08 in the top six bits, sub-code below.
    assert_eq!(full.as_u16(), 0x2001);
    assert_eq!(OGF::LEController.value(), 0x08);
    assert_eq!(OGF::VendorSpecific.value(), 0x3F);
    assert_eq!(OGF::NoCommand.value(), 0x00);
}

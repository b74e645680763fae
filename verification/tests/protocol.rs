use kondis::protocol::{
    FTMSControlOpCode, LevelOutOfRange, ProtocolCodec, StopCode, MAX_PACKABLE_LEVEL,
};
use kondis::telemetry::TelemetryLayout;

fn codec(max_level: i16) -> ProtocolCodec {
    ProtocolCodec::new(TelemetryLayout::iconsole_0028(), max_level)
}

#[test]
fn opcodes_have_their_wire_values() {
    assert_eq!(FTMSControlOpCode::RequestControl.code(), 0x00);
    assert_eq!(FTMSControlOpCode::TargetPower.code(), 0x05);
    assert_eq!(FTMSControlOpCode::Start.code(), 0x07);
    assert_eq!(FTMSControlOpCode::Stop.code(), 0x08);
    assert_eq!(FTMSControlOpCode::SpinDownControl.code(), 0x13);
    assert_eq!(FTMSControlOpCode::TargetCadence.code(), 0x14);
    assert_eq!(FTMSControlOpCode::Success.code(), 0x80);
}

#[test]
fn stop_codes_have_their_wire_values() {
    assert_eq!(StopCode::Stop.code(), 0x01);
    assert_eq!(StopCode::Pause.code(), 0x02);
}

#[test]
fn set_power_packs_tenfold_level_little_endian() {
    let frame = codec(64).encode_set_power(5).unwrap();
    assert_eq!(frame.to_bytes(), vec![0x05, 50, 0]);
    assert_eq!(frame.opcode(), FTMSControlOpCode::TargetPower);
    assert_eq!(frame.payload(), &vec![50u8, 0]);
}

#[test]
fn set_power_uses_the_high_byte() {
    let frame = codec(128).encode_set_power(100).unwrap();
    assert_eq!(frame.to_bytes(), vec![0x05, 0xE8, 0x03]);
}

#[test]
fn set_cadence_packs_like_power_under_its_own_opcode() {
    let frame = codec(64).encode_set_cadence(32).unwrap();
    assert_eq!(frame.to_bytes(), vec![0x14, 0x40, 0x01]);
    assert_eq!(frame.opcode(), FTMSControlOpCode::TargetCadence);
}

#[test]
fn request_control_is_the_opcode_alone() {
    let frame = codec(64).encode_request_control();
    assert_eq!(frame.to_bytes(), vec![0x00]);
    assert!(frame.payload().is_empty());
}

#[test]
fn stop_carries_the_stop_reason() {
    let frame = codec(64).encode_stop();
    assert_eq!(frame.to_bytes(), vec![0x08, 0x01]);
}

#[test]
fn level_zero_is_refused() {
    let err = codec(32).encode_set_power(0).unwrap_err();
    assert_eq!(err, LevelOutOfRange { level: 0, max_level: 32 });
    let err = codec(32).encode_set_cadence(0).unwrap_err();
    assert_eq!(err, LevelOutOfRange { level: 0, max_level: 32 });
}

#[test]
fn level_above_the_maximum_is_refused() {
    let err = codec(32).encode_set_power(33).unwrap_err();
    assert_eq!(err, LevelOutOfRange { level: 33, max_level: 32 });
    assert!(codec(32).encode_set_power(32).is_ok());
    assert!(codec(32).encode_set_power(1).is_ok());
}

#[test]
fn negative_level_is_refused() {
    assert!(codec(32).encode_set_power(-1).is_err());
    assert!(codec(32).encode_set_cadence(i16::MIN).is_err());
}

#[test]
fn no_level_is_accepted_below_a_maximum_of_one() {
    assert!(codec(0).encode_set_power(1).is_err());
    assert!(codec(-5).encode_set_power(1).is_err());
}

#[test]
fn power_level_is_recovered_from_the_payload() {
    let codec = codec(100);
    for level in 1..=100i16 {
        let bytes = codec.encode_set_power(level).unwrap().to_bytes();
        assert_eq!(bytes.len(), 3);
        let value = bytes[1] as u16 | ((bytes[2] as u16) << 8);
        assert_eq!(value / 10, level as u16);
        assert_eq!(value % 10, 0);
    }
}

#[test]
fn cadence_level_is_recovered_from_the_payload() {
    let codec = codec(MAX_PACKABLE_LEVEL);
    for level in [1i16, 9, 10, 25, 26, 255, 256, 3276, 3277, MAX_PACKABLE_LEVEL] {
        let bytes = codec.encode_set_cadence(level).unwrap().to_bytes();
        let value = bytes[1] as u32 | ((bytes[2] as u32) << 8);
        assert_eq!(value, level as u32 * 10);
    }
}

#[test]
fn tenfold_beyond_two_bytes_is_cut_to_sixteen_bits() {
    let bytes = codec(i16::MAX).encode_set_power(6554).unwrap().to_bytes();
    // 65540 = 0x1_0004
    assert_eq!(bytes, vec![0x05, 0x04, 0x00]);
}

#[test]
fn codec_decodes_by_its_layout() {
    let short = [0u8; 28];
    assert_eq!(codec(64).decode_telemetry(&short), None);
    let long = [0u8; 29];
    assert!(codec(64).decode_telemetry(&long).is_some());
}

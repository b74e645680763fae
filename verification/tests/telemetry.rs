use kondis::telemetry::{FTMSData, FieldSource, TelemetryLayout};

fn indoor_bike_frame() -> Vec<u8> {
    vec![
        0xAA, 0xBB, 0x10, 0x00, 0x80, 0xCC, 0xE8, 0x03, 0xDD, 0x05, 0xEE, 0x64, 0xFF, 0x1E, 0x11,
        0x22, 0x33, 0x44, 0x46, 0x3C,
    ]
}

#[test]
fn indoor_bike_frame_decodes_by_its_offsets() {
    let data = TelemetryLayout::indoor_bike().decode_telemetry(&indoor_bike_frame()).unwrap();
    // 0x0010 hundredths of a km/h: 0.16 km/h
    assert_eq!(data.speed, 16);
    // 0x80 half revolutions: 64.0 rpm
    assert_eq!(data.cadence, 128);
    // the one byte at offset 6: 0xE8 metres, 0.232 km
    assert_eq!(data.distance, 232);
    assert_eq!(data.resistance, 5);
    assert_eq!(data.power, 100);
    assert_eq!(data.calories, 30);
    assert_eq!(data.heart_rate, 70);
    assert_eq!(data.time, 60);
}

#[test]
fn indoor_bike_readings_in_floating_point() {
    let data = TelemetryLayout::indoor_bike().decode_telemetry(&indoor_bike_frame()).unwrap();
    assert_eq!(data.speed as f64 / 100.0, 0.16);
    assert_eq!(data.cadence as f64 / 2.0, 64.0);
    assert_eq!(data.distance as f64 / 1000.0, 0.232);
}

#[test]
fn short_indoor_bike_frame_is_no_observation() {
    let layout = TelemetryLayout::indoor_bike();
    let frame = indoor_bike_frame();
    for len in 0..20 {
        assert_eq!(layout.decode_telemetry(&frame[..len]), None);
    }
    assert!(layout.decode_telemetry(&frame[..20]).is_some());
}

#[test]
fn empty_frame_is_no_observation() {
    assert_eq!(TelemetryLayout::indoor_bike().decode_telemetry(&[]), None);
    assert_eq!(TelemetryLayout::iconsole_0028().decode_telemetry(&[]), None);
}

#[test]
fn longer_frame_decodes_like_its_head() {
    let mut frame = indoor_bike_frame();
    let expected = TelemetryLayout::indoor_bike().decode_telemetry(&frame);
    frame.extend_from_slice(&[9, 9, 9, 9]);
    assert_eq!(TelemetryLayout::indoor_bike().decode_telemetry(&frame), expected);
}

fn iconsole_frame() -> Vec<u8> {
    let mut frame = vec![0u8; 29];
    frame[2] = 0x34;
    frame[3] = 0x12;
    frame[6] = 0x81;
    frame[10] = 250;
    frame[15] = 77;
    frame[26] = 0x2C;
    frame[27] = 0x01;
    frame
}

#[test]
fn iconsole_frame_decodes_by_its_offsets() {
    let data = TelemetryLayout::iconsole_0028().decode_telemetry(&iconsole_frame()).unwrap();
    assert_eq!(data.speed, 0x1234);
    // 129 half revolutions are 64.5 rpm, reported as 65 rpm
    assert_eq!(data.cadence, 130);
    assert_eq!(data.distance, 250);
    assert_eq!(data.power, 77);
    assert_eq!(data.time, 300);
    assert_eq!(data.resistance, 0);
    assert_eq!(data.calories, 0);
    assert_eq!(data.heart_rate, 0);
}

#[test]
fn iconsole_cadence_rounds_halves_upwards() {
    let layout = TelemetryLayout::iconsole_0028();
    let mut frame = vec![0u8; 29];
    for (raw, rpm) in [(0u8, 0u32), (1, 1), (2, 1), (3, 2), (4, 2), (5, 3), (254, 127), (255, 128)] {
        frame[6] = raw;
        let data = layout.decode_telemetry(&frame).unwrap();
        assert_eq!(data.cadence, 2 * rpm);
        assert_eq!((raw as f32 / 2.0).round(), data.cadence as f32 / 2.0);
    }
}

#[test]
fn short_iconsole_frame_is_no_observation() {
    let layout = TelemetryLayout::iconsole_0028();
    assert_eq!(layout.decode_telemetry(&[0u8; 28]), None);
    assert_eq!(layout.decode_telemetry(&[0u8; 20]), None);
    assert!(layout.decode_telemetry(&[0u8; 29]).is_some());
}

#[test]
fn the_two_profiles_disagree_on_one_frame() {
    let frame = iconsole_frame();
    let a = TelemetryLayout::indoor_bike().decode_telemetry(&frame).unwrap();
    let b = TelemetryLayout::iconsole_0028().decode_telemetry(&frame).unwrap();
    assert_eq!(a.speed, b.speed);
    assert_ne!(a.cadence, b.cadence);
    assert_ne!(a.distance, b.distance);
}

#[test]
fn blank_layout_reads_zeros_from_anything() {
    let layout = TelemetryLayout::blank();
    assert_eq!(layout.decode_telemetry(&[]), Some(FTMSData::default()));
    assert_eq!(layout.decode_telemetry(&[1, 2, 3]), Some(FTMSData::default()));
}

#[test]
fn default_observation_is_all_zero() {
    let data = FTMSData::default();
    assert_eq!(
        data,
        FTMSData {
            speed: 0,
            cadence: 0,
            distance: 0,
            resistance: 0,
            power: 0,
            calories: 0,
            heart_rate: 0,
            time: 0,
        }
    );
}

#[test]
fn layout_that_reads_past_its_minimum_waits_for_the_bytes() {
    let layout = TelemetryLayout {
        min_len: 2,
        speed: FieldSource::WordLe(4),
        ..TelemetryLayout::blank()
    };
    assert!(!layout.check_accepts(5));
    assert!(layout.check_accepts(6));
    assert_eq!(layout.decode_telemetry(&[1, 2, 3, 4, 5]), None);
    let data = layout.decode_telemetry(&[1, 2, 3, 4, 5, 6]).unwrap();
    assert_eq!(data.speed, 5 + 256 * 6);
}

#[test]
fn layout_with_an_offset_at_the_end_of_the_address_space() {
    let layout = TelemetryLayout {
        min_len: 0,
        time: FieldSource::WordLe(usize::MAX),
        power: FieldSource::Byte(usize::MAX),
        ..TelemetryLayout::blank()
    };
    assert_eq!(layout.decode_telemetry(&[0u8; 64]), None);
}

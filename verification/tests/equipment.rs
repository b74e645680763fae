use kondis::cadence::get_score;
use kondis::profile::EquipmentType;
use kondis::protocol::LevelOutOfRange;
use kondis::simulated::{NonBluetoothBike, NonBluetoothDevice};
use kondis::tags::{channel_count, parse_bpm, sample_rate_or_default, ChannelLayout};
use kondis::telemetry::{FTMSData, TelemetryLayout};
use kondis::text::{bytes_equal, starts_with, text_equal};
use kondis::gatt::Role;

#[test]
fn equipment_names() {
    assert_eq!(EquipmentType::from_name("28"), Some(EquipmentType::Iconsole0028Bike));
    assert_eq!(EquipmentType::from_name("debug"), Some(EquipmentType::DebugBike));
    assert_eq!(EquipmentType::from_name("device"), Some(EquipmentType::NonBluetoothDevice));
    assert_eq!(EquipmentType::from_name("bike"), Some(EquipmentType::IndoorBike));
    assert_eq!(EquipmentType::from_name("Debug"), None);
    assert_eq!(EquipmentType::from_name("280"), None);
    assert_eq!(EquipmentType::from_name(""), None);
}

#[test]
fn equipment_name_predicates() {
    assert_eq!(EquipmentType::Iconsole0028Bike.name_predicate(), "iConsole+0028");
    assert_eq!(EquipmentType::DebugBike.name_predicate(), "Console");
    assert_eq!(EquipmentType::NonBluetoothDevice.name_predicate(), "bike");
    assert_eq!(EquipmentType::IndoorBike.name_predicate(), "bike");
}

#[test]
fn equipment_constants() {
    let iconsole = EquipmentType::Iconsole0028Bike;
    assert!(iconsole.is_wireless());
    assert!(iconsole.writes_control());
    assert!(!iconsole.subscribes_to_all());
    assert!(iconsole.subscribes_to(Role::Stats));
    assert!(iconsole.subscribes_to(Role::Notify));
    assert!(!iconsole.subscribes_to(Role::Control));
    assert!(iconsole.needs(Role::Control));
    assert!(iconsole.needs(Role::Stats));
    assert!(!iconsole.needs(Role::Notify));
    assert_eq!(iconsole.layout(), TelemetryLayout::iconsole_0028());

    let indoor = EquipmentType::IndoorBike;
    assert!(indoor.is_wireless() && indoor.writes_control());
    assert!(indoor.needs(Role::Notify) && indoor.needs(Role::Stats) && indoor.needs(Role::Control));
    assert_eq!(indoor.layout(), TelemetryLayout::indoor_bike());

    let debug = EquipmentType::DebugBike;
    assert!(debug.is_wireless());
    assert!(!debug.writes_control());
    assert!(debug.subscribes_to_all());
    assert!(!debug.subscribes_to(Role::Notify) && !debug.subscribes_to(Role::Stats));
    assert!(!debug.needs(Role::Notify) && !debug.needs(Role::Stats) && !debug.needs(Role::Control));
    assert_eq!(debug.layout(), TelemetryLayout::blank());

    let device = EquipmentType::NonBluetoothDevice;
    assert!(!device.is_wireless());
    assert!(!device.writes_control());
    assert!(!device.subscribes_to_all());
    assert_eq!(device.layout(), TelemetryLayout::blank());
}

#[test]
fn simulated_device_takes_levels_in_range() {
    let mut device = NonBluetoothDevice::new(50);
    assert_eq!(device.name, "some hypothetical non-bluetooth device");
    assert_eq!(device.max_level, 50);
    assert!(device.connect());
    assert_eq!(device.set_level(1), Ok(()));
    assert_eq!(device.set_level(50), Ok(()));
    assert_eq!(device.set_level(0), Err(LevelOutOfRange { level: 0, max_level: 50 }));
    assert_eq!(device.set_level(51), Err(LevelOutOfRange { level: 51, max_level: 50 }));
    device.disconnect();
}

#[test]
fn simulated_device_reports_the_time_only() {
    let device = NonBluetoothDevice::new(50);
    assert_eq!(device.read(0), Some(FTMSData::default()));
    assert_eq!(device.read(75), Some(FTMSData { time: 75, ..FTMSData::default() }));
    assert_eq!(device.read(65_535).unwrap().time, 65_535);
    assert_eq!(device.read(65_536).unwrap().time, 0);
    assert_eq!(device.read(65_536 + 9).unwrap().time, (65_536u64 + 9) as u16 as u32);
    assert_eq!(device.read(u64::MAX).unwrap().time, u64::MAX as u16 as u32);
}

#[test]
fn simulated_bike_takes_levels_in_range() {
    let bike = NonBluetoothBike::new(32);
    assert_eq!(bike.name, "some hypothetical non-bluetooth bike");
    assert!(bike.connect());
    assert_eq!(bike.set_level(32), Ok(()));
    assert_eq!(bike.set_level(33), Err(LevelOutOfRange { level: 33, max_level: 32 }));
    assert_eq!(bike.set_level(0), Err(LevelOutOfRange { level: 0, max_level: 32 }));
    assert_eq!(bike.read(), Some(FTMSData::default()));
    bike.disconnect();
}

/// The points as the floating-point rule gives them, for a cadence in
/// revolutions per minute.
fn points_in_floating_point(cadence: f32, bpm: Option<u8>) -> f32 {
    let Some(bpm) = bpm else {
        return 0.;
    };
    let bpm = bpm as f32;
    if ((cadence * 2.) - bpm).abs() < 2. {
        return 1.;
    }
    if (cadence - bpm).abs() < 4. {
        return 2.;
    }
    if (cadence - (bpm * 2.)).abs() < 8. {
        return 4.;
    }
    if (cadence - (bpm * 4.)).abs() < 16. {
        return 8.;
    }
    0.
}

#[test]
fn cadence_points_examples() {
    assert_eq!(get_score(120, None), 0);
    // 60 rpm against 120 bpm: half the beat
    assert_eq!(get_score(120, Some(120)), 1);
    assert_eq!(get_score(121, Some(120)), 1);
    assert_eq!(get_score(122, Some(120)), 0);
    // 90 rpm against 90 bpm: on the beat
    assert_eq!(get_score(180, Some(90)), 2);
    assert_eq!(get_score(187, Some(90)), 2);
    assert_eq!(get_score(188, Some(90)), 0);
    // 80 rpm against 40 bpm: twice the beat
    assert_eq!(get_score(160, Some(40)), 4);
    // 100 rpm against 25 bpm: four times the beat
    assert_eq!(get_score(200, Some(25)), 8);
    assert_eq!(get_score(0, Some(0)), 1);
    assert_eq!(get_score(u32::MAX, Some(255)), 0);
}

#[test]
fn cadence_points_agree_with_the_floating_point_rule() {
    for bpm in [0u8, 1, 2, 20, 40, 59, 60, 61, 90, 120, 128, 200, 255] {
        for halves in 0..2200u32 {
            let expected = points_in_floating_point(halves as f32 / 2., Some(bpm));
            assert_eq!(get_score(halves, Some(bpm)) as f32, expected);
        }
    }
}

#[test]
fn channel_counts() {
    assert_eq!(channel_count(Some(ChannelLayout::Mono)), 1);
    assert_eq!(channel_count(Some(ChannelLayout::Stereo)), 2);
    assert_eq!(channel_count(Some(ChannelLayout::TwoPointOne)), 3);
    assert_eq!(channel_count(Some(ChannelLayout::FivePointOne)), 6);
    assert_eq!(channel_count(None), 2);
    assert_eq!(sample_rate_or_default(None), 44_100);
    assert_eq!(sample_rate_or_default(Some(48_000)), 48_000);
}

#[test]
fn beat_tags() {
    assert_eq!(parse_bpm("120"), Some(120));
    assert_eq!(parse_bpm("0"), Some(0));
    assert_eq!(parse_bpm("255"), Some(255));
    assert_eq!(parse_bpm("256"), None);
    assert_eq!(parse_bpm("007"), Some(7));
    assert_eq!(parse_bpm("+90"), Some(90));
    assert_eq!(parse_bpm("+"), None);
    assert_eq!(parse_bpm(""), None);
    assert_eq!(parse_bpm("-1"), None);
    assert_eq!(parse_bpm("12a"), None);
    assert_eq!(parse_bpm(" 12"), None);
    assert_eq!(parse_bpm("12.5"), None);
    assert_eq!(parse_bpm("99999999999999999999999999"), None);
    assert_eq!(parse_bpm("0000000000000000000000000255"), Some(255));
}

#[test]
fn beat_tags_agree_with_the_standard_library() {
    let tags = ["", "+", "++1", "+0", "1", "25", "255", "256", "300", "1e2", "٣", "12 ", "0x10"];
    for tag in tags {
        assert_eq!(parse_bpm(tag), tag.parse::<u8>().ok());
    }
    for n in 0..1000u32 {
        let tag = n.to_string();
        assert_eq!(parse_bpm(&tag), tag.parse::<u8>().ok());
    }
}

#[test]
fn text_comparisons() {
    assert!(text_equal("fft", "fft"));
    assert!(!text_equal("fft", "FFT"));
    assert!(!text_equal("fft", "fft "));
    assert!(text_equal("", ""));
    assert!(bytes_equal(&[1, 2], &[1, 2]));
    assert!(!bytes_equal(&[1, 2], &[1, 3]));
    assert!(!bytes_equal(&[1, 2], &[1]));
    assert!(starts_with("00002ad2-0000", "00002ad2"));
    assert!(!starts_with("00002ad", "00002ad2"));
    assert!(!starts_with("10002ad2", "00002ad2"));
    assert!(starts_with("abc", ""));
}

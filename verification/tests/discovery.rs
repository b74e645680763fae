use kondis::discovery::{
    find_bytes, get_peripheral, name_matches, Discovery, DiscoveryEvent, DiscoveryStatus,
    DiscoveryStep,
};
use kondis::profile::EquipmentType;

fn seen(handle: u64, name: &str) -> DiscoveryEvent {
    DiscoveryEvent::DeviceDiscovered { handle, name: Some(name.to_string()) }
}

fn nameless(handle: u64) -> DiscoveryEvent {
    DiscoveryEvent::DeviceDiscovered { handle, name: None }
}

#[test]
fn name_test_is_a_substring_test() {
    assert!(name_matches("iConsole+0028", "iConsole+0028"));
    assert!(name_matches("xx iConsole+0028 yy", "iConsole+0028"));
    assert!(name_matches("my bike", "bike"));
    assert!(!name_matches("iConsole+002", "iConsole+0028"));
    assert!(!name_matches("", "bike"));
    assert!(name_matches("anything", ""));
    assert!(name_matches("", ""));
}

#[test]
fn name_test_counts_letter_case() {
    assert!(!name_matches("iconsole+0028", "iConsole+0028"));
    assert!(!name_matches("BIKE", "bike"));
    assert!(name_matches("Console", "Console"));
}

#[test]
fn name_test_agrees_with_the_standard_library() {
    let names = ["", "a", "ab", "aab", "abab", "bike", "e-bike 3", "Büke", "ü", "bikü"];
    for name in names {
        for needle in names {
            assert_eq!(name_matches(name, needle), name.contains(needle));
        }
    }
}

#[test]
fn byte_search_finds_matches_at_both_ends() {
    assert!(find_bytes(&[1, 2, 3, 4], &[1, 2]));
    assert!(find_bytes(&[1, 2, 3, 4], &[3, 4]));
    assert!(find_bytes(&[1, 2, 3, 4], &[1, 2, 3, 4]));
    assert!(!find_bytes(&[1, 2, 3, 4], &[2, 4]));
    assert!(!find_bytes(&[1, 2, 3], &[1, 2, 3, 4]));
    assert!(find_bytes(&[1, 1, 1, 2], &[1, 1, 2]));
}

#[test]
fn cancelled_scan_finds_nothing_and_takes_no_event() {
    let events = vec![seen(1, "iConsole+0028")];
    let (found, taken) = get_peripheral(EquipmentType::Iconsole0028Bike, &events, 0);
    assert!(found.is_none());
    assert_eq!(taken, 0);
}

#[test]
fn cancelled_scan_stops_at_the_first_poll() {
    let mut scan = Discovery::new("bike");
    assert_eq!(scan.poll(true), DiscoveryStep::Stop);
    assert!(scan.is_finished());
    assert!(scan.found().is_none());
    // a settled scan is not reopened by a late match
    assert_eq!(scan.on_event(&seen(1, "bike"), false), DiscoveryStep::Stop);
    assert!(scan.found().is_none());
}

#[test]
fn first_match_wins() {
    let events = vec![
        DiscoveryEvent::Other,
        nameless(1),
        seen(2, "toaster"),
        seen(3, "iConsole+0028 a"),
        seen(4, "iConsole+0028 b"),
    ];
    let (found, taken) = get_peripheral(EquipmentType::Iconsole0028Bike, &events, usize::MAX);
    let found = found.unwrap();
    assert_eq!(found.handle, 3);
    assert_eq!(found.name, "iConsole+0028 a");
    assert_eq!(taken, 4);
}

#[test]
fn cancellation_hides_a_later_match() {
    let events = vec![seen(1, "toaster"), seen(2, "kettle"), seen(3, "iConsole+0028")];
    let (found, taken) = get_peripheral(EquipmentType::Iconsole0028Bike, &events, 2);
    assert!(found.is_none());
    assert_eq!(taken, 2);
    let (found, taken) = get_peripheral(EquipmentType::Iconsole0028Bike, &events, 3);
    assert_eq!(found.unwrap().handle, 3);
    assert_eq!(taken, 3);
}

#[test]
fn stream_without_match_ends_as_not_found() {
    let events = vec![seen(1, "toaster"), DiscoveryEvent::Other];
    let (found, taken) = get_peripheral(EquipmentType::DebugBike, &events, 10);
    assert!(found.is_none());
    assert_eq!(taken, 2);
    let (found, taken) = get_peripheral(EquipmentType::DebugBike, &Vec::new(), 10);
    assert!(found.is_none());
    assert_eq!(taken, 0);
}

#[test]
fn each_kind_scans_for_its_own_name() {
    let events = vec![seen(1, "rental bike"), seen(2, "Console 7"), seen(3, "iConsole+0028")];
    let found = |kind| get_peripheral(kind, &events, usize::MAX).0.map(|d| d.handle);
    assert_eq!(found(EquipmentType::IndoorBike), Some(1));
    assert_eq!(found(EquipmentType::NonBluetoothDevice), Some(1));
    assert_eq!(found(EquipmentType::DebugBike), Some(2));
    assert_eq!(found(EquipmentType::Iconsole0028Bike), Some(3));
}

#[test]
fn scan_steps_one_event_at_a_time() {
    let mut scan = Discovery::new("Console");
    assert_eq!(scan.poll(false), DiscoveryStep::AwaitEvent);
    assert_eq!(scan.on_event(&DiscoveryEvent::Other, false), DiscoveryStep::AwaitEvent);
    assert_eq!(scan.on_event(&nameless(5), false), DiscoveryStep::AwaitEvent);
    assert_eq!(scan.on_event(&seen(6, "console"), false), DiscoveryStep::AwaitEvent);
    assert!(!scan.is_finished());
    assert_eq!(scan.on_event(&seen(7, "iConsole"), false), DiscoveryStep::Stop);
    assert!(scan.is_finished());
    assert_eq!(scan.found().unwrap().handle, 7);
    assert_eq!(scan.poll(false), DiscoveryStep::Stop);
    let device = scan.into_found().unwrap();
    assert_eq!(device.name, "iConsole");
}

#[test]
fn cancellation_is_looked_at_before_the_event() {
    let mut scan = Discovery::new("Console");
    assert_eq!(scan.on_event(&seen(7, "iConsole"), true), DiscoveryStep::Stop);
    assert!(scan.is_finished());
    assert!(scan.found().is_none());
}

#[test]
fn ended_stream_settles_the_scan() {
    let mut scan = Discovery::new("Console");
    scan.stream_ended();
    assert!(scan.is_finished());
    assert!(scan.found().is_none());
    let mut scan = Discovery::new("Console");
    scan.on_event(&seen(7, "iConsole"), false);
    scan.stream_ended();
    assert!(matches!(scan.into_found(), Some(d) if d.handle == 7));
}

#[test]
fn discovery_status_names_the_device() {
    let status = DiscoveryStatus::Scanning;
    assert!(matches!(status, DiscoveryStatus::Scanning));
}

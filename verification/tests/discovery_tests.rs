use keybridge::address::BdAddr;
use keybridge::discovery::{
    inquiry_ticks, is_keyboard_cod, DeviceProperty, DiscoveredDevice, DiscoveryManager,
};

fn addr(last: u8) -> BdAddr {
    BdAddr::from([0x10, 0x20, 0x30, 0x40, 0x50, last])
}

#[test]
fn merge_of_two_partial_reports() {
    let a = addr(1);
    let mut device = DiscoveredDevice::new(a, None, Some(-50), None);
    device.merge(DiscoveredDevice::new(a, Some("KB".to_string()), Some(-40), Some(0x540)));
    assert!(device.bda == a);
    assert_eq!(device.name, Some("KB".to_string()));
    assert_eq!(device.rssi, Some(-40));
    assert_eq!(device.cod, Some(0x540));
    assert!(device.is_keyboard());
}

#[test]
fn merge_keeps_the_strongest_signal_and_the_last_name() {
    let a = addr(1);
    let mut device = DiscoveredDevice::new(a, Some("old".to_string()), Some(-40), Some(0x540));
    device.merge(DiscoveredDevice::new(a, None, Some(-70), None));
    assert_eq!(device.name, Some("old".to_string()));
    assert_eq!(device.rssi, Some(-40));
    assert_eq!(device.cod, Some(0x540));
    device.merge(DiscoveredDevice::new(a, Some("new".to_string()), None, Some(0x200)));
    assert_eq!(device.name, Some("new".to_string()));
    assert_eq!(device.rssi, Some(-40));
    assert_eq!(device.cod, Some(0x200));
    let mut unknown = DiscoveredDevice::new(a, None, None, None);
    unknown.merge(DiscoveredDevice::new(a, None, Some(-128), None));
    assert_eq!(unknown.rssi, Some(-128));
    unknown.merge(DiscoveredDevice::new(a, None, Some(127), None));
    assert_eq!(unknown.rssi, Some(127));
}

#[test]
fn keyboard_class_follows_the_bit_layout() {
    assert!(is_keyboard_cod(0x540));
    assert!(is_keyboard_cod(0x0000_0540));
    // service and reserved bits do not count
    assert!(is_keyboard_cod(0xffff_e543));
    // combined keyboard and pointing device
    assert!(is_keyboard_cod(0x5c0));
    // pointing device only
    assert!(!is_keyboard_cod(0x580));
    // keyboard bit with another major class
    assert!(!is_keyboard_cod(0x440));
    assert!(!is_keyboard_cod(0x1540));
    assert!(!is_keyboard_cod(0));
}

#[test]
fn device_without_class_is_no_keyboard() {
    assert!(!DiscoveredDevice::new(addr(1), Some("KB".to_string()), None, None).is_keyboard());
    assert!(!DiscoveredDevice::new(addr(1), None, None, Some(0x580)).is_keyboard());
    assert!(DiscoveredDevice::new(addr(1), None, None, Some(0x540)).is_keyboard());
}

#[test]
fn inquiry_length_in_ticks() {
    assert_eq!(inquiry_ticks(0), 0);
    assert_eq!(inquiry_ticks(1), 0);
    assert_eq!(inquiry_ticks(2), 1);
    assert_eq!(inquiry_ticks(5), 3);
    assert_eq!(inquiry_ticks(32), 25);
    assert_eq!(inquiry_ticks(326), 254);
    assert_eq!(inquiry_ticks(327), 255);
    assert_eq!(inquiry_ticks(1000), 255);
    assert_eq!(inquiry_ticks(u64::MAX), 255);
}

#[test]
fn properties_fill_a_record_in_order() {
    let props = vec![
        DeviceProperty::Rssi(-60),
        DeviceProperty::Eir,
        DeviceProperty::Name("first".to_string()),
        DeviceProperty::ClassOfDevice(0x540),
        DeviceProperty::Other,
        DeviceProperty::Name("second".to_string()),
        DeviceProperty::Rssi(-80),
    ];
    let device = DiscoveredDevice::from_properties(addr(7), &props);
    assert!(device.bda == addr(7));
    assert_eq!(device.name, Some("second".to_string()));
    assert_eq!(device.rssi, Some(-80));
    assert_eq!(device.cod, Some(0x540));
    let bare = DiscoveredDevice::from_properties(addr(8), &vec![]);
    assert_eq!(bare.name, None);
    assert_eq!(bare.rssi, None);
    assert_eq!(bare.cod, None);
}

#[test]
fn manager_merges_by_address_and_keeps_first_seen_order() {
    let mut manager: DiscoveryManager<u32> = DiscoveryManager::new();
    assert!(!manager.is_pending());
    manager.start_discovery(17);
    assert!(manager.is_pending());
    manager.add_result(DiscoveredDevice::new(addr(1), None, Some(-50), None));
    manager.add_result(DiscoveredDevice::new(addr(2), Some("mouse".to_string()), None, Some(0x580)));
    manager.add_result(DiscoveredDevice::new(addr(1), Some("KB".to_string()), Some(-40), Some(0x540)));
    let (taker, devices) = manager.finish_discovery().expect("a cycle is pending");
    assert_eq!(taker, 17);
    assert_eq!(devices.len(), 2);
    assert!(devices[0].bda == addr(1));
    assert_eq!(devices[0].name, Some("KB".to_string()));
    assert_eq!(devices[0].rssi, Some(-40));
    assert_eq!(devices[0].cod, Some(0x540));
    assert!(devices[1].bda == addr(2));
    assert_eq!(devices[1].name, Some("mouse".to_string()));
    assert!(!manager.is_pending());
}

#[test]
fn finish_without_a_cycle_does_nothing() {
    let mut manager: DiscoveryManager<u32> = DiscoveryManager::new();
    assert!(manager.finish_discovery().is_none());
    manager.start_discovery(1);
    manager.add_result(DiscoveredDevice::new(addr(1), None, None, None));
    assert_eq!(manager.finish_discovery().map(|(_, d)| d.len()), Some(1));
    assert!(manager.finish_discovery().is_none());
}

#[test]
fn a_new_cycle_starts_empty() {
    let mut manager: DiscoveryManager<&str> = DiscoveryManager::new();
    manager.start_discovery("first");
    manager.add_result(DiscoveredDevice::new(addr(1), None, None, None));
    assert!(manager.finish_discovery().is_some());
    manager.add_result(DiscoveredDevice::new(addr(9), None, None, None));
    manager.start_discovery("second");
    manager.add_result(DiscoveredDevice::new(addr(2), None, None, None));
    let (taker, devices) = manager.finish_discovery().expect("a cycle is pending");
    assert_eq!(taker, "second");
    assert_eq!(devices.len(), 1);
    assert!(devices[0].bda == addr(2));
}

#[test]
fn addresses_compare_by_their_bytes() {
    assert!(addr(1) == addr(1));
    assert!(addr(1) != addr(2));
    assert!(BdAddr::from([1, 2, 3, 4, 5, 6]) != BdAddr::from([6, 5, 4, 3, 2, 1]));
    assert_eq!(addr(3).raw(), [0x10, 0x20, 0x30, 0x40, 0x50, 3]);
}

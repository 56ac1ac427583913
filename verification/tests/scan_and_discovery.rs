use blesd::discovery::format_peripheral_report;
use blesd::discovery::format_service;
use blesd::discovery::CharacteristicRecord;
use blesd::discovery::DescriptorRecord;
use blesd::discovery::ServiceRecord;
use blesd::format_subitems;
use blesd::messages::check_adapters;
use blesd::messages::no_adapters_message;
use blesd::messages::peripheral_not_found_message;
use blesd::messages::AdapterCheck;
use blesd::peripherals::find_peripheral_index;
use blesd::peripherals::format_peripheral_table;
use blesd::peripherals::sort_peripherals;
use blesd::PeripheralDeviceDescriptor;

fn descriptor(id: &str, rssi: i16) -> PeripheralDeviceDescriptor {
    PeripheralDeviceDescriptor::new(id.to_string(), Some(rssi), None, None)
}

#[test]
fn new_defaults_absent_properties() {
    let d = PeripheralDeviceDescriptor::new("AA:BB".to_string(), None, None, None);
    assert_eq!(d.device_id, "AA:BB");
    assert_eq!(d.rssi, 0);
    assert_eq!(d.name, "");
    assert_eq!(d.manufacturer, "");
}

#[test]
fn sort_by_identifier_default() {
    let list = vec![descriptor("B", -40), descriptor("A", -80)];
    let sorted = sort_peripherals(list, false);
    let ids: Vec<&str> = sorted.iter().map(|d| d.device_id.as_str()).collect();
    assert_eq!(ids, vec!["A", "B"]);
}

#[test]
fn sort_by_rssi_strongest_first() {
    let list = vec![descriptor("B", -40), descriptor("A", -80)];
    let sorted = sort_peripherals(list, true);
    let ids: Vec<&str> = sorted.iter().map(|d| d.device_id.as_str()).collect();
    assert_eq!(ids, vec!["B", "A"]);
}

#[test]
fn sort_is_stable_for_equal_keys() {
    let list = vec![descriptor("C", -50), descriptor("A", -50), descriptor("B", -50)];
    let sorted = sort_peripherals(list, true);
    let ids: Vec<&str> = sorted.iter().map(|d| d.device_id.as_str()).collect();
    assert_eq!(ids, vec!["C", "A", "B"]);
}

#[test]
fn peripheral_table_holds_all_columns() {
    let list = vec![PeripheralDeviceDescriptor::new(
        "AA:BB:CC".to_string(),
        Some(-40),
        Some("Thermometer".to_string()),
        Some("Acme".to_string()),
    )];
    let table = format_peripheral_table(&list);
    assert!(table.contains("IDENTIFIER"));
    assert!(table.contains("RSSI [dBm]"));
    assert!(table.contains("NAME"));
    assert!(table.contains("MANUFACTURER"));
    assert!(table.contains("AA:BB:CC"));
    assert!(table.contains("-40"));
    assert!(table.contains("Thermometer"));
    assert!(table.contains("Acme"));
}

#[test]
fn find_peripheral_first_match() {
    let ids = vec!["one".to_string(), "two".to_string(), "two".to_string()];
    assert_eq!(find_peripheral_index(&ids, &"two".to_string()), Some(1));
}

#[test]
fn find_peripheral_absent() {
    let ids = vec!["one".to_string()];
    assert_eq!(find_peripheral_index(&ids, &"UNKNOWN_ID".to_string()), None);
}

#[test]
fn adapter_check_classifies() {
    assert_eq!(check_adapters(0), AdapterCheck::NoAdapters);
    assert_eq!(check_adapters(1), AdapterCheck::SingleAdapter);
    assert_eq!(check_adapters(5), AdapterCheck::MultipleAdapters);
}

#[test]
fn no_adapters_text() {
    assert_eq!(no_adapters_message(), "no Bluetooth adapters found");
}

#[test]
fn not_found_text() {
    assert_eq!(
        peripheral_not_found_message("UNKNOWN_ID"),
        "no peripheral device with identifier 'UNKNOWN_ID' found"
    );
}

#[test]
fn report_single_bare_service() {
    let service = ServiceRecord {
        uuid: 0x0000_1800_0000_1000_8000_0080_5F9B_34FB_u128,
        primary: true,
        characteristics: Vec::new(),
    };
    let report = format_peripheral_report("AA:BB", &vec![service]);
    assert!(report.contains("PERIPHERAL DEVICE"));
    assert!(report.contains("identifier: AA:BB"));
    assert_eq!(report.matches("SERVICE").count(), 1);
    assert!(!report.contains("CHARACTERISTIC"));
    assert!(report.contains("uuid: 0x1800"));
    assert!(report.contains("type: Generic Access service"));
    assert!(report.contains("primary: true"));
}

#[test]
fn report_matches_boxed_structure() {
    let service = ServiceRecord {
        uuid: 0x0000_1800_0000_1000_8000_0080_5F9B_34FB_u128,
        primary: false,
        characteristics: Vec::new(),
    };
    let service_text = format_service(&service);
    let inner = format_subitems(vec![service_text], "SERVICE");
    let expected = format_subitems(
        vec![format!("identifier: {}\n{}", "AA:BB", inner)],
        "PERIPHERAL DEVICE",
    );
    assert_eq!(format_peripheral_report("AA:BB", &vec![service]), expected);
}

#[test]
fn characteristic_block_nests_descriptors() {
    let with_descriptor = CharacteristicRecord {
        uuid: 0x0000_2A37_0000_1000_8000_0080_5F9B_34FB_u128,
        properties: 0x10,
        descriptors: vec![DescriptorRecord {
            uuid: 0x0000_2902_0000_1000_8000_0080_5F9B_34FB_u128,
        }],
    };
    let text = blesd::discovery::format_characteristic(&with_descriptor);
    assert!(text.contains("uuid: 0x2a37"));
    assert!(text.contains("type: Heart Rate Measurement"));
    assert!(text.contains("properties: notify"));
    assert!(text.contains("DESCRIPTOR"));
    assert!(text.contains("Client Characteristic Configuration"));

    let bare = CharacteristicRecord {
        uuid: 0x0000_2A37_0000_1000_8000_0080_5F9B_34FB_u128,
        properties: 0x10,
        descriptors: Vec::new(),
    };
    let bare_text = blesd::discovery::format_characteristic(&bare);
    assert!(!bare_text.contains("DESCRIPTOR"));
}

#[test]
fn service_block_nests_characteristics() {
    let service = ServiceRecord {
        uuid: 0x0000_180D_0000_1000_8000_0080_5F9B_34FB_u128,
        primary: true,
        characteristics: vec![CharacteristicRecord {
            uuid: 0x0000_2A37_0000_1000_8000_0080_5F9B_34FB_u128,
            properties: 0x10,
            descriptors: Vec::new(),
        }],
    };
    let text = format_service(&service);
    assert!(text.contains("type: Heart Rate service"));
    assert!(text.contains("CHARACTERISTIC"));
}

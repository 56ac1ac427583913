use blesd::format_characteristic_properties;
use blesd::format_subitems;
use blesd::format_uuid;
use blesd::matches_base_uuid;

#[test]
fn base_suffix_detection() {
    assert!(matches_base_uuid(0x0000_1800_0000_1000_8000_0080_5F9B_34FB_u128));
    assert!(!matches_base_uuid(0x0000_1800_0000_1000_8000_0080_5F9B_34FA_u128));
    assert!(!matches_base_uuid(0));
}

#[test]
fn format_uuid_short_service() {
    assert_eq!(format_uuid(0x0000_1800_0000_1000_8000_0080_5F9B_34FB_u128), "0x1800");
}

#[test]
fn format_uuid_short_characteristic() {
    assert_eq!(format_uuid(0x0000_2A37_0000_1000_8000_0080_5F9B_34FB_u128), "0x2a37");
}

#[test]
fn format_uuid_short_zero_padded() {
    // The base suffix alone has zero top bits: the alias keeps two digits.
    assert_eq!(format_uuid(0x0000_0000_0000_1000_8000_0080_5F9B_34FB_u128), "0x00");
}

#[test]
fn format_uuid_short_32_bit() {
    assert_eq!(format_uuid(0x1234_5678_0000_1000_8000_0080_5F9B_34FB_u128), "0x12345678");
}

#[test]
fn format_uuid_canonical_vendor() {
    assert_eq!(
        format_uuid(0x6E40_0001_B5A3_F393_E0A9_E50E_24DC_CA9E_u128),
        "6e400001-b5a3-f393-e0a9-e50e24dcca9e"
    );
}

#[test]
fn format_uuid_canonical_near_suffix() {
    // One bit off the base suffix: no shortening.
    assert_eq!(
        format_uuid(0x0000_1800_0000_1000_8000_0080_5F9B_34FA_u128),
        "00001800-0000-1000-8000-00805f9b34fa"
    );
}

#[test]
fn format_uuid_canonical_zero() {
    assert_eq!(format_uuid(0), "00000000-0000-0000-0000-000000000000");
}

#[test]
fn properties_empty_flag_set() {
    assert_eq!(format_characteristic_properties(0x00), "");
}

#[test]
fn properties_full_flag_set() {
    assert_eq!(
        format_characteristic_properties(0xFF),
        "broadcast, read, write without response, write, notify, indicate, \
         authenticated signed writes, extended properties"
    );
}

#[test]
fn properties_read_notify() {
    assert_eq!(format_characteristic_properties(0x12), "read, notify");
}

#[test]
fn properties_single_flag() {
    assert_eq!(format_characteristic_properties(0x08), "write");
}

#[test]
fn subitems_empty_is_empty() {
    assert_eq!(format_subitems(Vec::new(), "SERVICE"), "");
}

#[test]
fn subitems_boxes_the_item() {
    let rendered = format_subitems(vec!["payload".to_string()], "TITLE");
    assert_ne!(rendered, "payload");
    assert!(rendered.contains("TITLE"));
    assert!(rendered.contains("payload"));
}

#[test]
fn subitems_matches_tabled_box() {
    let rendered = format_subitems(vec!["payload".to_string()], "TITLE");
    let mut builder = tabled::builder::Builder::new();
    builder.push_record(["TITLE"]);
    builder.push_record(["payload"]);
    let mut table = builder.build();
    table.with(tabled::settings::Style::rounded());
    assert_eq!(rendered, table.to_string());
}

#[test]
fn subitems_joins_with_newline() {
    let one = format_subitems(vec!["a".to_string()], "T");
    let two = format_subitems(vec!["b".to_string()], "T");
    let both = format_subitems(vec!["a".to_string(), "b".to_string()], "T");
    assert_eq!(both, format!("{}\n{}", one, two));
}

use blesd::characteristic_uuids::find_characteristic_type;
use blesd::descriptor_uuids::find_descriptor_type;
use blesd::manufacturer_ids::company_id_from_data;
use blesd::manufacturer_ids::find_manufacturer;
use blesd::service_uuids::find_service_type;

#[test]
fn service_known() {
    assert_eq!(
        find_service_type(0x0000_1800_0000_1000_8000_0080_5F9B_34FB_u128),
        "Generic Access service"
    );
    assert_eq!(
        find_service_type(0x0000_180F_0000_1000_8000_0080_5F9B_34FB_u128),
        "Battery service"
    );
}

#[test]
fn service_unknown() {
    assert_eq!(find_service_type(0x1_u128), "unknown");
}

#[test]
fn characteristic_known() {
    assert_eq!(
        find_characteristic_type(0x0000_2A00_0000_1000_8000_0080_5F9B_34FB_u128),
        "Device Name"
    );
    assert_eq!(
        find_characteristic_type(0x0000_2A37_0000_1000_8000_0080_5F9B_34FB_u128),
        "Heart Rate Measurement"
    );
}

#[test]
fn characteristic_unknown() {
    assert_eq!(
        find_characteristic_type(0x6E40_0001_B5A3_F393_E0A9_E50E_24DC_CA9E_u128),
        "unknown"
    );
}

#[test]
fn descriptor_known() {
    assert_eq!(
        find_descriptor_type(0x0000_2902_0000_1000_8000_0080_5F9B_34FB_u128),
        "Client Characteristic Configuration"
    );
}

#[test]
fn descriptor_unknown() {
    assert_eq!(find_descriptor_type(0x0000_2902_0000_1000_8000_0080_5F9B_34FC_u128), "unknown");
}

#[test]
fn manufacturer_known() {
    assert_eq!(find_manufacturer(0x004C), "Apple, Inc.");
    assert_eq!(find_manufacturer(0x0059), "Nordic Semiconductor ASA");
}

#[test]
fn manufacturer_unknown() {
    assert_eq!(find_manufacturer(0xFFFF), "unknown");
}

#[test]
fn lookup_is_repeatable() {
    let key = 0x0000_1809_0000_1000_8000_0080_5F9B_34FB_u128;
    assert_eq!(find_service_type(key), find_service_type(key));
}

#[test]
fn company_id_little_endian() {
    assert_eq!(company_id_from_data(&vec![0x4C, 0x00, 0x10, 0x05]), Some(0x004C));
    assert_eq!(company_id_from_data(&vec![0x00, 0x4C]), Some(0x4C00));
}

#[test]
fn company_id_short_data() {
    assert_eq!(company_id_from_data(&vec![0x4C]), None);
    assert_eq!(company_id_from_data(&vec![]), None);
}

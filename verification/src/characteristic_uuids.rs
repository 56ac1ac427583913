//! The characteristic registry: Bluetooth SIG assigned GATT characteristic UUIDs and their names.

use vstd::prelude::*;

verus! {

/// The registry entry for `key`, when the Bluetooth SIG assigned it a name.
pub open spec fn characteristic_entry(key: u128) -> Option<Seq<char>> {
    if key == 0x00002A0000001000800000805F9B34FBu128 {
        Some("Device Name"@)
    } else if key == 0x00002A0100001000800000805F9B34FBu128 {
        Some("Appearance"@)
    } else if key == 0x00002A0200001000800000805F9B34FBu128 {
        Some("Peripheral Privacy Flag"@)
    } else if key == 0x00002A0300001000800000805F9B34FBu128 {
        Some("Reconnection Address"@)
    } else if key == 0x00002A0400001000800000805F9B34FBu128 {
        Some("Peripheral Preferred Connection Parameters"@)
    } else if key == 0x00002A0500001000800000805F9B34FBu128 {
        Some("Service Changed"@)
    } else if key == 0x00002A0600001000800000805F9B34FBu128 {
        Some("Alert Level"@)
    } else if key == 0x00002A0700001000800000805F9B34FBu128 {
        Some("Tx Power Level"@)
    } else if key == 0x00002A0800001000800000805F9B34FBu128 {
        Some("Date Time"@)
    } else if key == 0x00002A0900001000800000805F9B34FBu128 {
        Some("Day of Week"@)
    } else if key == 0x00002A0A00001000800000805F9B34FBu128 {
        Some("Day Date Time"@)
    } else if key == 0x00002A0C00001000800000805F9B34FBu128 {
        Some("Exact Time 256"@)
    } else if key == 0x00002A0D00001000800000805F9B34FBu128 {
        Some("DST Offset"@)
    } else if key == 0x00002A0E00001000800000805F9B34FBu128 {
        Some("Time Zone"@)
    } else if key == 0x00002A0F00001000800000805F9B34FBu128 {
        Some("Local Time Information"@)
    } else if key == 0x00002A1100001000800000805F9B34FBu128 {
        Some("Time with DST"@)
    } else if key == 0x00002A1200001000800000805F9B34FBu128 {
        Some("Time Accuracy"@)
    } else if key == 0x00002A1300001000800000805F9B34FBu128 {
        Some("Time Source"@)
    } else if key == 0x00002A1400001000800000805F9B34FBu128 {
        Some("Reference Time Information"@)
    } else if key == 0x00002A1600001000800000805F9B34FBu128 {
        Some("Time Update Control Point"@)
    } else if key == 0x00002A1700001000800000805F9B34FBu128 {
        Some("Time Update State"@)
    } else if key == 0x00002A1800001000800000805F9B34FBu128 {
        Some("Glucose Measurement"@)
    } else if key == 0x00002A1900001000800000805F9B34FBu128 {
        Some("Battery Level"@)
    } else if key == 0x00002A1C00001000800000805F9B34FBu128 {
        Some("Temperature Measurement"@)
    } else if key == 0x00002A1D00001000800000805F9B34FBu128 {
        Some("Temperature Type"@)
    } else if key == 0x00002A1E00001000800000805F9B34FBu128 {
        Some("Intermediate Temperature"@)
    } else if key == 0x00002A2100001000800000805F9B34FBu128 {
        Some("Measurement Interval"@)
    } else if key == 0x00002A2200001000800000805F9B34FBu128 {
        Some("Boot Keyboard Input Report"@)
    } else if key == 0x00002A2300001000800000805F9B34FBu128 {
        Some("System ID"@)
    } else if key == 0x00002A2400001000800000805F9B34FBu128 {
        Some("Model Number String"@)
    } else if key == 0x00002A2500001000800000805F9B34FBu128 {
        Some("Serial Number String"@)
    } else if key == 0x00002A2600001000800000805F9B34FBu128 {
        Some("Firmware Revision String"@)
    } else if key == 0x00002A2700001000800000805F9B34FBu128 {
        Some("Hardware Revision String"@)
    } else if key == 0x00002A2800001000800000805F9B34FBu128 {
        Some("Software Revision String"@)
    } else if key == 0x00002A2900001000800000805F9B34FBu128 {
        Some("Manufacturer Name String"@)
    } else if key == 0x00002A2B00001000800000805F9B34FBu128 {
        Some("Current Time"@)
    } else if key == 0x00002A3100001000800000805F9B34FBu128 {
        Some("Scan Refresh"@)
    } else if key == 0x00002A3200001000800000805F9B34FBu128 {
        Some("Boot Keyboard Output Report"@)
    } else if key == 0x00002A3300001000800000805F9B34FBu128 {
        Some("Boot Mouse Input Report"@)
    } else if key == 0x00002A3500001000800000805F9B34FBu128 {
        Some("Blood Pressure Measurement"@)
    } else if key == 0x00002A3600001000800000805F9B34FBu128 {
        Some("Intermediate Cuff Pressure"@)
    } else if key == 0x00002A3700001000800000805F9B34FBu128 {
        Some("Heart Rate Measurement"@)
    } else if key == 0x00002A3800001000800000805F9B34FBu128 {
        Some("Body Sensor Location"@)
    } else if key == 0x00002A3900001000800000805F9B34FBu128 {
        Some("Heart Rate Control Point"@)
    } else if key == 0x00002A3F00001000800000805F9B34FBu128 {
        Some("Alert Status"@)
    } else if key == 0x00002A4000001000800000805F9B34FBu128 {
        Some("Ringer Control Point"@)
    } else if key == 0x00002A4100001000800000805F9B34FBu128 {
        Some("Ringer Setting"@)
    } else if key == 0x00002A4900001000800000805F9B34FBu128 {
        Some("Blood Pressure Feature"@)
    } else if key == 0x00002A4A00001000800000805F9B34FBu128 {
        Some("HID Information"@)
    } else if key == 0x00002A4B00001000800000805F9B34FBu128 {
        Some("Report Map"@)
    } else if key == 0x00002A4C00001000800000805F9B34FBu128 {
        Some("HID Control Point"@)
    } else if key == 0x00002A4D00001000800000805F9B34FBu128 {
        Some("Report"@)
    } else if key == 0x00002A4E00001000800000805F9B34FBu128 {
        Some("Protocol Mode"@)
    } else if key == 0x00002A4F00001000800000805F9B34FBu128 {
        Some("Scan Interval Window"@)
    } else if key == 0x00002A5000001000800000805F9B34FBu128 {
        Some("PnP ID"@)
    } else {
        None
    }
}

/// The display name for `key`: the registry entry, or "unknown" when absent.
pub open spec fn characteristic_name(key: u128) -> Seq<char> {
    match characteristic_entry(key) {
        Some(name) => name,
        None => "unknown"@,
    }
}

/// Exact-match lookup in the characteristic registry; a key that is not in the
/// table yields the literal "unknown", which is a normal outcome, not an error.
pub fn find_characteristic_type(key: u128) -> (r: String)
    ensures
        r@ == characteristic_name(key),
{
    if key == 0x00002A0000001000800000805F9B34FBu128 {
        "Device Name".to_owned()
    } else if key == 0x00002A0100001000800000805F9B34FBu128 {
        "Appearance".to_owned()
    } else if key == 0x00002A0200001000800000805F9B34FBu128 {
        "Peripheral Privacy Flag".to_owned()
    } else if key == 0x00002A0300001000800000805F9B34FBu128 {
        "Reconnection Address".to_owned()
    } else if key == 0x00002A0400001000800000805F9B34FBu128 {
        "Peripheral Preferred Connection Parameters".to_owned()
    } else if key == 0x00002A0500001000800000805F9B34FBu128 {
        "Service Changed".to_owned()
    } else if key == 0x00002A0600001000800000805F9B34FBu128 {
        "Alert Level".to_owned()
    } else if key == 0x00002A0700001000800000805F9B34FBu128 {
        "Tx Power Level".to_owned()
    } else if key == 0x00002A0800001000800000805F9B34FBu128 {
        "Date Time".to_owned()
    } else if key == 0x00002A0900001000800000805F9B34FBu128 {
        "Day of Week".to_owned()
    } else if key == 0x00002A0A00001000800000805F9B34FBu128 {
        "Day Date Time".to_owned()
    } else if key == 0x00002A0C00001000800000805F9B34FBu128 {
        "Exact Time 256".to_owned()
    } else if key == 0x00002A0D00001000800000805F9B34FBu128 {
        "DST Offset".to_owned()
    } else if key == 0x00002A0E00001000800000805F9B34FBu128 {
        "Time Zone".to_owned()
    } else if key == 0x00002A0F00001000800000805F9B34FBu128 {
        "Local Time Information".to_owned()
    } else if key == 0x00002A1100001000800000805F9B34FBu128 {
        "Time with DST".to_owned()
    } else if key == 0x00002A1200001000800000805F9B34FBu128 {
        "Time Accuracy".to_owned()
    } else if key == 0x00002A1300001000800000805F9B34FBu128 {
        "Time Source".to_owned()
    } else if key == 0x00002A1400001000800000805F9B34FBu128 {
        "Reference Time Information".to_owned()
    } else if key == 0x00002A1600001000800000805F9B34FBu128 {
        "Time Update Control Point".to_owned()
    } else if key == 0x00002A1700001000800000805F9B34FBu128 {
        "Time Update State".to_owned()
    } else if key == 0x00002A1800001000800000805F9B34FBu128 {
        "Glucose Measurement".to_owned()
    } else if key == 0x00002A1900001000800000805F9B34FBu128 {
        "Battery Level".to_owned()
    } else if key == 0x00002A1C00001000800000805F9B34FBu128 {
        "Temperature Measurement".to_owned()
    } else if key == 0x00002A1D00001000800000805F9B34FBu128 {
        "Temperature Type".to_owned()
    } else if key == 0x00002A1E00001000800000805F9B34FBu128 {
        "Intermediate Temperature".to_owned()
    } else if key == 0x00002A2100001000800000805F9B34FBu128 {
        "Measurement Interval".to_owned()
    } else if key == 0x00002A2200001000800000805F9B34FBu128 {
        "Boot Keyboard Input Report".to_owned()
    } else if key == 0x00002A2300001000800000805F9B34FBu128 {
        "System ID".to_owned()
    } else if key == 0x00002A2400001000800000805F9B34FBu128 {
        "Model Number String".to_owned()
    } else if key == 0x00002A2500001000800000805F9B34FBu128 {
        "Serial Number String".to_owned()
    } else if key == 0x00002A2600001000800000805F9B34FBu128 {
        "Firmware Revision String".to_owned()
    } else if key == 0x00002A2700001000800000805F9B34FBu128 {
        "Hardware Revision String".to_owned()
    } else if key == 0x00002A2800001000800000805F9B34FBu128 {
        "Software Revision String".to_owned()
    } else if key == 0x00002A2900001000800000805F9B34FBu128 {
        "Manufacturer Name String".to_owned()
    } else if key == 0x00002A2B00001000800000805F9B34FBu128 {
        "Current Time".to_owned()
    } else if key == 0x00002A3100001000800000805F9B34FBu128 {
        "Scan Refresh".to_owned()
    } else if key == 0x00002A3200001000800000805F9B34FBu128 {
        "Boot Keyboard Output Report".to_owned()
    } else if key == 0x00002A3300001000800000805F9B34FBu128 {
        "Boot Mouse Input Report".to_owned()
    } else if key == 0x00002A3500001000800000805F9B34FBu128 {
        "Blood Pressure Measurement".to_owned()
    } else if key == 0x00002A3600001000800000805F9B34FBu128 {
        "Intermediate Cuff Pressure".to_owned()
    } else if key == 0x00002A3700001000800000805F9B34FBu128 {
        "Heart Rate Measurement".to_owned()
    } else if key == 0x00002A3800001000800000805F9B34FBu128 {
        "Body Sensor Location".to_owned()
    } else if key == 0x00002A3900001000800000805F9B34FBu128 {
        "Heart Rate Control Point".to_owned()
    } else if key == 0x00002A3F00001000800000805F9B34FBu128 {
        "Alert Status".to_owned()
    } else if key == 0x00002A4000001000800000805F9B34FBu128 {
        "Ringer Control Point".to_owned()
    } else if key == 0x00002A4100001000800000805F9B34FBu128 {
        "Ringer Setting".to_owned()
    } else if key == 0x00002A4900001000800000805F9B34FBu128 {
        "Blood Pressure Feature".to_owned()
    } else if key == 0x00002A4A00001000800000805F9B34FBu128 {
        "HID Information".to_owned()
    } else if key == 0x00002A4B00001000800000805F9B34FBu128 {
        "Report Map".to_owned()
    } else if key == 0x00002A4C00001000800000805F9B34FBu128 {
        "HID Control Point".to_owned()
    } else if key == 0x00002A4D00001000800000805F9B34FBu128 {
        "Report".to_owned()
    } else if key == 0x00002A4E00001000800000805F9B34FBu128 {
        "Protocol Mode".to_owned()
    } else if key == 0x00002A4F00001000800000805F9B34FBu128 {
        "Scan Interval Window".to_owned()
    } else if key == 0x00002A5000001000800000805F9B34FBu128 {
        "PnP ID".to_owned()
    } else {
        "unknown".to_owned()
    }
}

/// Lookup is a pure function of the key: equal keys always yield equal names.
pub proof fn lemma_characteristic_lookup_pure(a: u128, b: u128)
    requires
        a == b,
    ensures
        characteristic_name(a) == characteristic_name(b),
{
}

/// A key outside the compiled table yields exactly "unknown".
pub proof fn lemma_characteristic_lookup_unknown(key: u128)
    requires
        characteristic_entry(key) is None,
    ensures
        characteristic_name(key) == "unknown"@,
{
}

} // verus!

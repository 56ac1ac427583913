//! The descriptor registry: Bluetooth SIG assigned GATT descriptor UUIDs and their names.

use vstd::prelude::*;

verus! {

/// The registry entry for `key`, when the Bluetooth SIG assigned it a name.
pub open spec fn descriptor_entry(key: u128) -> Option<Seq<char>> {
    if key == 0x0000290000001000800000805F9B34FBu128 {
        Some("Characteristic Extended Properties"@)
    } else if key == 0x0000290100001000800000805F9B34FBu128 {
        Some("Characteristic User Description"@)
    } else if key == 0x0000290200001000800000805F9B34FBu128 {
        Some("Client Characteristic Configuration"@)
    } else if key == 0x0000290300001000800000805F9B34FBu128 {
        Some("Server Characteristic Configuration"@)
    } else if key == 0x0000290400001000800000805F9B34FBu128 {
        Some("Characteristic Presentation Format"@)
    } else if key == 0x0000290500001000800000805F9B34FBu128 {
        Some("Characteristic Aggregate Format"@)
    } else if key == 0x0000290600001000800000805F9B34FBu128 {
        Some("Valid Range"@)
    } else if key == 0x0000290700001000800000805F9B34FBu128 {
        Some("External Report Reference"@)
    } else if key == 0x0000290800001000800000805F9B34FBu128 {
        Some("Report Reference"@)
    } else if key == 0x0000290900001000800000805F9B34FBu128 {
        Some("Number of Digitals"@)
    } else if key == 0x0000290A00001000800000805F9B34FBu128 {
        Some("Value Trigger Setting"@)
    } else if key == 0x0000290B00001000800000805F9B34FBu128 {
        Some("Environmental Sensing Configuration"@)
    } else if key == 0x0000290C00001000800000805F9B34FBu128 {
        Some("Environmental Sensing Measurement"@)
    } else if key == 0x0000290D00001000800000805F9B34FBu128 {
        Some("Environmental Sensing Trigger Setting"@)
    } else if key == 0x0000290E00001000800000805F9B34FBu128 {
        Some("Time Trigger Setting"@)
    } else if key == 0x0000290F00001000800000805F9B34FBu128 {
        Some("Complete BR-EDR Transport Block Data"@)
    } else if key == 0x0000291000001000800000805F9B34FBu128 {
        Some("Observation Schedule"@)
    } else if key == 0x0000291100001000800000805F9B34FBu128 {
        Some("Valid Range and Accuracy"@)
    } else {
        None
    }
}

/// The display name for `key`: the registry entry, or "unknown" when absent.
pub open spec fn descriptor_name(key: u128) -> Seq<char> {
    match descriptor_entry(key) {
        Some(name) => name,
        None => "unknown"@,
    }
}

/// Exact-match lookup in the descriptor registry; a key that is not in the
/// table yields the literal "unknown", which is a normal outcome, not an error.
pub fn find_descriptor_type(key: u128) -> (r: String)
    ensures
        r@ == descriptor_name(key),
{
    if key == 0x0000290000001000800000805F9B34FBu128 {
        "Characteristic Extended Properties".to_owned()
    } else if key == 0x0000290100001000800000805F9B34FBu128 {
        "Characteristic User Description".to_owned()
    } else if key == 0x0000290200001000800000805F9B34FBu128 {
        "Client Characteristic Configuration".to_owned()
    } else if key == 0x0000290300001000800000805F9B34FBu128 {
        "Server Characteristic Configuration".to_owned()
    } else if key == 0x0000290400001000800000805F9B34FBu128 {
        "Characteristic Presentation Format".to_owned()
    } else if key == 0x0000290500001000800000805F9B34FBu128 {
        "Characteristic Aggregate Format".to_owned()
    } else if key == 0x0000290600001000800000805F9B34FBu128 {
        "Valid Range".to_owned()
    } else if key == 0x0000290700001000800000805F9B34FBu128 {
        "External Report Reference".to_owned()
    } else if key == 0x0000290800001000800000805F9B34FBu128 {
        "Report Reference".to_owned()
    } else if key == 0x0000290900001000800000805F9B34FBu128 {
        "Number of Digitals".to_owned()
    } else if key == 0x0000290A00001000800000805F9B34FBu128 {
        "Value Trigger Setting".to_owned()
    } else if key == 0x0000290B00001000800000805F9B34FBu128 {
        "Environmental Sensing Configuration".to_owned()
    } else if key == 0x0000290C00001000800000805F9B34FBu128 {
        "Environmental Sensing Measurement".to_owned()
    } else if key == 0x0000290D00001000800000805F9B34FBu128 {
        "Environmental Sensing Trigger Setting".to_owned()
    } else if key == 0x0000290E00001000800000805F9B34FBu128 {
        "Time Trigger Setting".to_owned()
    } else if key == 0x0000290F00001000800000805F9B34FBu128 {
        "Complete BR-EDR Transport Block Data".to_owned()
    } else if key == 0x0000291000001000800000805F9B34FBu128 {
        "Observation Schedule".to_owned()
    } else if key == 0x0000291100001000800000805F9B34FBu128 {
        "Valid Range and Accuracy".to_owned()
    } else {
        "unknown".to_owned()
    }
}

/// Lookup is a pure function of the key: equal keys always yield equal names.
pub proof fn lemma_descriptor_lookup_pure(a: u128, b: u128)
    requires
        a == b,
    ensures
        descriptor_name(a) == descriptor_name(b),
{
}

/// A key outside the compiled table yields exactly "unknown".
pub proof fn lemma_descriptor_lookup_unknown(key: u128)
    requires
        descriptor_entry(key) is None,
    ensures
        descriptor_name(key) == "unknown"@,
{
}

} // verus!

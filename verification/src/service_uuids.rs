//! The service registry: Bluetooth SIG assigned GATT service UUIDs and their names.

use vstd::prelude::*;

verus! {

/// The registry entry for `key`, when the Bluetooth SIG assigned it a name.
pub open spec fn service_entry(key: u128) -> Option<Seq<char>> {
    if key == 0x0000180000001000800000805F9B34FBu128 {
        Some("Generic Access service"@)
    } else if key == 0x0000180100001000800000805F9B34FBu128 {
        Some("Generic Attribute service"@)
    } else if key == 0x0000180200001000800000805F9B34FBu128 {
        Some("Immediate Alert service"@)
    } else if key == 0x0000180300001000800000805F9B34FBu128 {
        Some("Link Loss service"@)
    } else if key == 0x0000180400001000800000805F9B34FBu128 {
        Some("Tx Power service"@)
    } else if key == 0x0000180500001000800000805F9B34FBu128 {
        Some("Current Time service"@)
    } else if key == 0x0000180600001000800000805F9B34FBu128 {
        Some("Reference Time Update service"@)
    } else if key == 0x0000180700001000800000805F9B34FBu128 {
        Some("Next DST Change service"@)
    } else if key == 0x0000180800001000800000805F9B34FBu128 {
        Some("Glucose service"@)
    } else if key == 0x0000180900001000800000805F9B34FBu128 {
        Some("Health Thermometer service"@)
    } else if key == 0x0000180A00001000800000805F9B34FBu128 {
        Some("Device Information service"@)
    } else if key == 0x0000180D00001000800000805F9B34FBu128 {
        Some("Heart Rate service"@)
    } else if key == 0x0000180E00001000800000805F9B34FBu128 {
        Some("Phone Alert Status service"@)
    } else if key == 0x0000180F00001000800000805F9B34FBu128 {
        Some("Battery service"@)
    } else if key == 0x0000181000001000800000805F9B34FBu128 {
        Some("Blood Pressure service"@)
    } else if key == 0x0000181100001000800000805F9B34FBu128 {
        Some("Alert Notification service"@)
    } else if key == 0x0000181200001000800000805F9B34FBu128 {
        Some("Human Interface Device service"@)
    } else if key == 0x0000181300001000800000805F9B34FBu128 {
        Some("Scan Parameters service"@)
    } else if key == 0x0000181400001000800000805F9B34FBu128 {
        Some("Running Speed and Cadence service"@)
    } else if key == 0x0000181500001000800000805F9B34FBu128 {
        Some("Automation IO service"@)
    } else if key == 0x0000181600001000800000805F9B34FBu128 {
        Some("Cycling Speed and Cadence service"@)
    } else if key == 0x0000181800001000800000805F9B34FBu128 {
        Some("Cycling Power service"@)
    } else if key == 0x0000181900001000800000805F9B34FBu128 {
        Some("Location and Navigation service"@)
    } else if key == 0x0000181A00001000800000805F9B34FBu128 {
        Some("Environmental Sensing service"@)
    } else if key == 0x0000181B00001000800000805F9B34FBu128 {
        Some("Body Composition service"@)
    } else if key == 0x0000181C00001000800000805F9B34FBu128 {
        Some("User Data service"@)
    } else if key == 0x0000181D00001000800000805F9B34FBu128 {
        Some("Weight Scale service"@)
    } else if key == 0x0000181E00001000800000805F9B34FBu128 {
        Some("Bond Management service"@)
    } else if key == 0x0000181F00001000800000805F9B34FBu128 {
        Some("Continuous Glucose Monitoring service"@)
    } else if key == 0x0000182000001000800000805F9B34FBu128 {
        Some("Internet Protocol Support service"@)
    } else if key == 0x0000182100001000800000805F9B34FBu128 {
        Some("Indoor Positioning service"@)
    } else if key == 0x0000182200001000800000805F9B34FBu128 {
        Some("Pulse Oximeter service"@)
    } else if key == 0x0000182300001000800000805F9B34FBu128 {
        Some("HTTP Proxy service"@)
    } else if key == 0x0000182400001000800000805F9B34FBu128 {
        Some("Transport Discovery service"@)
    } else if key == 0x0000182500001000800000805F9B34FBu128 {
        Some("Object Transfer service"@)
    } else if key == 0x0000182600001000800000805F9B34FBu128 {
        Some("Fitness Machine service"@)
    } else if key == 0x0000182700001000800000805F9B34FBu128 {
        Some("Mesh Provisioning service"@)
    } else if key == 0x0000182800001000800000805F9B34FBu128 {
        Some("Mesh Proxy service"@)
    } else if key == 0x0000182900001000800000805F9B34FBu128 {
        Some("Reconnection Configuration service"@)
    } else if key == 0x0000183A00001000800000805F9B34FBu128 {
        Some("Insulin Delivery service"@)
    } else if key == 0x0000183B00001000800000805F9B34FBu128 {
        Some("Binary Sensor service"@)
    } else if key == 0x0000183C00001000800000805F9B34FBu128 {
        Some("Emergency Configuration service"@)
    } else if key == 0x0000183D00001000800000805F9B34FBu128 {
        Some("Authorization Control service"@)
    } else if key == 0x0000183E00001000800000805F9B34FBu128 {
        Some("Physical Activity Monitor service"@)
    } else if key == 0x0000183F00001000800000805F9B34FBu128 {
        Some("Elapsed Time service"@)
    } else if key == 0x0000184000001000800000805F9B34FBu128 {
        Some("Generic Health Sensor service"@)
    } else if key == 0x0000184300001000800000805F9B34FBu128 {
        Some("Audio Input Control service"@)
    } else if key == 0x0000184400001000800000805F9B34FBu128 {
        Some("Volume Control service"@)
    } else if key == 0x0000184500001000800000805F9B34FBu128 {
        Some("Volume Offset Control service"@)
    } else if key == 0x0000184600001000800000805F9B34FBu128 {
        Some("Coordinated Set Identification service"@)
    } else if key == 0x0000184700001000800000805F9B34FBu128 {
        Some("Device Time service"@)
    } else if key == 0x0000184800001000800000805F9B34FBu128 {
        Some("Media Control service"@)
    } else if key == 0x0000184900001000800000805F9B34FBu128 {
        Some("Generic Media Control service"@)
    } else if key == 0x0000184A00001000800000805F9B34FBu128 {
        Some("Constant Tone Extension service"@)
    } else if key == 0x0000184B00001000800000805F9B34FBu128 {
        Some("Telephone Bearer service"@)
    } else if key == 0x0000184C00001000800000805F9B34FBu128 {
        Some("Generic Telephone Bearer service"@)
    } else if key == 0x0000184D00001000800000805F9B34FBu128 {
        Some("Microphone Control service"@)
    } else if key == 0x0000184E00001000800000805F9B34FBu128 {
        Some("Audio Stream Control service"@)
    } else if key == 0x0000184F00001000800000805F9B34FBu128 {
        Some("Broadcast Audio Scan service"@)
    } else if key == 0x0000185000001000800000805F9B34FBu128 {
        Some("Published Audio Capabilities service"@)
    } else if key == 0x0000185100001000800000805F9B34FBu128 {
        Some("Basic Audio Announcement service"@)
    } else if key == 0x0000185200001000800000805F9B34FBu128 {
        Some("Broadcast Audio Announcement service"@)
    } else if key == 0x0000185300001000800000805F9B34FBu128 {
        Some("Common Audio service"@)
    } else if key == 0x0000185400001000800000805F9B34FBu128 {
        Some("Hearing Access service"@)
    } else if key == 0x0000185500001000800000805F9B34FBu128 {
        Some("Telephony and Media Audio service"@)
    } else if key == 0x0000185600001000800000805F9B34FBu128 {
        Some("Public Broadcast Announcement service"@)
    } else if key == 0x0000185700001000800000805F9B34FBu128 {
        Some("Electronic Shelf Label service"@)
    } else if key == 0x0000185800001000800000805F9B34FBu128 {
        Some("Gaming Audio service (draft)"@)
    } else if key == 0x0000185900001000800000805F9B34FBu128 {
        Some("Mesh Proxy Solicitation service (draft)"@)
    } else {
        None
    }
}

/// The display name for `key`: the registry entry, or "unknown" when absent.
pub open spec fn service_name(key: u128) -> Seq<char> {
    match service_entry(key) {
        Some(name) => name,
        None => "unknown"@,
    }
}

/// Exact-match lookup in the service registry; a key that is not in the
/// table yields the literal "unknown", which is a normal outcome, not an error.
pub fn find_service_type(key: u128) -> (r: String)
    ensures
        r@ == service_name(key),
{
    if key == 0x0000180000001000800000805F9B34FBu128 {
        "Generic Access service".to_owned()
    } else if key == 0x0000180100001000800000805F9B34FBu128 {
        "Generic Attribute service".to_owned()
    } else if key == 0x0000180200001000800000805F9B34FBu128 {
        "Immediate Alert service".to_owned()
    } else if key == 0x0000180300001000800000805F9B34FBu128 {
        "Link Loss service".to_owned()
    } else if key == 0x0000180400001000800000805F9B34FBu128 {
        "Tx Power service".to_owned()
    } else if key == 0x0000180500001000800000805F9B34FBu128 {
        "Current Time service".to_owned()
    } else if key == 0x0000180600001000800000805F9B34FBu128 {
        "Reference Time Update service".to_owned()
    } else if key == 0x0000180700001000800000805F9B34FBu128 {
        "Next DST Change service".to_owned()
    } else if key == 0x0000180800001000800000805F9B34FBu128 {
        "Glucose service".to_owned()
    } else if key == 0x0000180900001000800000805F9B34FBu128 {
        "Health Thermometer service".to_owned()
    } else if key == 0x0000180A00001000800000805F9B34FBu128 {
        "Device Information service".to_owned()
    } else if key == 0x0000180D00001000800000805F9B34FBu128 {
        "Heart Rate service".to_owned()
    } else if key == 0x0000180E00001000800000805F9B34FBu128 {
        "Phone Alert Status service".to_owned()
    } else if key == 0x0000180F00001000800000805F9B34FBu128 {
        "Battery service".to_owned()
    } else if key == 0x0000181000001000800000805F9B34FBu128 {
        "Blood Pressure service".to_owned()
    } else if key == 0x0000181100001000800000805F9B34FBu128 {
        "Alert Notification service".to_owned()
    } else if key == 0x0000181200001000800000805F9B34FBu128 {
        "Human Interface Device service".to_owned()
    } else if key == 0x0000181300001000800000805F9B34FBu128 {
        "Scan Parameters service".to_owned()
    } else if key == 0x0000181400001000800000805F9B34FBu128 {
        "Running Speed and Cadence service".to_owned()
    } else if key == 0x0000181500001000800000805F9B34FBu128 {
        "Automation IO service".to_owned()
    } else if key == 0x0000181600001000800000805F9B34FBu128 {
        "Cycling Speed and Cadence service".to_owned()
    } else if key == 0x0000181800001000800000805F9B34FBu128 {
        "Cycling Power service".to_owned()
    } else if key == 0x0000181900001000800000805F9B34FBu128 {
        "Location and Navigation service".to_owned()
    } else if key == 0x0000181A00001000800000805F9B34FBu128 {
        "Environmental Sensing service".to_owned()
    } else if key == 0x0000181B00001000800000805F9B34FBu128 {
        "Body Composition service".to_owned()
    } else if key == 0x0000181C00001000800000805F9B34FBu128 {
        "User Data service".to_owned()
    } else if key == 0x0000181D00001000800000805F9B34FBu128 {
        "Weight Scale service".to_owned()
    } else if key == 0x0000181E00001000800000805F9B34FBu128 {
        "Bond Management service".to_owned()
    } else if key == 0x0000181F00001000800000805F9B34FBu128 {
        "Continuous Glucose Monitoring service".to_owned()
    } else if key == 0x0000182000001000800000805F9B34FBu128 {
        "Internet Protocol Support service".to_owned()
    } else if key == 0x0000182100001000800000805F9B34FBu128 {
        "Indoor Positioning service".to_owned()
    } else if key == 0x0000182200001000800000805F9B34FBu128 {
        "Pulse Oximeter service".to_owned()
    } else if key == 0x0000182300001000800000805F9B34FBu128 {
        "HTTP Proxy service".to_owned()
    } else if key == 0x0000182400001000800000805F9B34FBu128 {
        "Transport Discovery service".to_owned()
    } else if key == 0x0000182500001000800000805F9B34FBu128 {
        "Object Transfer service".to_owned()
    } else if key == 0x0000182600001000800000805F9B34FBu128 {
        "Fitness Machine service".to_owned()
    } else if key == 0x0000182700001000800000805F9B34FBu128 {
        "Mesh Provisioning service".to_owned()
    } else if key == 0x0000182800001000800000805F9B34FBu128 {
        "Mesh Proxy service".to_owned()
    } else if key == 0x0000182900001000800000805F9B34FBu128 {
        "Reconnection Configuration service".to_owned()
    } else if key == 0x0000183A00001000800000805F9B34FBu128 {
        "Insulin Delivery service".to_owned()
    } else if key == 0x0000183B00001000800000805F9B34FBu128 {
        "Binary Sensor service".to_owned()
    } else if key == 0x0000183C00001000800000805F9B34FBu128 {
        "Emergency Configuration service".to_owned()
    } else if key == 0x0000183D00001000800000805F9B34FBu128 {
        "Authorization Control service".to_owned()
    } else if key == 0x0000183E00001000800000805F9B34FBu128 {
        "Physical Activity Monitor service".to_owned()
    } else if key == 0x0000183F00001000800000805F9B34FBu128 {
        "Elapsed Time service".to_owned()
    } else if key == 0x0000184000001000800000805F9B34FBu128 {
        "Generic Health Sensor service".to_owned()
    } else if key == 0x0000184300001000800000805F9B34FBu128 {
        "Audio Input Control service".to_owned()
    } else if key == 0x0000184400001000800000805F9B34FBu128 {
        "Volume Control service".to_owned()
    } else if key == 0x0000184500001000800000805F9B34FBu128 {
        "Volume Offset Control service".to_owned()
    } else if key == 0x0000184600001000800000805F9B34FBu128 {
        "Coordinated Set Identification service".to_owned()
    } else if key == 0x0000184700001000800000805F9B34FBu128 {
        "Device Time service".to_owned()
    } else if key == 0x0000184800001000800000805F9B34FBu128 {
        "Media Control service".to_owned()
    } else if key == 0x0000184900001000800000805F9B34FBu128 {
        "Generic Media Control service".to_owned()
    } else if key == 0x0000184A00001000800000805F9B34FBu128 {
        "Constant Tone Extension service".to_owned()
    } else if key == 0x0000184B00001000800000805F9B34FBu128 {
        "Telephone Bearer service".to_owned()
    } else if key == 0x0000184C00001000800000805F9B34FBu128 {
        "Generic Telephone Bearer service".to_owned()
    } else if key == 0x0000184D00001000800000805F9B34FBu128 {
        "Microphone Control service".to_owned()
    } else if key == 0x0000184E00001000800000805F9B34FBu128 {
        "Audio Stream Control service".to_owned()
    } else if key == 0x0000184F00001000800000805F9B34FBu128 {
        "Broadcast Audio Scan service".to_owned()
    } else if key == 0x0000185000001000800000805F9B34FBu128 {
        "Published Audio Capabilities service".to_owned()
    } else if key == 0x0000185100001000800000805F9B34FBu128 {
        "Basic Audio Announcement service".to_owned()
    } else if key == 0x0000185200001000800000805F9B34FBu128 {
        "Broadcast Audio Announcement service".to_owned()
    } else if key == 0x0000185300001000800000805F9B34FBu128 {
        "Common Audio service".to_owned()
    } else if key == 0x0000185400001000800000805F9B34FBu128 {
        "Hearing Access service".to_owned()
    } else if key == 0x0000185500001000800000805F9B34FBu128 {
        "Telephony and Media Audio service".to_owned()
    } else if key == 0x0000185600001000800000805F9B34FBu128 {
        "Public Broadcast Announcement service".to_owned()
    } else if key == 0x0000185700001000800000805F9B34FBu128 {
        "Electronic Shelf Label service".to_owned()
    } else if key == 0x0000185800001000800000805F9B34FBu128 {
        "Gaming Audio service (draft)".to_owned()
    } else if key == 0x0000185900001000800000805F9B34FBu128 {
        "Mesh Proxy Solicitation service (draft)".to_owned()
    } else {
        "unknown".to_owned()
    }
}

/// Lookup is a pure function of the key: equal keys always yield equal names.
pub proof fn lemma_service_lookup_pure(a: u128, b: u128)
    requires
        a == b,
    ensures
        service_name(a) == service_name(b),
{
}

/// A key outside the compiled table yields exactly "unknown".
pub proof fn lemma_service_lookup_unknown(key: u128)
    requires
        service_entry(key) is None,
    ensures
        service_name(key) == "unknown"@,
{
}

} // verus!

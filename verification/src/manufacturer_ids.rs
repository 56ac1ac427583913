//! The manufacturer registry: Bluetooth SIG assigned company identifiers and their names.

use vstd::prelude::*;

verus! {

/// The registry entry for `key`, when the Bluetooth SIG assigned it a name.
pub open spec fn manufacturer_entry(key: u16) -> Option<Seq<char>> {
    if key == 0x0000u16 {
        Some("Ericsson Technology Licensing"@)
    } else if key == 0x0001u16 {
        Some("Nokia Mobile Phones"@)
    } else if key == 0x0002u16 {
        Some("Intel Corp."@)
    } else if key == 0x0003u16 {
        Some("IBM Corp."@)
    } else if key == 0x0004u16 {
        Some("Toshiba Corp."@)
    } else if key == 0x0006u16 {
        Some("Microsoft"@)
    } else if key == 0x0008u16 {
        Some("Motorola"@)
    } else if key == 0x000Au16 {
        Some("Qualcomm"@)
    } else if key == 0x000Du16 {
        Some("Texas Instruments Inc."@)
    } else if key == 0x000Fu16 {
        Some("Broadcom Corporation"@)
    } else if key == 0x004Cu16 {
        Some("Apple, Inc."@)
    } else if key == 0x0059u16 {
        Some("Nordic Semiconductor ASA"@)
    } else if key == 0x0075u16 {
        Some("Samsung Electronics Co. Ltd."@)
    } else if key == 0x0087u16 {
        Some("Garmin International, Inc."@)
    } else if key == 0x00E0u16 {
        Some("Google"@)
    } else if key == 0x0171u16 {
        Some("Amazon.com Services, Inc."@)
    } else if key == 0x038Fu16 {
        Some("Xiaomi Inc."@)
    } else {
        None
    }
}

/// The display name for `key`: the registry entry, or "unknown" when absent.
pub open spec fn manufacturer_name(key: u16) -> Seq<char> {
    match manufacturer_entry(key) {
        Some(name) => name,
        None => "unknown"@,
    }
}

/// Exact-match lookup in the manufacturer registry; a key that is not in the
/// table yields the literal "unknown", which is a normal outcome, not an error.
pub fn find_manufacturer(key: u16) -> (r: String)
    ensures
        r@ == manufacturer_name(key),
{
    if key == 0x0000u16 {
        "Ericsson Technology Licensing".to_owned()
    } else if key == 0x0001u16 {
        "Nokia Mobile Phones".to_owned()
    } else if key == 0x0002u16 {
        "Intel Corp.".to_owned()
    } else if key == 0x0003u16 {
        "IBM Corp.".to_owned()
    } else if key == 0x0004u16 {
        "Toshiba Corp.".to_owned()
    } else if key == 0x0006u16 {
        "Microsoft".to_owned()
    } else if key == 0x0008u16 {
        "Motorola".to_owned()
    } else if key == 0x000Au16 {
        "Qualcomm".to_owned()
    } else if key == 0x000Du16 {
        "Texas Instruments Inc.".to_owned()
    } else if key == 0x000Fu16 {
        "Broadcom Corporation".to_owned()
    } else if key == 0x004Cu16 {
        "Apple, Inc.".to_owned()
    } else if key == 0x0059u16 {
        "Nordic Semiconductor ASA".to_owned()
    } else if key == 0x0075u16 {
        "Samsung Electronics Co. Ltd.".to_owned()
    } else if key == 0x0087u16 {
        "Garmin International, Inc.".to_owned()
    } else if key == 0x00E0u16 {
        "Google".to_owned()
    } else if key == 0x0171u16 {
        "Amazon.com Services, Inc.".to_owned()
    } else if key == 0x038Fu16 {
        "Xiaomi Inc.".to_owned()
    } else {
        "unknown".to_owned()
    }
}

/// Lookup is a pure function of the key: equal keys always yield equal names.
pub proof fn lemma_manufacturer_lookup_pure(a: u16, b: u16)
    requires
        a == b,
    ensures
        manufacturer_name(a) == manufacturer_name(b),
{
}

/// A key outside the compiled table yields exactly "unknown".
pub proof fn lemma_manufacturer_lookup_unknown(key: u16)
    requires
        manufacturer_entry(key) is None,
    ensures
        manufacturer_name(key) == "unknown"@,
{
}

/// The company identifier carried in the first two bytes of raw
/// manufacturer advertisement data, interpreted little-endian; absent when
/// the data is shorter than two bytes.
pub fn company_id_from_data(data: &Vec<u8>) -> (r: Option<u16>)
    ensures
        r == (if data@.len() >= 2 {
            Some((data@[0] as u16 + data@[1] as u16 * 256) as u16)
        } else {
            None::<u16>
        }),
{
    if data.len() >= 2 {
        Some(data[0] as u16 + data[1] as u16 * 256)
    } else {
        None
    }
}

} // verus!

//! Identifier registries and result formatting for a BLE peripheral scanner.
//!
//! The library holds the logic of the tool: lookup tables that map
//! Bluetooth SIG assigned numbers to display names, the short/canonical
//! rendering of attribute UUIDs, characteristic property formatting, the
//! peripheral table and the nested discovery report.

use vstd::prelude::*;

pub mod characteristic_uuids;
pub mod descriptor_uuids;
pub mod digits;
pub mod discovery;
pub mod manufacturer_ids;
pub mod messages;
pub mod peripherals;
pub mod render;
pub mod service_uuids;
pub mod text_order;

pub use peripherals::PeripheralDeviceDescriptor;
pub use render::format_subitems;

verus! {

/// The lower 96 bits shared by every Bluetooth SIG assigned short UUID.
pub const BASE_UUID_MASK: u128 = 0x0000_0000_0000_1000_8000_0080_5F9B_34FB_u128;

/// True when the UUID carries the Bluetooth Base UUID suffix, so it can be
/// shown as a short 16/32-bit alias.
pub open spec fn has_base_suffix(bits: u128) -> bool {
    bits & BASE_UUID_MASK == BASE_UUID_MASK
}

/// Whether the UUID can be shortened to its top 32 bits for display.
pub fn matches_base_uuid(bits: u128) -> (r: bool)
    ensures
        r == has_base_suffix(bits),
{
    bits & BASE_UUID_MASK == BASE_UUID_MASK
}

/// Two to the 96th, 80th, 64th and 48th power: the divisors that cut a
/// 128-bit UUID into its canonical groups.
pub const GROUP_TIME_LOW: u128 = 0x1_0000_0000_0000_0000_0000_0000_u128;

pub const GROUP_TIME_MID: u128 = 0x1_0000_0000_0000_0000_0000_u128;

pub const GROUP_TIME_HIGH: u128 = 0x1_0000_0000_0000_0000_u128;

pub const GROUP_CLOCK_SEQ: u128 = 0x1_0000_0000_0000_u128;

/// The canonical hyphenated, lowercase hexadecimal form of a 128-bit UUID:
/// groups of 8, 4, 4, 4 and 12 digits.
pub open spec fn spec_canonical_uuid(bits: u128) -> Seq<char> {
    digits::hex_seq(bits / GROUP_TIME_LOW, 8) + "-"@ + digits::hex_seq(bits / GROUP_TIME_MID, 4)
        + "-"@ + digits::hex_seq(bits / GROUP_TIME_HIGH, 4) + "-"@ + digits::hex_seq(
        bits / GROUP_CLOCK_SEQ,
        4,
    ) + "-"@ + digits::hex_seq(bits, 12)
}

/// The short alias of a SIG-assigned UUID: `0x` and the top 32 bits in
/// lowercase hexadecimal, zero-padded to at least two digits.
pub open spec fn spec_short_uuid(bits: u128) -> Seq<char> {
    if bits / GROUP_TIME_LOW < 16 {
        "0x"@ + digits::hex_seq(bits / GROUP_TIME_LOW, 2)
    } else {
        "0x"@ + digits::hex_min(bits / GROUP_TIME_LOW)
    }
}

/// What `format_uuid` returns: the short alias when the UUID carries the
/// Bluetooth Base UUID suffix, the canonical form otherwise.
pub open spec fn spec_format_uuid(bits: u128) -> Seq<char> {
    if has_base_suffix(bits) {
        spec_short_uuid(bits)
    } else {
        spec_canonical_uuid(bits)
    }
}

/// The canonical hyphenated form of a 128-bit UUID.
fn canonical_uuid_text(bits: u128) -> (r: String)
    ensures
        r@ == spec_canonical_uuid(bits),
{
    let mut s = digits::hex_text(bits / GROUP_TIME_LOW, 8);
    s.append("-");
    let mid = digits::hex_text(bits / GROUP_TIME_MID, 4);
    s.append(mid.as_str());
    s.append("-");
    let high = digits::hex_text(bits / GROUP_TIME_HIGH, 4);
    s.append(high.as_str());
    s.append("-");
    let clock = digits::hex_text(bits / GROUP_CLOCK_SEQ, 4);
    s.append(clock.as_str());
    s.append("-");
    let node = digits::hex_text(bits, 12);
    s.append(node.as_str());
    s
}

/// Renders a 128-bit UUID for display: a UUID whose lower 96 bits equal the
/// Bluetooth Base UUID suffix is shown as its short 16/32-bit alias, any
/// other UUID in full canonical form.  A coincidental match of the suffix is
/// shortened as well; the detection looks at the bits alone.
pub fn format_uuid(bits: u128) -> (r: String)
    ensures
        r@ == spec_format_uuid(bits),
{
    if bits & BASE_UUID_MASK == BASE_UUID_MASK {
        let top: u128 = bits / GROUP_TIME_LOW;
        let mut s = "0x".to_owned();
        if top < 16 {
            let padded = digits::hex_text(top, 2);
            s.append(padded.as_str());
        } else {
            let rest = digits::hex_min_text(top);
            s.append(rest.as_str());
        }
        s
    } else {
        canonical_uuid_text(bits)
    }
}

/// A UUID whose lower 96 bits equal the Bluetooth Base UUID suffix is
/// rendered as its short alias, `0x` and the top 32 bits in hexadecimal; a
/// UUID that fails the suffix test is rendered in full canonical form.  The
/// test is the mask comparison described for `format_uuid`: a value that
/// merely has every suffix bit set is shortened as well, by design.
pub proof fn lemma_format_uuid_cases(bits: u128)
    ensures
        bits % GROUP_TIME_LOW == BASE_UUID_MASK ==> spec_format_uuid(bits) == spec_short_uuid(
            bits,
        ),
        !has_base_suffix(bits) ==> spec_format_uuid(bits) == spec_canonical_uuid(bits),
{
    assert((bits % 0x1_0000_0000_0000_0000_0000_0000_u128
        == 0x0000_0000_0000_1000_8000_0080_5F9B_34FB_u128) ==> (bits
        & 0x0000_0000_0000_1000_8000_0080_5F9B_34FB_u128
        == 0x0000_0000_0000_1000_8000_0080_5F9B_34FB_u128)) by (bit_vector);
}

/// The views of a sequence of string slices.
pub open spec fn str_views(items: Seq<&str>) -> Seq<Seq<char>> {
    items.map_values(|item: &str| item@)
}

/// A one-element sequence holding `name` when `set` holds, else empty.
pub open spec fn maybe_name(set: bool, name: Seq<char>) -> Seq<Seq<char>> {
    if set {
        seq![name]
    } else {
        Seq::empty()
    }
}

/// The items joined by a comma and a space; empty when there are none.
pub open spec fn join_comma(items: Seq<Seq<char>>) -> Seq<char>
    decreases items.len(),
{
    if items.len() == 0 {
        Seq::empty()
    } else if items.len() == 1 {
        items[0]
    } else {
        items[0] + ", "@ + join_comma(items.drop_first())
    }
}

/// The names of the characteristic property flags set in `properties`, in
/// the fixed order broadcast, read, write without response, write, notify,
/// indicate, authenticated signed writes, extended properties.
pub open spec fn spec_property_names(properties: u8) -> Seq<Seq<char>> {
    maybe_name(properties & 0x01 != 0, "broadcast"@) + maybe_name(
        properties & 0x02 != 0,
        "read"@,
    ) + maybe_name(properties & 0x04 != 0, "write without response"@) + maybe_name(
        properties & 0x08 != 0,
        "write"@,
    ) + maybe_name(properties & 0x10 != 0, "notify"@) + maybe_name(
        properties & 0x20 != 0,
        "indicate"@,
    ) + maybe_name(properties & 0x40 != 0, "authenticated signed writes"@) + maybe_name(
        properties & 0x80 != 0,
        "extended properties"@,
    )
}

/// What `format_characteristic_properties` returns.
pub open spec fn spec_properties_text(properties: u8) -> Seq<char> {
    join_comma(spec_property_names(properties))
}

/// Appends `name` to the list when `set` holds.
fn push_when(names: &mut Vec<&'static str>, set: bool, name: &'static str)
    ensures
        str_views(final(names)@) == str_views(old(names)@) + maybe_name(set, name@),
{
    if set {
        names.push(name);
    }
    proof {
        assert(str_views(names@) =~= str_views(old(names)@) + maybe_name(set, name@));
    }
}

/// Joins the items from position `start` on with a comma and a space.
fn join_comma_from(items: &Vec<&str>, start: usize) -> (r: String)
    requires
        start <= items@.len(),
    ensures
        r@ == join_comma(str_views(items@).skip(start as int)),
    decreases items@.len() - start,
{
    proof {
        assert(str_views(items@).len() == items@.len());
    }
    if start == items.len() {
        String::new()
    } else if start + 1 == items.len() {
        proof {
            assert(str_views(items@).skip(start as int) =~= seq![items@[start as int]@]);
        }
        items[start].to_owned()
    } else {
        let mut s = items[start].to_owned();
        s.append(", ");
        let rest = join_comma_from(items, start + 1);
        s.append(rest.as_str());
        proof {
            let ghost tail = str_views(items@).skip(start as int);
            assert(tail[0] == items@[start as int]@);
            assert(tail.drop_first() =~= str_views(items@).skip(start as int + 1));
            assert(tail.len() >= 2);
        }
        s
    }
}

/// Renders the set characteristic property flags as a comma-separated list
/// in a fixed order; an empty flag set yields an empty string.
pub fn format_characteristic_properties(properties: u8) -> (r: String)
    ensures
        r@ == spec_properties_text(properties),
{
    let mut supported_properties: Vec<&'static str> = Vec::new();
    push_when(&mut supported_properties, properties & 0x01 != 0, "broadcast");
    push_when(&mut supported_properties, properties & 0x02 != 0, "read");
    push_when(&mut supported_properties, properties & 0x04 != 0, "write without response");
    push_when(&mut supported_properties, properties & 0x08 != 0, "write");
    push_when(&mut supported_properties, properties & 0x10 != 0, "notify");
    push_when(&mut supported_properties, properties & 0x20 != 0, "indicate");
    push_when(
        &mut supported_properties,
        properties & 0x40 != 0,
        "authenticated signed writes",
    );
    push_when(&mut supported_properties, properties & 0x80 != 0, "extended properties");
    proof {
        assert(str_views(supported_properties@) =~= spec_property_names(properties));
        assert(str_views(supported_properties@).skip(0) =~= spec_property_names(properties));
    }
    join_comma_from(&supported_properties, 0)
}

/// An empty flag set formats to the empty string.
pub proof fn lemma_properties_none()
    ensures
        spec_properties_text(0) == Seq::<char>::empty(),
{
    assert(0u8 & 0x01 == 0) by (bit_vector);
    assert(0u8 & 0x02 == 0) by (bit_vector);
    assert(0u8 & 0x04 == 0) by (bit_vector);
    assert(0u8 & 0x08 == 0) by (bit_vector);
    assert(0u8 & 0x10 == 0) by (bit_vector);
    assert(0u8 & 0x20 == 0) by (bit_vector);
    assert(0u8 & 0x40 == 0) by (bit_vector);
    assert(0u8 & 0x80 == 0) by (bit_vector);
    assert(spec_property_names(0) =~= Seq::<Seq<char>>::empty());
}

/// The full flag set formats to all eight names, comma-separated, in the
/// fixed order broadcast, read, write without response, write, notify,
/// indicate, authenticated signed writes, extended properties.
pub proof fn lemma_properties_all()
    ensures
        spec_properties_text(0xFF) == "broadcast"@ + ", "@ + ("read"@ + ", "@ + ("write without response"@
            + ", "@ + ("write"@ + ", "@ + ("notify"@ + ", "@ + ("indicate"@ + ", "@ + (
        "authenticated signed writes"@ + ", "@ + "extended properties"@)))))),
{
    assert(0xFFu8 & 0x01 != 0) by (bit_vector);
    assert(0xFFu8 & 0x02 != 0) by (bit_vector);
    assert(0xFFu8 & 0x04 != 0) by (bit_vector);
    assert(0xFFu8 & 0x08 != 0) by (bit_vector);
    assert(0xFFu8 & 0x10 != 0) by (bit_vector);
    assert(0xFFu8 & 0x20 != 0) by (bit_vector);
    assert(0xFFu8 & 0x40 != 0) by (bit_vector);
    assert(0xFFu8 & 0x80 != 0) by (bit_vector);
    let n8 = seq![
        "broadcast"@,
        "read"@,
        "write without response"@,
        "write"@,
        "notify"@,
        "indicate"@,
        "authenticated signed writes"@,
        "extended properties"@,
    ];
    assert(spec_property_names(0xFF) =~= n8);
    let n7 = n8.drop_first();
    let n6 = n7.drop_first();
    let n5 = n6.drop_first();
    let n4 = n5.drop_first();
    let n3 = n4.drop_first();
    let n2 = n3.drop_first();
    let n1 = n2.drop_first();
    assert(n1 =~= seq!["extended properties"@]);
    assert(join_comma(n1) == "extended properties"@);
    assert(join_comma(n2) == n2[0] + ", "@ + join_comma(n1));
    assert(join_comma(n3) == n3[0] + ", "@ + join_comma(n2));
    assert(join_comma(n4) == n4[0] + ", "@ + join_comma(n3));
    assert(join_comma(n5) == n5[0] + ", "@ + join_comma(n4));
    assert(join_comma(n6) == n6[0] + ", "@ + join_comma(n5));
    assert(join_comma(n7) == n7[0] + ", "@ + join_comma(n6));
    assert(join_comma(n8) == n8[0] + ", "@ + join_comma(n7));
}

} // verus!

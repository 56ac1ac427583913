//! Discovery results: the service, characteristic and descriptor records
//! read from a connected peripheral, and the nested, boxed report they are
//! rendered as — descriptors inside characteristics inside services inside
//! one outermost device box.

use vstd::prelude::*;

use crate::characteristic_uuids;
use crate::descriptor_uuids;
use crate::render;
use crate::service_uuids;

verus! {

/// One GATT descriptor, read during discovery.
pub struct DescriptorRecord {
    pub uuid: u128,
}

/// One GATT characteristic with its descriptors.
pub struct CharacteristicRecord {
    pub uuid: u128,
    pub properties: u8,
    pub descriptors: Vec<DescriptorRecord>,
}

/// One GATT service with its characteristics.
pub struct ServiceRecord {
    pub uuid: u128,
    pub primary: bool,
    pub characteristics: Vec<CharacteristicRecord>,
}

/// The text block of one descriptor: its UUID and its registry name.
pub open spec fn spec_descriptor_text(d: DescriptorRecord) -> Seq<char> {
    "uuid: "@ + crate::spec_format_uuid(d.uuid) + "\ntype: "@ + descriptor_uuids::descriptor_name(
        d.uuid,
    )
}

/// The own text block of one characteristic: UUID, registry name and the
/// formatted property flags.
pub open spec fn spec_characteristic_own_text(c: CharacteristicRecord) -> Seq<char> {
    "uuid: "@ + crate::spec_format_uuid(c.uuid) + "\ntype: "@
        + characteristic_uuids::characteristic_name(c.uuid) + "\nproperties: "@
        + crate::spec_properties_text(c.properties)
}

/// The full block of one characteristic: its own text, and the boxed
/// descriptors below it only when it has any.
pub open spec fn spec_characteristic_block(c: CharacteristicRecord) -> Seq<char> {
    if c.descriptors@.len() == 0 {
        spec_characteristic_own_text(c)
    } else {
        spec_characteristic_own_text(c) + "\n"@ + render::spec_subitems(
            c.descriptors@.map_values(|d: DescriptorRecord| spec_descriptor_text(d)),
            "DESCRIPTOR"@,
        )
    }
}

/// The text of the primary flag, as printed.
pub open spec fn spec_bool_text(b: bool) -> Seq<char> {
    if b {
        "true"@
    } else {
        "false"@
    }
}

/// The own text block of one service: UUID, registry name and primary flag.
pub open spec fn spec_service_own_text(s: ServiceRecord) -> Seq<char> {
    "uuid: "@ + crate::spec_format_uuid(s.uuid) + "\ntype: "@ + service_uuids::service_name(s.uuid)
        + "\nprimary: "@ + spec_bool_text(s.primary)
}

/// The full block of one service: its own text, and the boxed
/// characteristics below it only when it has any.
pub open spec fn spec_service_block(s: ServiceRecord) -> Seq<char> {
    if s.characteristics@.len() == 0 {
        spec_service_own_text(s)
    } else {
        spec_service_own_text(s) + "\n"@ + render::spec_subitems(
            s.characteristics@.map_values(|c: CharacteristicRecord| spec_characteristic_block(c)),
            "CHARACTERISTIC"@,
        )
    }
}

/// The whole discovery report: one outermost device box holding the
/// identifier line and one box per service.
pub open spec fn spec_peripheral_report(device_id: Seq<char>, services: Seq<ServiceRecord>) -> Seq<
    char,
> {
    render::boxed(
        "PERIPHERAL DEVICE"@,
        "identifier: "@ + device_id + "\n"@ + render::spec_subitems(
            services.map_values(|s: ServiceRecord| spec_service_block(s)),
            "SERVICE"@,
        ),
    )
}

/// Renders the text block of one descriptor.
pub fn format_descriptor(d: &DescriptorRecord) -> (r: String)
    ensures
        r@ == spec_descriptor_text(*d),
{
    let mut s = "uuid: ".to_owned();
    let uuid_text = crate::format_uuid(d.uuid);
    s.append(uuid_text.as_str());
    s.append("\ntype: ");
    let name = descriptor_uuids::find_descriptor_type(d.uuid);
    s.append(name.as_str());
    s
}

/// Renders the full block of one characteristic, with its boxed
/// descriptors below it when it has any.
pub fn format_characteristic(c: &CharacteristicRecord) -> (r: String)
    ensures
        r@ == spec_characteristic_block(*c),
{
    let ghost blocks = c.descriptors@.map_values(|d: DescriptorRecord| spec_descriptor_text(d));
    let mut s = "uuid: ".to_owned();
    let uuid_text = crate::format_uuid(c.uuid);
    s.append(uuid_text.as_str());
    s.append("\ntype: ");
    let name = characteristic_uuids::find_characteristic_type(c.uuid);
    s.append(name.as_str());
    s.append("\nproperties: ");
    let props = crate::format_characteristic_properties(c.properties);
    s.append(props.as_str());
    if c.descriptors.len() > 0 {
        let mut texts: Vec<String> = Vec::new();
        let mut i: usize = 0;
        while i < c.descriptors.len()
            invariant
                i <= c.descriptors@.len(),
                blocks == c.descriptors@.map_values(
                    |d: DescriptorRecord| spec_descriptor_text(d),
                ),
                texts@.map_values(|t: String| t@) =~= blocks.take(i as int),
            decreases c.descriptors@.len() - i,
        {
            let text = format_descriptor(&c.descriptors[i]);
            texts.push(text);
            proof {
                assert(blocks.take(i as int + 1) =~= blocks.take(i as int) + seq![
                    blocks[i as int],
                ]);
                assert(texts@.map_values(|t: String| t@) =~= blocks.take(i as int + 1));
            }
            i = i + 1;
        }
        proof {
            assert(blocks.take(c.descriptors@.len() as int) =~= blocks);
            assert(texts@.map_values(|t: String| t@) =~= blocks);
        }
        s.append("\n");
        let sub = render::format_subitems(texts, "DESCRIPTOR");
        s.append(sub.as_str());
    }
    s
}

/// Renders the full block of one service, with its boxed characteristics
/// below it when it has any.
pub fn format_service(s: &ServiceRecord) -> (r: String)
    ensures
        r@ == spec_service_block(*s),
{
    let ghost blocks = s.characteristics@.map_values(
        |c: CharacteristicRecord| spec_characteristic_block(c),
    );
    let mut out = "uuid: ".to_owned();
    let uuid_text = crate::format_uuid(s.uuid);
    out.append(uuid_text.as_str());
    out.append("\ntype: ");
    let name = service_uuids::find_service_type(s.uuid);
    out.append(name.as_str());
    out.append("\nprimary: ");
    if s.primary {
        out.append("true");
    } else {
        out.append("false");
    }
    if s.characteristics.len() > 0 {
        let mut texts: Vec<String> = Vec::new();
        let mut i: usize = 0;
        while i < s.characteristics.len()
            invariant
                i <= s.characteristics@.len(),
                blocks == s.characteristics@.map_values(
                    |c: CharacteristicRecord| spec_characteristic_block(c),
                ),
                texts@.map_values(|t: String| t@) =~= blocks.take(i as int),
            decreases s.characteristics@.len() - i,
        {
            let text = format_characteristic(&s.characteristics[i]);
            texts.push(text);
            proof {
                assert(blocks.take(i as int + 1) =~= blocks.take(i as int) + seq![
                    blocks[i as int],
                ]);
                assert(texts@.map_values(|t: String| t@) =~= blocks.take(i as int + 1));
            }
            i = i + 1;
        }
        proof {
            assert(blocks.take(s.characteristics@.len() as int) =~= blocks);
            assert(texts@.map_values(|t: String| t@) =~= blocks);
        }
        out.append("\n");
        let sub = render::format_subitems(texts, "CHARACTERISTIC");
        out.append(sub.as_str());
    }
    out
}

/// Renders the whole discovery report for a peripheral: the outermost
/// device box holds the identifier line and one box per service.
pub fn format_peripheral_report(device_id: &str, services: &Vec<ServiceRecord>) -> (r: String)
    ensures
        r@ == spec_peripheral_report(device_id@, services@),
{
    let ghost blocks = services@.map_values(|s: ServiceRecord| spec_service_block(s));
    let mut texts: Vec<String> = Vec::new();
    let mut i: usize = 0;
    while i < services.len()
        invariant
            i <= services@.len(),
            blocks == services@.map_values(|s: ServiceRecord| spec_service_block(s)),
            texts@.map_values(|t: String| t@) =~= blocks.take(i as int),
        decreases services@.len() - i,
    {
        let text = format_service(&services[i]);
        texts.push(text);
        proof {
            assert(blocks.take(i as int + 1) =~= blocks.take(i as int) + seq![blocks[i as int]]);
            assert(texts@.map_values(|t: String| t@) =~= blocks.take(i as int + 1));
        }
        i = i + 1;
    }
    proof {
        assert(blocks.take(services@.len() as int) =~= blocks);
        assert(texts@.map_values(|t: String| t@) =~= blocks);
    }
    let sub = render::format_subitems(texts, "SERVICE");
    let mut body = "identifier: ".to_owned();
    body.append(device_id);
    body.append("\n");
    body.append(sub.as_str());
    render::render_box("PERIPHERAL DEVICE", body.as_str())
}

/// A device with a single service that has no characteristics renders as
/// one device box holding the identifier line and exactly one service box,
/// with no characteristic box nested inside it.
pub proof fn lemma_report_single_bare_service(device_id: Seq<char>, s: ServiceRecord)
    requires
        s.characteristics@.len() == 0,
    ensures
        spec_peripheral_report(device_id, seq![s]) == render::boxed(
            "PERIPHERAL DEVICE"@,
            "identifier: "@ + device_id + "\n"@ + render::boxed(
                "SERVICE"@,
                spec_service_own_text(s),
            ),
        ),
{
    let blocks = seq![s].map_values(|x: ServiceRecord| spec_service_block(x));
    assert(blocks =~= seq![spec_service_block(s)]);
    assert(render::spec_subitems(blocks, "SERVICE"@) == render::boxed(
        "SERVICE"@,
        spec_service_block(s),
    ));
    assert(spec_service_block(s) == spec_service_own_text(s));
}

} // verus!

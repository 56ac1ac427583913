//! Scan results: the peripheral device descriptor, the two sort orders of
//! the scan listing, lookup of a peripheral by identifier, and the rounded
//! table the listing is printed as.

use vstd::multiset::Multiset;
use vstd::prelude::*;

use crate::digits;
use crate::render;
use crate::text_order;

verus! {

/// One row of the scan listing.  Absent properties default to zero and
/// empty strings when the descriptor is built.
pub struct PeripheralDeviceDescriptor {
    pub device_id: String,
    pub rssi: i16,
    pub name: String,
    pub manufacturer: String,
}

impl PeripheralDeviceDescriptor {
    /// Builds a descriptor; an absent signal strength becomes 0, an absent
    /// name or manufacturer becomes the empty string.
    pub fn new(
        device_id: String,
        rssi: Option<i16>,
        name: Option<String>,
        manufacturer: Option<String>,
    ) -> (r: Self)
        ensures
            r.device_id@ == device_id@,
            r.rssi == (match rssi {
                Some(value) => value,
                None => 0i16,
            }),
            r.name@ == (match name {
                Some(text) => text@,
                None => Seq::<char>::empty(),
            }),
            r.manufacturer@ == (match manufacturer {
                Some(text) => text@,
                None => Seq::<char>::empty(),
            }),
    {
        Self {
            device_id,
            rssi: match rssi {
                Some(value) => value,
                None => 0i16,
            },
            name: match name {
                Some(text) => text,
                None => String::new(),
            },
            manufacturer: match manufacturer {
                Some(text) => text,
                None => String::new(),
            },
        }
    }
}

/// Whether `a` must come strictly before `b`: by descending signal strength
/// when `by_rssi` holds, else by identifier.  Equal keys are never strictly
/// ordered, which is what keeps the sort stable.
pub open spec fn strictly_before(
    by_rssi: bool,
    a: PeripheralDeviceDescriptor,
    b: PeripheralDeviceDescriptor,
) -> bool {
    if by_rssi {
        a.rssi > b.rssi
    } else {
        text_order::lex_lt(a.device_id@, b.device_id@)
    }
}

/// `x` placed into the already ordered `s`, after every element it is not
/// strictly before; an element equal in key therefore keeps its earlier
/// position, so the order is stable.
pub open spec fn insert_ordered(
    by_rssi: bool,
    x: PeripheralDeviceDescriptor,
    s: Seq<PeripheralDeviceDescriptor>,
) -> Seq<PeripheralDeviceDescriptor>
    decreases s.len(),
{
    if s.len() == 0 {
        seq![x]
    } else if strictly_before(by_rssi, x, s[0]) {
        seq![x] + s
    } else {
        seq![s[0]] + insert_ordered(by_rssi, x, s.drop_first())
    }
}

/// The stable insertion sort of `s` under the chosen order.
pub open spec fn sort_ordered(by_rssi: bool, s: Seq<PeripheralDeviceDescriptor>) -> Seq<
    PeripheralDeviceDescriptor,
>
    decreases s.len(),
{
    if s.len() == 0 {
        Seq::empty()
    } else {
        insert_ordered(by_rssi, s.last(), sort_ordered(by_rssi, s.drop_last()))
    }
}

/// No element is strictly before an earlier one.
pub open spec fn ordered(by_rssi: bool, s: Seq<PeripheralDeviceDescriptor>) -> bool {
    forall|i: int, j: int|
        0 <= i < j < s.len() ==> !strictly_before(by_rssi, s[j], s[i])
}

/// `strictly_before` never holds between a descriptor and itself.
proof fn lemma_strictly_before_irreflexive(by_rssi: bool, a: PeripheralDeviceDescriptor)
    ensures
        !strictly_before(by_rssi, a, a),
{
    if !by_rssi {
        text_order::lemma_lex_lt_irreflexive(a.device_id@);
    }
}

/// `strictly_before` is transitive.
proof fn lemma_strictly_before_transitive(
    by_rssi: bool,
    a: PeripheralDeviceDescriptor,
    b: PeripheralDeviceDescriptor,
    c: PeripheralDeviceDescriptor,
)
    requires
        strictly_before(by_rssi, a, b),
        strictly_before(by_rssi, b, c),
    ensures
        strictly_before(by_rssi, a, c),
{
    if !by_rssi {
        text_order::lemma_lex_lt_transitive(a.device_id@, b.device_id@, c.device_id@);
    }
}

/// Inserting into an ordered sequence keeps it ordered and adds exactly the
/// new element.
proof fn lemma_insert_ordered_sorts(
    by_rssi: bool,
    x: PeripheralDeviceDescriptor,
    s: Seq<PeripheralDeviceDescriptor>,
)
    requires
        ordered(by_rssi, s),
    ensures
        ordered(by_rssi, insert_ordered(by_rssi, x, s)),
        insert_ordered(by_rssi, x, s).to_multiset() == s.to_multiset().insert(x),
    decreases s.len(),
{
    broadcast use vstd::seq_lib::group_to_multiset_ensures;

    let r = insert_ordered(by_rssi, x, s);
    if s.len() == 0 {
        assert(seq![x] =~= Seq::<PeripheralDeviceDescriptor>::empty().push(x));
        assert(s.to_multiset() =~= Multiset::<PeripheralDeviceDescriptor>::empty());
        assert(r.to_multiset() =~= s.to_multiset().insert(x));
    } else if strictly_before(by_rssi, x, s[0]) {
        assert(r == seq![x] + s);
        assert forall|i: int, j: int| 0 <= i < j < r.len() implies !strictly_before(
            by_rssi,
            r[j],
            r[i],
        ) by {
            if i == 0 {
                if strictly_before(by_rssi, r[j], x) {
                    lemma_strictly_before_transitive(by_rssi, s[j - 1], x, s[0]);
                    if j == 1 {
                        lemma_strictly_before_irreflexive(by_rssi, s[0]);
                    }
                }
            }
        }
        vstd::seq_lib::lemma_multiset_commutative(seq![x], s);
        assert(seq![x] =~= Seq::<PeripheralDeviceDescriptor>::empty().push(x));
        assert(r.to_multiset() =~= s.to_multiset().insert(x));
    } else {
        let rest = s.drop_first();
        assert forall|i: int, j: int| 0 <= i < j < rest.len() implies !strictly_before(
            by_rssi,
            rest[j],
            rest[i],
        ) by {
            assert(rest[i] == s[i + 1]);
            assert(rest[j] == s[j + 1]);
        }
        lemma_insert_ordered_sorts(by_rssi, x, rest);
        let t = insert_ordered(by_rssi, x, rest);
        assert(r == seq![s[0]] + t);
        assert forall|i: int, j: int| 0 <= i < j < r.len() implies !strictly_before(
            by_rssi,
            r[j],
            r[i],
        ) by {
            if i == 0 {
                let e = r[j];
                assert(t[j - 1] == e);
                assert(t.to_multiset().count(e) > 0);
                if e == x {
                    assert(!strictly_before(by_rssi, x, s[0]));
                } else {
                    assert(rest.to_multiset().count(e) > 0);
                    assert(rest.contains(e));
                    let k = choose|k: int| 0 <= k < rest.len() && rest[k] == e;
                    assert(s[k + 1] == e);
                    assert(!strictly_before(by_rssi, e, s[0]));
                }
            } else {
                assert(t[i - 1] == r[i]);
                assert(t[j - 1] == r[j]);
            }
        }
        vstd::seq_lib::lemma_multiset_commutative(seq![s[0]], t);
        assert(s =~= seq![s[0]] + rest);
        vstd::seq_lib::lemma_multiset_commutative(seq![s[0]], rest);
        assert(r.to_multiset() =~= s.to_multiset().insert(x));
    }
}

/// The sort returns an ordered permutation of its input: no element stands
/// strictly before an earlier one, and exactly the input's elements appear.
pub proof fn lemma_sort_ordered_sorts(by_rssi: bool, s: Seq<PeripheralDeviceDescriptor>)
    ensures
        ordered(by_rssi, sort_ordered(by_rssi, s)),
        sort_ordered(by_rssi, s).to_multiset() == s.to_multiset(),
    decreases s.len(),
{
    broadcast use vstd::seq_lib::group_to_multiset_ensures;

    if s.len() == 0 {
        assert(sort_ordered(by_rssi, s) =~= Seq::<PeripheralDeviceDescriptor>::empty());
        assert(s.to_multiset() =~= Seq::<PeripheralDeviceDescriptor>::empty().to_multiset());
    } else {
        lemma_sort_ordered_sorts(by_rssi, s.drop_last());
        lemma_insert_ordered_sorts(by_rssi, s.last(), sort_ordered(by_rssi, s.drop_last()));
        assert(s =~= s.drop_last().push(s.last()));
        assert(s.to_multiset() =~= s.drop_last().to_multiset().insert(s.last()));
    }
}

/// Decides `strictly_before`.
fn comes_before(
    by_rssi: bool,
    a: &PeripheralDeviceDescriptor,
    b: &PeripheralDeviceDescriptor,
) -> (r: bool)
    ensures
        r == strictly_before(by_rssi, *a, *b),
{
    if by_rssi {
        a.rssi > b.rssi
    } else {
        text_order::str_lt(a.device_id.as_str(), b.device_id.as_str())
    }
}

/// Inserts `x` behind every element it is not strictly before.
fn insert_descriptor(
    out: &mut Vec<PeripheralDeviceDescriptor>,
    x: PeripheralDeviceDescriptor,
    by_rssi: bool,
)
    ensures
        final(out)@ == insert_ordered(by_rssi, x, old(out)@),
{
    let mut j: usize = 0;
    proof {
        assert(out@.skip(0) =~= out@);
    }
    loop
        invariant
            j <= out@.len(),
            out@ == old(out)@,
            insert_ordered(by_rssi, x, out@) == out@.take(j as int) + insert_ordered(
                by_rssi,
                x,
                out@.skip(j as int),
            ),
        decreases out@.len() - j,
    {
        if j == out.len() {
            out.push(x);
            proof {
                assert(old(out)@.skip(old(out)@.len() as int) =~= Seq::<
                    PeripheralDeviceDescriptor,
                >::empty());
                assert(old(out)@.take(old(out)@.len() as int) =~= old(out)@);
                assert(out@ =~= old(out)@.take(old(out)@.len() as int) + insert_ordered(
                    by_rssi,
                    x,
                    old(out)@.skip(old(out)@.len() as int),
                ));
            }
            return ;
        }
        let ghost tail = out@.skip(j as int);
        proof {
            assert(tail[0] == out@[j as int]);
        }
        if comes_before(by_rssi, &x, &out[j]) {
            proof {
                assert(insert_ordered(by_rssi, x, tail) == seq![x] + tail);
                assert(out@.insert(j as int, x) =~= out@.take(j as int) + (seq![x] + tail));
            }
            out.insert(j, x);
            return ;
        }
        proof {
            assert(insert_ordered(by_rssi, x, tail) == seq![tail[0]] + insert_ordered(
                by_rssi,
                x,
                tail.drop_first(),
            ));
            assert(tail.drop_first() =~= out@.skip(j as int + 1));
            assert(out@.take(j as int + 1) =~= out@.take(j as int) + seq![out@[j as int]]);
            assert(out@.take(j as int) + insert_ordered(by_rssi, x, out@.skip(j as int))
                =~= out@.take(j as int + 1) + insert_ordered(by_rssi, x, out@.skip(j as int + 1)));
        }
        j = j + 1;
    }
}

/// Sorts the scan results: by descending signal strength when `by_rssi`
/// holds, else by identifier; the sort is stable for equal keys.
pub fn sort_peripherals(descriptors: Vec<PeripheralDeviceDescriptor>, by_rssi: bool) -> (r: Vec<
    PeripheralDeviceDescriptor,
>)
    ensures
        r@ == sort_ordered(by_rssi, descriptors@),
{
    let ghost all = descriptors@;
    let mut rest = descriptors;
    let mut out: Vec<PeripheralDeviceDescriptor> = Vec::new();
    let mut i: usize = 0;
    let total = rest.len();
    proof {
        assert(all.len() == total);
        assert(all.take(0) =~= Seq::<PeripheralDeviceDescriptor>::empty());
    }
    while rest.len() > 0
        invariant
            i <= all.len(),
            all.len() <= usize::MAX,
            rest@ =~= all.skip(i as int),
            out@ == sort_ordered(by_rssi, all.take(i as int)),
        decreases rest@.len(),
    {
        let x = rest.remove(0);
        proof {
            assert(x == all[i as int]);
            let ghost prefix = all.take(i as int + 1);
            assert(prefix.drop_last() =~= all.take(i as int));
            assert(prefix.last() == all[i as int]);
            assert(all.skip(i as int).remove(0) =~= all.skip(i as int + 1));
        }
        insert_descriptor(&mut out, x, by_rssi);
        i = i + 1;
    }
    proof {
        assert(all.take(i as int) =~= all);
    }
    out
}

/// The position of the first peripheral whose identifier equals
/// `device_id`, when any does.
pub fn find_peripheral_index(ids: &Vec<String>, device_id: &String) -> (r: Option<usize>)
    ensures
        match r {
            Some(i) => i < ids@.len() && ids@[i as int]@ == device_id@ && (forall|j: int|
                0 <= j < i ==> ids@[j]@ != device_id@),
            None => forall|j: int| 0 <= j < ids@.len() ==> ids@[j]@ != device_id@,
        },
{
    let mut i: usize = 0;
    while i < ids.len()
        invariant
            i <= ids@.len(),
            forall|j: int| 0 <= j < i ==> ids@[j]@ != device_id@,
        decreases ids@.len() - i,
    {
        if ids[i].eq(device_id) {
            return Some(i);
        }
        i = i + 1;
    }
    None
}

/// The four cells of one row of the scan table.
pub open spec fn peripheral_row(p: PeripheralDeviceDescriptor) -> Seq<Seq<char>> {
    seq![p.device_id@, digits::dec_i16(p.rssi), p.name@, p.manufacturer@]
}

/// The header row of the scan table.
pub open spec fn header_row() -> Seq<Seq<char>> {
    seq!["IDENTIFIER"@, "RSSI [dBm]"@, "NAME"@, "MANUFACTURER"@]
}

/// What the scan table shows: a header row and one row per descriptor, in
/// the given order, drawn rounded with the signal column right-aligned.
pub open spec fn spec_peripheral_table(list: Seq<PeripheralDeviceDescriptor>) -> Seq<char> {
    render::rendered_rounded_right(
        seq![header_row()] + list.map_values(|p: PeripheralDeviceDescriptor| peripheral_row(p)),
    )
}

/// Renders the scan listing as a rounded table with columns IDENTIFIER,
/// RSSI [dBm] (right-aligned), NAME and MANUFACTURER.
pub fn format_peripheral_table(list: &Vec<PeripheralDeviceDescriptor>) -> (r: String)
    ensures
        r@ == spec_peripheral_table(list@),
{
    let ghost rows = list@.map_values(|p: PeripheralDeviceDescriptor| peripheral_row(p));
    let mut b = render::builder_new();
    let mut header: Vec<String> = Vec::new();
    header.push("IDENTIFIER".to_owned());
    header.push("RSSI [dBm]".to_owned());
    header.push("NAME".to_owned());
    header.push("MANUFACTURER".to_owned());
    proof {
        assert(header@.map_values(|cell: String| cell@) =~= header_row());
    }
    render::builder_push_record(&mut b, header);
    proof {
        assert(render::builder_records(b) =~= seq![header_row()]);
    }
    let mut i: usize = 0;
    while i < list.len()
        invariant
            i <= list@.len(),
            rows == list@.map_values(|p: PeripheralDeviceDescriptor| peripheral_row(p)),
            render::builder_records(b) =~= seq![header_row()] + rows.take(i as int),
        decreases list@.len() - i,
    {
        let mut cells: Vec<String> = Vec::new();
        cells.push(list[i].device_id.clone());
        cells.push(digits::dec_i16_text(list[i].rssi));
        cells.push(list[i].name.clone());
        cells.push(list[i].manufacturer.clone());
        proof {
            assert(cells@.map_values(|cell: String| cell@) =~= peripheral_row(list@[i as int]));
            assert(forall|k: int|
                0 <= k < render::builder_records(b).len() ==> render::builder_records(b)[k].len()
                    == 4);
        }
        render::builder_push_record(&mut b, cells);
        proof {
            assert(rows.take(i as int + 1) =~= rows.take(i as int) + seq![rows[i as int]]);
            assert(render::builder_records(b) =~= seq![header_row()] + rows.take(i as int + 1));
        }
        i = i + 1;
    }
    proof {
        assert(rows.take(list@.len() as int) =~= rows);
    }
    render::render_rounded_right(b)
}

} // verus!

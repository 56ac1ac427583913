//! Trusted boundary to the `tabled` crate, which draws the rounded-border
//! tables and boxes, plus the verified box-per-item formatter built on it.
//!
//! The builder's records are tracked through the uninterpreted function
//! `builder_records`; what `tabled` renders for given records is named by
//! `rendered_rounded` and `rendered_rounded_right`, since the drawn text is
//! a pure function of the records but far too wide to state here.

use vstd::prelude::*;

use tabled::builder::Builder;
use tabled::settings::object::Columns;
use tabled::settings::Alignment;
use tabled::settings::Modify;
use tabled::settings::Style;

verus! {

/// `tabled`'s table builder, declared so that verified code can hold one.
#[verifier::external_type_specification]
#[verifier::external_body]
pub struct ExBuilder(Builder);

/// The records pushed into a `tabled` builder so far: one sequence of cell
/// texts per record, in push order.
pub uninterp spec fn builder_records(b: Builder) -> Seq<Seq<Seq<char>>>;

/// What `tabled` renders for these records with the rounded style.
pub uninterp spec fn rendered_rounded(records: Seq<Seq<Seq<char>>>) -> Seq<char>;

/// What `tabled` renders for these records with the rounded style and the
/// second column right-aligned.
pub uninterp spec fn rendered_rounded_right(records: Seq<Seq<Seq<char>>>) -> Seq<char>;

/// Relies on `tabled::builder::Builder::new`: a fresh builder holds no records.
#[verifier::external_body]
pub(crate) fn builder_new() -> (b: Builder)
    ensures
        builder_records(b) == Seq::<Seq<Seq<char>>>::empty(),
{
    Builder::new()
}

/// Relies on `tabled::builder::Builder::push_record`: when every record so
/// far has as many cells as the new one, the new record is appended as given
/// (a record of another width would make `tabled` pad rows instead).
#[verifier::external_body]
pub(crate) fn builder_push_record(b: &mut Builder, cells: Vec<String>)
    requires
        forall|i: int|
            0 <= i < builder_records(*old(b)).len() ==> builder_records(*old(b))[i].len()
                == cells@.len(),
    ensures
        builder_records(*final(b)) == builder_records(*old(b)).push(
            cells@.map_values(|cell: String| cell@),
        ),
{
    b.push_record(cells)
}

/// Relies on `tabled`'s `Builder::build`, `Table::with(Style::rounded())`
/// and `Table`'s `Display`: the drawn text depends on the records alone.
#[verifier::external_body]
pub(crate) fn render_rounded(b: Builder) -> (r: String)
    ensures
        r@ == rendered_rounded(builder_records(b)),
{
    let mut table = b.build();
    table.with(Style::rounded());
    table.to_string()
}

/// Relies on `tabled`'s `Builder::build`, `Table::with(Style::rounded())`,
/// `Table::with(Modify::new(Columns::one(1)).with(Alignment::right()))` and
/// `Table`'s `Display`: the drawn text depends on the records alone.
#[verifier::external_body]
pub(crate) fn render_rounded_right(b: Builder) -> (r: String)
    ensures
        r@ == rendered_rounded_right(builder_records(b)),
{
    let mut table = b.build();
    table.with(Style::rounded());
    table.with(Modify::new(Columns::one(1)).with(Alignment::right()));
    table.to_string()
}

/// The rounded box drawn for a title record above a body record.
pub open spec fn boxed(title: Seq<char>, body: Seq<char>) -> Seq<char> {
    rendered_rounded(seq![seq![title], seq![body]])
}

/// Draws one rounded box titled `title` and holding `body`.
pub fn render_box(title: &str, body: &str) -> (r: String)
    ensures
        r@ == boxed(title@, body@),
{
    let mut b = builder_new();
    let mut title_cells: Vec<String> = Vec::new();
    title_cells.push(title.to_owned());
    proof {
        assert(title_cells@.map_values(|cell: String| cell@) =~= seq![title@]);
    }
    builder_push_record(&mut b, title_cells);
    let mut body_cells: Vec<String> = Vec::new();
    body_cells.push(body.to_owned());
    proof {
        assert(body_cells@.map_values(|cell: String| cell@) =~= seq![body@]);
    }
    builder_push_record(&mut b, body_cells);
    proof {
        assert(builder_records(b) =~= seq![seq![title@], seq![body@]]);
    }
    render_rounded(b)
}

/// One titled rounded box per item, joined by newlines; empty for no items.
pub open spec fn spec_subitems(items: Seq<Seq<char>>, title: Seq<char>) -> Seq<char>
    decreases items.len(),
{
    if items.len() == 0 {
        Seq::empty()
    } else if items.len() == 1 {
        boxed(title, items[0])
    } else {
        spec_subitems(items.drop_last(), title) + "\n"@ + boxed(title, items.last())
    }
}

/// Wraps each item in a rounded box titled `item_title` and joins the boxes
/// with newlines.
pub fn format_subitems(items: Vec<String>, item_title: &str) -> (r: String)
    ensures
        r@ == spec_subitems(items@.map_values(|item: String| item@), item_title@),
{
    let ghost all = items@.map_values(|item: String| item@);
    let mut out = String::new();
    let mut i: usize = 0;
    while i < items.len()
        invariant
            i <= items@.len(),
            all == items@.map_values(|item: String| item@),
            out@ == spec_subitems(all.take(i as int), item_title@),
        decreases items@.len() - i,
    {
        let item_box = render_box(item_title, items[i].as_str());
        if i == 0 {
            out = item_box;
        } else {
            out.append("\n");
            out.append(item_box.as_str());
        }
        proof {
            let ghost prefix = all.take(i as int + 1);
            assert(prefix.drop_last() =~= all.take(i as int));
            assert(prefix.last() == all[i as int]);
            assert(all[i as int] == items@[i as int]@);
        }
        i = i + 1;
    }
    proof {
        assert(all.take(items@.len() as int) =~= all);
    }
    out
}

} // verus!

use vstd::prelude::*;
use vstd::string::StringExecFns;

use crate::metadata::{FieldDef, MetadataTree, Pallet, StorageEntry, VariantDef};

verus! {

// What the central panel draws for a metadata tree, computed here as plain
// values; the drawing layer walks this structure widget by widget. The
// structure captures every header, its nesting and its text, so drawing it
// is a pure function of the tree.

/// One leaf line inside a collapsible section.
#[derive(Clone, Debug, PartialEq, Eq)]
pub enum Row {
    /// A monospaced name line: a storage entry's name or a variant's
    /// signature.
    CodeLabel(String),
    /// A block of documentation text, handed to the markup renderer.
    Markup(String),
}

/// A titled collapsible section holding leaf rows.
#[derive(Clone, Debug, PartialEq, Eq)]
pub struct Group {
    pub title: String,
    pub rows: Vec<Row>,
}

/// Everything drawn for one pallet: its collapsible header, optional
/// documentation, and the optional storage, calls, events and errors
/// sections. An absent part draws nothing at all.
#[derive(Clone, Debug, PartialEq, Eq)]
pub struct PalletSection {
    pub name: String,
    pub docs: Option<String>,
    pub storage: Option<Group>,
    pub calls: Option<Group>,
    pub events: Option<Group>,
    pub errors: Option<Group>,
}

// The mathematical image of the drawn structure: the same shape over
// sequences of characters.

/// Mathematical image of a [`Row`].
pub enum RowShape {
    CodeText(Seq<char>),
    MarkupText(Seq<char>),
}

/// Mathematical image of a [`Group`].
pub struct GroupShape {
    pub title: Seq<char>,
    pub rows: Seq<RowShape>,
}

/// Mathematical image of a [`PalletSection`].
pub struct SectionShape {
    pub name: Seq<char>,
    pub docs: Option<Seq<char>>,
    pub storage: Option<GroupShape>,
    pub calls: Option<GroupShape>,
    pub events: Option<GroupShape>,
    pub errors: Option<GroupShape>,
}

pub open spec fn row_shape(r: Row) -> RowShape {
    match r {
        Row::CodeLabel(s) => RowShape::CodeText(s@),
        Row::Markup(s) => RowShape::MarkupText(s@),
    }
}

pub open spec fn rows_shape(rs: Seq<Row>) -> Seq<RowShape> {
    rs.map_values(|r: Row| row_shape(r))
}

pub open spec fn group_shape(g: Group) -> GroupShape {
    GroupShape { title: g.title@, rows: rows_shape(g.rows@) }
}

pub open spec fn opt_group_shape(g: Option<Group>) -> Option<GroupShape> {
    match g {
        Some(g) => Some(group_shape(g)),
        None => None,
    }
}

pub open spec fn section_shape(s: PalletSection) -> SectionShape {
    SectionShape {
        name: s.name@,
        docs: match s.docs {
            Some(d) => Some(d@),
            None => None,
        },
        storage: opt_group_shape(s.storage),
        calls: opt_group_shape(s.calls),
        events: opt_group_shape(s.events),
        errors: opt_group_shape(s.errors),
    }
}

pub open spec fn sections_shape(ss: Seq<PalletSection>) -> Seq<SectionShape> {
    ss.map_values(|s: PalletSection| section_shape(s))
}

// The rendering rules, stated over character sequences.

pub open spec fn docs_text(docs: Seq<String>) -> Seq<Seq<char>> {
    docs.map_values(|s: String| s@)
}

/// Documentation lines joined for display: each line followed by a line
/// break.
pub open spec fn concat_docs_text(lines: Seq<Seq<char>>) -> Seq<char>
    decreases lines.len(),
{
    if lines.len() == 0 {
        Seq::empty()
    } else {
        concat_docs_text(lines.drop_last()) + lines.last() + "\n"@
    }
}

/// How one field extends the comma-separated field list: a field missing
/// its name or its declared type name adds nothing.
pub open spec fn field_step(acc: Seq<char>, f: FieldDef) -> Seq<char> {
    match (f.name, f.declared_type) {
        (Some(n), Some(t)) => (if acc.len() > 0 {
            acc + ", "@
        } else {
            acc
        }) + n@ + ": "@ + t@,
        _ => acc,
    }
}

pub open spec fn fields_text_from(fields: Seq<FieldDef>, acc: Seq<char>) -> Seq<char>
    decreases fields.len(),
{
    if fields.len() == 0 {
        acc
    } else {
        fields_text_from(fields.drop_first(), field_step(acc, fields.first()))
    }
}

/// The field list of a variant, formatted `name: type, name: type, ...`.
pub open spec fn fields_text(fields: Seq<FieldDef>) -> Seq<char> {
    fields_text_from(fields, Seq::empty())
}

/// The signature line of a variant: `name(field list)`, or the bare name
/// when the formatted field list is empty.
pub open spec fn variant_text(v: VariantDef) -> Seq<char> {
    if fields_text(v.fields@).len() == 0 {
        v.name@
    } else {
        v.name@ + "("@ + fields_text(v.fields@) + ")"@
    }
}

/// The rows drawn for one variant: its signature line, then its joined
/// documentation when there is any.
pub open spec fn variant_rows(v: VariantDef) -> Seq<RowShape> {
    if v.docs@.len() > 0 {
        seq![
            RowShape::CodeText(variant_text(v)),
            RowShape::MarkupText(concat_docs_text(docs_text(v.docs@))),
        ]
    } else {
        seq![RowShape::CodeText(variant_text(v))]
    }
}

/// The rows drawn for one storage entry: its name line, then its joined
/// documentation when there is any.
pub open spec fn entry_rows(e: StorageEntry) -> Seq<RowShape> {
    if e.docs@.len() > 0 {
        seq![
            RowShape::CodeText(e.name@),
            RowShape::MarkupText(concat_docs_text(docs_text(e.docs@))),
        ]
    } else {
        seq![RowShape::CodeText(e.name@)]
    }
}

pub open spec fn storage_rows(entries: Seq<StorageEntry>) -> Seq<RowShape>
    decreases entries.len(),
{
    if entries.len() == 0 {
        Seq::empty()
    } else {
        storage_rows(entries.drop_last()) + entry_rows(entries.last())
    }
}

pub open spec fn variants_rows(vs: Seq<VariantDef>) -> Seq<RowShape>
    decreases vs.len(),
{
    if vs.len() == 0 {
        Seq::empty()
    } else {
        variants_rows(vs.drop_last()) + variant_rows(vs.last())
    }
}

/// Everything drawn for one pallet, as a function of the pallet alone.
pub open spec fn pallet_section_text(p: Pallet) -> SectionShape {
    SectionShape {
        name: p.name@,
        docs: if p.docs@.len() > 0 {
            Some(concat_docs_text(docs_text(p.docs@)))
        } else {
            None
        },
        storage: match p.storage {
            Some(es) => Some(GroupShape { title: "Storage"@, rows: storage_rows(es@) }),
            None => None,
        },
        calls: match p.calls {
            Some(vs) => Some(GroupShape { title: "Calls"@, rows: variants_rows(vs@) }),
            None => None,
        },
        events: match p.events {
            Some(vs) => Some(GroupShape { title: "Events"@, rows: variants_rows(vs@) }),
            None => None,
        },
        errors: match p.errors {
            Some(vs) => Some(GroupShape { title: "Errors"@, rows: variants_rows(vs@) }),
            None => None,
        },
    }
}

/// Everything drawn for a whole tree: one section per pallet, in order.
pub open spec fn tree_sections_text(t: MetadataTree) -> Seq<SectionShape> {
    t.pallets@.map_values(|p: Pallet| pallet_section_text(p))
}

/// Rendering is deterministic: the drawn structure is a function of the
/// tree alone, so rendering the same tree twice gives the same headers,
/// nesting and text.
pub proof fn lemma_render_deterministic(
    t: MetadataTree,
    s1: Seq<SectionShape>,
    s2: Seq<SectionShape>,
)
    requires
        s1 == tree_sections_text(t),
        s2 == tree_sections_text(t),
    ensures
        s1 == s2,
{
}

// The executable renderer.

/// Documentation lines joined with line breaks for the markup renderer.
pub fn concat_docs(lines: &[String]) -> (r: String)
    ensures
        r@ == concat_docs_text(docs_text(lines@)),
{
    let mut r = String::new();
    let mut i: usize = 0;
    while i < lines.len()
        invariant
            i <= lines@.len(),
            r@ == concat_docs_text(docs_text(lines@).take(i as int)),
        decreases lines@.len() - i,
    {
        r.append(lines[i].as_str());
        r.append("\n");
        proof {
            let d = docs_text(lines@);
            assert(d.take(i + 1).drop_last() =~= d.take(i as int));
            assert(d.take(i + 1).last() == lines@[i as int]@);
        }
        i = i + 1;
    }
    proof {
        assert(docs_text(lines@).take(lines@.len() as int) =~= docs_text(lines@));
    }
    r
}

/// The rows drawn for one variant: its signature line
/// `name(field: type, ...)` (the bare name when no field shows), then its
/// documentation when there is any.
pub fn render_variant(v: &VariantDef) -> (r: Vec<Row>)
    ensures
        rows_shape(r@) == variant_rows(*v),
{
    let mut fields = String::new();
    let mut i: usize = 0;
    proof {
        assert(v.fields@.skip(0) =~= v.fields@);
    }
    while i < v.fields.len()
        invariant
            i <= v.fields@.len(),
            fields_text_from(v.fields@.skip(i as int), fields@) == fields_text(v.fields@),
        decreases v.fields@.len() - i,
    {
        let ghost pre = fields@;
        let f = &v.fields[i];
        match (&f.name, &f.declared_type) {
            (Some(n), Some(t)) => {
                if !fields.as_str().is_empty() {
                    fields.append(", ");
                }
                fields.append(n.as_str());
                fields.append(": ");
                fields.append(t.as_str());
            },
            _ => {},
        }
        proof {
            assert(fields@ == field_step(pre, v.fields@[i as int]));
            assert(v.fields@.skip(i as int).drop_first() =~= v.fields@.skip(i + 1));
            assert(v.fields@.skip(i as int).first() == v.fields@[i as int]);
        }
        i = i + 1;
    }
    proof {
        assert(v.fields@.skip(v.fields@.len() as int) =~= Seq::<FieldDef>::empty());
    }
    let mut text = v.name.clone();
    if !fields.as_str().is_empty() {
        text.append("(");
        text.append(fields.as_str());
        text.append(")");
    }
    let mut r: Vec<Row> = Vec::new();
    r.push(Row::CodeLabel(text));
    if v.docs.len() > 0 {
        r.push(Row::Markup(concat_docs(v.docs.as_slice())));
    }
    proof {
        assert(rows_shape(r@) =~= variant_rows(*v));
    }
    r
}

/// The rows drawn for one storage entry: its name line, then its
/// documentation when there is any.
pub fn render_storage_metadata(metadata: &StorageEntry) -> (r: Vec<Row>)
    ensures
        rows_shape(r@) == entry_rows(*metadata),
{
    let mut r: Vec<Row> = Vec::new();
    r.push(Row::CodeLabel(metadata.name.clone()));
    if metadata.docs.len() > 0 {
        r.push(Row::Markup(concat_docs(metadata.docs.as_slice())));
    }
    proof {
        assert(rows_shape(r@) =~= entry_rows(*metadata));
    }
    r
}

/// The collapsible section drawn for one variant group, or nothing when
/// the group is absent.
pub fn render_variants(variants: Option<&Vec<VariantDef>>, name: &str) -> (r: Option<Group>)
    ensures
        match variants {
            Some(vs) => r matches Some(g) && group_shape(g) == (GroupShape {
                title: name@,
                rows: variants_rows(vs@),
            }),
            None => r is None,
        },
{
    match variants {
        Some(vs) => {
            let mut rows: Vec<Row> = Vec::new();
            let mut i: usize = 0;
            while i < vs.len()
                invariant
                    i <= vs@.len(),
                    rows_shape(rows@) == variants_rows(vs@.take(i as int)),
                decreases vs@.len() - i,
            {
                let ghost pre = rows@;
                let mut part = render_variant(&vs[i]);
                let ghost part_snap = part@;
                rows.append(&mut part);
                proof {
                    lemma_rows_shape_concat(pre, part_snap);
                    assert(vs@.take(i + 1).drop_last() =~= vs@.take(i as int));
                    assert(vs@.take(i + 1).last() == vs@[i as int]);
                }
                i = i + 1;
            }
            proof {
                assert(vs@.take(vs@.len() as int) =~= vs@);
            }
            Some(Group { title: name.to_owned(), rows })
        },
        None => None,
    }
}

/// Appending a section draws the sections of the list, then the new one.
proof fn lemma_sections_shape_push(a: Seq<PalletSection>, x: PalletSection)
    ensures
        sections_shape(a.push(x)) == sections_shape(a).push(section_shape(x)),
{
    assert(sections_shape(a.push(x)) =~= sections_shape(a).push(section_shape(x)));
}

/// Joining two row lists draws the rows of the first, then those of the
/// second.
proof fn lemma_rows_shape_concat(a: Seq<Row>, b: Seq<Row>)
    ensures
        rows_shape(a + b) == rows_shape(a) + rows_shape(b),
{
    assert(rows_shape(a + b) =~= rows_shape(a) + rows_shape(b));
}

/// Everything drawn for one pallet: header, documentation when present,
/// the storage section when the pallet has storage, and the calls, events
/// and errors sections when the pallet has such variants.
pub fn render_pallet_metadata(pallet: &Pallet) -> (r: PalletSection)
    ensures
        section_shape(r) == pallet_section_text(*pallet),
{
    let docs = if pallet.docs.len() > 0 {
        Some(concat_docs(pallet.docs.as_slice()))
    } else {
        None
    };
    let storage = match &pallet.storage {
        Some(entries) => {
            let mut rows: Vec<Row> = Vec::new();
            let mut i: usize = 0;
            while i < entries.len()
                invariant
                    i <= entries@.len(),
                    rows_shape(rows@) == storage_rows(entries@.take(i as int)),
                decreases entries@.len() - i,
            {
                let ghost pre = rows@;
                let mut part = render_storage_metadata(&entries[i]);
                let ghost part_snap = part@;
                rows.append(&mut part);
                proof {
                    lemma_rows_shape_concat(pre, part_snap);
                    assert(entries@.take(i + 1).drop_last() =~= entries@.take(i as int));
                    assert(entries@.take(i + 1).last() == entries@[i as int]);
                }
                i = i + 1;
            }
            proof {
                assert(entries@.take(entries@.len() as int) =~= entries@);
            }
            Some(Group { title: "Storage".to_owned(), rows })
        },
        None => None,
    };
    let calls = render_variants(pallet.calls.as_ref(), "Calls");
    let events = render_variants(pallet.events.as_ref(), "Events");
    let errors = render_variants(pallet.errors.as_ref(), "Errors");
    PalletSection { name: pallet.name.clone(), docs, storage, calls, events, errors }
}

/// One section per pallet, in the order the tree lists them.
pub fn render_tree(tree: &MetadataTree) -> (r: Vec<PalletSection>)
    ensures
        sections_shape(r@) == tree_sections_text(*tree),
{
    let mut r: Vec<PalletSection> = Vec::new();
    let mut i: usize = 0;
    while i < tree.pallets.len()
        invariant
            i <= tree.pallets@.len(),
            sections_shape(r@) == tree_sections_text(*tree).take(i as int),
        decreases tree.pallets@.len() - i,
    {
        let section = render_pallet_metadata(&tree.pallets[i]);
        let ghost pre = r@;
        r.push(section);
        proof {
            lemma_sections_shape_push(pre, section);
            assert(tree_sections_text(*tree).take(i as int).push(
                tree_sections_text(*tree)[i as int],
            ) =~= tree_sections_text(*tree).take(i + 1));
        }
        i = i + 1;
    }
    proof {
        assert(tree_sections_text(*tree).take(tree.pallets@.len() as int) =~= tree_sections_text(
            *tree,
        ));
    }
    r
}

} // verus!

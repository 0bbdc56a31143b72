//! Plain values that describe what the index engine holds.
//!
//! The engine's own types are opaque; what this library says of a schema, a
//! document, a page of hits or a write is said over the types of this file.

use vstd::prelude::*;
use crate::engine::document_entries;
use tantivy::Document;

verus! {

/// How a field of the schema is stored and indexed.
#[derive(Clone, Copy, Debug, PartialEq, Eq, Structural)]
pub enum FieldKind {
    /// Text stored and indexed whole, as one exact term.
    Term,
    /// Text stored, tokenized and indexed with positions.
    Text,
    /// Text stored and not indexed.
    Stored,
    /// An unsigned number: stored, indexed and fast to read.
    Number,
}

/// One field of a schema.
pub struct FieldSpec {
    pub name: Seq<char>,
    pub kind: FieldKind,
}

/// The value of one entry of a document.
pub enum Value {
    Text(Seq<char>),
    Number(u64),
    /// A value of a type that this library does not write.
    Other,
}

/// One entry of a document: a value under a field, named by its position in
/// the schema.
pub struct FieldValue {
    pub field: u32,
    pub value: Value,
}

/// The text of the first entry under `field`, where there is such an entry and
/// it holds text.
pub open spec fn first_text(entries: Seq<FieldValue>, field: u32) -> Option<Seq<char>>
    decreases entries.len(),
{
    if entries.len() == 0 {
        None
    } else if entries[0].field == field {
        match entries[0].value {
            Value::Text(text) => Some(text),
            _ => None,
        }
    } else {
        first_text(entries.drop_first(), field)
    }
}

/// Whether `name` is the name of some field of `fields`.
pub open spec fn has_field(fields: Seq<FieldSpec>, name: Seq<char>) -> bool {
    exists|i: int| 0 <= i < fields.len() && #[trigger] fields[i].name == name
}

/// Whether no two fields of `fields` share a name.
pub open spec fn distinct_names(fields: Seq<FieldSpec>) -> bool {
    forall|i: int, j: int|
        0 <= i < j < fields.len() ==> #[trigger] fields[i].name != #[trigger] fields[j].name
}

/// One operation handed to the writer.
#[derive(Debug)]
pub enum WriteOp {
    /// Delete every document that holds `text` as a term of field `field`.
    Delete { field: u32, text: String },
    /// Add a document.
    Add(Document),
}

/// A [`WriteOp`] as plain values.
pub enum WriteIntent {
    Delete { field: u32, text: Seq<char> },
    Add { entries: Seq<FieldValue> },
}

impl View for WriteOp {
    type V = WriteIntent;

    open spec fn view(&self) -> WriteIntent {
        match self {
            WriteOp::Delete { field, text } => WriteIntent::Delete { field: *field, text: text@ },
            WriteOp::Add(document) => WriteIntent::Add { entries: document_entries(*document) },
        }
    }
}

/// The plain values of a list of operations.
pub open spec fn intents(ops: Seq<WriteOp>) -> Seq<WriteIntent> {
    Seq::new(ops.len(), |i: int| ops[i]@)
}

/// Whether every deletion in `ops` names a field among the first `fields`.
pub open spec fn deletions_within(ops: Seq<WriteOp>, fields: nat) -> bool {
    forall|i: int|
        0 <= i < ops.len() ==> (#[trigger] ops[i] matches WriteOp::Delete { field, .. } ==> field
            < fields)
}

/// Where a document lies in a snapshot of the index.
#[derive(Clone, Copy, Debug, PartialEq, Eq, Structural)]
pub struct Address {
    pub segment: u32,
    pub doc: u32,
}

/// The order in which the engine keeps the documents of a segment.
#[derive(Clone, Copy, Debug, PartialEq, Eq, Structural)]
pub enum SortOrder {
    Ascending,
    Descending,
}

/// The largest `offset + limit` that a page may reach: the engine reserves
/// room for that many hits, of eight bytes each, before it searches.
pub const MAX_WINDOW: usize = usize::MAX / 16;

/// The items of `ranked` from position `offset` on, at most `limit` of them.
pub open spec fn window<T>(ranked: Seq<T>, offset: nat, limit: nat) -> Seq<T> {
    if offset >= ranked.len() {
        Seq::empty()
    } else if offset + limit >= ranked.len() {
        ranked.subrange(offset as int, ranked.len() as int)
    } else {
        ranked.subrange(offset as int, (offset + limit) as int)
    }
}

/// Two neighbouring pages make up the page that spans both: the first
/// `first` items from `offset` on, followed by the next `second` items, are
/// the first `first + second` items from `offset` on.
pub proof fn pages_compose<T>(ranked: Seq<T>, offset: nat, first: nat, second: nat)
    ensures
        window(ranked, offset, first) + window(ranked, offset + first, second) == window(
            ranked,
            offset,
            first + second,
        ),
{
    assert(window(ranked, offset, first) + window(ranked, offset + first, second) =~= window(
        ranked,
        offset,
        first + second,
    ));
}

/// Each item of a page is the item of the ranking at the page's offset plus
/// its position in the page.
pub proof fn page_positions<T>(ranked: Seq<T>, offset: nat, limit: nat)
    ensures
        window(ranked, offset, limit).len() <= limit,
        offset + window(ranked, offset, limit).len() <= ranked.len() || window(
            ranked,
            offset,
            limit,
        ).len() == 0,
        forall|i: int|
            0 <= i < window(ranked, offset, limit).len() ==> #[trigger] window(
                ranked,
                offset,
                limit,
            )[i] == ranked[offset + i],
{
}

/// Neighbouring pages of a ranking that lists nothing twice share no item.
pub proof fn pages_disjoint<T>(ranked: Seq<T>, offset: nat, first: nat, second: nat)
    requires
        ranked.no_duplicates(),
    ensures
        forall|i: int, j: int|
            0 <= i < window(ranked, offset, first).len() && 0 <= j < window(
                ranked,
                offset + first,
                second,
            ).len() ==> #[trigger] window(ranked, offset, first)[i] != #[trigger] window(
                ranked,
                offset + first,
                second,
            )[j],
{
    page_positions(ranked, offset, first);
    page_positions(ranked, offset + first, second);
}

/// Where a ranking lists at least `first + second` items and none of them
/// twice, the page of the first `first` and the page of the next `second` are
/// full, share no item, and together are the page of the first
/// `first + second`.
pub proof fn pagination<T>(ranked: Seq<T>, first: nat, second: nat)
    requires
        ranked.no_duplicates(),
        ranked.len() >= first + second,
    ensures
        window(ranked, 0, first).len() == first,
        window(ranked, first, second).len() == second,
        window(ranked, 0, first) + window(ranked, first, second) == window(
            ranked,
            0,
            first + second,
        ),
        forall|i: int, j: int|
            0 <= i < first && 0 <= j < second ==> #[trigger] window(ranked, 0, first)[i]
                != #[trigger] window(ranked, first, second)[j],
{
    pages_compose(ranked, 0, first, second);
    pages_disjoint(ranked, 0, first, second);
}

} // verus!

//! The fixed schema of the index, and documents as the engine holds them.

use vstd::prelude::*;
use vstd::string::StringExecFns;
use crate::engine::add_text;
use crate::engine::add_text_field;
use crate::engine::add_u64;
use crate::engine::add_u64_field;
use crate::engine::build_schema;
use crate::engine::builder_fields;
use crate::engine::document_entries;
use crate::engine::field_named;
use crate::engine::first_text_of;
use crate::engine::new_document;
use crate::engine::schema_builder;
use crate::engine::schema_fields;
use crate::model::distinct_names;
use crate::model::FieldKind;
use crate::model::FieldSpec;
use crate::model::FieldValue;
use crate::model::first_text;
use crate::model::has_field;
use crate::model::intents;
use crate::model::Value;
use crate::model::WriteIntent;
use crate::model::WriteOp;
use crate::structs::Docx;
use crate::structs::DocxView;
use tantivy::Document;
use tantivy::schema::Schema;

verus! {

/// The number of the identifier field. Deletion by identifier relies on it.
pub const ID: u32 = 0;

/// The number of the file-name field.
pub const NAME: u32 = 1;

/// The number of the path field.
pub const PATH: u32 = 2;

/// The number of the content field.
pub const CONTENT: u32 = 3;

/// The number of the timestamp field.
pub const TIMESTAMP: u32 = 4;

/// The number of the class field.
pub const CLASS: u32 = 5;

/// The fields of every index of this library, in the order of their numbers:
/// the identifier as an exact term, name and content as tokenized text, the
/// path stored only, the timestamp as a number, the class as an exact term.
pub open spec fn document_fields() -> Seq<FieldSpec> {
    seq![
        FieldSpec { name: "id"@, kind: FieldKind::Term },
        FieldSpec { name: "name"@, kind: FieldKind::Text },
        FieldSpec { name: "path"@, kind: FieldKind::Stored },
        FieldSpec { name: "content"@, kind: FieldKind::Text },
        FieldSpec { name: "timestamp"@, kind: FieldKind::Number },
        FieldSpec { name: "class"@, kind: FieldKind::Term },
    ]
}

/// The entries that the engine is given for a document: identifier, name,
/// path, content and timestamp, and then the class where it is set.
pub open spec fn entries_of(doc: DocxView) -> Seq<FieldValue> {
    let fixed = seq![
        FieldValue { field: ID, value: Value::Text(doc.id) },
        FieldValue { field: NAME, value: Value::Text(doc.name) },
        FieldValue { field: PATH, value: Value::Text(doc.path) },
        FieldValue { field: CONTENT, value: Value::Text(doc.content) },
        FieldValue { field: TIMESTAMP, value: Value::Number(doc.timestamp) },
    ];
    match doc.class {
        Some(class) => fixed.push(FieldValue { field: CLASS, value: Value::Text(class) }),
        None => fixed,
    }
}

/// The write that puts `doc` in place of whatever the index holds under its
/// identifier: first the deletion by identifier, then the addition.
pub open spec fn replacement(doc: DocxView) -> Seq<WriteIntent> {
    seq![
        WriteIntent::Delete { field: ID, text: doc.id },
        WriteIntent::Add { entries: entries_of(doc) },
    ]
}

/// The number of the field called `name`, where `fields` has one.
pub open spec fn field_number(fields: Seq<FieldSpec>, name: Seq<char>) -> Option<int> {
    if has_field(fields, name) {
        Some(choose|i: int| 0 <= i < fields.len() && #[trigger] fields[i].name == name)
    } else {
        None
    }
}

/// The text that a document shows under the field called `name`: empty where
/// the schema has no such field, or the document no text under it.
pub open spec fn field_text(fields: Seq<FieldSpec>, entries: Seq<FieldValue>, name: Seq<char>) -> Seq<
    char,
> {
    match field_number(fields, name) {
        Some(number) => match first_text(entries, number as u32) {
            Some(text) => text,
            None => Seq::empty(),
        },
        None => Seq::empty(),
    }
}

/// What a search shows of a stored document: name, content and path; the
/// identifier empty, the timestamp zero and the class unset.
pub open spec fn projection(fields: Seq<FieldSpec>, entries: Seq<FieldValue>) -> DocxView {
    DocxView {
        id: Seq::empty(),
        name: field_text(fields, entries, "name"@),
        path: field_text(fields, entries, "path"@),
        content: field_text(fields, entries, "content"@),
        timestamp: 0,
        class: None,
    }
}

/// Whether a document holds `text` as a value of the field `field`.
pub open spec fn holds_term(entries: Seq<FieldValue>, field: u32, text: Seq<char>) -> bool {
    exists|i: int|
        0 <= i < entries.len() && (#[trigger] entries[i]).field == field && entries[i].value
            == Value::Text(text)
}

/// What one operation asks for, told of a list of documents: a deletion
/// asks that every document that holds the term be removed, an addition that
/// its document be appended.
pub open spec fn after(docs: Seq<Seq<FieldValue>>, intent: WriteIntent) -> Seq<Seq<FieldValue>> {
    match intent {
        WriteIntent::Delete { field, text } => docs.filter(
            |d: Seq<FieldValue>| !holds_term(d, field, text),
        ),
        WriteIntent::Add { entries } => docs.push(entries),
    }
}

/// What a list of operations asks for, told of a list of documents: each
/// operation in its turn.
pub open spec fn after_all(docs: Seq<Seq<FieldValue>>, intents: Seq<WriteIntent>) -> Seq<
    Seq<FieldValue>,
>
    decreases intents.len(),
{
    if intents.len() == 0 {
        docs
    } else {
        after(after_all(docs, intents.drop_last()), intents.last())
    }
}

/// How many documents of `docs` carry the identifier `id`.
pub open spec fn copies(docs: Seq<Seq<FieldValue>>, id: Seq<char>) -> nat {
    docs.filter(|d: Seq<FieldValue>| holds_term(d, ID, id)).len()
}

/// Whether no identifier is carried by two documents of `docs`.
pub open spec fn one_copy_each(docs: Seq<Seq<FieldValue>>) -> bool {
    forall|id: Seq<char>| #[trigger] copies(docs, id) <= 1
}

/// Filtering what was filtered leaves no more than filtering alone.
proof fn filter_twice<A>(s: Seq<A>, p: spec_fn(A) -> bool, q: spec_fn(A) -> bool)
    ensures
        s.filter(p).filter(q).len() <= s.filter(q).len(),
    decreases s.len(),
{
    reveal(Seq::filter);
    if s.len() > 0 {
        filter_twice(s.drop_last(), p, q);
        if p(s.last()) {
            assert(s.drop_last().filter(p).push(s.last()).drop_last() =~= s.drop_last().filter(p));
        }
    }
}

/// What the replacement of a document asks for: the documents that do not
/// carry its identifier, in their order, and then the document itself.
pub proof fn replacement_result(docs: Seq<Seq<FieldValue>>, doc: DocxView)
    ensures
        after_all(docs, replacement(doc)) == docs.filter(
            |d: Seq<FieldValue>| !holds_term(d, ID, doc.id),
        ).push(entries_of(doc)),
{
    let intents = replacement(doc);
    assert(intents.drop_last() =~= seq![intents[0]]);
    assert(intents.drop_last().drop_last() =~= Seq::<WriteIntent>::empty());
    reveal_with_fuel(after_all, 3);
}

/// Whatever documents there were, the replacement of a document leaves
/// exactly one document of that identifier: the new one.
pub proof fn replacement_leaves_one_copy(docs: Seq<Seq<FieldValue>>, doc: DocxView)
    ensures
        copies(after_all(docs, replacement(doc)), doc.id) == 1,
        after_all(docs, replacement(doc)).last() == entries_of(doc),
{
    replacement_result(docs, doc);
    let carries = |d: Seq<FieldValue>| holds_term(d, ID, doc.id);
    let others = |d: Seq<FieldValue>| !holds_term(d, ID, doc.id);
    let kept = docs.filter(others);
    let new = entries_of(doc);
    assert(new[0].field == ID && new[0].value == Value::Text(doc.id));
    assert(holds_term(new, ID, doc.id));
    assert(kept.push(new) =~= kept + seq![new]);
    Seq::filter_distributes_over_add(kept, seq![new], carries);
    assert forall|i: int| 0 <= i < kept.len() implies !carries(#[trigger] kept[i]) by {
        docs.lemma_filter_pred(others, i);
    }
    kept.lemma_all_neg_filter_empty(carries);
    reveal_with_fuel(Seq::filter, 2);
    assert(seq![new].drop_last() =~= Seq::<Seq<FieldValue>>::empty());
    assert(seq![new].filter(carries) =~= seq![new]);
}

/// Documents among which no identifier is carried twice stay so under the
/// replacement of a document.
pub proof fn replacement_keeps_copies_single(docs: Seq<Seq<FieldValue>>, doc: DocxView)
    requires
        one_copy_each(docs),
    ensures
        one_copy_each(after_all(docs, replacement(doc))),
{
    replacement_result(docs, doc);
    replacement_leaves_one_copy(docs, doc);
    let others = |d: Seq<FieldValue>| !holds_term(d, ID, doc.id);
    let kept = docs.filter(others);
    let new = entries_of(doc);
    assert forall|id: Seq<char>| #[trigger] copies(kept.push(new), id) <= 1 by {
        if id != doc.id {
            let carries = |d: Seq<FieldValue>| holds_term(d, ID, id);
            assert(kept.push(new) =~= kept + seq![new]);
            Seq::filter_distributes_over_add(kept, seq![new], carries);
            filter_twice(docs, others, carries);
            assert(copies(docs, id) <= 1);
            assert(!holds_term(new, ID, id));
            reveal_with_fuel(Seq::filter, 2);
            assert(seq![new].drop_last() =~= Seq::<Seq<FieldValue>>::empty());
            assert(seq![new].filter(carries) =~= Seq::<Seq<FieldValue>>::empty());
        }
    }
}

/// The operations that replace the documents of `batch` one after another.
pub open spec fn replacements(batch: Seq<DocxView>) -> Seq<WriteIntent>
    decreases batch.len(),
{
    if batch.len() == 0 {
        Seq::empty()
    } else {
        replacements(batch.drop_last()) + replacement(batch.last())
    }
}

/// Carrying out two lists of operations one after the other is carrying out
/// their concatenation.
pub proof fn after_all_concat(
    docs: Seq<Seq<FieldValue>>,
    first: Seq<WriteIntent>,
    second: Seq<WriteIntent>,
)
    ensures
        after_all(docs, first + second) == after_all(after_all(docs, first), second),
    decreases second.len(),
{
    if second.len() == 0 {
        assert(first + second =~= first);
    } else {
        after_all_concat(docs, first, second.drop_last());
        assert((first + second).drop_last() =~= first + second.drop_last());
        assert((first + second).last() == second.last());
    }
}

/// Documents among which no identifier is carried twice stay so under any
/// batch of replacements, whatever the documents and their order; and the
/// document replaced last is then the last of them, in one copy.
pub proof fn batch_keeps_copies_single(docs: Seq<Seq<FieldValue>>, batch: Seq<DocxView>)
    requires
        one_copy_each(docs),
    ensures
        one_copy_each(after_all(docs, replacements(batch))),
        batch.len() > 0 ==> copies(after_all(docs, replacements(batch)), batch.last().id) == 1
            && after_all(docs, replacements(batch)).last() == entries_of(batch.last()),
    decreases batch.len(),
{
    if batch.len() > 0 {
        let earlier = replacements(batch.drop_last());
        batch_keeps_copies_single(docs, batch.drop_last());
        after_all_concat(docs, earlier, replacement(batch.last()));
        replacement_keeps_copies_single(after_all(docs, earlier), batch.last());
        replacement_leaves_one_copy(after_all(docs, earlier), batch.last());
    }
}

/// The names of [`document_fields`] differ from one another, and each stands
/// at the position that its constant gives.
pub proof fn document_fields_distinct()
    ensures
        distinct_names(document_fields()),
        document_fields().len() == 6,
        field_number(document_fields(), "id"@) == Some(ID as int),
        field_number(document_fields(), "name"@) == Some(NAME as int),
        field_number(document_fields(), "path"@) == Some(PATH as int),
        field_number(document_fields(), "content"@) == Some(CONTENT as int),
        field_number(document_fields(), "timestamp"@) == Some(TIMESTAMP as int),
        field_number(document_fields(), "class"@) == Some(CLASS as int),
{
    reveal_strlit("id");
    reveal_strlit("name");
    reveal_strlit("path");
    reveal_strlit("content");
    reveal_strlit("timestamp");
    reveal_strlit("class");
    let fields = document_fields();
    assert("name"@[0] != "path"@[0]);
    assert(fields[0].name == "id"@);
    assert(fields[1].name == "name"@);
    assert(fields[2].name == "path"@);
    assert(fields[3].name == "content"@);
    assert(fields[4].name == "timestamp"@);
    assert(fields[5].name == "class"@);
    assert(distinct_names(fields));
}

impl Docx {
    /// Builds the schema of the index: see [`document_fields`].
    pub fn schema() -> (schema: Schema)
        ensures
            schema_fields(schema) == document_fields(),
    {
        proof {
            document_fields_distinct();
            reveal_strlit("id");
            reveal_strlit("name");
            reveal_strlit("path");
            reveal_strlit("content");
            reveal_strlit("timestamp");
            reveal_strlit("class");
            assert("name"@[0] != "path"@[0]);
            assert("id"@[0] == 'i' && "name"@[0] == 'n' && "path"@[0] == 'p');
            assert("content"@[0] == 'c' && "timestamp"@[0] == 't' && "class"@[0] == 'c');
        }
        let mut builder = schema_builder();
        let ghost fields = document_fields();
        assert(builder_fields(builder) =~= fields.take(0));
        add_text_field(&mut builder, "id", FieldKind::Term);
        assert(builder_fields(builder) =~= fields.take(1));
        add_text_field(&mut builder, "name", FieldKind::Text);
        assert(builder_fields(builder) =~= fields.take(2));
        add_text_field(&mut builder, "path", FieldKind::Stored);
        assert(builder_fields(builder) =~= fields.take(3));
        add_text_field(&mut builder, "content", FieldKind::Text);
        assert(builder_fields(builder) =~= fields.take(4));
        add_u64_field(&mut builder, "timestamp");
        assert(builder_fields(builder) =~= fields.take(5));
        add_text_field(&mut builder, "class", FieldKind::Term);
        assert(builder_fields(builder) =~= fields);
        build_schema(builder)
    }

    /// The document as the engine is given it.
    pub fn to_document(&self) -> (document: Document)
        ensures
            document_entries(document) == entries_of(self@),
    {
        let mut document = new_document();
        add_text(&mut document, ID, self.get_id());
        add_text(&mut document, NAME, self.get_name());
        add_text(&mut document, PATH, self.get_path());
        add_text(&mut document, CONTENT, self.get_content());
        add_u64(&mut document, TIMESTAMP, self.get_timestamp());
        match self.get_class() {
            Some(class) => {
                add_text(&mut document, CLASS, class);
            },
            None => {},
        }
        assert(document_entries(document) =~= entries_of(self@));
        document
    }

    /// The two operations that replace the indexed copy of this document:
    /// see [`replacement`].
    pub fn replace_ops(&self) -> (ops: Vec<WriteOp>)
        ensures
            intents(ops@) == replacement(self@),
            ops@.len() == 2,
            ops@[0] matches WriteOp::Delete { field, .. } && field == ID,
            ops@[1] is Add,
    {
        let mut ops: Vec<WriteOp> = Vec::new();
        ops.push(WriteOp::Delete { field: ID, text: String::from_str(self.get_id()) });
        ops.push(WriteOp::Add(self.to_document()));
        assert(intents(ops@) =~= replacement(self@));
        ops
    }
}

/// The text that a stored document shows under the field called `name`:
/// see [`field_text`].
pub fn get_field_value(doc: &Document, schema: &Schema, name: &str) -> (text: String)
    requires
        distinct_names(schema_fields(*schema)),
    ensures
        text@ == field_text(schema_fields(*schema), document_entries(*doc), name@),
{
    match field_named(schema, name) {
        Some(number) => {
            proof {
                let fields = schema_fields(*schema);
                assert(fields[number as int].name == name@);
                assert(has_field(fields, name@));
                let chosen = choose|i: int| 0 <= i < fields.len() && #[trigger] fields[i].name == name@;
                assert(chosen == number);
            }
            match first_text_of(doc, number) {
                Some(text) => text,
                None => String::new(),
            }
        },
        None => String::new(),
    }
}

/// What a search shows of a stored document: see [`projection`].
pub fn project(doc: &Document, schema: &Schema) -> (shown: Docx)
    requires
        distinct_names(schema_fields(*schema)),
    ensures
        shown@ == projection(schema_fields(*schema), document_entries(*doc)),
{
    let name = get_field_value(doc, schema, "name");
    let content = get_field_value(doc, schema, "content");
    let path = get_field_value(doc, schema, "path");
    Docx::projected(name, content, path)
}

} // verus!

//! The embedded index engine, as far as this library relies on it.
//!
//! Nothing in this file is proved. Each item either makes a type of the
//! engine known, names something that the engine holds or computes, or calls
//! one of its functions and states what that function is documented to do.

use vstd::prelude::*;
use crate::model::Address;
use crate::model::deletions_within;
use crate::model::FieldKind;
use crate::model::FieldSpec;
use crate::model::FieldValue;
use crate::model::first_text;
use crate::model::has_field;
use crate::model::intents;
use crate::model::MAX_WINDOW;
use crate::model::SortOrder;
use crate::model::Value;
use crate::model::window;
use crate::model::WriteIntent;
use crate::model::WriteOp;
use tantivy::collector::Count;
use tantivy::collector::MultiCollector;
use tantivy::collector::TopDocs;
use tantivy::directory::MmapDirectory;
use tantivy::DocAddress;
use tantivy::Document;
use tantivy::Index;
use tantivy::IndexReader;
use tantivy::IndexSettings;
use tantivy::IndexSortByField;
use tantivy::IndexWriter;
use tantivy::Order;
use tantivy::query::QueryParser;
use tantivy::query::QueryParserError;
use tantivy::schema::Field;
use tantivy::schema::Schema;
use tantivy::schema::SchemaBuilder;
use tantivy::Searcher;
use tantivy::TantivyError;
use tantivy::Term;
use tantivy::tokenizer::LowerCaser;
use tantivy::tokenizer::RemoveLongFilter;
use tantivy::tokenizer::TextAnalyzer;
use tantivy::tokenizer::TokenizerManager;
use tantivy::UserOperation;

verus! {

/// `tantivy::schema::Schema`: the fields of an index. Opaque.
#[verifier::external_type_specification]
#[verifier::external_body]
pub struct ExSchema(Schema);

/// `tantivy::schema::SchemaBuilder`: a schema in the making. Opaque.
#[verifier::external_type_specification]
#[verifier::external_body]
pub struct ExSchemaBuilder(SchemaBuilder);

/// `tantivy::Document`: a list of values under fields. Opaque.
#[verifier::external_type_specification]
#[verifier::external_body]
pub struct ExDocument(Document);

/// `tantivy::tokenizer::TokenizerManager`: tokenizers by name. Opaque.
#[verifier::external_type_specification]
#[verifier::external_body]
pub struct ExTokenizerManager(TokenizerManager);

/// `tantivy::IndexSettings`: the settings of a whole index. Opaque.
#[verifier::external_type_specification]
#[verifier::external_body]
pub struct ExIndexSettings(IndexSettings);

/// `tantivy::Index`: the handle of an index. Opaque.
#[verifier::external_type_specification]
#[verifier::external_body]
pub struct ExIndex(Index);

/// `tantivy::IndexReader`: the source of snapshots of an index. Opaque.
#[verifier::external_type_specification]
#[verifier::external_body]
pub struct ExIndexReader(IndexReader);

/// `tantivy::IndexWriter`: the one writer of an index. Opaque.
#[verifier::external_type_specification]
#[verifier::external_body]
pub struct ExIndexWriter(IndexWriter);

/// `tantivy::Searcher`: one snapshot of an index. Opaque.
#[verifier::external_type_specification]
#[verifier::external_body]
pub struct ExSearcher(Searcher);

/// `tantivy::query::QueryParser`: the parser of query texts. Opaque.
#[verifier::external_type_specification]
#[verifier::external_body]
pub struct ExQueryParser(QueryParser);

/// `tantivy::query::QueryParserError`: why a query text was refused. Opaque.
#[verifier::external_type_specification]
#[verifier::external_body]
pub struct ExQueryParserError(QueryParserError);

/// `tantivy::TantivyError`: why an operation of the engine failed. Opaque.
#[verifier::external_type_specification]
#[verifier::external_body]
pub struct ExTantivyError(TantivyError);

/// A query that the engine's parser accepted. The engine hands it out as a
/// boxed trait object, which is kept here unopened.
#[verifier::external_body]
pub struct ParsedQuery {
    inner: Box<dyn tantivy::query::Query>,
}

/// The fields that a schema builder has been given, in the order of their
/// numbers.
pub uninterp spec fn builder_fields(builder: SchemaBuilder) -> Seq<FieldSpec>;

/// The fields of a schema, in the order of their numbers.
pub uninterp spec fn schema_fields(schema: Schema) -> Seq<FieldSpec>;

/// The fields of the schema that an index was made or opened with.
pub uninterp spec fn index_fields(index: Index) -> Seq<FieldSpec>;

/// The fields of the schema of the index that a writer writes to.
pub uninterp spec fn writer_fields(writer: IndexWriter) -> Seq<FieldSpec>;

/// The fields of the schema of the index that a reader reads.
pub uninterp spec fn reader_fields(reader: IndexReader) -> Seq<FieldSpec>;

/// The fields of the schema of the index that a snapshot was taken of.
pub uninterp spec fn snapshot_fields(searcher: Searcher) -> Seq<FieldSpec>;

/// The fields of the schema that a parser was made for.
pub uninterp spec fn parser_fields(parser: QueryParser) -> Seq<FieldSpec>;

/// The fields of the schema that a parsed query was made for: its terms
/// name fields by their numbers in that schema.
pub uninterp spec fn query_fields(query: ParsedQuery) -> Seq<FieldSpec>;

/// The name under which a tokenizer manager holds word segmentation, and the
/// length in bytes from which that tokenizer drops a token.
pub uninterp spec fn segmenting(tokenizers: TokenizerManager) -> (Seq<char>, usize);

/// The field and the order by which settings keep each segment sorted, where
/// they ask for sorting.
pub uninterp spec fn sort_key(settings: IndexSettings) -> Option<(Seq<char>, SortOrder)>;

/// What [`segmenting`] says of the tokenizers that an index tokenizes with.
pub uninterp spec fn index_segmenting(index: Index) -> (Seq<char>, usize);

/// What [`sort_key`] says of the settings of an index.
pub uninterp spec fn index_sort_key(index: Index) -> Option<(Seq<char>, SortOrder)>;

/// The entries of a document, in their order.
pub uninterp spec fn document_entries(document: Document) -> Seq<FieldValue>;

/// The operations that a writer has accepted since it last committed.
pub uninterp spec fn staged(writer: IndexWriter) -> Seq<WriteIntent>;

/// The query that a parser makes of a text, where it accepts the text.
pub uninterp spec fn parsed_query(parser: QueryParser, text: Seq<char>) -> Option<ParsedQuery>;

/// The documents of a snapshot that match a query, each once, best score
/// first; among equal scores the lower address first.
pub uninterp spec fn ranking(searcher: Searcher, query: ParsedQuery) -> Seq<Address>;

/// The stored entries of the document at an address of a snapshot, where the
/// snapshot holds a document there.
pub uninterp spec fn stored(searcher: Searcher, address: Address) -> Option<Seq<FieldValue>>;

/// `Schema::builder`: a builder without fields.
#[verifier::external_body]
pub(crate) fn schema_builder() -> (builder: SchemaBuilder)
    ensures
        builder_fields(builder) == Seq::<FieldSpec>::empty(),
{
    Schema::builder()
}

/// `SchemaBuilder::add_text_field`: appends a text field of the given kind
/// and returns its number, the count of the fields before it. The engine
/// panics on a name that the builder already holds, on the empty name and
/// on a name that begins with `-`.
#[verifier::external_body]
pub(crate) fn add_text_field(builder: &mut SchemaBuilder, name: &str, kind: FieldKind) -> (number:
    u32)
    requires
        kind != FieldKind::Number,
        name@.len() > 0,
        name@[0] != '-',
        builder_fields(*old(builder)).len() < u32::MAX,
        !has_field(builder_fields(*old(builder)), name@),
    ensures
        number == builder_fields(*old(builder)).len(),
        builder_fields(*final(builder)) == builder_fields(*old(builder)).push(
            FieldSpec { name: name@, kind },
        ),
{
    let options = match kind {
        FieldKind::Term => tantivy::schema::STRING | tantivy::schema::STORED,
        FieldKind::Text => tantivy::schema::TEXT | tantivy::schema::STORED,
        _ => tantivy::schema::STORED.into(),
    };
    builder.add_text_field(name, options).field_id()
}

/// `SchemaBuilder::add_u64_field` with the options indexed, stored and fast:
/// appends a number field and returns its number. The engine panics on a
/// name that the builder already holds, on the empty name and on a name that
/// begins with `-`.
#[verifier::external_body]
pub(crate) fn add_u64_field(builder: &mut SchemaBuilder, name: &str) -> (number: u32)
    requires
        name@.len() > 0,
        name@[0] != '-',
        builder_fields(*old(builder)).len() < u32::MAX,
        !has_field(builder_fields(*old(builder)), name@),
    ensures
        number == builder_fields(*old(builder)).len(),
        builder_fields(*final(builder)) == builder_fields(*old(builder)).push(
            FieldSpec { name: name@, kind: FieldKind::Number },
        ),
{
    let options = tantivy::schema::INDEXED | tantivy::schema::STORED | tantivy::schema::FAST;
    builder.add_u64_field(name, options).field_id()
}

/// `SchemaBuilder::build`: the schema of the fields that the builder holds.
#[verifier::external_body]
pub(crate) fn build_schema(builder: SchemaBuilder) -> (schema: Schema)
    ensures
        schema_fields(schema) == builder_fields(builder),
{
    builder.build()
}

/// `Schema::get_field`: the number of the field of that name, where the
/// schema has one.
#[verifier::external_body]
pub(crate) fn field_named(schema: &Schema, name: &str) -> (number: Option<u32>)
    ensures
        match number {
            Some(n) => n < schema_fields(*schema).len() && schema_fields(*schema)[n as int].name
                == name@,
            None => !has_field(schema_fields(*schema), name@),
        },
{
    match schema.get_field(name) {
        Ok(field) => Some(field.field_id()),
        Err(_) => None,
    }
}

/// `Document::new`: a document without entries.
#[verifier::external_body]
pub(crate) fn new_document() -> (document: Document)
    ensures
        document_entries(document) == Seq::<FieldValue>::empty(),
{
    Document::new()
}

/// `Document::add_text`: appends a text entry.
#[verifier::external_body]
pub(crate) fn add_text(document: &mut Document, field: u32, text: &str)
    ensures
        document_entries(*final(document)) == document_entries(*old(document)).push(
            FieldValue { field, value: Value::Text(text@) },
        ),
{
    document.add_text(Field::from_field_id(field), text)
}

/// `Document::add_u64`: appends a number entry.
#[verifier::external_body]
pub(crate) fn add_u64(document: &mut Document, field: u32, value: u64)
    ensures
        document_entries(*final(document)) == document_entries(*old(document)).push(
            FieldValue { field, value: Value::Number(value) },
        ),
{
    document.add_u64(Field::from_field_id(field), value)
}

/// `Document::get_first` followed by `Value::as_text`: the text of the first
/// entry under the field, where that entry holds text.
#[verifier::external_body]
pub(crate) fn first_text_of(document: &Document, field: u32) -> (text: Option<String>)
    ensures
        text is Some <==> first_text(document_entries(*document), field) is Some,
        text matches Some(t) ==> first_text(document_entries(*document), field) == Some(t@),
{
    match document.get_first(Field::from_field_id(field)) {
        Some(value) => value.as_text().map(|text| text.to_owned()),
        None => None,
    }
}

/// `TokenizerManager::default` and `TokenizerManager::register`: the engine's
/// usual tokenizers, with the one of the given name replaced by word
/// segmentation for Chinese text, followed by the removal of tokens of
/// `longest` bytes or more and by lower-casing.
#[verifier::external_body]
pub(crate) fn segmenting_tokenizers(name: &str, longest: usize) -> (tokenizers: TokenizerManager)
    ensures
        segmenting(tokenizers) == (name@, longest),
{
    let analyzer = TextAnalyzer::builder(tantivy_jieba::JiebaTokenizer {})
        .filter(RemoveLongFilter::limit(longest))
        .filter(LowerCaser)
        .build();
    let tokenizers = TokenizerManager::default();
    tokenizers.register(name, analyzer);
    tokenizers
}

/// `IndexSettings` with `sort_by_field` set: the settings that keep each
/// segment sorted by one field.
#[verifier::external_body]
pub(crate) fn sorted_by(field: &str, order: SortOrder) -> (settings: IndexSettings)
    ensures
        sort_key(settings) == Some((field@, order)),
{
    let order = match order {
        SortOrder::Ascending => Order::Asc,
        SortOrder::Descending => Order::Desc,
    };
    IndexSettings {
        sort_by_field: Some(IndexSortByField { field: field.to_string(), order }),
        ..Default::default()
    }
}

/// `MmapDirectory::open` and `IndexBuilder::open_or_create`: the index in the
/// directory `path`, made there if the directory holds none. An index that
/// is opened has the schema that was asked for, or the call fails; it keeps
/// the settings that it was made with, and tokenizes with the tokenizers
/// that are given here.
#[verifier::external_body]
pub(crate) fn open_index(
    path: &str,
    schema: Schema,
    tokenizers: TokenizerManager,
    settings: IndexSettings,
) -> (opened: Result<Index, TantivyError>)
    ensures
        opened matches Ok(index) ==> index_fields(index) == schema_fields(schema)
            && index_segmenting(index) == segmenting(tokenizers),
{
    let directory = MmapDirectory::open(path)?;
    Index::builder().schema(schema).tokenizers(tokenizers).settings(settings).open_or_create(
        directory,
    )
}

/// `IndexBuilder::create_in_ram`: a new index held in memory, of the schema,
/// the tokenizers and the settings that are given.
#[verifier::external_body]
pub(crate) fn create_index_in_ram(
    schema: Schema,
    tokenizers: TokenizerManager,
    settings: IndexSettings,
) -> (created: Result<Index, TantivyError>)
    ensures
        created matches Ok(index) ==> index_fields(index) == schema_fields(schema)
            && index_segmenting(index) == segmenting(tokenizers) && index_sort_key(index)
            == sort_key(settings),
{
    Index::builder().schema(schema).tokenizers(tokenizers).settings(settings).create_in_ram()
}

/// `Index::reader`: a reader of the index; it reads the index that it was
/// asked of.
#[verifier::external_body]
pub(crate) fn index_reader(index: &Index) -> (reader: Result<IndexReader, TantivyError>)
    ensures
        reader matches Ok(r) ==> reader_fields(r) == index_fields(*index),
{
    index.reader()
}

/// `QueryParser::for_index` without default fields: a parser for the schema
/// of the index.
#[verifier::external_body]
pub(crate) fn query_parser(index: &Index) -> (parser: QueryParser)
    ensures
        parser_fields(parser) == index_fields(*index),
{
    QueryParser::for_index(index, Vec::new())
}

/// `Index::writer`: the one writer of the index, with nothing staged.
#[verifier::external_body]
pub(crate) fn index_writer(index: &Index, memory: usize) -> (writer: Result<
    IndexWriter,
    TantivyError,
>)
    ensures
        writer matches Ok(w) ==> staged(w) == Seq::<WriteIntent>::empty() && writer_fields(w)
            == index_fields(*index),
{
    index.writer(memory)
}

/// `IndexReader::searcher`: the snapshot that the reader currently offers.
/// Which documents it holds depends on the commits that the reader has taken
/// up; it is always a snapshot of the reader's index, with that index's
/// schema.
#[verifier::external_body]
pub(crate) fn snapshot(reader: &IndexReader) -> (searcher: Searcher)
    ensures
        snapshot_fields(searcher) == reader_fields(*reader),
{
    reader.searcher()
}

/// `IndexReader::reload`: makes the reader offer the state of the last
/// commit.
#[verifier::external_body]
pub(crate) fn reload(reader: &IndexReader) -> Result<(), TantivyError> {
    reader.reload()
}

/// `QueryParser::parse_query`: the query for a text, made for the schema of
/// the parser, or the parser's objection to the text.
#[verifier::external_body]
pub(crate) fn parse_query(parser: &QueryParser, text: &str) -> (parsed: Result<
    ParsedQuery,
    QueryParserError,
>)
    ensures
        match parsed {
            Ok(query) => parsed_query(*parser, text@) == Some(query) && query_fields(query)
                == parser_fields(*parser),
            Err(_) => parsed_query(*parser, text@) is None,
        },
{
    match parser.parse_query(text) {
        Ok(inner) => Ok(ParsedQuery { inner }),
        Err(error) => Err(error),
    }
}

/// `Searcher::search` with the `Count` collector: how many documents of the
/// snapshot match the query. The engine looks the fields of the query up in
/// the schema of the snapshot, and panics on a field that is not there.
#[verifier::external_body]
pub(crate) fn count_matches(searcher: &Searcher, query: &ParsedQuery) -> (count: Result<
    usize,
    TantivyError,
>)
    requires
        query_fields(*query) == snapshot_fields(*searcher),
    ensures
        count matches Ok(n) ==> n == ranking(*searcher, *query).len() && ranking(
            *searcher,
            *query,
        ).no_duplicates(),
{
    searcher.search(&query.inner, &Count)
}

/// `Searcher::search` with the collectors `TopDocs` (limit and offset) and
/// `Count` together: the count of all matches and the page of the ranking
/// that starts at `offset` and holds at most `limit` addresses. The engine
/// panics on a limit of zero and on a field of the query that the schema of
/// the snapshot does not have, and reserves room for `offset + limit` hits.
#[verifier::external_body]
pub(crate) fn search_page(searcher: &Searcher, query: &ParsedQuery, offset: usize, limit: usize) -> (page:
    Result<(usize, Vec<Address>), TantivyError>)
    requires
        limit >= 1,
        offset + limit <= MAX_WINDOW,
        query_fields(*query) == snapshot_fields(*searcher),
    ensures
        page matches Ok((total, hits)) ==> {
            &&& total == ranking(*searcher, *query).len()
            &&& ranking(*searcher, *query).no_duplicates()
            &&& hits@ == window(ranking(*searcher, *query), offset as nat, limit as nat)
            &&& forall|i: int| 0 <= i < hits.len() ==> stored(*searcher, #[trigger] hits[i]) is Some
        },
{
    let mut collectors = MultiCollector::new();
    let top = collectors.add_collector(TopDocs::with_limit(limit).and_offset(offset));
    let count = collectors.add_collector(Count);
    let mut fruit = searcher.search(&query.inner, &collectors)?;
    let total = count.extract(&mut fruit);
    let hits = top.extract(&mut fruit).into_iter().map(
        |(_, at)| Address { segment: at.segment_ord, doc: at.doc_id },
    ).collect();
    Ok((total, hits))
}

/// `Searcher::doc`: the stored document at an address of the snapshot. The
/// engine panics on a segment that the snapshot does not have.
#[verifier::external_body]
pub(crate) fn fetch(searcher: &Searcher, address: Address) -> (document: Result<
    Document,
    TantivyError,
>)
    requires
        stored(*searcher, address) is Some,
    ensures
        document matches Ok(d) ==> stored(*searcher, address) == Some(document_entries(d)),
{
    searcher.doc(DocAddress::new(address.segment, address.doc))
}

/// `IndexWriter::run`: hands a group of operations to the writer, which
/// applies them in order and in one piece at its next commit. The engine
/// panics on a deletion by a field that the index does not have.
#[verifier::external_body]
pub(crate) fn run(writer: &mut IndexWriter, ops: Vec<WriteOp>) -> (accepted: Result<
    (),
    TantivyError,
>)
    requires
        deletions_within(ops@, writer_fields(*old(writer)).len()),
    ensures
        writer_fields(*final(writer)) == writer_fields(*old(writer)),
        accepted is Ok ==> staged(*final(writer)) == staged(*old(writer)) + intents(ops@),
{
    let batch: Vec<UserOperation> = ops.into_iter().map(
        |op| match op {
            WriteOp::Delete { field, text } => UserOperation::Delete(
                Term::from_field_text(Field::from_field_id(field), &text),
            ),
            WriteOp::Add(document) => UserOperation::Add(document),
        },
    ).collect();
    writer.run(batch).map(|_| ())
}

/// `IndexWriter::commit`: publishes and persists what was staged.
#[verifier::external_body]
pub(crate) fn commit(writer: &mut IndexWriter) -> (committed: Result<(), TantivyError>)
    ensures
        writer_fields(*final(writer)) == writer_fields(*old(writer)),
        committed is Ok ==> staged(*final(writer)) == Seq::<WriteIntent>::empty(),
{
    writer.commit().map(|_| ())
}

} // verus!

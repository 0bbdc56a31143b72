//! The index engine as this library drives it: opening, querying, and the
//! decisions of an indexing run.
//!
//! A run alternates work that only the caller can do (walking directories,
//! reading files, running the converter) with decisions that are made here.
//! The caller performs the [`Action`] that [`SearchState::step`] returns and
//! reports what came of it as the next [`Event`].

use vstd::prelude::*;
use vstd::string::StringExecFns;
use crate::engine::commit;
use crate::engine::count_matches;
use crate::engine::create_index_in_ram;
use crate::engine::fetch;
use crate::engine::index_fields;
use crate::engine::index_reader;
use crate::engine::index_segmenting;
use crate::engine::index_sort_key;
use crate::engine::index_writer;
use crate::engine::open_index;
use crate::engine::parse_query;
use crate::engine::parsed_query;
use crate::engine::parser_fields;
use crate::engine::query_parser;
use crate::engine::ranking;
use crate::engine::reader_fields;
use crate::engine::reload;
use crate::engine::schema_fields;
use crate::engine::search_page;
use crate::engine::segmenting;
use crate::engine::segmenting_tokenizers;
use crate::engine::snapshot;
use crate::engine::snapshot_fields;
use crate::engine::sort_key;
use crate::engine::sorted_by;
use crate::engine::staged;
use crate::engine::stored;
use crate::engine::writer_fields;
use crate::model::Address;
use crate::model::FieldSpec;
use crate::model::MAX_WINDOW;
use crate::model::SortOrder;
use crate::model::window;
use crate::model::WriteIntent;
use crate::schema::document_fields;
use crate::schema::document_fields_distinct;
use crate::schema::project;
use crate::schema::projection;
use crate::schema::replacement;
use crate::structs::Docx;
use crate::structs::DocxView;
use crate::structs::Entry;
use crate::structs::Extracted;
use crate::structs::extracted_text;
use crate::structs::SearchFruit;
use crate::text::decimal;
use crate::text::joined;
use crate::text::push_decimal;
use crate::text::push_joined;
use tantivy::Index;
use tantivy::IndexReader;
use tantivy::IndexSettings;
use tantivy::IndexWriter;
use tantivy::query::QueryParser;
use tantivy::query::QueryParserError;
use tantivy::schema::Schema;
use tantivy::Searcher;
use tantivy::TantivyError;
use tantivy::tokenizer::TokenizerManager;

verus! {

/// The number of upserts after which a run commits.
pub const BATCH_NUM: usize = 100;

/// The memory, in bytes, that the writer of a run may use.
pub const WRITER_MEMORY: usize = 100_000_000;

/// The length, in bytes, from which a token is dropped.
pub const LONGEST_TOKEN: usize = 40;

/// Why an operation of the engine failed.
#[derive(Debug)]
#[allow(inconsistent_fields)]
pub enum Error {
    /// The crawl failed; `source` says why.
    ReadDir { source: String },
    /// The content of a document could not be obtained.
    OpenOrReadDocument { source: crate::structs::Error },
    /// The index could not be opened or made.
    OpenIndex { source: TantivyError },
    /// No reader of the index could be made.
    CreateReader { source: TantivyError },
    /// The writer of the index could not be had.
    CreateWriter { source: TantivyError },
    /// The writer refused a document.
    AddDocument { source: TantivyError },
    /// What was written could not be committed.
    Commit { source: TantivyError },
    /// The parser refused the query text.
    SearchParser { source: QueryParserError },
    /// The engine could not carry out a search.
    SearchDocument { source: TantivyError },
}

impl Error {
    /// The text that describes an error of each kind to the user.
    pub open spec fn text(&self) -> Seq<char> {
        match self {
            Error::ReadDir { .. } => "遍历文档失败"@,
            Error::OpenOrReadDocument { .. } => "无法打开或读取文件"@,
            Error::OpenIndex { .. } => "创建索引失败"@,
            Error::CreateReader { .. } => "创建Reader失败"@,
            Error::CreateWriter { .. } => "创建 WRITER 失败"@,
            Error::AddDocument { .. } => "添加索引文档失败"@,
            Error::Commit { .. } => "提交索引文档失败"@,
            Error::SearchParser { .. } => "解析检索语句失败"@,
            Error::SearchDocument { .. } => "检索文档失败"@,
        }
    }

    /// The text that describes this error to the user.
    pub fn message(&self) -> (text: String)
        ensures
            text@ == self.text(),
    {
        match self {
            Error::ReadDir { .. } => String::from_str("遍历文档失败"),
            Error::OpenOrReadDocument { .. } => String::from_str("无法打开或读取文件"),
            Error::OpenIndex { .. } => String::from_str("创建索引失败"),
            Error::CreateReader { .. } => String::from_str("创建Reader失败"),
            Error::CreateWriter { .. } => String::from_str("创建 WRITER 失败"),
            Error::AddDocument { .. } => String::from_str("添加索引文档失败"),
            Error::Commit { .. } => String::from_str("提交索引文档失败"),
            Error::SearchParser { .. } => String::from_str("解析检索语句失败"),
            Error::SearchDocument { .. } => String::from_str("检索文档失败"),
        }
    }
}

/// The class names of a filter as character sequences.
pub open spec fn class_names(classes: Option<Vec<String>>) -> Option<Seq<Seq<char>>> {
    match classes {
        Some(names) => Some(names.deep_view()),
        None => None,
    }
}

/// The query text of a search: every document for an empty keyword, else the
/// documents whose name or content holds the keyword; with a class filter
/// that is not empty, only those of them whose class is among the filter's.
pub open spec fn search_filter(keyword: Seq<char>, classes: Option<Seq<Seq<char>>>) -> Seq<char> {
    let base = if keyword.len() > 0 {
        "name:"@ + keyword + " OR content:"@ + keyword
    } else {
        "*"@
    };
    match classes {
        Some(names) => if names.len() > 0 {
            "("@ + base + ") AND class:IN ["@ + joined(names, " "@) + "]"@
        } else {
            base
        },
        None => base,
    }
}

/// The query text that finds the indexed copy of a document, if it is as new
/// as the file.
pub open spec fn staleness_filter(id: Seq<char>, timestamp: u64) -> Seq<char> {
    "id:"@ + id + " AND timestamp:"@ + decimal(timestamp as nat)
}

/// The staleness query tells timestamps apart: for one identifier, files
/// modified at different times have different query texts.
pub proof fn staleness_filter_distinct(id: Seq<char>, first: u64, second: u64)
    requires
        staleness_filter(id, first) == staleness_filter(id, second),
    ensures
        first == second,
{
    let head = "id:"@ + id + " AND timestamp:"@;
    let a = decimal(first as nat);
    let b = decimal(second as nat);
    assert((head + a).subrange(head.len() as int, (head + a).len() as int) =~= a);
    assert((head + b).subrange(head.len() as int, (head + b).len() as int) =~= b);
    crate::text::decimal_distinct(first as nat, second as nat);
}

/// How many results a page shows of `total` matches.
pub open spec fn page_length(total: nat, offset: nat, limit: nat) -> nat {
    if offset >= total {
        0
    } else if offset + limit >= total {
        (total - offset) as nat
    } else {
        limit
    }
}

/// Whether `results` shows, in order, the stored documents at `hits`.
pub open spec fn shows(
    fields: Seq<FieldSpec>,
    searcher: Searcher,
    hits: Seq<Address>,
    results: Seq<Docx>,
) -> bool {
    &&& results.len() == hits.len()
    &&& forall|i: int|
        0 <= i < hits.len() ==> (stored(searcher, #[trigger] hits[i]) matches Some(entries)
            && results[i]@ == projection(fields, entries))
}

/// Whether every result shows only what a search projects: no identifier
/// and no timestamp.
pub open spec fn projected_only(results: Seq<Docx>) -> bool {
    forall|i: int|
        0 <= i < results.len() ==> (#[trigger] results[i])@.id.len() == 0 && results[i]@.timestamp
            == 0
}

/// Builds the query text of a search: see [`search_filter`].
pub fn build_search_filter(keyword: &str, classes: &Option<Vec<String>>) -> (filter: String)
    ensures
        filter@ == search_filter(keyword@, class_names(*classes)),
{
    let mut base = String::new();
    if !keyword.is_empty() {
        base.append("name:");
        base.append(keyword);
        base.append(" OR content:");
        base.append(keyword);
        assert(base@ =~= "name:"@ + keyword@ + " OR content:"@ + keyword@);
    } else {
        base.append("*");
        assert(base@ =~= "*"@);
    }
    match classes {
        Some(names) => {
            if names.len() > 0 {
                let mut filter = String::from_str("(");
                filter.append(base.as_str());
                filter.append(") AND class:IN [");
                push_joined(&mut filter, names, " ");
                filter.append("]");
                assert(filter@ =~= "("@ + base@ + ") AND class:IN ["@ + joined(
                    names.deep_view(),
                    " "@,
                ) + "]"@);
                filter
            } else {
                base
            }
        },
        None => base,
    }
}

/// Builds the query text of the staleness check: see [`staleness_filter`].
pub fn build_staleness_filter(id: &str, timestamp: u64) -> (filter: String)
    ensures
        filter@ == staleness_filter(id@, timestamp),
{
    let mut filter = String::from_str("id:");
    filter.append(id);
    filter.append(" AND timestamp:");
    push_decimal(&mut filter, timestamp);
    assert(filter@ =~= staleness_filter(id@, timestamp));
    filter
}

/// Decides from the outcome of the staleness query whether the indexed copy
/// is current: it is when the query ran and matched.
pub fn fresh(count: &Result<usize, TantivyError>) -> (current: bool)
    ensures
        current == (count matches Ok(n) && n > 0),
{
    match count {
        Ok(n) => *n > 0,
        Err(_) => false,
    }
}

/// Where a document stands once the writer has answered.
#[derive(Debug)]
pub enum Batch {
    /// The writer refused the document.
    Refused(Error),
    /// The document joined the batch, which now holds this many.
    Joined(usize),
    /// The document filled the batch, which is to be committed.
    Full,
}

/// Decides from the writer's answer what becomes of a document and of the
/// batch of `pending` documents before it: a refusal is the error
/// `AddDocument` and leaves the batch alone; an accepted document joins the
/// batch, and fills it if it is the [`BATCH_NUM`]th.
pub fn tally(pending: usize, accepted: Result<(), TantivyError>) -> (batch: Batch)
    requires
        pending < BATCH_NUM,
    ensures
        match accepted {
            Err(_) => batch matches Batch::Refused(e) && e is AddDocument,
            Ok(_) => if pending + 1 < BATCH_NUM {
                batch matches Batch::Joined(n) && n == pending + 1
            } else {
                batch is Full
            },
        },
{
    match accepted {
        Err(e) => Batch::Refused(Error::AddDocument { source: e }),
        Ok(_) => if pending + 1 < BATCH_NUM {
            Batch::Joined(pending + 1)
        } else {
            Batch::Full
        },
    }
}

/// Decides what becomes of a found document from the outcome of its
/// staleness query: where the query ran and matched, the indexed copy is
/// current and the crawl goes on; where it matched nothing, failed or was
/// refused (no count at all), the content of the document is asked for.
pub fn pass_or_extract(doc: Docx, count: &Option<Result<usize, TantivyError>>) -> (turn: Turn)
    ensures
        turn.warning is None,
        match count {
            Some(Ok(n)) => if *n > 0 {
                turn.action is Crawl
            } else {
                turn.action matches Action::Extract(d) && d == doc
            },
            _ => turn.action matches Action::Extract(d) && d == doc,
        },
{
    let current = match count {
        Some(outcome) => fresh(outcome),
        None => false,
    };
    if current {
        Turn { action: Action::Crawl, warning: None }
    } else {
        Turn { action: Action::Extract(doc), warning: None }
    }
}

/// The tokenizers of every index of this library: word segmentation under
/// the name `default`, which the text fields use, dropping tokens of
/// [`LONGEST_TOKEN`] bytes or more.
pub fn index_tokenizers() -> (tokenizers: TokenizerManager)
    ensures
        segmenting(tokenizers) == ("default"@, LONGEST_TOKEN),
{
    segmenting_tokenizers("default", LONGEST_TOKEN)
}

/// The settings of every index that this library makes: each segment sorted
/// by the timestamp, newest first.
pub fn index_settings() -> (settings: IndexSettings)
    ensures
        sort_key(settings) == Some(("timestamp"@, SortOrder::Descending)),
{
    sorted_by("timestamp", SortOrder::Descending)
}

/// An open index with its reader and its query parser.
pub struct SearchState {
    schema: Schema,
    index: Index,
    reader: IndexReader,
    parser: QueryParser,
}

/// The state of one indexing run: the writer, the snapshot that staleness is
/// judged against, and the number of upserts since the last commit.
pub struct IndexRun {
    writer: IndexWriter,
    searcher: Searcher,
    pending: usize,
}

/// What the caller reports to a run.
#[derive(Debug)]
pub enum Event {
    /// The crawl yielded an entry.
    Found(Entry),
    /// The crawl failed.
    CrawlFailed { reason: String },
    /// The crawl has no more entries.
    Exhausted,
    /// The content of `doc` was read or converted, or could not be.
    Extracted { doc: Docx, source: Extracted },
}

/// What the caller is to do next.
#[derive(Debug)]
pub enum Action {
    /// Take the next entry from the crawl.
    Crawl,
    /// Obtain the content of this document, as its kind asks.
    Extract(Docx),
    /// Stop: the run has ended, well or not.
    Done(Result<(), Error>),
}

/// A failure that concerns one file only; the run goes on.
#[derive(Debug)]
pub enum Warning {
    /// The entry is not indexable.
    Rejected(crate::structs::Error),
    /// The document was not written.
    NotWritten(Error),
}

/// The answer of a run to one event.
#[derive(Debug)]
pub struct Turn {
    pub action: Action,
    pub warning: Option<Warning>,
}

impl IndexRun {
    /// Whether the run is in order: its batch is not full, and its writer
    /// and its snapshot are of an index of the fields of
    /// [`document_fields`].
    pub closed spec fn wf(&self) -> bool {
        &&& self.pending < BATCH_NUM
        &&& writer_fields(self.writer) == document_fields()
        &&& snapshot_fields(self.searcher) == document_fields()
    }

    /// The number of upserts since the last commit.
    pub closed spec fn pending(&self) -> nat {
        self.pending as nat
    }

    /// The writer of the run.
    pub closed spec fn writer(&self) -> IndexWriter {
        self.writer
    }

    /// The snapshot that the run judges staleness against.
    pub closed spec fn snapshot(&self) -> Searcher {
        self.searcher
    }

    /// The number of upserts since the last commit.
    pub fn uncommitted(&self) -> (count: usize)
        ensures
            count == self.pending(),
            self.wf() ==> count < BATCH_NUM,
    {
        self.pending
    }
}

impl SearchState {
    #[verifier::type_invariant]
    spec fn valid(&self) -> bool {
        &&& schema_fields(self.schema) == document_fields()
        &&& index_fields(self.index) == document_fields()
        &&& reader_fields(self.reader) == document_fields()
        &&& parser_fields(self.parser) == document_fields()
    }

    /// The query parser of the index.
    pub closed spec fn query_parser(&self) -> QueryParser {
        self.parser
    }

    /// The fields of the index.
    pub closed spec fn fields(&self) -> Seq<FieldSpec> {
        index_fields(self.index)
    }

    /// The name under which the index holds word segmentation, and the
    /// length from which a token is dropped.
    pub closed spec fn tokenizing(&self) -> (Seq<char>, usize) {
        index_segmenting(self.index)
    }

    /// The field and the order by which the index keeps its segments sorted.
    pub closed spec fn sorting(&self) -> Option<(Seq<char>, SortOrder)> {
        index_sort_key(self.index)
    }

    fn assemble(schema: Schema, index: Index) -> (state: Result<SearchState, Error>)
        requires
            schema_fields(schema) == document_fields(),
            index_fields(index) == document_fields(),
        ensures
            state matches Ok(s) ==> s.fields() == document_fields() && s.tokenizing()
                == index_segmenting(index) && s.sorting() == index_sort_key(index),
            state matches Err(e) ==> e is CreateReader,
    {
        let reader = match index_reader(&index) {
            Ok(reader) => reader,
            Err(e) => {
                return Err(Error::CreateReader { source: e });
            },
        };
        let parser = query_parser(&index);
        Ok(SearchState { schema, index, reader, parser })
    }

    /// Opens the index kept in the directory `data_path`, and makes it there
    /// if the directory holds none. The directory itself must exist.
    ///
    /// The index has the fields of [`document_fields`] and tokenizes with
    /// [`index_tokenizers`]: its text is segmented into words, tokens of
    /// [`LONGEST_TOKEN`] bytes or more are dropped and the rest lower-cased.
    /// An index that is made here is made with [`index_settings`], each
    /// segment sorted by timestamp, newest first; one that was found keeps
    /// the settings that it was made with.
    pub fn new(data_path: &str) -> (state: Result<SearchState, Error>)
        ensures
            state matches Ok(s) ==> s.fields() == document_fields() && s.tokenizing() == (
                "default"@,
                LONGEST_TOKEN,
            ),
            state matches Err(e) ==> e is OpenIndex || e is CreateReader,
    {
        let tokenizers = index_tokenizers();
        let settings = index_settings();
        match open_index(data_path, Docx::schema(), tokenizers, settings) {
            Ok(index) => Self::assemble(Docx::schema(), index),
            Err(e) => Err(Error::OpenIndex { source: e }),
        }
    }

    /// A new index like that of [`SearchState::new`], held in memory only.
    pub fn in_memory() -> (state: Result<SearchState, Error>)
        ensures
            state matches Ok(s) ==> {
                &&& s.fields() == document_fields()
                &&& s.tokenizing() == ("default"@, LONGEST_TOKEN)
                &&& s.sorting() == Some(("timestamp"@, SortOrder::Descending))
            },
            state matches Err(e) ==> e is OpenIndex || e is CreateReader,
    {
        let tokenizers = index_tokenizers();
        let settings = index_settings();
        match create_index_in_ram(Docx::schema(), tokenizers, settings) {
            Ok(index) => Self::assemble(Docx::schema(), index),
            Err(e) => Err(Error::OpenIndex { source: e }),
        }
    }

    /// What a search of one snapshot answers.
    ///
    /// Where the parser refuses the query text, the answer is the error
    /// `SearchParser`. Else it is either the error `SearchDocument`, where
    /// the engine could not read the index, or a result that holds the count
    /// of all matches, echoes `offset` and `limit`, and shows the documents
    /// of the page in the order of the ranking.
    pub open spec fn answers(
        &self,
        searcher: Searcher,
        keyword: Seq<char>,
        offset: usize,
        limit: usize,
        classes: Option<Seq<Seq<char>>>,
        found: Result<SearchFruit, Error>,
    ) -> bool {
        match parsed_query(self.query_parser(), search_filter(keyword, classes)) {
            None => found matches Err(e) && e is SearchParser,
            Some(query) => match found {
                Ok(fruit) => {
                    &&& ranking(searcher, query).no_duplicates()
                    &&& fruit.total == ranking(searcher, query).len()
                    &&& fruit.offset == offset
                    &&& fruit.limit == limit
                    &&& shows(
                        document_fields(),
                        searcher,
                        window(ranking(searcher, query), offset as nat, limit as nat),
                        fruit.results@,
                    )
                },
                Err(e) => e is SearchDocument,
            },
        }
    }

    /// The snapshot of the index that searches see now: a snapshot of this
    /// index, and so of documents of the fields of [`document_fields`]. Which
    /// documents it holds depends on the commits that the reader has taken
    /// up.
    pub fn searcher(&self) -> (searcher: Searcher)
        ensures
            snapshot_fields(searcher) == self.fields(),
            snapshot_fields(searcher) == document_fields(),
    {
        proof {
            use_type_invariant(self);
        }
        snapshot(&self.reader)
    }

    /// Searches one snapshot of this index: see [`SearchState::answers`].
    ///
    /// The query text is [`search_filter`]. The count and the page come from
    /// one pass over the snapshot; each hit is shown by its name, content and
    /// path. With a limit of zero the page is empty and only the count is
    /// taken.
    #[verifier::loop_isolation(false)]
    pub fn search_in(
        &self,
        searcher: &Searcher,
        keyword: &str,
        offset: usize,
        limit: usize,
        classes: &Option<Vec<String>>,
    ) -> (found: Result<SearchFruit, Error>)
        requires
            offset + limit <= MAX_WINDOW,
            snapshot_fields(*searcher) == self.fields(),
        ensures
            self.answers(*searcher, keyword@, offset, limit, class_names(*classes), found),
    {
        proof {
            use_type_invariant(self);
            document_fields_distinct();
        }
        let filter = build_search_filter(keyword, classes);
        let query = match parse_query(&self.parser, filter.as_str()) {
            Ok(query) => query,
            Err(e) => {
                return Err(Error::SearchParser { source: e });
            },
        };
        if limit == 0 {
            return match count_matches(searcher, &query) {
                Ok(total) => Ok(SearchFruit { results: Vec::new(), total, limit, offset }),
                Err(e) => Err(Error::SearchDocument { source: e }),
            };
        }
        let (total, hits) = match search_page(searcher, &query, offset, limit) {
            Ok(page) => page,
            Err(e) => {
                return Err(Error::SearchDocument { source: e });
            },
        };
        let mut docs: Vec<Docx> = Vec::new();
        let mut i: usize = 0;
        while i < hits.len()
            invariant
                i <= hits.len(),
                docs.len() == i,
                forall|k: int|
                    0 <= k < i ==> (stored(*searcher, #[trigger] hits[k]) matches Some(entries)
                        && docs[k]@ == projection(document_fields(), entries)),
            decreases hits.len() - i,
        {
            let retrieved = match fetch(searcher, hits[i]) {
                Ok(document) => document,
                Err(e) => {
                    return Err(Error::SearchDocument { source: e });
                },
            };
            docs.push(project(&retrieved, &self.schema));
            i += 1;
        }
        Ok(SearchFruit { results: docs, total, limit, offset })
    }

    /// Searches the index as it is now: [`SearchState::search_in`] on the
    /// snapshot that the reader offers at the moment of the call.
    ///
    /// Whatever that snapshot holds, a result echoes `offset` and `limit`,
    /// shows as many documents as the page has room for among `total`
    /// matches, and shows of each only name, content and path.
    pub fn search(
        &self,
        keyword: String,
        offset: usize,
        limit: usize,
        classes: Option<Vec<String>>,
    ) -> (found: Result<SearchFruit, Error>)
        requires
            offset + limit <= MAX_WINDOW,
        ensures
            exists|searcher: Searcher|
                snapshot_fields(searcher) == self.fields() && self.answers(
                    searcher,
                    keyword@,
                    offset,
                    limit,
                    class_names(classes),
                    found,
                ),
            parsed_query(self.query_parser(), search_filter(keyword@, class_names(classes)))
                is None ==> (found matches Err(e) && e is SearchParser),
            found matches Err(e) ==> e is SearchParser || e is SearchDocument,
            found matches Ok(fruit) ==> {
                &&& fruit.offset == offset
                &&& fruit.limit == limit
                &&& fruit.results.len() == page_length(
                    fruit.total as nat,
                    offset as nat,
                    limit as nat,
                )
                &&& projected_only(fruit.results@)
            },
    {
        let searcher = self.searcher();
        let found = self.search_in(&searcher, keyword.as_str(), offset, limit, &classes);
        proof {
            assert(self.answers(searcher, keyword@, offset, limit, class_names(classes), found));
            if found is Ok {
                let fruit = found->Ok_0;
                let query = parsed_query(
                    self.query_parser(),
                    search_filter(keyword@, class_names(classes)),
                )->Some_0;
                let hits = window(ranking(searcher, query), offset as nat, limit as nat);
                assert(hits.len() == page_length(fruit.total as nat, offset as nat, limit as nat));
                assert forall|i: int| 0 <= i < fruit.results.len() implies (
                #[trigger] fruit.results[i])@.id.len() == 0 && fruit.results[i]@.timestamp
                    == 0 by {
                    assert(stored(searcher, hits[i]) is Some);
                }
            }
        }
        found
    }

    /// Decides whether the indexed copy of `docx` in a snapshot is current:
    /// whether a document of the same identifier and timestamp is there.
    ///
    /// A query that is refused or that fails counts as not current.
    pub fn is_current(&self, searcher: &Searcher, docx: &Docx) -> (current: bool)
        requires
            snapshot_fields(*searcher) == self.fields(),
        ensures
            current ==> self.finds(*searcher, docx@),
    {
        match self.staleness_count(searcher, docx) {
            Some(count) => fresh(&count),
            None => false,
        }
    }

    /// Runs the staleness query of `docx` on a snapshot: the count of its
    /// matches or the engine's failure, or nothing where the parser refuses
    /// the query.
    fn staleness_count(&self, searcher: &Searcher, docx: &Docx) -> (count: Option<
        Result<usize, TantivyError>,
    >)
        requires
            snapshot_fields(*searcher) == self.fields(),
        ensures
            match parsed_query(
                self.query_parser(),
                staleness_filter(docx@.id, docx@.timestamp),
            ) {
                None => count is None,
                Some(query) => count matches Some(outcome) && (outcome matches Ok(n) ==> n
                    == ranking(*searcher, query).len()),
            },
    {
        proof {
            use_type_invariant(self);
        }
        let filter = build_staleness_filter(docx.get_id(), docx.get_timestamp());
        match parse_query(&self.parser, filter.as_str()) {
            Ok(query) => Some(count_matches(searcher, &query)),
            Err(_) => None,
        }
    }

    /// Whether the staleness query for `doc` is accepted and matches in the
    /// snapshot.
    pub open spec fn finds(&self, searcher: Searcher, doc: DocxView) -> bool {
        parsed_query(self.query_parser(), staleness_filter(doc.id, doc.timestamp)) matches Some(
            query,
        ) && ranking(searcher, query).len() > 0
    }

    /// Begins an indexing run: takes the one writer of the index and the
    /// snapshot that entries are compared with.
    pub fn begin(&self) -> (run: Result<IndexRun, Error>)
        ensures
            run matches Ok(r) ==> {
                &&& r.wf()
                &&& r.pending() == 0
                &&& staged(r.writer()) == Seq::<WriteIntent>::empty()
                &&& snapshot_fields(r.snapshot()) == self.fields()
            },
            run matches Err(e) ==> e is CreateWriter,
    {
        proof {
            use_type_invariant(self);
        }
        match index_writer(&self.index, WRITER_MEMORY) {
            Ok(writer) => Ok(IndexRun { writer, searcher: snapshot(&self.reader), pending: 0 }),
            Err(e) => Err(Error::CreateWriter { source: e }),
        }
    }

    /// Classifies an entry: rejects what is not indexable, skips what the
    /// index holds in its current state, and asks for the content of the
    /// rest.
    fn visit(&self, run: &IndexRun, entry: &Entry) -> (turn: Turn)
        requires
            run.wf(),
        ensures
            self.visited(run.snapshot(), *entry, turn),
    {
        proof {
            use_type_invariant(self);
        }
        match Docx::new(entry) {
            Ok(doc) => {
                let count = self.staleness_count(&run.searcher, &doc);
                pass_or_extract(doc, &count)
            },
            Err(e) => Turn { action: Action::Crawl, warning: Some(Warning::Rejected(e)) },
        }
    }

    /// What a run answers to a found entry.
    ///
    /// An entry that is not indexable is rejected with a warning. Of an
    /// indexable one the crawl goes on only where the staleness query was
    /// accepted and matched in the snapshot; where the query is refused or
    /// matches nothing, the content of the document is asked for.
    pub open spec fn visited(&self, snapshot: Searcher, entry: Entry, turn: Turn) -> bool {
        match entry.document() {
            Err(failure) => turn.action is Crawl && (turn.warning matches Some(
                Warning::Rejected(e),
            ) && e@ == failure),
            Ok(doc) => {
                &&& turn.warning is None
                &&& match turn.action {
                    Action::Crawl => self.finds(snapshot, doc),
                    Action::Extract(d) => d@ == doc,
                    Action::Done(_) => false,
                }
            },
        }
    }

    /// Commits what is staged and asks the reader to take up the result, so
    /// that a search made after the run sees it. The reader also takes up
    /// commits by itself, a little later; so a refresh that fails here is let
    /// pass.
    fn publish(&self, run: &mut IndexRun) -> (done: Result<(), Error>)
        requires
            old(run).wf(),
        ensures
            final(run).wf(),
            final(run).snapshot() == old(run).snapshot(),
            match done {
                Ok(_) => final(run).pending() == 0 && staged(final(run).writer()) == Seq::<
                    WriteIntent,
                >::empty(),
                Err(e) => e is Commit,
            },
    {
        match commit(&mut run.writer) {
            Ok(_) => {},
            Err(e) => {
                return Err(Error::Commit { source: e });
            },
        }
        run.pending = 0;
        let _ = reload(&self.reader);
        Ok(())
    }

    /// Writes a document whose content was obtained: sets the content, hands
    /// the replacement to the writer, and commits when the batch is full.
    fn add_document(run: &mut IndexRun, docx: Docx, source: &Extracted) -> (turn: Turn)
        requires
            old(run).wf(),
        ensures
            final(run).wf(),
            final(run).snapshot() == old(run).snapshot(),
            written(*old(run), *final(run), docx@, *source, turn),
    {
        proof {
            document_fields_distinct();
        }
        let mut docx = docx;
        match docx.set_content(source) {
            Ok(_) => {},
            Err(e) => {
                return Turn {
                    action: Action::Crawl,
                    warning: Some(Warning::NotWritten(Error::OpenOrReadDocument { source: e })),
                };
            },
        }
        let ops = docx.replace_ops();
        let accepted = crate::engine::run(&mut run.writer, ops);
        match tally(run.pending, accepted) {
            Batch::Refused(e) => Turn {
                action: Action::Crawl,
                warning: Some(Warning::NotWritten(e)),
            },
            Batch::Joined(count) => {
                run.pending = count;
                Turn { action: Action::Crawl, warning: None }
            },
            Batch::Full => match commit(&mut run.writer) {
                Ok(_) => {
                    run.pending = 0;
                    Turn { action: Action::Crawl, warning: None }
                },
                Err(e) => Turn {
                    action: Action::Done(Err(Error::Commit { source: e })),
                    warning: None,
                },
            },
        }
    }

    /// Answers one event of an indexing run.
    ///
    /// - An entry that is not indexable is rejected with a warning; one whose
    ///   indexed copy is current is passed over; for any other the content is
    ///   asked for. Nothing is written.
    /// - Content that could not be obtained or decoded, and a document that
    ///   the writer refused, give a warning, and the run goes on. A document
    ///   that was written counts toward the batch, and the batch is committed
    ///   when it holds [`BATCH_NUM`] documents; the run ends if that fails.
    /// - A failure of the crawl ends the run at once, with nothing committed
    ///   beyond the last full batch.
    /// - The end of the crawl commits what is left, asks the reader to take
    ///   up the result, and ends the run.
    pub fn step(&self, run: &mut IndexRun, event: Event) -> (turn: Turn)
        requires
            old(run).wf(),
        ensures
            final(run).wf(),
            final(run).snapshot() == old(run).snapshot(),
            match event {
                Event::Found(entry) => {
                    &&& untouched(*old(run), *final(run))
                    &&& self.visited(old(run).snapshot(), entry, turn)
                },
                Event::CrawlFailed { reason } => {
                    &&& untouched(*old(run), *final(run))
                    &&& turn.warning is None
                    &&& turn.action matches Action::Done(Err(Error::ReadDir { source }))
                    &&& source@ == reason@
                },
                Event::Exhausted => {
                    &&& turn.warning is None
                    &&& match turn.action {
                        Action::Done(Ok(_)) => final(run).pending() == 0 && staged(
                            final(run).writer(),
                        ) == Seq::<WriteIntent>::empty(),
                        Action::Done(Err(e)) => e is Commit,
                        _ => false,
                    }
                },
                Event::Extracted { doc, source } => written(
                    *old(run),
                    *final(run),
                    doc@,
                    source,
                    turn,
                ),
            },
    {
        match event {
            Event::Found(entry) => self.visit(run, &entry),
            Event::CrawlFailed { reason } => Turn {
                action: Action::Done(Err(Error::ReadDir { source: reason })),
                warning: None,
            },
            Event::Exhausted => Turn { action: Action::Done(self.publish(run)), warning: None },
            Event::Extracted { doc, source } => Self::add_document(run, doc, &source),
        }
    }
}

/// Whether a run holds after an event what it held before.
pub open spec fn untouched(before: IndexRun, after: IndexRun) -> bool {
    &&& after.pending() == before.pending()
    &&& staged(after.writer()) == staged(before.writer())
}

/// What a run has done with a document whose content was reported.
///
/// Where no text was obtained, nothing is written and the warning carries the
/// failure. Else either the writer refused the document (a warning, nothing
/// counted), or the replacement of the document was staged: it then either
/// joined the batch, or filled it, in which case the batch was committed, or
/// the run ended on the failure to commit.
pub open spec fn written(
    before: IndexRun,
    after: IndexRun,
    doc: DocxView,
    source: Extracted,
    turn: Turn,
) -> bool {
    match extracted_text(doc.path, source) {
        Err(failure) => {
            &&& untouched(before, after)
            &&& turn.action is Crawl
            &&& turn.warning matches Some(
                Warning::NotWritten(Error::OpenOrReadDocument { source: e }),
            )
            &&& e@ == failure
        },
        Ok(text) => match turn.action {
            Action::Crawl => match turn.warning {
                Some(warning) => {
                    &&& warning matches Warning::NotWritten(e)
                    &&& e is AddDocument
                    &&& after.pending() == before.pending()
                },
                None => if before.pending() + 1 < BATCH_NUM {
                    &&& after.pending() == before.pending() + 1
                    &&& staged(after.writer()) == staged(before.writer()) + replacement(
                        doc.with_content(text),
                    )
                } else {
                    &&& after.pending() == 0
                    &&& staged(after.writer()) == Seq::<WriteIntent>::empty()
                },
            },
            Action::Done(result) => {
                &&& turn.warning is None
                &&& before.pending() + 1 == BATCH_NUM
                &&& result matches Err(e)
                &&& e is Commit
            },
            Action::Extract(_) => false,
        },
    }
}

} // verus!

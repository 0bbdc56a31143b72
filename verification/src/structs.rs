//! The document record, the entries it is built from, and content extraction.
//!
//! A crawl hands over [`Entry`] values; [`Docx::new`] classifies one and builds
//! the record without its content, so that staleness can be decided from the
//! identifier and the timestamp alone. The content is decoded later, by
//! [`Docx::set_content`], from what the caller read or converted.

use vstd::prelude::*;
use vstd::string::StringExecFns;
use vstd::utf8::decode_utf8;
use vstd::utf8::encode_utf8;
use vstd::utf8::valid_utf8;
use crate::codec::gbk_decode;
use crate::codec::gbk_text;
use crate::codec::md5_digest;
use crate::codec::md5_of;
use crate::codec::utf8_text;
use crate::launch::Launch;
use crate::text::extension;
use crate::text::extension_of;
use crate::text::has_prefix;
use crate::text::hex_lower;
use crate::text::lowercase;
use crate::text::lowercase_is;
use crate::text::push_hex;
use crate::text::starts_with;

verus! {

/// What kind of filesystem object an entry is.
#[derive(Clone, Copy, Debug, PartialEq, Eq, Structural)]
pub enum EntryKind {
    /// A regular file.
    File,
    /// A directory.
    Directory,
    /// Neither a regular file nor a directory.
    Other,
    /// The kind could not be read.
    Unknown,
}

/// The last-modified time of an entry, as the filesystem reported it.
#[derive(Clone, Debug)]
pub enum Modified {
    /// Whole seconds since the epoch.
    At(u64),
    /// A time before the epoch.
    BeforeEpoch,
    /// The metadata or the time could not be read.
    Unavailable { reason: String },
}

/// One entry of a crawl.
#[derive(Clone, Debug)]
pub struct Entry {
    /// The path of the entry: absolute, and the same however the crawl was
    /// begun, since the identifier of a document is made of it.
    pub path: String,
    /// The last component of the path; none where it is not valid text.
    pub file_name: Option<String>,
    /// What the entry is.
    pub kind: EntryKind,
    /// When the entry was last modified.
    pub modified: Modified,
}

/// How the text of a supported file is obtained.
#[derive(Clone, Copy, Debug, PartialEq, Eq, Structural)]
pub enum FileKind {
    /// The bytes of the file are its text.
    Plain,
    /// The external converter turns the file into text.
    Convertible,
}

/// The outcome of reading a whole file.
#[derive(Clone, Debug)]
pub enum FileRead {
    /// The bytes of the file.
    Bytes(Vec<u8>),
    /// The file could not be opened or read.
    Failed { reason: String },
}

/// The outcome of running the external converter on a file.
#[derive(Clone, Debug)]
pub enum Conversion {
    /// The converter ran and exited; `output` is its standard output and
    /// `diagnostics` what it reported beside.
    Exited { success: bool, output: Vec<u8>, diagnostics: String },
    /// The converter could not be started.
    NotRun { reason: String },
}

/// What was obtained for the content of a document.
#[derive(Clone, Debug)]
pub enum Extracted {
    /// The file was read, as a plain kind asks.
    Plain(FileRead),
    /// The converter was run, as a convertible kind asks.
    Converted(Conversion),
}

/// Why an entry or a file was not turned into an indexable document.
#[derive(Clone, Debug)]
pub enum Error {
    /// The entry is not an indexable file.
    UnsupportedDocument { path: String },
    /// The bytes are text in none of the encodings that are tried.
    UnsupportedEncoding { path: String },
    /// The file or its metadata could not be read; `source` says why.
    OpenOrReadDocument { path: String, source: String },
    /// The converter could not be run or did not succeed; `source` says why.
    PandocConvert { path: String, source: String },
    /// The file was last modified before the epoch.
    ComputeSystemTime,
}

/// An [`Error`] with its texts as character sequences.
pub enum Failure {
    UnsupportedDocument { path: Seq<char> },
    UnsupportedEncoding { path: Seq<char> },
    OpenOrReadDocument { path: Seq<char>, source: Seq<char> },
    PandocConvert { path: Seq<char>, source: Seq<char> },
    ComputeSystemTime,
}

impl View for Error {
    type V = Failure;

    open spec fn view(&self) -> Failure {
        match self {
            Error::UnsupportedDocument { path } => Failure::UnsupportedDocument { path: path@ },
            Error::UnsupportedEncoding { path } => Failure::UnsupportedEncoding { path: path@ },
            Error::OpenOrReadDocument { path, source } => Failure::OpenOrReadDocument {
                path: path@,
                source: source@,
            },
            Error::PandocConvert { path, source } => Failure::PandocConvert {
                path: path@,
                source: source@,
            },
            Error::ComputeSystemTime => Failure::ComputeSystemTime,
        }
    }
}

/// The text that describes a failure to the user.
pub open spec fn failure_text(failure: Failure) -> Seq<char> {
    match failure {
        Failure::UnsupportedDocument { path } => "未支持的文档类型："@ + path,
        Failure::UnsupportedEncoding { path } => "该文档非 UTF-8 或者 GBK 编码："@ + path,
        Failure::OpenOrReadDocument { path, source } => "无法打开或读取文件："@ + path,
        Failure::PandocConvert { path, source } => "Pandoc 无法将 word 文件转换成普通文本："@ + path,
        Failure::ComputeSystemTime => "系统时间错误"@,
    }
}

impl Error {
    /// The text that describes this failure to the user.
    pub fn message(&self) -> (text: String)
        ensures
            text@ == failure_text(self@),
    {
        match self {
            Error::UnsupportedDocument { path } => String::from_str("未支持的文档类型：").concat(
                path.as_str(),
            ),
            Error::UnsupportedEncoding { path } => String::from_str(
                "该文档非 UTF-8 或者 GBK 编码：",
            ).concat(path.as_str()),
            Error::OpenOrReadDocument { path, source } => String::from_str(
                "无法打开或读取文件：",
            ).concat(path.as_str()),
            Error::PandocConvert { path, source } => String::from_str(
                "Pandoc 无法将 word 文件转换成普通文本：",
            ).concat(path.as_str()),
            Error::ComputeSystemTime => String::from_str("系统时间错误"),
        }
    }
}

/// Whether an extension names a file that is read directly as text.
pub open spec fn plain_extension(ext: Seq<char>) -> bool {
    lowercase(ext) == "txt"@ || lowercase(ext) == "sql"@
}

/// Whether an extension names a file that the converter turns into text.
pub open spec fn hyper_extension(ext: Seq<char>) -> bool {
    lowercase(ext) == "docx"@ || lowercase(ext) == "md"@
}

/// Whether a file name carries the marker of an editor's lock file.
pub open spec fn lock_file_name(name: Seq<char>) -> bool {
    has_prefix(name, "~$"@)
}

/// Whether a file of this name is of a supported kind.
pub open spec fn supported_name(name: Seq<char>) -> bool {
    &&& !lock_file_name(name)
    &&& extension_of(name) matches Some(ext)
    &&& (plain_extension(ext) || hyper_extension(ext))
}

/// The identifier of the document at `path`: the MD5 digest of the path's
/// bytes, written as lower-case hexadecimal digits.
pub open spec fn id_of(path: Seq<char>) -> Seq<char> {
    hex_lower(md5_digest(encode_utf8(path)))
}

impl Entry {
    /// Whether the entry is indexable: a regular file with a readable name of
    /// a supported kind.
    pub open spec fn supported(&self) -> bool {
        &&& self.kind == EntryKind::File
        &&& self.file_name matches Some(name)
        &&& supported_name(name@)
    }

    /// The timestamp of the entry, or why it has none.
    pub open spec fn timestamp(&self) -> Result<u64, Failure> {
        match self.modified {
            Modified::At(seconds) => Ok(seconds),
            Modified::BeforeEpoch => Err(Failure::ComputeSystemTime),
            Modified::Unavailable { reason } => Err(
                Failure::OpenOrReadDocument { path: self.path@, source: reason@ },
            ),
        }
    }

    /// The document built from the entry, or why none is built.
    pub open spec fn document(&self) -> Result<DocxView, Failure> {
        if !self.supported() {
            Err(Failure::UnsupportedDocument { path: self.path@ })
        } else {
            match self.timestamp() {
                Ok(seconds) => Ok(
                    DocxView {
                        id: id_of(self.path@),
                        name: self.file_name->Some_0@,
                        path: self.path@,
                        content: Seq::empty(),
                        timestamp: seconds,
                        class: None,
                    },
                ),
                Err(failure) => Err(failure),
            }
        }
    }
}

/// Two paths have the same identifier only where their digests are the
/// same: writing a digest in hexadecimal loses nothing.
pub proof fn same_id_same_digest(first: Seq<char>, second: Seq<char>)
    requires
        id_of(first) == id_of(second),
    ensures
        md5_digest(encode_utf8(first)) == md5_digest(encode_utf8(second)),
{
    crate::text::hex_distinct(md5_digest(encode_utf8(first)), md5_digest(encode_utf8(second)));
}

/// Extensions that differ only in the case of their letters are classified
/// alike.
pub proof fn extension_case_ignored(first: Seq<char>, second: Seq<char>)
    requires
        lowercase(first) == lowercase(second),
    ensures
        plain_extension(first) == plain_extension(second),
        hyper_extension(first) == hyper_extension(second),
{
}

/// No extension is both of a plain and of a convertible kind.
pub proof fn kinds_disjoint(ext: Seq<char>)
    ensures
        !(plain_extension(ext) && hyper_extension(ext)),
{
    reveal_strlit("txt");
    reveal_strlit("sql");
    reveal_strlit("docx");
    reveal_strlit("md");
    assert("txt"@.len() == 3 && "sql"@.len() == 3);
    assert("docx"@.len() == 4 && "md"@.len() == 2);
}

/// A file whose extension belongs to neither supported set is not indexable,
/// whatever else holds of its entry, and no document is built from it.
pub proof fn unsupported_extension_rejected(entry: Entry, ext: Seq<char>)
    requires
        entry.file_name matches Some(name) && extension_of(name@) == Some(ext),
        !plain_extension(ext),
        !hyper_extension(ext),
    ensures
        !entry.supported(),
        entry.document() == Err::<DocxView, Failure>(
            Failure::UnsupportedDocument { path: entry.path@ },
        ),
{
}

/// A directory, a lock file and a file without a readable name are not
/// indexable, whatever their extension.
pub proof fn only_regular_files_supported(entry: Entry)
    requires
        entry.kind != EntryKind::File || entry.file_name is None || lock_file_name(
            entry.file_name->Some_0@,
        ),
    ensures
        !entry.supported(),
{
}

/// Tests whether `extension` names a plain-text kind, whatever its case.
pub fn is_plain(extension: &str) -> (plain: bool)
    ensures
        plain == plain_extension(extension@),
{
    lowercase_is(extension, "txt") || lowercase_is(extension, "sql")
}

/// Tests whether `extension` names a convertible kind, whatever its case.
pub fn is_hyper(extension: &str) -> (hyper: bool)
    ensures
        hyper == hyper_extension(extension@),
{
    lowercase_is(extension, "docx") || lowercase_is(extension, "md")
}

/// Decides whether an entry is indexed at all.
///
/// Directories, lock files (names that begin with `~$`), names that are not
/// valid text and files of other kinds are not.
pub fn is_support(dir_entry: &Entry) -> (indexable: bool)
    ensures
        indexable == dir_entry.supported(),
{
    match dir_entry.kind {
        EntryKind::File => {},
        _ => {
            return false;
        },
    }
    match &dir_entry.file_name {
        Some(name) => {
            if starts_with(name.as_str(), "~$") {
                return false;
            }
            match extension(name.as_str()) {
                Some(ext) => is_plain(ext.as_str()) || is_hyper(ext.as_str()),
                None => false,
            }
        },
        None => false,
    }
}

/// The last-modified time of an entry in seconds since the epoch.
pub fn get_file_timestamp(dir_entry: &Entry) -> (seconds: Result<u64, Error>)
    ensures
        seconds is Ok <==> dir_entry.timestamp() is Ok,
        seconds matches Ok(s) ==> dir_entry.timestamp() == Ok::<u64, Failure>(s),
        seconds matches Err(e) ==> dir_entry.timestamp() == Err::<u64, Failure>(e@),
{
    match &dir_entry.modified {
        Modified::At(seconds) => Ok(*seconds),
        Modified::BeforeEpoch => Err(Error::ComputeSystemTime),
        Modified::Unavailable { reason } => Err(
            Error::OpenOrReadDocument { path: dir_entry.path.clone(), source: reason.clone() },
        ),
    }
}

/// The identifier of the document at `path`: see [`id_of`].
pub fn document_id(path: &str) -> (id: String)
    ensures
        id@ == id_of(path@),
{
    let digest = md5_of(path.as_bytes());
    let mut id = String::new();
    push_hex(&mut id, digest.as_slice());
    id
}

/// The text of a plain file, from the outcome of reading it.
pub open spec fn plain_text(path: Seq<char>, read: FileRead) -> Result<Seq<char>, Failure> {
    match read {
        FileRead::Failed { reason } => Err(
            Failure::OpenOrReadDocument { path, source: reason@ },
        ),
        FileRead::Bytes(bytes) => {
            if valid_utf8(bytes@) {
                Ok(decode_utf8(bytes@))
            } else {
                match gbk_text(bytes@) {
                    Some(text) => Ok(text),
                    None => Err(Failure::UnsupportedEncoding { path }),
                }
            }
        },
    }
}

/// The text of a converted file, from the outcome of the converter's run.
pub open spec fn converted_text(path: Seq<char>, run: Conversion) -> Result<Seq<char>, Failure> {
    match run {
        Conversion::NotRun { reason } => Err(Failure::PandocConvert { path, source: reason@ }),
        Conversion::Exited { success, output, diagnostics } => {
            if !success {
                Err(Failure::PandocConvert { path, source: diagnostics@ })
            } else if valid_utf8(output@) {
                Ok(decode_utf8(output@))
            } else {
                Err(Failure::UnsupportedEncoding { path })
            }
        },
    }
}

/// The text obtained for a document at `path`.
pub open spec fn extracted_text(path: Seq<char>, source: Extracted) -> Result<
    Seq<char>,
    Failure,
> {
    match source {
        Extracted::Plain(read) => plain_text(path, read),
        Extracted::Converted(run) => converted_text(path, run),
    }
}

/// Whether an outcome of extraction and its model agree.
pub open spec fn same_text(got: Result<String, Error>, model: Result<Seq<char>, Failure>) -> bool {
    match got {
        Ok(text) => model == Ok::<Seq<char>, Failure>(text@),
        Err(e) => model == Err::<Seq<char>, Failure>(e@),
    }
}

/// Decodes the bytes of a plain file: as UTF-8 first, then as GBK.
pub fn read_plain_file(path: &str, read: &FileRead) -> (text: Result<String, Error>)
    ensures
        same_text(text, plain_text(path@, *read)),
{
    match read {
        FileRead::Failed { reason } => Err(
            Error::OpenOrReadDocument { path: String::from_str(path), source: reason.clone() },
        ),
        FileRead::Bytes(bytes) => {
            match utf8_text(bytes.as_slice()) {
                Some(text) => Ok(text),
                None => match gbk_decode(bytes.as_slice()) {
                    Some(text) => Ok(text),
                    None => Err(Error::UnsupportedEncoding { path: String::from_str(path) }),
                },
            }
        },
    }
}

/// The program that converts the file at `path` to text, with its arguments:
/// plain output, no line wrapping, headings in the ATX style.
pub fn converter_command(path: &str) -> (command: Launch)
    ensures
        command.program@ == "pandoc"@,
        command.args.deep_view() == seq![
            "-t"@,
            "plain"@,
            "--wrap=none"@,
            "--markdown-headings=atx"@,
            path@,
        ],
{
    let mut args: Vec<String> = Vec::new();
    args.push(String::from_str("-t"));
    args.push(String::from_str("plain"));
    args.push(String::from_str("--wrap=none"));
    args.push(String::from_str("--markdown-headings=atx"));
    args.push(String::from_str(path));
    assert(args.deep_view() =~= seq![
        "-t"@,
        "plain"@,
        "--wrap=none"@,
        "--markdown-headings=atx"@,
        path@,
    ]);
    Launch { program: String::from_str("pandoc"), args }
}

/// The text of a converted file, from the outcome of running the command of
/// [`converter_command`] on it.
pub fn read_docx_file(path: &str, run: &Conversion) -> (text: Result<String, Error>)
    ensures
        same_text(text, converted_text(path@, *run)),
{
    match run {
        Conversion::NotRun { reason } => Err(
            Error::PandocConvert { path: String::from_str(path), source: reason.clone() },
        ),
        Conversion::Exited { success, output, diagnostics } => {
            if !*success {
                Err(
                    Error::PandocConvert {
                        path: String::from_str(path),
                        source: diagnostics.clone(),
                    },
                )
            } else {
                match utf8_text(output.as_slice()) {
                    Some(text) => Ok(text),
                    None => Err(Error::UnsupportedEncoding { path: String::from_str(path) }),
                }
            }
        },
    }
}

/// The indexable unit: one file, known by the hash of its path.
///
/// The class is a category that searches can filter by. A crawl leaves it
/// unset.
#[derive(Clone, Debug)]
pub struct Docx {
    id: String,
    name: String,
    path: String,
    content: String,
    timestamp: u64,
    class: Option<String>,
}

/// A [`Docx`] with its texts as character sequences.
pub struct DocxView {
    pub id: Seq<char>,
    pub name: Seq<char>,
    pub path: Seq<char>,
    pub content: Seq<char>,
    pub timestamp: u64,
    pub class: Option<Seq<char>>,
}

impl View for Docx {
    type V = DocxView;

    closed spec fn view(&self) -> DocxView {
        DocxView {
            id: self.id@,
            name: self.name@,
            path: self.path@,
            content: self.content@,
            timestamp: self.timestamp,
            class: match self.class {
                Some(class) => Some(class@),
                None => None,
            },
        }
    }
}

impl Default for Docx {
    /// A document of empty texts, timestamp zero and no class.
    fn default() -> (doc: Docx)
        ensures
            doc@ == (DocxView {
                id: Seq::empty(),
                name: Seq::empty(),
                path: Seq::empty(),
                content: Seq::empty(),
                timestamp: 0,
                class: None,
            }),
    {
        Docx {
            id: String::new(),
            name: String::new(),
            path: String::new(),
            content: String::new(),
            timestamp: 0,
            class: None,
        }
    }
}

impl DocxView {
    /// How the content of this document is obtained; none where its name has
    /// no extension.
    pub open spec fn kind(self) -> Option<FileKind> {
        match extension_of(self.name) {
            Some(ext) => if plain_extension(ext) {
                Some(FileKind::Plain)
            } else {
                Some(FileKind::Convertible)
            },
            None => None,
        }
    }

    /// This document with `content` in place of its own.
    pub open spec fn with_content(self, content: Seq<char>) -> DocxView {
        DocxView { content, ..self }
    }

    /// This document with `class` in place of its own.
    pub open spec fn with_class(self, class: Option<Seq<char>>) -> DocxView {
        DocxView { class, ..self }
    }
}

impl Docx {
    /// Classifies an entry and builds its document, without content.
    ///
    /// An entry that is not indexable gives `UnsupportedDocument`; an
    /// indexable one whose modification time is missing gives the error of
    /// [`get_file_timestamp`].
    pub fn new(dir_entry: &Entry) -> (built: Result<Docx, Error>)
        ensures
            built is Ok <==> dir_entry.document() is Ok,
            built matches Ok(doc) ==> dir_entry.document() == Ok::<DocxView, Failure>(doc@),
            built matches Err(e) ==> dir_entry.document() == Err::<DocxView, Failure>(e@),
    {
        if !is_support(dir_entry) {
            return Err(Error::UnsupportedDocument { path: dir_entry.path.clone() });
        }
        let name = match &dir_entry.file_name {
            Some(name) => name.clone(),
            None => {
                return Err(Error::UnsupportedDocument { path: dir_entry.path.clone() });
            },
        };
        let timestamp = match get_file_timestamp(dir_entry) {
            Ok(seconds) => seconds,
            Err(e) => {
                return Err(e);
            },
        };
        let id = document_id(dir_entry.path.as_str());
        Ok(
            Docx {
                id,
                name,
                path: dir_entry.path.clone(),
                content: String::new(),
                timestamp,
                class: None,
            },
        )
    }

    /// A document made of the three projected texts of a search hit; its
    /// identifier is empty, its timestamp zero and its class unset.
    pub fn projected(name: String, content: String, path: String) -> (doc: Docx)
        ensures
            doc@ == (DocxView {
                id: Seq::empty(),
                name: name@,
                path: path@,
                content: content@,
                timestamp: 0,
                class: None,
            }),
    {
        Docx { id: String::new(), name, path, content, timestamp: 0, class: None }
    }

    /// The identifier: see [`id_of`].
    pub fn get_id(&self) -> (id: &str)
        ensures
            id@ == self@.id,
    {
        self.id.as_str()
    }

    /// The time of the last modification of the file, in seconds since the
    /// epoch.
    pub fn get_timestamp(&self) -> (timestamp: u64)
        ensures
            timestamp == self@.timestamp,
    {
        self.timestamp
    }

    /// The base name of the file.
    pub fn get_name(&self) -> (name: &str)
        ensures
            name@ == self@.name,
    {
        self.name.as_str()
    }

    /// The path of the file.
    pub fn get_path(&self) -> (path: &str)
        ensures
            path@ == self@.path,
    {
        self.path.as_str()
    }

    /// The extracted text; empty until it is set.
    pub fn get_content(&self) -> (content: &str)
        ensures
            content@ == self@.content,
    {
        self.content.as_str()
    }

    /// The class, where one is set.
    pub fn get_class(&self) -> (class: Option<&str>)
        ensures
            class is Some == self@.class is Some,
            class matches Some(c) ==> self@.class == Some(c@),
    {
        match &self.class {
            Some(class) => Some(class.as_str()),
            None => None,
        }
    }

    /// Sets or clears the class.
    pub fn set_class(&mut self, class: Option<String>)
        ensures
            final(self)@ == old(self)@.with_class(
                match class {
                    Some(c) => Some(c@),
                    None => None,
                },
            ),
    {
        self.class = class;
    }

    /// How the content of this document is to be obtained: the bytes of the
    /// file for a plain kind, the converter's output for any other.
    pub fn kind(&self) -> (kind: Option<FileKind>)
        ensures
            kind == self@.kind(),
    {
        match extension(self.name.as_str()) {
            Some(ext) => if is_plain(ext.as_str()) {
                Some(FileKind::Plain)
            } else {
                Some(FileKind::Convertible)
            },
            None => None,
        }
    }

    /// Sets the content from what was read or converted.
    ///
    /// On failure the document is unchanged.
    pub fn set_content(&mut self, source: &Extracted) -> (done: Result<(), Error>)
        ensures
            match extracted_text(old(self)@.path, *source) {
                Ok(text) => done is Ok && final(self)@ == old(self)@.with_content(text),
                Err(failure) => done matches Err(e) && e@ == failure && final(self)@ == old(
                    self,
                )@,
            },
    {
        let text = match source {
            Extracted::Plain(read) => read_plain_file(self.path.as_str(), read),
            Extracted::Converted(run) => read_docx_file(self.path.as_str(), run),
        };
        match text {
            Ok(content) => {
                self.content = content;
                Ok(())
            },
            Err(e) => Err(e),
        }
    }
}

/// One page of search results with the count of all matches.
#[derive(Clone, Debug)]
pub struct SearchFruit {
    pub results: Vec<Docx>,
    pub total: usize,
    pub limit: usize,
    pub offset: usize,
}

} // verus!

//! Data model of the store: projects, books, documents, commits, settings,
//! and the value types that store operations exchange with the surrounding
//! I/O layer.
//!
//! Timestamps are kept as seconds since the Unix epoch; the I/O layer turns
//! them into RFC-3339 strings when it writes JSON.
use vstd::prelude::*;

use crate::snapshots::SnapshotMap;

verus! {

use vstd::string::StringExecFns;

/// Per-project editor and backup settings, overwritten wholesale on save.
#[derive(Debug, Clone, PartialEq, Eq)]
pub struct ProjectSettings {
    pub auto_save_interval: u32,
    pub auto_commit_threshold: u32,
    pub backup_enabled: bool,
    pub backup_interval: u32,
    pub editor_theme: String,
    pub font_size: u32,
    pub line_height: u32,
    pub font_family: String,
}

impl Default for ProjectSettings {
    fn default() -> (r: Self)
        ensures
            r.auto_save_interval == 5,
            r.auto_commit_threshold == 50,
            r.backup_enabled,
            r.backup_interval == 24,
            r.editor_theme@ == "focus-writing"@,
            r.font_size == 14,
            r.line_height == 24,
            r.font_family@ == "'JetBrains Mono', 'Fira Code', 'Monaco', 'Consolas', monospace"@,
    {
        (ProjectSettings {
            auto_save_interval: 5,
            auto_commit_threshold: 50,
            backup_enabled: true,
            backup_interval: 24,
            editor_theme: String::from_str("focus-writing"),
            font_size: 14,
            line_height: 24,
            font_family: String::from_str(
                "'JetBrains Mono', 'Fira Code', 'Monaco', 'Consolas', monospace",
            ),
        })
    }
}

/// Identity and metadata of one project; doubles as the contents of its
/// `config.json`.
#[derive(Debug, Clone, PartialEq, Eq)]
pub struct ProjectConfig {
    pub id: String,
    pub name: String,
    pub description: String,
    pub created_at: i64,
    pub last_modified: i64,
    pub version: String,
    pub author: String,
    pub settings: ProjectSettings,
}

/// Metadata of a project's single document body.
#[derive(Debug, Clone, PartialEq, Eq)]
pub struct DocumentMetadata {
    pub id: String,
    pub title: String,
    pub created_at: i64,
    pub last_modified: i64,
    pub word_count: u32,
    pub character_count: u32,
    pub line_count: u32,
    pub tags: Vec<String>,
}

/// One entry of a project's commit history.
#[derive(Debug, Clone, PartialEq, Eq)]
pub struct CommitInfo {
    pub id: String,
    pub timestamp: i64,
    pub message: String,
    pub is_auto_commit: bool,
    pub document_hash: String,
    pub word_count: u32,
    pub character_count: u32,
}

/// Per-book settings, analogous to [`ProjectSettings`].
#[derive(Debug, Clone, PartialEq, Eq)]
pub struct BookSettings {
    pub outline_enabled: bool,
    pub timeline_enabled: bool,
    pub auto_save_interval: u32,
    pub target_word_count: Option<u32>,
    pub deadline: Option<i64>,
    pub editor_theme: String,
    pub font_size: u32,
    pub line_height: u32,
    pub font_family: String,
}

impl Default for BookSettings {
    fn default() -> (r: Self)
        ensures
            r.outline_enabled,
            r.timeline_enabled,
            r.auto_save_interval == 5,
            r.target_word_count is None,
            r.deadline is None,
            r.editor_theme@ == "focus-writing"@,
            r.font_size == 14,
            r.line_height == 24,
            r.font_family@ == "'JetBrains Mono', 'Fira Code', 'Monaco', 'Consolas', monospace"@,
    {
        (BookSettings {
            outline_enabled: true,
            timeline_enabled: true,
            auto_save_interval: 5,
            target_word_count: None,
            deadline: None,
            editor_theme: String::from_str("focus-writing"),
            font_size: 14,
            line_height: 24,
            font_family: String::from_str(
                "'JetBrains Mono', 'Fira Code', 'Monaco', 'Consolas', monospace",
            ),
        })
    }
}

/// Identity and metadata of one book; the contents of its `config.json`.
#[derive(Debug, Clone, PartialEq, Eq)]
pub struct BookConfig {
    pub id: String,
    pub name: String,
    pub description: String,
    pub author: String,
    pub genre: String,
    pub created_at: i64,
    pub last_modified: i64,
    pub cover_image: Option<String>,
    pub tags: Vec<String>,
    pub settings: BookSettings,
}

/// Descriptor of one document inside a book. `order` is a 1-based insertion
/// sequence that is never renumbered on deletion.
#[derive(Debug, Clone, PartialEq, Eq)]
pub struct DocumentConfig {
    pub id: String,
    pub book_id: String,
    pub title: String,
    pub order: u32,
    pub doc_type: String,
    pub created_at: i64,
    pub last_modified: i64,
    pub word_count: u32,
    pub character_count: u32,
    pub status: String,
}

/// A book: its config, the ordered list of its documents, and the id of the
/// currently open document, if any.
#[derive(Debug, Clone, PartialEq, Eq)]
pub struct BookData {
    pub config: BookConfig,
    pub documents: Vec<DocumentConfig>,
    pub current_document_id: Option<String>,
}

/// A project: its config, its single document body with metadata, its
/// commit history, and the snapshot text stored per commit.
#[derive(Debug, Clone, PartialEq, Eq)]
pub struct ProjectData {
    pub config: ProjectConfig,
    pub document_content: String,
    pub document_metadata: DocumentMetadata,
    pub commits: Vec<CommitInfo>,
    pub commit_data: SnapshotMap,
}

/// Why a store operation failed.
#[derive(Debug, Clone, PartialEq, Eq)]
pub enum StoreError {
    /// The referenced id has no backing directory.
    NotFound(String),
    /// A directory or file could not be created, read, or written.
    Io(String),
    /// A required JSON file exists but does not deserialize to its shape.
    Parse(String),
}

/// The outcome of reading and decoding one on-disk artifact, as the I/O
/// layer reports it to the store's load policies.
#[derive(Debug)]
pub enum Loaded<T> {
    /// The file does not exist.
    Missing,
    /// The file exists but could not be read.
    Unreadable,
    /// The file was read but does not parse to the expected shape.
    Malformed,
    /// The file was read and decoded.
    Value(T),
}

/// Typed contents of one file a store operation writes. The I/O layer
/// encodes the structured variants as pretty-printed JSON.
#[derive(Debug, Clone, PartialEq, Eq)]
pub enum FilePayload {
    /// Raw text, written as-is.
    Text(String),
    /// A project's `config.json`.
    ProjectConfigFile(ProjectConfig),
    /// A project's `metadata.json`.
    MetadataFile(DocumentMetadata),
    /// A project's `commits.json`.
    CommitListFile(Vec<CommitInfo>),
    /// A book's `config.json`.
    BookConfigFile(BookConfig),
    /// A book's `documents.json`.
    DocumentListFile(Vec<DocumentConfig>),
    /// A document's own `metadata.json` inside a book.
    DocumentConfigFile(DocumentConfig),
}

/// One filesystem action of a write plan. Paths are segment lists relative
/// to the store root; the I/O layer joins and performs them in plan order.
#[derive(Debug, Clone, PartialEq, Eq)]
pub enum FsOp {
    /// Create the directory and any missing parents; succeed if it exists.
    MakeDir(Vec<String>),
    /// Create or overwrite the file with the payload.
    WriteFile(Vec<String>, FilePayload),
}

/// `op` creates the directory at `path`.
pub open spec fn op_mkdir(op: FsOp, path: Seq<Seq<char>>) -> bool {
    op matches FsOp::MakeDir(p) && p.deep_view() == path
}

/// `op` writes the raw text `text` at `path`.
pub open spec fn op_text(op: FsOp, path: Seq<Seq<char>>, text: Seq<char>) -> bool {
    op matches FsOp::WriteFile(p, FilePayload::Text(t)) && p.deep_view() == path && t@ == text
}

/// `op` writes the project config `c` at `path`.
pub open spec fn op_project_config(op: FsOp, path: Seq<Seq<char>>, c: ProjectConfig) -> bool {
    op matches FsOp::WriteFile(p, FilePayload::ProjectConfigFile(w)) && p.deep_view() == path
        && w == c
}

/// `op` writes the document metadata `m` at `path`.
pub open spec fn op_metadata(op: FsOp, path: Seq<Seq<char>>, m: DocumentMetadata) -> bool {
    op matches FsOp::WriteFile(p, FilePayload::MetadataFile(w)) && p.deep_view() == path
        && same_metadata(w, m)
}

/// `op` writes the commit list `commits` at `path`.
pub open spec fn op_commit_list(op: FsOp, path: Seq<Seq<char>>, commits: Seq<CommitInfo>) -> bool {
    op matches FsOp::WriteFile(p, FilePayload::CommitListFile(w)) && p.deep_view() == path
        && w@ == commits
}

/// `op` writes the book config `c` at `path`.
pub open spec fn op_book_config(op: FsOp, path: Seq<Seq<char>>, c: BookConfig) -> bool {
    op matches FsOp::WriteFile(p, FilePayload::BookConfigFile(w)) && p.deep_view() == path
        && same_book_config(w, c)
}

/// `op` writes the document list `docs` at `path`.
pub open spec fn op_document_list(op: FsOp, path: Seq<Seq<char>>, docs: Seq<DocumentConfig>) -> bool {
    op matches FsOp::WriteFile(p, FilePayload::DocumentListFile(w)) && p.deep_view() == path
        && w@ == docs
}

/// `op` writes the document descriptor `d` at `path`.
pub open spec fn op_document_config(op: FsOp, path: Seq<Seq<char>>, d: DocumentConfig) -> bool {
    op matches FsOp::WriteFile(p, FilePayload::DocumentConfigFile(w)) && p.deep_view() == path
        && w == d
}

/// Field-wise equality of document metadata (its tag list compared by
/// contents).
pub open spec fn same_metadata(a: DocumentMetadata, b: DocumentMetadata) -> bool {
    a.id == b.id && a.title == b.title && a.created_at == b.created_at && a.last_modified
        == b.last_modified && a.word_count == b.word_count && a.character_count
        == b.character_count && a.line_count == b.line_count && a.tags@ == b.tags@
}

/// Field-wise equality of book configs (the tag list compared by contents).
pub open spec fn same_book_config(a: BookConfig, b: BookConfig) -> bool {
    a.id == b.id && a.name == b.name && a.description == b.description && a.author == b.author
        && a.genre == b.genre && a.created_at == b.created_at && a.last_modified == b.last_modified
        && a.cover_image == b.cover_image && a.tags@ == b.tags@ && a.settings == b.settings
}

/// Field-wise equality of books: equal configs, equal document lists, and
/// the same current-document pointer.
pub open spec fn same_book(a: BookData, b: BookData) -> bool {
    same_book_config(a.config, b.config) && a.documents@ == b.documents@
        && a.current_document_id == b.current_document_id
}

/// `s` holds the settings a fresh project is given.
pub open spec fn is_default_project_settings(s: ProjectSettings) -> bool {
    s.auto_save_interval == 5 && s.auto_commit_threshold == 50 && s.backup_enabled
        && s.backup_interval == 24 && s.editor_theme@ == "focus-writing"@ && s.font_size == 14
        && s.line_height == 24 && s.font_family@
        == "'JetBrains Mono', 'Fira Code', 'Monaco', 'Consolas', monospace"@
}

/// `s` holds the settings a fresh book is given.
pub open spec fn is_default_book_settings(s: BookSettings) -> bool {
    s.outline_enabled && s.timeline_enabled && s.auto_save_interval == 5 && s.target_word_count
        is None && s.deadline is None && s.editor_theme@ == "focus-writing"@ && s.font_size == 14
        && s.line_height == 24 && s.font_family@
        == "'JetBrains Mono', 'Fira Code', 'Monaco', 'Consolas', monospace"@
}

/// Copies a string list element by element.
pub fn dup_strings(v: &Vec<String>) -> (r: Vec<String>)
    ensures
        r@ == v@,
{
    let mut r: Vec<String> = Vec::new();
    let n = v.len();
    let mut i: usize = 0;
    while i < n
        invariant
            0 <= i <= n,
            n == v@.len(),
            r@ =~= v@.take(i as int),
        decreases n - i,
    {
        r.push(v[i].clone());
        i = i + 1;
    }
    proof {
        assert(r@ =~= v@);
    }
    r
}

/// Copies an optional string.
pub fn dup_opt_string(v: &Option<String>) -> (r: Option<String>)
    ensures
        r == *v,
{
    match v {
        Some(s) => Some(s.clone()),
        None => None,
    }
}

impl ProjectSettings {
    /// An exact copy.
    pub fn duplicate(&self) -> (r: Self)
        ensures
            r == *self,
    {
        (ProjectSettings {
            auto_save_interval: self.auto_save_interval,
            auto_commit_threshold: self.auto_commit_threshold,
            backup_enabled: self.backup_enabled,
            backup_interval: self.backup_interval,
            editor_theme: self.editor_theme.clone(),
            font_size: self.font_size,
            line_height: self.line_height,
            font_family: self.font_family.clone(),
        })
    }
}

impl ProjectConfig {
    /// An exact copy.
    pub fn duplicate(&self) -> (r: Self)
        ensures
            r == *self,
    {
        (ProjectConfig {
            id: self.id.clone(),
            name: self.name.clone(),
            description: self.description.clone(),
            created_at: self.created_at,
            last_modified: self.last_modified,
            version: self.version.clone(),
            author: self.author.clone(),
            settings: self.settings.duplicate(),
        })
    }
}

impl DocumentMetadata {
    /// A copy equal in every field, the tag list by contents.
    pub fn duplicate(&self) -> (r: Self)
        ensures
            same_metadata(r, *self),
    {
        (DocumentMetadata {
            id: self.id.clone(),
            title: self.title.clone(),
            created_at: self.created_at,
            last_modified: self.last_modified,
            word_count: self.word_count,
            character_count: self.character_count,
            line_count: self.line_count,
            tags: dup_strings(&self.tags),
        })
    }
}

impl CommitInfo {
    /// An exact copy.
    pub fn duplicate(&self) -> (r: Self)
        ensures
            r == *self,
    {
        (CommitInfo {
            id: self.id.clone(),
            timestamp: self.timestamp,
            message: self.message.clone(),
            is_auto_commit: self.is_auto_commit,
            document_hash: self.document_hash.clone(),
            word_count: self.word_count,
            character_count: self.character_count,
        })
    }
}

impl BookSettings {
    /// An exact copy.
    pub fn duplicate(&self) -> (r: Self)
        ensures
            r == *self,
    {
        (BookSettings {
            outline_enabled: self.outline_enabled,
            timeline_enabled: self.timeline_enabled,
            auto_save_interval: self.auto_save_interval,
            target_word_count: self.target_word_count,
            deadline: self.deadline,
            editor_theme: self.editor_theme.clone(),
            font_size: self.font_size,
            line_height: self.line_height,
            font_family: self.font_family.clone(),
        })
    }
}

impl BookConfig {
    /// A copy equal in every field, the tag list by contents.
    pub fn duplicate(&self) -> (r: Self)
        ensures
            same_book_config(r, *self),
    {
        (BookConfig {
            id: self.id.clone(),
            name: self.name.clone(),
            description: self.description.clone(),
            author: self.author.clone(),
            genre: self.genre.clone(),
            created_at: self.created_at,
            last_modified: self.last_modified,
            cover_image: dup_opt_string(&self.cover_image),
            tags: dup_strings(&self.tags),
            settings: self.settings.duplicate(),
        })
    }
}

impl DocumentConfig {
    /// An exact copy.
    pub fn duplicate(&self) -> (r: Self)
        ensures
            r == *self,
    {
        (DocumentConfig {
            id: self.id.clone(),
            book_id: self.book_id.clone(),
            title: self.title.clone(),
            order: self.order,
            doc_type: self.doc_type.clone(),
            created_at: self.created_at,
            last_modified: self.last_modified,
            word_count: self.word_count,
            character_count: self.character_count,
            status: self.status.clone(),
        })
    }
}

/// Copies a commit list element by element.
pub fn dup_commits(v: &Vec<CommitInfo>) -> (r: Vec<CommitInfo>)
    ensures
        r@ == v@,
{
    let mut r: Vec<CommitInfo> = Vec::new();
    let n = v.len();
    let mut i: usize = 0;
    while i < n
        invariant
            0 <= i <= n,
            n == v@.len(),
            r@ =~= v@.take(i as int),
        decreases n - i,
    {
        r.push(v[i].duplicate());
        i = i + 1;
    }
    proof {
        assert(r@ =~= v@);
    }
    r
}

/// Copies a document list element by element.
pub fn dup_documents(v: &Vec<DocumentConfig>) -> (r: Vec<DocumentConfig>)
    ensures
        r@ == v@,
{
    let mut r: Vec<DocumentConfig> = Vec::new();
    let n = v.len();
    let mut i: usize = 0;
    while i < n
        invariant
            0 <= i <= n,
            n == v@.len(),
            r@ =~= v@.take(i as int),
        decreases n - i,
    {
        r.push(v[i].duplicate());
        i = i + 1;
    }
    proof {
        assert(r@ =~= v@);
    }
    r
}

} // verus!

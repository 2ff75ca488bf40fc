//! Book and book-scoped document operations: creation, the save plan, the
//! load policy, listing, and the two-entity document mutations.
//!
//! Creating or deleting a document touches both the document's own files
//! and the parent book's document list, own files first; true atomicity
//! across the two would need a write-ahead log or staging plus rename,
//! which is out of scope for this store.
use vstd::prelude::*;

use crate::clock::now_unix;
use crate::ids::fresh_uuid;
use crate::store::FileSystemManager;
use crate::store::removal_plan_ok;
use crate::text::count_bytes;
use crate::text::count_words;
use crate::text::word_count;
use crate::types::BookConfig;
use crate::types::BookData;
use crate::types::BookSettings;
use crate::types::DocumentConfig;
use crate::types::FilePayload;
use crate::types::FsOp;
use crate::types::Loaded;
use crate::types::StoreError;
use crate::types::dup_documents;
use crate::types::is_default_book_settings;
use crate::types::op_book_config;
use crate::types::op_document_config;
use crate::types::op_document_list;
use crate::types::op_mkdir;
use crate::types::op_text;
use crate::project::sub_path;

verus! {

use vstd::string::StringExecFns;
use vstd::string::StringSliceAdditionalSpecFns;
use vstd::seq_lib::to_multiset_insert;
use vstd::seq_lib::to_multiset_build;
use vstd::multiset::Multiset;

/// The write plan of one book save: config and document list always, the
/// current-document marker only while one is set. A cleared pointer leaves
/// any previously written marker file stale on disk; its absence therefore
/// cannot be read as "unset".
pub open spec fn book_save_plan(m: FileSystemManager, b: BookData, ops: Seq<FsOp>) -> bool {
    let dir = m.book_dir_path(b.config.id@);
    &&& op_book_config(ops[0], dir.push("config.json"@), b.config)
    &&& op_document_list(ops[1], dir.push("documents.json"@), b.documents@)
    &&& match b.current_document_id {
        Some(id) => ops.len() == 3 && op_text(ops[2], dir.push("current_document.txt"@), id@),
        None => ops.len() == 2,
    }
}

/// The tail of the book load policy once config and document list are in
/// hand: a missing marker file means no current document, an unreadable one
/// is an I/O error.
pub open spec fn book_ok_core(
    r: Result<BookData, StoreError>,
    c: BookConfig,
    docs: Seq<DocumentConfig>,
    current: Loaded<String>,
) -> bool {
    match current {
        Loaded::Missing => r matches Ok(d) && d.config == c && d.documents@ == docs
            && d.current_document_id is None,
        Loaded::Value(s) => r matches Ok(d) && d.config == c && d.documents@ == docs
            && d.current_document_id == Some(s),
        _ => r matches Err(StoreError::Io(m)) && m@ == "Failed to read current document ID"@,
    }
}

/// The load policy of one book: no directory is `NotFound`; the config is
/// required; a missing document list degrades to an empty one.
pub open spec fn load_book_post(
    id: Seq<char>,
    dir_exists: bool,
    config: Loaded<BookConfig>,
    documents: Loaded<Vec<DocumentConfig>>,
    current: Loaded<String>,
    r: Result<BookData, StoreError>,
) -> bool {
    if !dir_exists {
        r matches Err(StoreError::NotFound(m)) && m@ == id
    } else {
        match config {
            Loaded::Missing => r matches Err(StoreError::Io(m)) && m@
                == "Failed to read book config"@,
            Loaded::Unreadable => r matches Err(StoreError::Io(m)) && m@
                == "Failed to read book config"@,
            Loaded::Malformed => r matches Err(StoreError::Parse(m)) && m@
                == "Failed to parse book config"@,
            Loaded::Value(c) => match documents {
                Loaded::Unreadable => r matches Err(StoreError::Io(m)) && m@
                    == "Failed to read documents list"@,
                Loaded::Malformed => r matches Err(StoreError::Parse(m)) && m@
                    == "Failed to parse documents list"@,
                Loaded::Missing => book_ok_core(r, c, Seq::<DocumentConfig>::empty(), current),
                Loaded::Value(ds) => book_ok_core(r, c, ds@, current),
            },
        }
    }
}

/// The configs among `s` that were read and parsed.
pub open spec fn kept_book_configs(s: Seq<Loaded<BookConfig>>) -> Seq<BookConfig>
    decreases s.len(),
{
    if s.len() == 0 {
        Seq::<BookConfig>::empty()
    } else {
        let rest = kept_book_configs(s.drop_last());
        match s.last() {
            Loaded::Value(c) => rest.push(c),
            _ => rest,
        }
    }
}

/// `s` is ordered by `last_modified`, most recent first.
pub open spec fn books_sorted_by_modified_desc(s: Seq<BookConfig>) -> bool {
    forall|i: int, j: int| 0 <= i < j < s.len() ==> s[i].last_modified >= s[j].last_modified
}

/// The documents of `s` other than the one with id `id`, in order.
pub open spec fn kept_documents(s: Seq<DocumentConfig>, id: Seq<char>) -> Seq<DocumentConfig>
    decreases s.len(),
{
    if s.len() == 0 {
        Seq::<DocumentConfig>::empty()
    } else {
        let rest = kept_documents(s.drop_last(), id);
        if s.last().id@ == id {
            rest
        } else {
            rest.push(s.last())
        }
    }
}

/// The save policy for one document body: the text is always written; if
/// its metadata was on disk the counts and modification time are recomputed
/// and rewritten, if it was absent the text alone is saved, and a present
/// but unreadable or malformed metadata file fails the save. The new
/// modification time is the wall clock of the call, so nothing further is
/// stated of it.
pub open spec fn save_document_post(
    content: &str,
    metadata: Loaded<DocumentConfig>,
    r: Result<(String, Option<DocumentConfig>), StoreError>,
) -> bool {
    match metadata {
        Loaded::Missing => r matches Ok((t, om)) && t@ == content@ && om is None,
        Loaded::Unreadable => r matches Err(StoreError::Io(m)) && m@
            == "Failed to read document metadata"@,
        Loaded::Malformed => r matches Err(StoreError::Parse(m)) && m@
            == "Failed to parse document metadata"@,
        Loaded::Value(c) => r matches Ok((t, Some(c2))) && t@ == content@ && c2.id == c.id
            && c2.book_id == c.book_id && c2.title == c.title && c2.order == c.order && c2.doc_type
            == c.doc_type && c2.created_at == c.created_at && c2.status == c.status
            && c2.word_count == word_count(content@) && c2.character_count
            == content.spec_bytes().len(),
    }
}

/// The load policy for one document body: a missing content file reads as
/// empty text, not as an error.
pub open spec fn load_document_post(
    content: Loaded<String>,
    r: Result<String, StoreError>,
) -> bool {
    match content {
        Loaded::Missing => r matches Ok(t) && t@ == Seq::<char>::empty(),
        Loaded::Value(s) => r matches Ok(t) && t == s,
        _ => r matches Err(StoreError::Io(m)) && m@ == "Failed to read document content"@,
    }
}

impl FileSystemManager {
    /// Builds a fresh book: a new id, matching creation and modification
    /// times, default settings, no documents and no current document. The
    /// I/O layer creates the book directory and its `documents/` subtree
    /// and then runs the save plan.
    pub fn create_book(&self, name: &str, description: &str, author: &str, genre: &str) -> (r:
        BookData)
        ensures
            r.config.name@ == name@,
            r.config.description@ == description@,
            r.config.author@ == author@,
            r.config.genre@ == genre@,
            r.config.created_at == r.config.last_modified,
            r.config.cover_image is None,
            r.config.tags@ == Seq::<String>::empty(),
            is_default_book_settings(r.config.settings),
            r.config.id@.len() == 36,
            r.documents@ == Seq::<DocumentConfig>::empty(),
            r.current_document_id is None,
    {
        let book_id = fresh_uuid();
        let now = now_unix();
        let config = BookConfig {
            id: book_id,
            name: String::from_str(name),
            description: String::from_str(description),
            author: String::from_str(author),
            genre: String::from_str(genre),
            created_at: now,
            last_modified: now,
            cover_image: None,
            tags: Vec::new(),
            settings: BookSettings::default(),
        };
        let r = BookData { config, documents: Vec::new(), current_document_id: None };
        proof {
            assert(r.config.tags@ =~= Seq::<String>::empty());
            assert(r.documents@ =~= Seq::<DocumentConfig>::empty());
        }
        r
    }

    /// The write plan that persists `b`, as [`book_save_plan`] describes.
    pub fn save_book(&self, b: &BookData) -> (ops: Vec<FsOp>)
        ensures
            book_save_plan(*self, *b, ops@),
    {
        let dir = self.book_dir(b.config.id.as_str());
        let mut ops: Vec<FsOp> = Vec::new();
        ops.push(
            FsOp::WriteFile(
                sub_path(&dir, "config.json"),
                FilePayload::BookConfigFile(b.config.duplicate()),
            ),
        );
        ops.push(
            FsOp::WriteFile(
                sub_path(&dir, "documents.json"),
                FilePayload::DocumentListFile(dup_documents(&b.documents)),
            ),
        );
        match &b.current_document_id {
            Some(id) => {
                ops.push(
                    FsOp::WriteFile(
                        sub_path(&dir, "current_document.txt"),
                        FilePayload::Text(id.clone()),
                    ),
                );
            },
            None => {},
        }
        ops
    }

    /// Assembles a book from what was found on its directory, as
    /// [`load_book_post`] describes.
    pub fn load_book(
        &self,
        book_id: &str,
        dir_exists: bool,
        config: Loaded<BookConfig>,
        documents: Loaded<Vec<DocumentConfig>>,
        current: Loaded<String>,
    ) -> (r: Result<BookData, StoreError>)
        ensures
            load_book_post(book_id@, dir_exists, config, documents, current, r),
    {
        if !dir_exists {
            return Err(StoreError::NotFound(String::from_str(book_id)));
        }
        let c = match config {
            Loaded::Missing => {
                return Err(StoreError::Io(String::from_str("Failed to read book config")));
            },
            Loaded::Unreadable => {
                return Err(StoreError::Io(String::from_str("Failed to read book config")));
            },
            Loaded::Malformed => {
                return Err(StoreError::Parse(String::from_str("Failed to parse book config")));
            },
            Loaded::Value(c) => c,
        };
        let ds = match documents {
            Loaded::Unreadable => {
                return Err(StoreError::Io(String::from_str("Failed to read documents list")));
            },
            Loaded::Malformed => {
                return Err(StoreError::Parse(String::from_str("Failed to parse documents list")));
            },
            Loaded::Missing => {
                let empty: Vec<DocumentConfig> = Vec::new();
                proof {
                    assert(empty@ =~= Seq::<DocumentConfig>::empty());
                }
                empty
            },
            Loaded::Value(ds) => ds,
        };
        let current_document_id = match current {
            Loaded::Missing => None,
            Loaded::Value(s) => Some(s),
            _ => {
                return Err(
                    StoreError::Io(String::from_str("Failed to read current document ID")),
                );
            },
        };
        Ok(BookData { config: c, documents: ds, current_document_id })
    }

    /// Lists the books whose configs could be read, most recently modified
    /// first. A corrupt entry is skipped, never an error.
    pub fn list_books(&self, entries: Vec<Loaded<BookConfig>>) -> (r: Vec<BookConfig>)
        ensures
            books_sorted_by_modified_desc(r@),
            r@.to_multiset() == kept_book_configs(entries@).to_multiset(),
    {
        let ghost all = entries@;
        let mut stack = entries;
        let mut r: Vec<BookConfig> = Vec::new();
        proof {
            broadcast use vstd::seq_lib::group_to_multiset_ensures;
            broadcast use vstd::multiset::group_multiset_axioms;

            assert(r@.to_multiset() =~= Multiset::<BookConfig>::empty());
            assert(kept_book_configs(all).to_multiset() =~= kept_book_configs(
                stack@,
            ).to_multiset().add(r@.to_multiset()));
        }
        loop
            invariant
                books_sorted_by_modified_desc(r@),
                kept_book_configs(all).to_multiset() == kept_book_configs(
                    stack@,
                ).to_multiset().add(r@.to_multiset()),
            ensures
                stack@.len() == 0,
                books_sorted_by_modified_desc(r@),
                kept_book_configs(all).to_multiset() == kept_book_configs(
                    stack@,
                ).to_multiset().add(r@.to_multiset()),
            decreases stack@.len(),
        {
            let ghost pre_stack = stack@;
            let e = match stack.pop() {
                Some(e) => e,
                None => {
                    break ;
                },
            };
            proof {
                assert(pre_stack.drop_last() =~= stack@);
            }
            match e {
                Loaded::Value(c) => {
                    let mut j: usize = 0;
                    let len = r.len();
                    while j < len && r[j].last_modified > c.last_modified
                        invariant
                            0 <= j <= len,
                            len == r@.len(),
                            forall|k: int|
                                0 <= k < j ==> (#[trigger] r@[k]).last_modified > c.last_modified,
                        decreases len - j,
                    {
                        j = j + 1;
                    }
                    let ghost pre_r = r@;
                    r.insert(j, c);
                    proof {
                        broadcast use vstd::multiset::group_multiset_axioms;

                        assert(forall|k: int| 0 <= k < j ==> r@[k] == pre_r[k]);
                        assert(r@[j as int] == c);
                        assert(forall|k: int| j < k < r@.len() ==> r@[k] == pre_r[k - 1]);
                        assert(books_sorted_by_modified_desc(r@));
                        assert(kept_book_configs(pre_stack) =~= kept_book_configs(stack@).push(c));
                        to_multiset_build::<BookConfig>(kept_book_configs(stack@), c);
                        assert(kept_book_configs(pre_stack).to_multiset() =~= kept_book_configs(
                            stack@,
                        ).to_multiset().insert(c));
                        assert(r@ == pre_r.insert(j as int, c));
                        to_multiset_insert::<BookConfig>(pre_r, j as int, c);
                        assert(r@.to_multiset() =~= pre_r.to_multiset().insert(c));
                        assert(kept_book_configs(stack@).to_multiset().insert(c).add(
                            pre_r.to_multiset(),
                        ) =~= kept_book_configs(stack@).to_multiset().add(
                            pre_r.to_multiset().insert(c),
                        ));
                    }
                },
                _ => {
                    proof {
                        assert(kept_book_configs(pre_stack) =~= kept_book_configs(stack@));
                    }
                },
            }
        }
        proof {
            broadcast use vstd::multiset::group_multiset_axioms;

            assert(kept_book_configs(stack@) =~= Seq::<BookConfig>::empty());
            assert(kept_book_configs(stack@).to_multiset() =~= Multiset::<BookConfig>::empty());
            assert(kept_book_configs(all).to_multiset() =~= r@.to_multiset());
        }
        r
    }

    /// Builds a fresh document of `book` and appends it to the book's list:
    /// the order value is one past the current document count and is never
    /// renumbered later. The I/O layer writes the document's own files
    /// first ([`Self::document_create_ops`]) and then re-saves the book.
    pub fn create_document(&self, book: &mut BookData, title: &str, doc_type: &str) -> (r:
        DocumentConfig)
        requires
            old(book).documents@.len() + 1 <= u32::MAX,
        ensures
            r.id@.len() == 36,
            r.book_id == old(book).config.id,
            r.title@ == title@,
            r.order == old(book).documents@.len() + 1,
            r.doc_type@ == doc_type@,
            r.created_at == r.last_modified,
            r.word_count == 0,
            r.character_count == 0,
            r.status@ == "draft"@,
            final(book).config == old(book).config,
            final(book).documents@ == old(book).documents@.push(r),
            final(book).current_document_id == old(book).current_document_id,
    {
        let document_id = fresh_uuid();
        let now = now_unix();
        let next_order = book.documents.len() as u32 + 1;
        let r = DocumentConfig {
            id: document_id,
            book_id: book.config.id.clone(),
            title: String::from_str(title),
            order: next_order,
            doc_type: String::from_str(doc_type),
            created_at: now,
            last_modified: now,
            word_count: 0,
            character_count: 0,
            status: String::from_str("draft"),
        };
        book.documents.push(r.duplicate());
        r
    }

    /// The write plan for a freshly created document's own files: its
    /// directory, an empty content file, its metadata, and the reserved
    /// `commits/` subdirectory.
    pub fn document_create_ops(&self, doc: &DocumentConfig) -> (ops: Vec<FsOp>)
        ensures
            ops@.len() == 4,
            op_mkdir(ops@[0], self.document_dir_path(doc.book_id@, doc.id@)),
            op_text(
                ops@[1],
                self.document_dir_path(doc.book_id@, doc.id@).push("content.md"@),
                Seq::<char>::empty(),
            ),
            op_document_config(
                ops@[2],
                self.document_dir_path(doc.book_id@, doc.id@).push("metadata.json"@),
                *doc,
            ),
            op_mkdir(ops@[3], self.document_dir_path(doc.book_id@, doc.id@).push("commits"@)),
    {
        let dir = self.document_dir(doc.book_id.as_str(), doc.id.as_str());
        let mut ops: Vec<FsOp> = Vec::new();
        ops.push(FsOp::MakeDir(crate::types::dup_strings(&dir)));
        ops.push(FsOp::WriteFile(sub_path(&dir, "content.md"), FilePayload::Text(String::new())));
        ops.push(
            FsOp::WriteFile(
                sub_path(&dir, "metadata.json"),
                FilePayload::DocumentConfigFile(doc.duplicate()),
            ),
        );
        ops.push(FsOp::MakeDir(sub_path(&dir, "commits")));
        ops
    }

    /// The text of one document body as read from disk, as
    /// [`load_document_post`] describes.
    pub fn load_document(&self, content: Loaded<String>) -> (r: Result<String, StoreError>)
        ensures
            load_document_post(content, r),
    {
        match content {
            Loaded::Missing => Ok(String::new()),
            Loaded::Value(s) => Ok(s),
            _ => Err(StoreError::Io(String::from_str("Failed to read document content"))),
        }
    }

    /// Recomputes a document's counts for a content save, as
    /// [`save_document_post`] describes: the returned pair is the text to
    /// write and the rewritten metadata, if metadata was on disk.
    pub fn save_document(&self, content: &str, metadata: Loaded<DocumentConfig>) -> (r: Result<
        (String, Option<DocumentConfig>),
        StoreError,
    >)
        requires
            content@.len() <= u32::MAX,
            content.spec_bytes().len() <= u32::MAX,
        ensures
            save_document_post(content, metadata, r),
    {
        let text = String::from_str(content);
        match metadata {
            Loaded::Missing => Ok((text, None)),
            Loaded::Unreadable => Err(
                StoreError::Io(String::from_str("Failed to read document metadata")),
            ),
            Loaded::Malformed => Err(
                StoreError::Parse(String::from_str("Failed to parse document metadata")),
            ),
            Loaded::Value(c) => {
                let mut c2 = c;
                c2.last_modified = now_unix();
                c2.character_count = count_bytes(content);
                c2.word_count = count_words(content);
                Ok((text, Some(c2)))
            },
        }
    }

    /// The stored document list of `book`, its own list being the source of
    /// truth rather than a directory scan.
    pub fn list_documents(&self, book: &BookData) -> (r: Vec<DocumentConfig>)
        ensures
            r@ == book.documents@,
    {
        dup_documents(&book.documents)
    }

    /// Removes document `document_id` from `book`: names the document
    /// directory to remove if it exists, drops the matching entry from the
    /// book's list without renumbering the rest, and clears the current
    /// document pointer if it pointed at the removed document. The I/O
    /// layer removes the directory and then re-saves the book.
    pub fn delete_document(&self, book: &mut BookData, document_id: &str, dir_exists: bool) -> (r:
        Option<Vec<String>>)
        ensures
            removal_plan_ok(
                self.document_dir_path(old(book).config.id@, document_id@),
                dir_exists,
                r,
            ),
            final(book).config == old(book).config,
            final(book).documents@ == kept_documents(old(book).documents@, document_id@),
            final(book).current_document_id == (match old(book).current_document_id {
                Some(c) => if c@ == document_id@ {
                    None
                } else {
                    Some(c)
                },
                None => None::<String>,
            }),
    {
        let plan = if dir_exists {
            Some(self.document_dir(book.config.id.as_str(), document_id))
        } else {
            None
        };
        let target = String::from_str(document_id);
        let n = book.documents.len();
        let mut kept: Vec<DocumentConfig> = Vec::new();
        let mut i: usize = 0;
        proof {
            assert(book.documents@.take(0) =~= Seq::<DocumentConfig>::empty());
            assert(kept@ =~= kept_documents(book.documents@.take(0), document_id@));
        }
        while i < n
            invariant
                0 <= i <= n,
                n == book.documents@.len(),
                target@ == document_id@,
                kept@ == kept_documents(book.documents@.take(i as int), document_id@),
            decreases n - i,
        {
            proof {
                assert(book.documents@.take(i + 1).drop_last() =~= book.documents@.take(i as int));
                assert(book.documents@.take(i + 1).last() == book.documents@[i as int]);
            }
            if !(book.documents[i].id == target) {
                kept.push(book.documents[i].duplicate());
            }
            i = i + 1;
        }
        proof {
            assert(book.documents@.take(n as int) =~= book.documents@);
        }
        book.documents = kept;
        let clear = match &book.current_document_id {
            Some(c) => *c == target,
            None => false,
        };
        if clear {
            book.current_document_id = None;
        }
        plan
    }
}

} // verus!

//! Cross-operation guarantees of the store, each proved from the operation
//! contracts alone.
use vstd::prelude::*;

use crate::book::load_book_post;
use crate::book::load_document_post;
use crate::project::load_project_post;
use crate::store::removal_plan_ok;
use crate::types::BookConfig;
use crate::types::BookData;
use crate::types::DocumentConfig;
use crate::types::Loaded;
use crate::types::ProjectData;
use crate::types::StoreError;
use crate::types::same_book;
use crate::types::same_book_config;

verus! {

/// Round trip for projects: a directory that holds exactly what the save
/// plan writes for `p` — its config, document body, metadata, commit list
/// and snapshot table — loads back to `p` itself, equal in every field.
pub proof fn round_trip_project(id: Seq<char>, p: ProjectData, r: Result<ProjectData, StoreError>)
    requires
        load_project_post(
            id,
            true,
            Loaded::Value(p.config),
            Loaded::Value(p.document_content),
            Loaded::Value(p.document_metadata),
            Loaded::Value(p.commits),
            p.commit_data,
            r,
        ),
    ensures
        r matches Ok(d) && d == p,
{
}

/// Round trip for books: a directory that holds exactly what the save plan
/// writes for `b` — a config equal to `b`'s, its document list, and the
/// current-document marker exactly while one is set — loads back to a book
/// equal to `b` in every field.
pub proof fn round_trip_book(
    id: Seq<char>,
    b: BookData,
    c: BookConfig,
    docs: Vec<DocumentConfig>,
    r: Result<BookData, StoreError>,
)
    requires
        same_book_config(c, b.config),
        docs@ == b.documents@,
        load_book_post(
            id,
            true,
            Loaded::Value(c),
            Loaded::Value(docs),
            (match b.current_document_id {
                Some(s) => Loaded::Value(s),
                None => Loaded::Missing,
            }),
            r,
        ),
    ensures
        r matches Ok(d) && same_book(d, b),
{
}

/// Round trip for document bodies: loading a content file that holds
/// exactly the saved text returns that text.
pub proof fn round_trip_document_content(text: String, r: Result<String, StoreError>)
    requires
        load_document_post(Loaded::Value(text), r),
    ensures
        r matches Ok(t) && t == text,
{
}

/// Deleting an entity whose directory is already absent plans no
/// filesystem action and succeeds; since a successful delete removes the
/// directory, a second delete of the same id never errors.
pub proof fn delete_absent_is_noop(dir: Seq<Seq<char>>, r: Option<Vec<String>>)
    requires
        removal_plan_ok(dir, false, r),
    ensures
        r is None,
{
}

} // verus!

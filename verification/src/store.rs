//! The store root: where projects and books live on disk, and the removal
//! policy shared by all three entity kinds.
//!
//! The store is rooted in an application directory under the user's home;
//! every path a store operation touches is built here, as a list of path
//! segments that the I/O layer joins.
use vstd::prelude::*;

use crate::types::dup_strings;

verus! {

use vstd::string::StringExecFns;

/// Computes the fixed storage locations (`projects/` and `books/` subtrees
/// of the application directory) and every entity path beneath them.
pub struct FileSystemManager {
    projects_dir: Vec<String>,
    books_dir: Vec<String>,
}

/// For a directory that exists the removal plan names it; for an absent one
/// the plan is empty, and the operation succeeds without touching disk.
pub open spec fn removal_plan_ok(dir: Seq<Seq<char>>, dir_exists: bool, r: Option<Vec<String>>) -> bool {
    if dir_exists {
        r matches Some(p) && p.deep_view() == dir
    } else {
        r is None
    }
}

impl FileSystemManager {
    /// Where all project directories live.
    pub closed spec fn projects_path(&self) -> Seq<Seq<char>> {
        self.projects_dir.deep_view()
    }

    /// Where all book directories live.
    pub closed spec fn books_path(&self) -> Seq<Seq<char>> {
        self.books_dir.deep_view()
    }

    /// The directory of the project with id `id`.
    pub open spec fn project_dir_path(&self, id: Seq<char>) -> Seq<Seq<char>> {
        self.projects_path().push(id)
    }

    /// The directory of the book with id `id`.
    pub open spec fn book_dir_path(&self, id: Seq<char>) -> Seq<Seq<char>> {
        self.books_path().push(id)
    }

    /// The directory of document `doc_id` inside book `book_id`.
    pub open spec fn document_dir_path(&self, book_id: Seq<char>, doc_id: Seq<char>) -> Seq<
        Seq<char>,
    > {
        self.book_dir_path(book_id).push("documents"@).push(doc_id)
    }

    /// Roots the store under `home`: projects are kept in
    /// `<home>/.branchwrite/projects`, books in `<home>/.branchwrite/books`.
    /// The I/O layer creates both directories before first use.
    pub fn new(home: Vec<String>) -> (r: Self)
        ensures
            r.projects_path() == home.deep_view() + seq![".branchwrite"@, "projects"@],
            r.books_path() == home.deep_view() + seq![".branchwrite"@, "books"@],
    {
        let ghost h = home.deep_view();
        let mut projects_dir = dup_strings(&home);
        projects_dir.push(String::from_str(".branchwrite"));
        projects_dir.push(String::from_str("projects"));
        let mut books_dir = home;
        books_dir.push(String::from_str(".branchwrite"));
        books_dir.push(String::from_str("books"));
        let r = FileSystemManager { projects_dir, books_dir };
        proof {
            assert(r.projects_path() =~= h + seq![".branchwrite"@, "projects"@]);
            assert(r.books_path() =~= h + seq![".branchwrite"@, "books"@]);
        }
        r
    }

    /// The root directory all projects live under, for the I/O layer.
    pub fn projects_root(&self) -> (r: &Vec<String>)
        ensures
            r.deep_view() == self.projects_path(),
    {
        &self.projects_dir
    }

    /// The root directory all books live under, for the I/O layer.
    pub fn books_root(&self) -> (r: &Vec<String>)
        ensures
            r.deep_view() == self.books_path(),
    {
        &self.books_dir
    }

    /// The directory of one project, for the I/O layer.
    pub fn project_dir(&self, id: &str) -> (r: Vec<String>)
        ensures
            r.deep_view() == self.project_dir_path(id@),
    {
        let mut r = dup_strings(&self.projects_dir);
        r.push(String::from_str(id));
        proof {
            assert(r.deep_view() =~= self.project_dir_path(id@));
        }
        r
    }

    /// The directory of one book, for the I/O layer.
    pub fn book_dir(&self, id: &str) -> (r: Vec<String>)
        ensures
            r.deep_view() == self.book_dir_path(id@),
    {
        let mut r = dup_strings(&self.books_dir);
        r.push(String::from_str(id));
        proof {
            assert(r.deep_view() =~= self.book_dir_path(id@));
        }
        r
    }

    /// The directory of one document of a book, for the I/O layer.
    pub fn document_dir(&self, book_id: &str, doc_id: &str) -> (r: Vec<String>)
        ensures
            r.deep_view() == self.document_dir_path(book_id@, doc_id@),
    {
        let mut r = self.book_dir(book_id);
        r.push(String::from_str("documents"));
        r.push(String::from_str(doc_id));
        proof {
            assert(r.deep_view() =~= self.document_dir_path(book_id@, doc_id@));
        }
        r
    }

    /// Names the project directory to remove, if it exists. Removing a
    /// project whose directory is absent is a no-op success.
    pub fn delete_project(&self, project_id: &str, dir_exists: bool) -> (r: Option<Vec<String>>)
        ensures
            removal_plan_ok(self.project_dir_path(project_id@), dir_exists, r),
    {
        if dir_exists {
            Some(self.project_dir(project_id))
        } else {
            None
        }
    }

    /// Names the book directory to remove, if it exists. Removing a book
    /// whose directory is absent is a no-op success.
    pub fn delete_book(&self, book_id: &str, dir_exists: bool) -> (r: Option<Vec<String>>)
        ensures
            removal_plan_ok(self.book_dir_path(book_id@), dir_exists, r),
    {
        if dir_exists {
            Some(self.book_dir(book_id))
        } else {
            None
        }
    }
}

/// One shared store handle per process; the hosting layer wraps it in its
/// own mutual-exclusion guard so store operations stay serialized.
pub struct AppState {
    pub file_manager: FileSystemManager,
}

impl AppState {
    /// A store handle rooted under `home`.
    pub fn new(home: Vec<String>) -> (r: Self)
        ensures
            r.file_manager.projects_path() == home.deep_view() + seq![
                ".branchwrite"@,
                "projects"@,
            ],
            r.file_manager.books_path() == home.deep_view() + seq![".branchwrite"@, "books"@],
    {
        (AppState { file_manager: FileSystemManager::new(home) })
    }
}

} // verus!

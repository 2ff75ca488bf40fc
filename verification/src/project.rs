//! Project operations: creation, the save plan, the load policy, listing,
//! and derived statistics.
//!
//! Saving writes five artifact kinds in a fixed order: config, document
//! body, metadata, commit list, then one snapshot file per commit-data
//! entry. Loading requires config and metadata, degrades a missing body or
//! commit list to empty defaults, and fails on malformed required files.
use vstd::prelude::*;

use crate::clock::now_unix;
use crate::ids::fresh_uuid;
use crate::snapshots::SnapshotMap;
use crate::store::FileSystemManager;
use crate::types::CommitInfo;
use crate::types::DocumentMetadata;
use crate::types::FsOp;
use crate::types::Loaded;
use crate::types::ProjectConfig;
use crate::types::ProjectData;
use crate::types::ProjectSettings;
use crate::types::StoreError;
use crate::types::dup_commits;
use crate::types::dup_strings;
use crate::types::is_default_project_settings;
use crate::types::op_commit_list;
use crate::types::op_metadata;
use crate::types::op_mkdir;
use crate::types::op_project_config;
use crate::types::op_text;

verus! {

use vstd::string::StringExecFns;
use vstd::seq_lib::to_multiset_insert;
use vstd::seq_lib::to_multiset_build;
use vstd::multiset::Multiset;

/// The write plan of one project save: the artifacts, their paths, and
/// their order.
pub open spec fn project_save_plan(m: FileSystemManager, p: ProjectData, ops: Seq<FsOp>) -> bool {
    let dir = m.project_dir_path(p.config.id@);
    &&& ops.len() == 5 + p.commit_data.entry_seq().len()
    &&& op_project_config(ops[0], dir.push("config.json"@), p.config)
    &&& op_text(ops[1], dir.push("document.md"@), p.document_content@)
    &&& op_metadata(ops[2], dir.push("metadata.json"@), p.document_metadata)
    &&& op_commit_list(ops[3], dir.push("commits.json"@), p.commits@)
    &&& op_mkdir(ops[4], dir.push("commit_data"@))
    &&& forall|i: int|
        0 <= i < p.commit_data.entry_seq().len() ==> op_text(
            #[trigger] ops[5 + i],
            dir.push("commit_data"@).push(p.commit_data.entry_seq()[i].0 + ".md"@),
            p.commit_data.entry_seq()[i].1,
        )
}

/// `t` is what a loaded document body denotes: the file's contents when it
/// was read, the empty string when it was missing or unreadable.
pub open spec fn content_matches(content: Loaded<String>, t: String) -> bool {
    match content {
        Loaded::Value(s) => t == s,
        _ => t@ == Seq::<char>::empty(),
    }
}

/// The load policy of one project, relating what was found on disk to the
/// operation's result: no directory is `NotFound`; a missing or unreadable
/// config or metadata is an I/O error and a malformed one a parse error; a
/// missing body or commit list degrades to an empty default.
pub open spec fn load_project_post(
    id: Seq<char>,
    dir_exists: bool,
    config: Loaded<ProjectConfig>,
    content: Loaded<String>,
    metadata: Loaded<DocumentMetadata>,
    commits: Loaded<Vec<CommitInfo>>,
    commit_data: SnapshotMap,
    r: Result<ProjectData, StoreError>,
) -> bool {
    if !dir_exists {
        r matches Err(StoreError::NotFound(m)) && m@ == id
    } else {
        match config {
            Loaded::Missing => r matches Err(StoreError::Io(m)) && m@
                == "Failed to read project config"@,
            Loaded::Unreadable => r matches Err(StoreError::Io(m)) && m@
                == "Failed to read project config"@,
            Loaded::Malformed => r matches Err(StoreError::Parse(m)) && m@
                == "Failed to parse project config"@,
            Loaded::Value(c) => match metadata {
                Loaded::Missing => r matches Err(StoreError::Io(m)) && m@
                    == "Failed to read document metadata"@,
                Loaded::Unreadable => r matches Err(StoreError::Io(m)) && m@
                    == "Failed to read document metadata"@,
                Loaded::Malformed => r matches Err(StoreError::Parse(m)) && m@
                    == "Failed to parse document metadata"@,
                Loaded::Value(dm) => match commits {
                    Loaded::Unreadable => r matches Err(StoreError::Io(m)) && m@
                        == "Failed to read commits"@,
                    Loaded::Malformed => r matches Err(StoreError::Parse(m)) && m@
                        == "Failed to parse commits"@,
                    Loaded::Missing => r matches Ok(d) && d.config == c && content_matches(
                        content,
                        d.document_content,
                    ) && d.document_metadata == dm && d.commits@ == Seq::<CommitInfo>::empty()
                        && d.commit_data == commit_data,
                    Loaded::Value(cs) => r matches Ok(d) && d.config == c && content_matches(
                        content,
                        d.document_content,
                    ) && d.document_metadata == dm && d.commits == cs && d.commit_data
                        == commit_data,
                },
            },
        }
    }
}

/// The configs among `s` that were read and parsed; corrupt or unreadable
/// entries are skipped.
pub open spec fn kept_configs(s: Seq<Loaded<ProjectConfig>>) -> Seq<ProjectConfig>
    decreases s.len(),
{
    if s.len() == 0 {
        Seq::<ProjectConfig>::empty()
    } else {
        let rest = kept_configs(s.drop_last());
        match s.last() {
            Loaded::Value(c) => rest.push(c),
            _ => rest,
        }
    }
}

/// `s` is ordered by `last_modified`, most recent first.
pub open spec fn sorted_by_modified_desc(s: Seq<ProjectConfig>) -> bool {
    forall|i: int, j: int| 0 <= i < j < s.len() ==> s[i].last_modified >= s[j].last_modified
}

/// Commits among `s` that were taken automatically.
pub open spec fn auto_commit_count(s: Seq<CommitInfo>) -> nat
    decreases s.len(),
{
    if s.len() == 0 {
        0
    } else {
        auto_commit_count(s.drop_last()) + if s.last().is_auto_commit {
            1nat
        } else {
            0nat
        }
    }
}

/// There are never more automatic commits than commits.
pub proof fn lemma_auto_commit_count_bound(s: Seq<CommitInfo>)
    ensures
        auto_commit_count(s) <= s.len(),
    decreases s.len(),
{
    if s.len() > 0 {
        lemma_auto_commit_count_bound(s.drop_last());
    }
}

/// Aggregate counters derived from a loaded project.
#[derive(Debug, Clone, PartialEq, Eq)]
pub struct ProjectStats {
    pub total_commits: usize,
    pub auto_commits: usize,
    pub manual_commits: usize,
    pub current_word_count: u32,
    pub current_character_count: u32,
    pub current_line_count: u32,
}

impl FileSystemManager {
    /// Builds a fresh project: a new id, matching creation and modification
    /// times, default settings, an empty document body with zeroed counts,
    /// and no history. The I/O layer creates the project directory and then
    /// runs the save plan.
    pub fn create_project(&self, name: &str, description: &str, author: &str) -> (r: ProjectData)
        ensures
            r.config.name@ == name@,
            r.config.description@ == description@,
            r.config.author@ == author@,
            r.config.created_at == r.config.last_modified,
            r.config.version@ == "1.0.0"@,
            is_default_project_settings(r.config.settings),
            r.config.id@.len() == 36,
            r.document_metadata.title@ == name@ + " - \u{4e3b}\u{6587}\u{6863}"@,
            r.document_metadata.created_at == r.config.created_at,
            r.document_metadata.last_modified == r.config.created_at,
            r.document_metadata.word_count == 0,
            r.document_metadata.character_count == 0,
            r.document_metadata.line_count == 1,
            r.document_metadata.tags@ == Seq::<String>::empty(),
            r.document_content@ == Seq::<char>::empty(),
            r.commits@ == Seq::<CommitInfo>::empty(),
            r.commit_data.entry_seq() == Seq::<(Seq<char>, Seq<char>)>::empty(),
            r.commit_data.wf(),
    {
        let project_id = fresh_uuid();
        let now = now_unix();
        let config = ProjectConfig {
            id: project_id,
            name: String::from_str(name),
            description: String::from_str(description),
            created_at: now,
            last_modified: now,
            version: String::from_str("1.0.0"),
            author: String::from_str(author),
            settings: ProjectSettings::default(),
        };
        let mut title = String::from_str(name);
        title.append(" - \u{4e3b}\u{6587}\u{6863}");
        let document_metadata = DocumentMetadata {
            id: fresh_uuid(),
            title,
            created_at: now,
            last_modified: now,
            word_count: 0,
            character_count: 0,
            line_count: 1,
            tags: Vec::new(),
        };
        let r = ProjectData {
            config,
            document_content: String::new(),
            document_metadata,
            commits: Vec::new(),
            commit_data: SnapshotMap::new(),
        };
        proof {
            assert(r.document_metadata.tags@ =~= Seq::<String>::empty());
            assert(r.commits@ =~= Seq::<CommitInfo>::empty());
        }
        r
    }

    /// The write plan that persists `p`: its five artifacts in save order,
    /// then one snapshot file per commit-data entry.
    pub fn save_project(&self, p: &ProjectData) -> (ops: Vec<FsOp>)
        ensures
            project_save_plan(*self, *p, ops@),
    {
        let dir = self.project_dir(p.config.id.as_str());
        let mut ops: Vec<FsOp> = Vec::new();
        ops.push(
            FsOp::WriteFile(
                sub_path(&dir, "config.json"),
                crate::types::FilePayload::ProjectConfigFile(p.config.duplicate()),
            ),
        );
        ops.push(
            FsOp::WriteFile(
                sub_path(&dir, "document.md"),
                crate::types::FilePayload::Text(p.document_content.clone()),
            ),
        );
        ops.push(
            FsOp::WriteFile(
                sub_path(&dir, "metadata.json"),
                crate::types::FilePayload::MetadataFile(p.document_metadata.duplicate()),
            ),
        );
        ops.push(
            FsOp::WriteFile(
                sub_path(&dir, "commits.json"),
                crate::types::FilePayload::CommitListFile(dup_commits(&p.commits)),
            ),
        );
        let snap_dir = sub_path(&dir, "commit_data");
        ops.push(FsOp::MakeDir(dup_strings(&snap_dir)));
        let n = p.commit_data.len();
        let mut i: usize = 0;
        while i < n
            invariant
                0 <= i <= n,
                n == p.commit_data.entry_seq().len(),
                dir.deep_view() == self.project_dir_path(p.config.id@),
                snap_dir.deep_view() == dir.deep_view().push("commit_data"@),
                ops@.len() == 5 + i,
                op_project_config(
                    ops@[0],
                    dir.deep_view().push("config.json"@),
                    p.config,
                ),
                op_text(ops@[1], dir.deep_view().push("document.md"@), p.document_content@),
                op_metadata(ops@[2], dir.deep_view().push("metadata.json"@), p.document_metadata),
                op_commit_list(ops@[3], dir.deep_view().push("commits.json"@), p.commits@),
                op_mkdir(ops@[4], dir.deep_view().push("commit_data"@)),
                forall|j: int|
                    0 <= j < i ==> op_text(
                        #[trigger] ops@[5 + j],
                        dir.deep_view().push("commit_data"@).push(
                            p.commit_data.entry_seq()[j].0 + ".md"@,
                        ),
                        p.commit_data.entry_seq()[j].1,
                    ),
            decreases n - i,
        {
            let mut fname = p.commit_data.key_at(i).clone();
            fname.append(".md");
            ops.push(
                FsOp::WriteFile(
                    sub_path(&snap_dir, fname.as_str()),
                    crate::types::FilePayload::Text(p.commit_data.val_at(i).clone()),
                ),
            );
            i = i + 1;
        }
        ops
    }

    /// Assembles a project from what was found on its directory, as
    /// [`load_project_post`] describes.
    pub fn load_project(
        &self,
        project_id: &str,
        dir_exists: bool,
        config: Loaded<ProjectConfig>,
        content: Loaded<String>,
        metadata: Loaded<DocumentMetadata>,
        commits: Loaded<Vec<CommitInfo>>,
        commit_data: SnapshotMap,
    ) -> (r: Result<ProjectData, StoreError>)
        ensures
            load_project_post(
                project_id@,
                dir_exists,
                config,
                content,
                metadata,
                commits,
                commit_data,
                r,
            ),
    {
        if !dir_exists {
            return Err(StoreError::NotFound(String::from_str(project_id)));
        }
        let c = match config {
            Loaded::Missing => {
                return Err(StoreError::Io(String::from_str("Failed to read project config")));
            },
            Loaded::Unreadable => {
                return Err(StoreError::Io(String::from_str("Failed to read project config")));
            },
            Loaded::Malformed => {
                return Err(StoreError::Parse(String::from_str("Failed to parse project config")));
            },
            Loaded::Value(c) => c,
        };
        let dm = match metadata {
            Loaded::Missing => {
                return Err(StoreError::Io(String::from_str("Failed to read document metadata")));
            },
            Loaded::Unreadable => {
                return Err(StoreError::Io(String::from_str("Failed to read document metadata")));
            },
            Loaded::Malformed => {
                return Err(
                    StoreError::Parse(String::from_str("Failed to parse document metadata")),
                );
            },
            Loaded::Value(dm) => dm,
        };
        let cs = match commits {
            Loaded::Unreadable => {
                return Err(StoreError::Io(String::from_str("Failed to read commits")));
            },
            Loaded::Malformed => {
                return Err(StoreError::Parse(String::from_str("Failed to parse commits")));
            },
            Loaded::Missing => {
                let empty: Vec<CommitInfo> = Vec::new();
                proof {
                    assert(empty@ =~= Seq::<CommitInfo>::empty());
                }
                empty
            },
            Loaded::Value(cs) => cs,
        };
        let document_content = match content {
            Loaded::Value(s) => s,
            _ => String::new(),
        };
        Ok(
            ProjectData {
                config: c,
                document_content,
                document_metadata: dm,
                commits: cs,
                commit_data,
            },
        )
    }

    /// Lists the projects whose configs could be read, most recently
    /// modified first. A corrupt entry is skipped, never an error.
    pub fn list_projects(&self, entries: Vec<Loaded<ProjectConfig>>) -> (r: Vec<ProjectConfig>)
        ensures
            sorted_by_modified_desc(r@),
            r@.to_multiset() == kept_configs(entries@).to_multiset(),
    {
        broadcast use to_multiset_insert;
        broadcast use to_multiset_build;
        broadcast use vstd::seq_lib::group_to_multiset_ensures;
        broadcast use vstd::multiset::group_multiset_axioms;

        let ghost all = entries@;
        let mut stack = entries;
        let mut r: Vec<ProjectConfig> = Vec::new();
        proof {
            assert(r@.to_multiset() =~= Multiset::<ProjectConfig>::empty());
            assert(kept_configs(all).to_multiset() =~= kept_configs(stack@).to_multiset().add(
                r@.to_multiset(),
            ));
        }
        loop
            invariant
                sorted_by_modified_desc(r@),
                kept_configs(all).to_multiset() == kept_configs(stack@).to_multiset().add(
                    r@.to_multiset(),
                ),
            ensures
                stack@.len() == 0,
                sorted_by_modified_desc(r@),
                kept_configs(all).to_multiset() == kept_configs(stack@).to_multiset().add(
                    r@.to_multiset(),
                ),
            decreases stack@.len(),
        {
            let ghost pre_stack = stack@;
            let e = match stack.pop() {
                Some(e) => e,
                None => {
                    break ;
                },
            };
            proof {
                assert(pre_stack.drop_last() =~= stack@);
            }
            match e {
                Loaded::Value(c) => {
                    let mut j: usize = 0;
                    let len = r.len();
                    while j < len && r[j].last_modified > c.last_modified
                        invariant
                            0 <= j <= len,
                            len == r@.len(),
                            forall|k: int|
                                0 <= k < j ==> (#[trigger] r@[k]).last_modified > c.last_modified,
                        decreases len - j,
                    {
                        j = j + 1;
                    }
                    let ghost pre_r = r@;
                    r.insert(j, c);
                    proof {
                        assert(forall|k: int| 0 <= k < j ==> r@[k] == pre_r[k]);
                        assert(r@[j as int] == c);
                        assert(forall|k: int| j < k < r@.len() ==> r@[k] == pre_r[k - 1]);
                        assert(sorted_by_modified_desc(r@));
                        assert(kept_configs(pre_stack) =~= kept_configs(stack@).push(c));
                        to_multiset_build::<ProjectConfig>(kept_configs(stack@), c);
                        assert(kept_configs(pre_stack).to_multiset() =~= kept_configs(
                            stack@,
                        ).to_multiset().insert(c));
                        assert(r@ == pre_r.insert(j as int, c));
                        to_multiset_insert::<ProjectConfig>(pre_r, j as int, c);
                        assert(r@.to_multiset() =~= pre_r.to_multiset().insert(c));
                        broadcast use vstd::multiset::group_multiset_axioms;

                        assert(kept_configs(stack@).to_multiset().insert(c).add(pre_r.to_multiset())
                            =~= kept_configs(stack@).to_multiset().add(
                            pre_r.to_multiset().insert(c),
                        ));
                    }
                },
                _ => {
                    proof {
                        assert(kept_configs(pre_stack) =~= kept_configs(stack@));
                    }
                },
            }
        }
        proof {
            broadcast use vstd::multiset::group_multiset_axioms;

            assert(stack@.len() == 0);
            assert(kept_configs(stack@) =~= Seq::<ProjectConfig>::empty());
            assert(kept_configs(stack@).to_multiset() =~= Multiset::<ProjectConfig>::empty());
            assert(kept_configs(all).to_multiset() =~= r@.to_multiset());
        }
        r
    }

    /// Derives the aggregate counters of `p`: commit totals by kind and the
    /// current word, character and line counts.
    pub fn get_project_stats(&self, p: &ProjectData) -> (r: ProjectStats)
        ensures
            r.total_commits == p.commits@.len(),
            r.auto_commits == auto_commit_count(p.commits@),
            r.auto_commits + r.manual_commits == r.total_commits,
            r.current_word_count == p.document_metadata.word_count,
            r.current_character_count == p.document_metadata.character_count,
            r.current_line_count == p.document_metadata.line_count,
    {
        let total = p.commits.len();
        let mut auto: usize = 0;
        let mut i: usize = 0;
        proof {
            assert(p.commits@.take(0) =~= Seq::<CommitInfo>::empty());
        }
        while i < total
            invariant
                0 <= i <= total,
                total == p.commits@.len(),
                auto == auto_commit_count(p.commits@.take(i as int)),
                auto <= i,
            decreases total - i,
        {
            proof {
                assert(p.commits@.take(i + 1).drop_last() =~= p.commits@.take(i as int));
                assert(p.commits@.take(i + 1).last() == p.commits@[i as int]);
            }
            if p.commits[i].is_auto_commit {
                auto = auto + 1;
            }
            i = i + 1;
        }
        proof {
            assert(p.commits@.take(total as int) =~= p.commits@);
            lemma_auto_commit_count_bound(p.commits@);
        }
        (ProjectStats {
            total_commits: total,
            auto_commits: auto,
            manual_commits: total - auto,
            current_word_count: p.document_metadata.word_count,
            current_character_count: p.document_metadata.character_count,
            current_line_count: p.document_metadata.line_count,
        })
    }
}

/// `dir` extended by one more segment, for the I/O layer and the plans.
pub fn sub_path(dir: &Vec<String>, name: &str) -> (r: Vec<String>)
    ensures
        r.deep_view() == dir.deep_view().push(name@),
{
    let mut r = dup_strings(dir);
    r.push(String::from_str(name));
    proof {
        assert(r.deep_view() =~= dir.deep_view().push(name@));
    }
    r
}

} // verus!

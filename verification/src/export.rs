//! The export bundle of a project: its current text, a human-readable info
//! sheet, and one formatted Markdown file per commit that still has its
//! snapshot on disk.
use vstd::prelude::*;

use crate::clock::format_timestamp;
use crate::clock::ts_display;
use crate::snapshots::SnapshotMap;
use crate::store::FileSystemManager;
use crate::types::CommitInfo;
use crate::types::FilePayload;
use crate::types::FsOp;
use crate::types::ProjectConfig;
use crate::types::ProjectData;
use crate::types::dup_strings;
use crate::types::op_mkdir;
use crate::types::op_text;
use crate::project::sub_path;

verus! {

use vstd::string::StringExecFns;

/// The character for one decimal digit.
pub open spec fn dec_digit(d: nat) -> char {
    if d == 0 {
        '0'
    } else if d == 1 {
        '1'
    } else if d == 2 {
        '2'
    } else if d == 3 {
        '3'
    } else if d == 4 {
        '4'
    } else if d == 5 {
        '5'
    } else if d == 6 {
        '6'
    } else if d == 7 {
        '7'
    } else if d == 8 {
        '8'
    } else {
        '9'
    }
}

/// The decimal rendering of `n`, without leading zeros.
pub open spec fn dec_str(n: nat) -> Seq<char>
    decreases n,
{
    if n < 10 {
        seq![dec_digit(n)]
    } else {
        dec_str(n / 10).push(dec_digit(n % 10))
    }
}

fn digit_str(d: u32) -> (r: &'static str)
    requires
        d < 10,
    ensures
        r@ == seq![dec_digit(d as nat)],
{
    proof {
        reveal_strlit("0");
        reveal_strlit("1");
        reveal_strlit("2");
        reveal_strlit("3");
        reveal_strlit("4");
        reveal_strlit("5");
        reveal_strlit("6");
        reveal_strlit("7");
        reveal_strlit("8");
        reveal_strlit("9");
    }
    let r = if d == 0 {
        "0"
    } else if d == 1 {
        "1"
    } else if d == 2 {
        "2"
    } else if d == 3 {
        "3"
    } else if d == 4 {
        "4"
    } else if d == 5 {
        "5"
    } else if d == 6 {
        "6"
    } else if d == 7 {
        "7"
    } else if d == 8 {
        "8"
    } else {
        "9"
    };
    proof {
        assert(r@ =~= seq![dec_digit(d as nat)]);
    }
    r
}

/// Renders `n` in decimal.
pub fn u32_to_string(n: u32) -> (r: String)
    ensures
        r@ == dec_str(n as nat),
    decreases n,
{
    if n < 10 {
        String::from_str(digit_str(n))
    } else {
        let mut r = u32_to_string(n / 10);
        r.append(digit_str(n % 10));
        proof {
            assert(r@ =~= dec_str(n as nat));
        }
        r
    }
}

/// The text of a project's exported info sheet: name, description, author,
/// and the two timestamps.
pub open spec fn project_info_text(c: ProjectConfig) -> Seq<char> {
    "# "@ + c.name@ + "\n\n"@ + c.description@ + "\n\n**\u{4f5c}\u{8005}**: "@ + c.author@
        + "\n**\u{521b}\u{5efa}\u{65f6}\u{95f4}**: "@ + ts_display(c.created_at)
        + "\n**\u{6700}\u{540e}\u{4fee}\u{6539}**: "@ + ts_display(c.last_modified) + "\n\n"@
}

/// The text of one exported commit: its message, timestamp, auto or manual
/// label, word count, and the full snapshot body.
pub open spec fn commit_export_text(c: CommitInfo, snapshot: Seq<char>) -> Seq<char> {
    "# \u{7248}\u{672c}: "@ + c.message@ + "\n\n**\u{65f6}\u{95f4}**: "@ + ts_display(c.timestamp)
        + "\n**\u{7c7b}\u{578b}**: "@ + (if c.is_auto_commit {
        "\u{81ea}\u{52a8}\u{4fdd}\u{5b58}"@
    } else {
        "\u{624b}\u{52a8}\u{4fdd}\u{5b58}"@
    }) + "\n**\u{5b57}\u{6570}**: "@ + dec_str(c.word_count as nat) + "\n\n---\n\n"@ + snapshot
}

/// `ops` is exactly one export file per commit of `commits` whose snapshot
/// the table holds, in commit order; a commit without a snapshot is
/// silently skipped.
pub open spec fn export_history_ok(
    ops: Seq<FsOp>,
    commits: Seq<CommitInfo>,
    snaps: SnapshotMap,
    dir: Seq<Seq<char>>,
) -> bool
    decreases commits.len(),
{
    if commits.len() == 0 {
        ops.len() == 0
    } else {
        let c = commits.last();
        match snaps.spec_get(c.id@) {
            Some(text) => ops.len() >= 1 && op_text(
                ops.last(),
                dir.push(c.id@ + ".md"@),
                commit_export_text(c, text),
            ) && export_history_ok(ops.drop_last(), commits.drop_last(), snaps, dir),
            None => export_history_ok(ops, commits.drop_last(), snaps, dir),
        }
    }
}

/// The write plan of one export: the destination directory, the current
/// text, the info sheet, and — only when commits exist — the version
/// history folder with one file per commit that still has a snapshot.
pub open spec fn export_plan(p: ProjectData, dest: Seq<Seq<char>>, ops: Seq<FsOp>) -> bool {
    &&& ops.len() >= 3
    &&& op_mkdir(ops[0], dest)
    &&& op_text(ops[1], dest.push("document.md"@), p.document_content@)
    &&& op_text(ops[2], dest.push("project_info.md"@), project_info_text(p.config))
    &&& if p.commits@.len() == 0 {
        ops.len() == 3
    } else {
        ops.len() >= 4 && op_mkdir(ops[3], dest.push("version_history"@)) && export_history_ok(
            ops.skip(4),
            p.commits@,
            p.commit_data,
            dest.push("version_history"@),
        )
    }
}

/// Renders a project's info sheet.
pub fn render_project_info(c: &ProjectConfig) -> (r: String)
    ensures
        r@ == project_info_text(*c),
{
    let mut r = String::from_str("# ");
    r.append(c.name.as_str());
    r.append("\n\n");
    r.append(c.description.as_str());
    r.append("\n\n**\u{4f5c}\u{8005}**: ");
    r.append(c.author.as_str());
    r.append("\n**\u{521b}\u{5efa}\u{65f6}\u{95f4}**: ");
    let created = format_timestamp(c.created_at);
    r.append(created.as_str());
    r.append("\n**\u{6700}\u{540e}\u{4fee}\u{6539}**: ");
    let modified = format_timestamp(c.last_modified);
    r.append(modified.as_str());
    r.append("\n\n");
    r
}

/// Renders one commit's export file.
pub fn render_commit_export(c: &CommitInfo, snapshot: &str) -> (r: String)
    ensures
        r@ == commit_export_text(*c, snapshot@),
{
    let mut r = String::from_str("# \u{7248}\u{672c}: ");
    r.append(c.message.as_str());
    r.append("\n\n**\u{65f6}\u{95f4}**: ");
    let when = format_timestamp(c.timestamp);
    r.append(when.as_str());
    r.append("\n**\u{7c7b}\u{578b}**: ");
    if c.is_auto_commit {
        r.append("\u{81ea}\u{52a8}\u{4fdd}\u{5b58}");
    } else {
        r.append("\u{624b}\u{52a8}\u{4fdd}\u{5b58}");
    }
    r.append("\n**\u{5b57}\u{6570}**: ");
    let count = u32_to_string(c.word_count);
    r.append(count.as_str());
    r.append("\n\n---\n\n");
    r.append(snapshot);
    r
}

impl FileSystemManager {
    /// The write plan that exports `p` into `dest`, as [`export_plan`]
    /// describes. A commit whose snapshot is missing from the table is
    /// skipped, not an error.
    pub fn export_project(&self, p: &ProjectData, dest: &Vec<String>) -> (ops: Vec<FsOp>)
        requires
            p.commit_data.wf(),
        ensures
            export_plan(*p, dest.deep_view(), ops@),
    {
        let ghost dv = dest.deep_view();
        let mut ops: Vec<FsOp> = Vec::new();
        ops.push(FsOp::MakeDir(dup_strings(dest)));
        ops.push(
            FsOp::WriteFile(
                sub_path(dest, "document.md"),
                FilePayload::Text(p.document_content.clone()),
            ),
        );
        ops.push(
            FsOp::WriteFile(
                sub_path(dest, "project_info.md"),
                FilePayload::Text(render_project_info(&p.config)),
            ),
        );
        if p.commits.len() == 0 {
            return ops;
        }
        let history_dir = sub_path(dest, "version_history");
        ops.push(FsOp::MakeDir(dup_strings(&history_dir)));
        let n = p.commits.len();
        let mut i: usize = 0;
        proof {
            assert(p.commits@.take(0) =~= Seq::<CommitInfo>::empty());
            assert(ops@.skip(4) =~= Seq::<FsOp>::empty());
        }
        while i < n
            invariant
                0 <= i <= n,
                n == p.commits@.len(),
                p.commit_data.wf(),
                dv == dest.deep_view(),
                history_dir.deep_view() == dv.push("version_history"@),
                ops@.len() >= 4,
                op_mkdir(ops@[0], dv),
                op_text(ops@[1], dv.push("document.md"@), p.document_content@),
                op_text(ops@[2], dv.push("project_info.md"@), project_info_text(p.config)),
                op_mkdir(ops@[3], dv.push("version_history"@)),
                export_history_ok(
                    ops@.skip(4),
                    p.commits@.take(i as int),
                    p.commit_data,
                    dv.push("version_history"@),
                ),
            decreases n - i,
        {
            proof {
                assert(p.commits@.take(i + 1).drop_last() =~= p.commits@.take(i as int));
                assert(p.commits@.take(i + 1).last() == p.commits@[i as int]);
            }
            let commit = &p.commits[i];
            match p.commit_data.get(&commit.id) {
                Some(snapshot) => {
                    let rendered = render_commit_export(commit, snapshot.as_str());
                    let mut fname = commit.id.clone();
                    fname.append(".md");
                    let ghost pre = ops@;
                    ops.push(
                        FsOp::WriteFile(
                            sub_path(&history_dir, fname.as_str()),
                            FilePayload::Text(rendered),
                        ),
                    );
                    proof {
                        assert(ops@.skip(4) =~= pre.skip(4).push(ops@.last()));
                        assert(ops@.skip(4).drop_last() =~= pre.skip(4));
                    }
                },
                None => {},
            }
            i = i + 1;
        }
        proof {
            assert(p.commits@.take(n as int) =~= p.commits@);
        }
        ops
    }
}

} // verus!

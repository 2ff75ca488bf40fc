use branchwrite_store::export::render_commit_export;
use branchwrite_store::export::render_project_info;
use branchwrite_store::export::u32_to_string;
use branchwrite_store::store::FileSystemManager;
use branchwrite_store::text::count_bytes;
use branchwrite_store::text::count_words;
use branchwrite_store::types::CommitInfo;
use branchwrite_store::types::FilePayload;
use branchwrite_store::types::FsOp;

fn manager() -> FileSystemManager {
    FileSystemManager::new(vec!["home".to_string()])
}

fn formatted(t: i64) -> String {
    chrono::DateTime::<chrono::Utc>::from_timestamp(t, 0)
        .unwrap()
        .format("%Y-%m-%d %H:%M:%S")
        .to_string()
}

#[test]
fn word_and_byte_counts() {
    assert_eq!(count_words("hello   world\n\nfoo"), 3);
    assert_eq!(count_bytes("hello   world\n\nfoo"), 18);
    assert_eq!(count_words(""), 0);
    assert_eq!(count_bytes(""), 0);
    assert_eq!(count_words("   \t\n "), 0);
    assert_eq!(count_words("one"), 1);
    assert_eq!(count_words("a\u{3000}b\u{00a0}c"), 3);
    assert_eq!(count_words(" leading and trailing "), 3);
}

#[test]
fn decimal_rendering() {
    assert_eq!(u32_to_string(0), "0");
    assert_eq!(u32_to_string(7), "7");
    assert_eq!(u32_to_string(10), "10");
    assert_eq!(u32_to_string(42), "42");
    assert_eq!(u32_to_string(1000), "1000");
    assert_eq!(u32_to_string(4294967295), "4294967295");
}

#[test]
fn project_info_rendering() {
    let fsm = manager();
    let mut p = fsm.create_project("Name", "Desc", "Author");
    p.config.created_at = 1_431_648_000;
    p.config.last_modified = 1_431_649_000;
    let info = render_project_info(&p.config);
    let expected = format!(
        "# Name\n\nDesc\n\n**\u{4f5c}\u{8005}**: Author\n**\u{521b}\u{5efa}\u{65f6}\u{95f4}**: {}\n**\u{6700}\u{540e}\u{4fee}\u{6539}**: {}\n\n",
        formatted(1_431_648_000),
        formatted(1_431_649_000)
    );
    assert_eq!(info, expected);
    assert!(info.contains("2015-05-15 00:00:00"));
}

#[test]
fn commit_export_rendering() {
    let c = CommitInfo {
        id: "c1".to_string(),
        timestamp: 1_431_648_000,
        message: "m1".to_string(),
        is_auto_commit: true,
        document_hash: "h".to_string(),
        word_count: 10,
        character_count: 50,
    };
    let text = render_commit_export(&c, "body text");
    let expected = format!(
        "# \u{7248}\u{672c}: m1\n\n**\u{65f6}\u{95f4}**: {}\n**\u{7c7b}\u{578b}**: \u{81ea}\u{52a8}\u{4fdd}\u{5b58}\n**\u{5b57}\u{6570}**: 10\n\n---\n\nbody text",
        formatted(1_431_648_000)
    );
    assert_eq!(text, expected);
    let manual = CommitInfo { is_auto_commit: false, ..c };
    let text = render_commit_export(&manual, "body text");
    assert!(text.contains("\u{624b}\u{52a8}\u{4fdd}\u{5b58}"));
}

#[test]
fn export_completeness_for_one_commit() {
    let fsm = manager();
    let mut p = fsm.create_project("n", "d", "a");
    p.commits.push(CommitInfo {
        id: "c1".to_string(),
        timestamp: 1_431_648_000,
        message: "m1".to_string(),
        is_auto_commit: true,
        document_hash: "h".to_string(),
        word_count: 10,
        character_count: 50,
    });
    p.commit_data.insert("c1".to_string(), "body text".to_string());
    let dest = vec!["out".to_string()];
    let ops = fsm.export_project(&p, &dest);
    assert_eq!(ops.len(), 5);
    assert_eq!(ops[0], FsOp::MakeDir(vec!["out".to_string()]));
    assert_eq!(
        ops[1],
        FsOp::WriteFile(
            vec!["out".to_string(), "document.md".to_string()],
            FilePayload::Text(p.document_content.clone())
        )
    );
    match &ops[2] {
        FsOp::WriteFile(path, FilePayload::Text(info)) => {
            assert_eq!(path, &vec!["out".to_string(), "project_info.md".to_string()]);
            assert!(info.starts_with("# n\n\nd\n\n"));
        }
        other => panic!("unexpected op: {other:?}"),
    }
    assert_eq!(
        ops[3],
        FsOp::MakeDir(vec!["out".to_string(), "version_history".to_string()])
    );
    match &ops[4] {
        FsOp::WriteFile(path, FilePayload::Text(text)) => {
            assert_eq!(
                path,
                &vec![
                    "out".to_string(),
                    "version_history".to_string(),
                    "c1.md".to_string(),
                ]
            );
            assert!(text.contains("m1"));
            assert!(text.contains("10"));
            assert!(text.contains("body text"));
        }
        other => panic!("unexpected op: {other:?}"),
    }
}

#[test]
fn export_skips_commit_without_snapshot_and_empty_history() {
    let fsm = manager();
    let mut p = fsm.create_project("n", "d", "a");
    let dest = vec!["out".to_string()];
    let ops = fsm.export_project(&p, &dest);
    assert_eq!(ops.len(), 3);

    p.commits.push(CommitInfo {
        id: "c1".to_string(),
        timestamp: 0,
        message: "m1".to_string(),
        is_auto_commit: false,
        document_hash: "h".to_string(),
        word_count: 1,
        character_count: 1,
    });
    let ops = fsm.export_project(&p, &dest);
    assert_eq!(ops.len(), 4);
    assert_eq!(
        ops[3],
        FsOp::MakeDir(vec!["out".to_string(), "version_history".to_string()])
    );
}

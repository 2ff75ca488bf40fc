use branchwrite_store::project::ProjectStats;
use branchwrite_store::snapshots::SnapshotMap;
use branchwrite_store::store::AppState;
use branchwrite_store::store::FileSystemManager;
use branchwrite_store::types::CommitInfo;
use branchwrite_store::types::FilePayload;
use branchwrite_store::types::FsOp;
use branchwrite_store::types::Loaded;
use branchwrite_store::types::ProjectConfig;
use branchwrite_store::types::ProjectSettings;
use branchwrite_store::types::StoreError;

fn manager() -> FileSystemManager {
    FileSystemManager::new(vec!["home".to_string()])
}

fn commit(id: &str, message: &str, auto: bool, word_count: u32) -> CommitInfo {
    CommitInfo {
        id: id.to_string(),
        timestamp: 1_700_000_000,
        message: message.to_string(),
        is_auto_commit: auto,
        document_hash: "hash".to_string(),
        word_count,
        character_count: word_count * 5,
    }
}

fn config_with(id: &str, last_modified: i64) -> ProjectConfig {
    ProjectConfig {
        id: id.to_string(),
        name: format!("project {id}"),
        description: "d".to_string(),
        created_at: 1,
        last_modified,
        version: "1.0.0".to_string(),
        author: "a".to_string(),
        settings: ProjectSettings::default(),
    }
}

#[test]
fn default_project_settings_values() {
    let s = ProjectSettings::default();
    assert_eq!(s.auto_save_interval, 5);
    assert_eq!(s.auto_commit_threshold, 50);
    assert!(s.backup_enabled);
    assert_eq!(s.backup_interval, 24);
    assert_eq!(s.editor_theme, "focus-writing");
    assert_eq!(s.font_size, 14);
    assert_eq!(s.line_height, 24);
}

#[test]
fn app_state_paths() {
    let state = AppState::new(vec!["home".to_string()]);
    let projects: Vec<String> = state.file_manager.projects_root().clone();
    assert_eq!(projects, vec!["home", ".branchwrite", "projects"]);
    let books: Vec<String> = state.file_manager.books_root().clone();
    assert_eq!(books, vec!["home", ".branchwrite", "books"]);
}

#[test]
fn create_project_fresh_fields() {
    let fsm = manager();
    let p = fsm.create_project("My Novel", "a story", "me");
    assert_eq!(p.config.name, "My Novel");
    assert_eq!(p.config.description, "a story");
    assert_eq!(p.config.author, "me");
    assert_eq!(p.config.version, "1.0.0");
    assert_eq!(p.config.created_at, p.config.last_modified);
    assert_eq!(p.config.id.len(), 36);
    assert_eq!(p.document_metadata.id.len(), 36);
    assert_eq!(p.document_metadata.title, "My Novel - \u{4e3b}\u{6587}\u{6863}");
    assert_eq!(p.document_metadata.word_count, 0);
    assert_eq!(p.document_metadata.character_count, 0);
    assert_eq!(p.document_metadata.line_count, 1);
    assert!(p.document_metadata.tags.is_empty());
    assert_eq!(p.document_content, "");
    assert!(p.commits.is_empty());
    assert_eq!(p.commit_data.len(), 0);
}

#[test]
fn save_project_plan_shape() {
    let fsm = manager();
    let mut p = fsm.create_project("n", "d", "a");
    p.commits.push(commit("c1", "m1", true, 2));
    p.commit_data.insert("c1".to_string(), "snap one".to_string());
    let ops = fsm.save_project(&p);
    assert_eq!(ops.len(), 6);
    let dir = vec![
        "home".to_string(),
        ".branchwrite".to_string(),
        "projects".to_string(),
        p.config.id.clone(),
    ];
    let seg = |name: &str| {
        let mut d = dir.clone();
        d.push(name.to_string());
        d
    };
    assert_eq!(
        ops[0],
        FsOp::WriteFile(seg("config.json"), FilePayload::ProjectConfigFile(p.config.clone()))
    );
    assert_eq!(
        ops[1],
        FsOp::WriteFile(seg("document.md"), FilePayload::Text(p.document_content.clone()))
    );
    assert_eq!(
        ops[2],
        FsOp::WriteFile(seg("metadata.json"), FilePayload::MetadataFile(p.document_metadata.clone()))
    );
    assert_eq!(
        ops[3],
        FsOp::WriteFile(seg("commits.json"), FilePayload::CommitListFile(p.commits.clone()))
    );
    assert_eq!(ops[4], FsOp::MakeDir(seg("commit_data")));
    let mut snap_path = seg("commit_data");
    snap_path.push("c1.md".to_string());
    assert_eq!(
        ops[5],
        FsOp::WriteFile(snap_path, FilePayload::Text("snap one".to_string()))
    );
}

#[test]
fn save_then_load_project_round_trip() {
    let fsm = manager();
    let mut p = fsm.create_project("n", "d", "a");
    p.document_content = "hello world".to_string();
    p.commits.push(commit("c1", "m1", true, 2));
    p.commit_data.insert("c1".to_string(), "hello".to_string());
    let loaded = fsm
        .load_project(
            &p.config.id.clone(),
            true,
            Loaded::Value(p.config.clone()),
            Loaded::Value(p.document_content.clone()),
            Loaded::Value(p.document_metadata.clone()),
            Loaded::Value(p.commits.clone()),
            p.commit_data.clone(),
        )
        .unwrap();
    assert_eq!(loaded, p);
}

#[test]
fn load_project_missing_directory_is_not_found() {
    let fsm = manager();
    let r = fsm.load_project(
        "absent-id",
        false,
        Loaded::Value(config_with("absent-id", 1)),
        Loaded::Missing,
        Loaded::Missing,
        Loaded::Missing,
        SnapshotMap::new(),
    );
    assert_eq!(r, Err(StoreError::NotFound("absent-id".to_string())));
}

#[test]
fn load_project_malformed_config_is_parse_error() {
    let fsm = manager();
    let r = fsm.load_project(
        "p1",
        true,
        Loaded::Malformed,
        Loaded::Missing,
        Loaded::Missing,
        Loaded::Missing,
        SnapshotMap::new(),
    );
    assert_eq!(r, Err(StoreError::Parse("Failed to parse project config".to_string())));
}

#[test]
fn load_project_missing_config_is_io_error() {
    let fsm = manager();
    let r = fsm.load_project(
        "p1",
        true,
        Loaded::Missing,
        Loaded::Missing,
        Loaded::Missing,
        Loaded::Missing,
        SnapshotMap::new(),
    );
    assert_eq!(r, Err(StoreError::Io("Failed to read project config".to_string())));
}

#[test]
fn load_project_optional_artifacts_degrade_to_defaults() {
    let fsm = manager();
    let cfg = config_with("p1", 9);
    let meta = fsm.create_project("n", "d", "a").document_metadata;
    let p = fsm
        .load_project(
            "p1",
            true,
            Loaded::Value(cfg.clone()),
            Loaded::Missing,
            Loaded::Value(meta.clone()),
            Loaded::Missing,
            SnapshotMap::new(),
        )
        .unwrap();
    assert_eq!(p.document_content, "");
    assert!(p.commits.is_empty());
    assert_eq!(p.config, cfg);
    assert_eq!(p.document_metadata, meta);
}

#[test]
fn load_project_unreadable_commits_is_io_error() {
    let fsm = manager();
    let cfg = config_with("p1", 9);
    let meta = fsm.create_project("n", "d", "a").document_metadata;
    let r = fsm.load_project(
        "p1",
        true,
        Loaded::Value(cfg),
        Loaded::Missing,
        Loaded::Value(meta),
        Loaded::Unreadable,
        SnapshotMap::new(),
    );
    assert_eq!(r, Err(StoreError::Io("Failed to read commits".to_string())));
}

#[test]
fn load_project_malformed_metadata_is_parse_error() {
    let fsm = manager();
    let cfg = config_with("p1", 9);
    let r = fsm.load_project(
        "p1",
        true,
        Loaded::Value(cfg),
        Loaded::Missing,
        Loaded::Malformed,
        Loaded::Missing,
        SnapshotMap::new(),
    );
    assert_eq!(r, Err(StoreError::Parse("Failed to parse document metadata".to_string())));
}

#[test]
fn list_projects_skips_corrupt_and_sorts_descending() {
    let fsm = manager();
    let c1 = config_with("a", 5);
    let c2 = config_with("b", 10);
    let c3 = config_with("c", 1);
    let entries = vec![
        Loaded::Value(c1.clone()),
        Loaded::Malformed,
        Loaded::Value(c2.clone()),
        Loaded::Unreadable,
        Loaded::Value(c3.clone()),
    ];
    let listed = fsm.list_projects(entries);
    assert_eq!(listed.len(), 3);
    assert_eq!(listed[0], c2);
    assert_eq!(listed[1], c1);
    assert_eq!(listed[2], c3);
}

#[test]
fn list_projects_keeps_ties_and_empty_input() {
    let fsm = manager();
    let c1 = config_with("a", 7);
    let c2 = config_with("b", 7);
    let listed = fsm.list_projects(vec![Loaded::Value(c1.clone()), Loaded::Value(c2.clone())]);
    assert_eq!(listed.len(), 2);
    assert!(listed.contains(&c1));
    assert!(listed.contains(&c2));
    let empty = fsm.list_projects(Vec::new());
    assert!(empty.is_empty());
    let only_corrupt = fsm.list_projects(vec![Loaded::Malformed, Loaded::Unreadable]);
    assert!(only_corrupt.is_empty());
}

#[test]
fn delete_project_twice_second_is_noop() {
    let fsm = manager();
    let first = fsm.delete_project("p1", true);
    assert_eq!(
        first,
        Some(vec![
            "home".to_string(),
            ".branchwrite".to_string(),
            "projects".to_string(),
            "p1".to_string(),
        ])
    );
    let second = fsm.delete_project("p1", false);
    assert_eq!(second, None);
}

#[test]
fn project_stats_counts_by_kind() {
    let fsm = manager();
    let mut p = fsm.create_project("n", "d", "a");
    p.commits.push(commit("c1", "m", true, 1));
    p.commits.push(commit("c2", "m", true, 1));
    p.commits.push(commit("c3", "m", false, 1));
    p.commits.push(commit("c4", "m", true, 1));
    p.commits.push(commit("c5", "m", false, 1));
    p.document_metadata.word_count = 12;
    p.document_metadata.character_count = 70;
    p.document_metadata.line_count = 4;
    let stats = fsm.get_project_stats(&p);
    assert_eq!(
        stats,
        ProjectStats {
            total_commits: 5,
            auto_commits: 3,
            manual_commits: 2,
            current_word_count: 12,
            current_character_count: 70,
            current_line_count: 4,
        }
    );
}

#[test]
fn snapshot_map_insert_get_and_overwrite() {
    let mut m = SnapshotMap::new();
    assert_eq!(m.len(), 0);
    assert_eq!(m.get(&"c1".to_string()), None);
    m.insert("c1".to_string(), "one".to_string());
    m.insert("c2".to_string(), "two".to_string());
    assert_eq!(m.len(), 2);
    assert_eq!(m.get(&"c1".to_string()), Some(&"one".to_string()));
    m.insert("c1".to_string(), "one again".to_string());
    assert_eq!(m.len(), 2);
    assert_eq!(m.get(&"c1".to_string()), Some(&"one again".to_string()));
    assert_eq!(m.get(&"c2".to_string()), Some(&"two".to_string()));
}

use branchwrite_store::store::FileSystemManager;
use branchwrite_store::types::BookSettings;
use branchwrite_store::types::FilePayload;
use branchwrite_store::types::FsOp;
use branchwrite_store::types::Loaded;
use branchwrite_store::types::StoreError;

fn manager() -> FileSystemManager {
    FileSystemManager::new(vec!["home".to_string()])
}

#[test]
fn default_book_settings_values() {
    let s = BookSettings::default();
    assert!(s.outline_enabled);
    assert!(s.timeline_enabled);
    assert_eq!(s.auto_save_interval, 5);
    assert_eq!(s.target_word_count, None);
    assert_eq!(s.deadline, None);
    assert_eq!(s.editor_theme, "focus-writing");
}

#[test]
fn create_book_fresh_fields() {
    let fsm = manager();
    let b = fsm.create_book("Book", "about", "me", "fiction");
    assert_eq!(b.config.name, "Book");
    assert_eq!(b.config.description, "about");
    assert_eq!(b.config.author, "me");
    assert_eq!(b.config.genre, "fiction");
    assert_eq!(b.config.id.len(), 36);
    assert_eq!(b.config.created_at, b.config.last_modified);
    assert_eq!(b.config.cover_image, None);
    assert!(b.config.tags.is_empty());
    assert!(b.documents.is_empty());
    assert_eq!(b.current_document_id, None);
}

#[test]
fn save_book_writes_marker_only_when_current_is_set() {
    let fsm = manager();
    let mut b = fsm.create_book("Book", "about", "me", "fiction");
    let ops = fsm.save_book(&b);
    assert_eq!(ops.len(), 2);
    let dir = vec![
        "home".to_string(),
        ".branchwrite".to_string(),
        "books".to_string(),
        b.config.id.clone(),
    ];
    let seg = |name: &str| {
        let mut d = dir.clone();
        d.push(name.to_string());
        d
    };
    assert_eq!(
        ops[0],
        FsOp::WriteFile(seg("config.json"), FilePayload::BookConfigFile(b.config.clone()))
    );
    assert_eq!(
        ops[1],
        FsOp::WriteFile(seg("documents.json"), FilePayload::DocumentListFile(Vec::new()))
    );

    b.current_document_id = Some("doc-7".to_string());
    let ops = fsm.save_book(&b);
    assert_eq!(ops.len(), 3);
    assert_eq!(
        ops[2],
        FsOp::WriteFile(seg("current_document.txt"), FilePayload::Text("doc-7".to_string()))
    );
}

#[test]
fn save_then_load_book_round_trip() {
    let fsm = manager();
    let mut b = fsm.create_book("Book", "about", "me", "fiction");
    let d = fsm.create_document(&mut b, "ch1", "chapter");
    b.current_document_id = Some(d.id.clone());
    let loaded = fsm
        .load_book(
            &b.config.id.clone(),
            true,
            Loaded::Value(b.config.clone()),
            Loaded::Value(b.documents.clone()),
            Loaded::Value(d.id.clone()),
        )
        .unwrap();
    assert_eq!(loaded, b);
}

#[test]
fn load_book_missing_optionals_degrade() {
    let fsm = manager();
    let b = fsm.create_book("Book", "about", "me", "fiction");
    let loaded = fsm
        .load_book(
            &b.config.id.clone(),
            true,
            Loaded::Value(b.config.clone()),
            Loaded::Missing,
            Loaded::Missing,
        )
        .unwrap();
    assert_eq!(loaded.config, b.config);
    assert!(loaded.documents.is_empty());
    assert_eq!(loaded.current_document_id, None);
}

#[test]
fn load_book_errors() {
    let fsm = manager();
    let b = fsm.create_book("Book", "about", "me", "fiction");
    let r = fsm.load_book("x", false, Loaded::Missing, Loaded::Missing, Loaded::Missing);
    assert_eq!(r, Err(StoreError::NotFound("x".to_string())));
    let r = fsm.load_book("x", true, Loaded::Malformed, Loaded::Missing, Loaded::Missing);
    assert_eq!(r, Err(StoreError::Parse("Failed to parse book config".to_string())));
    let r = fsm.load_book("x", true, Loaded::Unreadable, Loaded::Missing, Loaded::Missing);
    assert_eq!(r, Err(StoreError::Io("Failed to read book config".to_string())));
    let r = fsm.load_book(
        "x",
        true,
        Loaded::Value(b.config.clone()),
        Loaded::Malformed,
        Loaded::Missing,
    );
    assert_eq!(r, Err(StoreError::Parse("Failed to parse documents list".to_string())));
    let r = fsm.load_book(
        "x",
        true,
        Loaded::Value(b.config.clone()),
        Loaded::Missing,
        Loaded::Unreadable,
    );
    assert_eq!(r, Err(StoreError::Io("Failed to read current document ID".to_string())));
}

#[test]
fn list_books_skips_corrupt_and_sorts_descending() {
    let fsm = manager();
    let mut b1 = fsm.create_book("B1", "", "a", "g");
    let mut b2 = fsm.create_book("B2", "", "a", "g");
    b1.config.last_modified = 100;
    b2.config.last_modified = 200;
    let listed = fsm.list_books(vec![
        Loaded::Value(b1.config.clone()),
        Loaded::Malformed,
        Loaded::Value(b2.config.clone()),
    ]);
    assert_eq!(listed.len(), 2);
    assert_eq!(listed[0], b2.config);
    assert_eq!(listed[1], b1.config);
}

#[test]
fn delete_book_twice_second_is_noop() {
    let fsm = manager();
    let first = fsm.delete_book("b1", true);
    assert_eq!(
        first,
        Some(vec![
            "home".to_string(),
            ".branchwrite".to_string(),
            "books".to_string(),
            "b1".to_string(),
        ])
    );
    assert_eq!(fsm.delete_book("b1", false), None);
}

#[test]
fn three_documents_get_orders_one_two_three() {
    let fsm = manager();
    let mut b = fsm.create_book("Book", "", "a", "g");
    let d1 = fsm.create_document(&mut b, "zeta", "chapter");
    let d2 = fsm.create_document(&mut b, "alpha", "chapter");
    let d3 = fsm.create_document(&mut b, "midway", "note");
    assert_eq!(d1.order, 1);
    assert_eq!(d2.order, 2);
    assert_eq!(d3.order, 3);
    assert_eq!(b.documents.len(), 3);
    assert_eq!(b.documents[0], d1);
    assert_eq!(b.documents[1], d2);
    assert_eq!(b.documents[2], d3);
    assert_eq!(d1.book_id, b.config.id);
    assert_eq!(d1.status, "draft");
    assert_eq!(d1.doc_type, "chapter");
    assert_eq!(d1.word_count, 0);
    assert_eq!(d1.character_count, 0);
    assert_eq!(d1.id.len(), 36);
}

#[test]
fn delete_keeps_gaps_in_orders() {
    let fsm = manager();
    let mut b = fsm.create_book("Book", "", "a", "g");
    let d1 = fsm.create_document(&mut b, "one", "chapter");
    let d2 = fsm.create_document(&mut b, "two", "chapter");
    let d3 = fsm.create_document(&mut b, "three", "chapter");
    fsm.delete_document(&mut b, &d2.id.clone(), true);
    let orders: Vec<u32> = b.documents.iter().map(|d| d.order).collect();
    assert_eq!(orders, vec![1, 3]);
    assert_eq!(b.documents, vec![d1.clone(), d3.clone()]);
    let d4 = fsm.create_document(&mut b, "four", "chapter");
    assert_eq!(d4.order, b.documents.len() as u32);
    assert_eq!(d1.order, 1);
    assert_eq!(d3.order, 3);
}

#[test]
fn delete_document_clears_current_only_when_it_pointed_there() {
    let fsm = manager();
    let mut b = fsm.create_book("Book", "", "a", "g");
    let d1 = fsm.create_document(&mut b, "one", "chapter");
    let d2 = fsm.create_document(&mut b, "two", "chapter");
    b.current_document_id = Some(d1.id.clone());
    let plan = fsm.delete_document(&mut b, &d2.id.clone(), false);
    assert_eq!(plan, None);
    assert_eq!(b.current_document_id, Some(d1.id.clone()));
    assert_eq!(b.documents.len(), 1);
    let plan = fsm.delete_document(&mut b, &d1.id.clone(), true);
    assert_eq!(
        plan,
        Some(vec![
            "home".to_string(),
            ".branchwrite".to_string(),
            "books".to_string(),
            b.config.id.clone(),
            "documents".to_string(),
            d1.id.clone(),
        ])
    );
    assert_eq!(b.current_document_id, None);
    assert!(b.documents.is_empty());
}

#[test]
fn document_create_ops_shape() {
    let fsm = manager();
    let mut b = fsm.create_book("Book", "", "a", "g");
    let d = fsm.create_document(&mut b, "one", "chapter");
    let ops = fsm.document_create_ops(&d);
    assert_eq!(ops.len(), 4);
    let dir = vec![
        "home".to_string(),
        ".branchwrite".to_string(),
        "books".to_string(),
        b.config.id.clone(),
        "documents".to_string(),
        d.id.clone(),
    ];
    let seg = |name: &str| {
        let mut p = dir.clone();
        p.push(name.to_string());
        p
    };
    assert_eq!(ops[0], FsOp::MakeDir(dir.clone()));
    assert_eq!(ops[1], FsOp::WriteFile(seg("content.md"), FilePayload::Text(String::new())));
    assert_eq!(
        ops[2],
        FsOp::WriteFile(seg("metadata.json"), FilePayload::DocumentConfigFile(d.clone()))
    );
    assert_eq!(ops[3], FsOp::MakeDir(seg("commits")));
}

#[test]
fn list_documents_returns_stored_list() {
    let fsm = manager();
    let mut b = fsm.create_book("Book", "", "a", "g");
    let d1 = fsm.create_document(&mut b, "one", "chapter");
    let d2 = fsm.create_document(&mut b, "two", "chapter");
    assert_eq!(fsm.list_documents(&b), vec![d1, d2]);
}

#[test]
fn load_document_policy() {
    let fsm = manager();
    assert_eq!(fsm.load_document(Loaded::Missing), Ok(String::new()));
    assert_eq!(fsm.load_document(Loaded::Value("text".to_string())), Ok("text".to_string()));
    assert_eq!(
        fsm.load_document(Loaded::Unreadable),
        Err(StoreError::Io("Failed to read document content".to_string()))
    );
}

#[test]
fn save_document_recomputes_counts() {
    let fsm = manager();
    let mut b = fsm.create_book("Book", "", "a", "g");
    let d = fsm.create_document(&mut b, "one", "chapter");
    let (text, meta) = fsm
        .save_document("hello   world\n\nfoo", Loaded::Value(d.clone()))
        .unwrap();
    assert_eq!(text, "hello   world\n\nfoo");
    let meta = meta.unwrap();
    assert_eq!(meta.character_count, 18);
    assert_eq!(meta.word_count, 3);
    assert_eq!(meta.id, d.id);
    assert_eq!(meta.order, d.order);
    assert_eq!(meta.created_at, d.created_at);
}

#[test]
fn save_document_without_metadata_skips_stats() {
    let fsm = manager();
    let (text, meta) = fsm.save_document("abc", Loaded::Missing).unwrap();
    assert_eq!(text, "abc");
    assert_eq!(meta, None);
}

#[test]
fn save_document_metadata_errors() {
    let fsm = manager();
    assert_eq!(
        fsm.save_document("abc", Loaded::Malformed),
        Err(StoreError::Parse("Failed to parse document metadata".to_string()))
    );
    assert_eq!(
        fsm.save_document("abc", Loaded::Unreadable),
        Err(StoreError::Io("Failed to read document metadata".to_string()))
    );
}

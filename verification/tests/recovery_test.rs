use nucleus::recovery::{BackupEntry, RecoveryManager};

/// The backup folder as the tests keep it: the entries a scan would see.
fn entry(dir: &str, name: &str, text: &str) -> BackupEntry {
    BackupEntry {
        path: format!("{}/{}", dir, name),
        file_name: Some(name.to_string()),
        is_file: true,
        text: Some(text.to_string()),
    }
}

fn lifecycle(file_path: &str, content: &str) {
    let manager = RecoveryManager::with_backup_dir("/tmp/nucleus_test_recovery/.nucleus/backup".to_string());
    let mut folder: Vec<BackupEntry> = Vec::new();

    let (name, text) = manager.save_snapshot(file_path, content, 1_700_000_000).unwrap();
    folder.push(entry(&manager.backup_dir, &name, &text));

    let snapshots = RecoveryManager::list_snapshots(&folder);
    assert_eq!(snapshots.len(), 1);
    assert_eq!(snapshots[0].original_path, file_path);
    assert_eq!(snapshots[0].content, content);

    let gone = manager.remove_snapshot(file_path);
    folder.retain(|e| e.file_name.as_deref() != Some(gone.as_str()));
    let snapshots_after = RecoveryManager::list_snapshots(&folder);
    assert_eq!(snapshots_after.len(), 0);
}

#[test]
fn recovery_test_recovery_snapshot_lifecycle() {
    lifecycle("src/main.rs", "fn main() { println!(\"recovered\"); }");
}

#[test]
fn recovery_test_test_recovery_snapshot_lifecycle() {
    lifecycle("src/main.rs", "fn main() { println!(\"recovered content\"); }");
}

#[test]
fn backup_names_are_flat() {
    assert_eq!(RecoveryManager::path_to_backup_name("src/main.rs"), "src_main.rs.backup");
    assert_eq!(RecoveryManager::path_to_backup_name("C:\\work\\a.rs"), "C__work_a.rs.backup");
    assert_eq!(RecoveryManager::path_to_backup_name(""), ".backup");
}

#[test]
fn snapshot_record_is_pretty_json() {
    let m = RecoveryManager::with_backup_dir("/b".to_string());
    let (name, text) = m.save_snapshot("src/main.rs", "a\n\"b\"", 42).unwrap();
    assert_eq!(name, "src_main.rs.backup");
    assert_eq!(
        text,
        "{\n  \"content\": \"a\\n\\\"b\\\"\",\n  \"original_path\": \"src/main.rs\",\n  \"timestamp\": 42\n}"
    );
    assert_eq!(m.remove_snapshot("src/main.rs"), "src_main.rs.backup");
}

#[test]
fn snapshot_entries() {
    let record = "{\"original_path\": \"src/main.rs\", \"content\": \"fn main() {}\", \"timestamp\": 1}";
    let ok = RecoveryManager::snapshot_from_entry(
        "/b/src_main.rs.backup",
        Some("src_main.rs.backup"),
        true,
        Some(record),
    )
    .unwrap();
    assert_eq!(ok.original_path, "src/main.rs");
    assert_eq!(ok.content, "fn main() {}");
    assert_eq!(ok.backup_file_path, "/b/src_main.rs.backup");
    assert!(RecoveryManager::snapshot_from_entry("x", Some("x.txt"), true, Some(record)).is_none());
    assert!(RecoveryManager::snapshot_from_entry("x", Some("x.backup"), false, Some(record)).is_none());
    assert!(RecoveryManager::snapshot_from_entry("x", Some(".backup"), true, Some(record)).is_none());
    assert!(RecoveryManager::snapshot_from_entry("x", None, true, Some(record)).is_none());
    assert!(RecoveryManager::snapshot_from_entry("x", Some("x.backup"), true, None).is_none());
    assert!(RecoveryManager::snapshot_from_entry("x", Some("x.backup"), true, Some("not json")).is_none());
    assert!(RecoveryManager::snapshot_from_entry("x", Some("x.backup"), true, Some("[1, 2]")).is_none());
    assert!(RecoveryManager::snapshot_from_entry("x", Some("x.backup"), true, Some("{\"content\": \"c\"}")).is_none());
    assert!(RecoveryManager::snapshot_from_entry(
        "x",
        Some("x.backup"),
        true,
        Some("{\"original_path\": 3, \"content\": \"c\"}")
    )
    .is_none());
    assert!(RecoveryManager::is_snapshot_file(Some("a.backup"), true));
    assert!(!RecoveryManager::is_snapshot_file(Some("a.backup"), false));
    assert!(!RecoveryManager::is_snapshot_file(Some("a.bak"), true));
    let m = RecoveryManager::with_backup_dir("/tmp/b".to_string());
    assert_eq!(m.backup_dir, "/tmp/b");
}

#[test]
fn scan_keeps_only_snapshots_in_order() {
    let m = RecoveryManager::with_backup_dir("/b".to_string());
    let (n1, t1) = m.save_snapshot("one.rs", "1", 5).unwrap();
    let (n2, t2) = m.save_snapshot("two.rs", "2", 6).unwrap();
    let folder = vec![
        entry("/b", &n1, &t1),
        entry("/b", "notes.txt", "hello"),
        BackupEntry { path: "/b/sub.backup".to_string(), file_name: Some("sub.backup".to_string()), is_file: false, text: None },
        entry("/b", &n2, &t2),
    ];
    let found = RecoveryManager::list_snapshots(&folder);
    assert_eq!(found.len(), 2);
    assert_eq!(found[0].original_path, "one.rs");
    assert_eq!(found[0].backup_file_path, "/b/one.rs.backup");
    assert_eq!(found[1].original_path, "two.rs");
    assert_eq!(found[1].content, "2");
}

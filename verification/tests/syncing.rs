use kp::errors::ErrorKind;
use kp::manifest::TaskEntry;
use kp::manifest::sync_manifest_text;
use kp::settings::update_settings_text;

fn task(label: &str, submit: &str) -> TaskEntry {
    TaskEntry { label: label.to_string(), submit: submit.to_string() }
}

const BASE_MANIFEST: &str = "[package]\nname = \"ws\"\nversion = \"0.1.0\"\n";

#[test]
fn manifest_sync_adds_one_entry_per_task() {
    let tasks = vec![task("A", "a/main.rs"), task("B", "b/main.rs")];
    let sync = sync_manifest_text(BASE_MANIFEST, &tasks).unwrap();
    assert_eq!(sync.prior, Vec::<String>::new());
    assert_eq!(sync.added, vec!["a".to_string(), "b".to_string()]);
    let doc: toml_edit::DocumentMut = sync.content.parse().unwrap();
    let bins = doc.get("bin").unwrap().as_array_of_tables().unwrap();
    let pairs: Vec<(&str, &str)> = bins
        .iter()
        .map(|t| {
            (
                t.get("name").unwrap().as_str().unwrap(),
                t.get("path").unwrap().as_str().unwrap(),
            )
        })
        .collect();
    assert_eq!(pairs, vec![("a", "a/main.rs"), ("b", "b/main.rs")]);
    // The rest of the manifest is kept as it was.
    assert!(sync.content.contains("[package]"));
    assert!(sync.content.contains("name = \"ws\""));
}

#[test]
fn manifest_sync_is_idempotent() {
    let tasks = vec![task("A", "a/main.rs"), task("B", "b/main.rs")];
    let first = sync_manifest_text(BASE_MANIFEST, &tasks).unwrap();
    let second = sync_manifest_text(&first.content, &tasks).unwrap();
    assert_eq!(second.added, Vec::<String>::new());
    assert_eq!(second.prior, vec!["a".to_string(), "b".to_string()]);
    assert_eq!(second.content, first.content);
}

#[test]
fn manifest_sync_skips_entries_already_present() {
    let existing = "[package]\nname = \"ws\"\n\n[[bin]]\nname = \"a\"\npath = \"old/a.rs\"\n";
    let tasks = vec![task("A", "a/main.rs"), task("B", "b/main.rs")];
    let sync = sync_manifest_text(existing, &tasks).unwrap();
    assert_eq!(sync.prior, vec!["a".to_string()]);
    assert_eq!(sync.added, vec!["b".to_string()]);
    // The duplicate is skipped, not overwritten.
    assert!(sync.content.contains("old/a.rs"));
    assert!(!sync.content.contains("a/main.rs"));
}

#[test]
fn manifest_sync_dedups_within_one_batch() {
    let tasks = vec![task("A", "a/main.rs"), task("a", "dup/a.rs")];
    let sync = sync_manifest_text(BASE_MANIFEST, &tasks).unwrap();
    assert_eq!(sync.added, vec!["a".to_string()]);
}

#[test]
fn manifest_sync_lowercases_labels() {
    let tasks = vec![task("Ex", "ex/main.rs")];
    let sync = sync_manifest_text(BASE_MANIFEST, &tasks).unwrap();
    assert_eq!(sync.added, vec!["ex".to_string()]);
}

#[test]
fn manifest_sync_rejects_invalid_toml() {
    let err = sync_manifest_text("not = = toml", &vec![task("A", "a.rs")]).unwrap_err();
    assert_eq!(err.kind, ErrorKind::ParseData);
    assert!(err.render().starts_with("Error: "));
}

#[test]
fn manifest_sync_rejects_a_scalar_bin_key() {
    let err = sync_manifest_text("bin = 3\n", &vec![task("A", "a.rs")]).unwrap_err();
    assert_eq!(err.kind, ErrorKind::ParseData);
}

#[test]
fn settings_update_links_the_workspace_once() {
    let entry = "./abc300/Cargo.toml".to_string();
    let update = update_settings_text(None, &entry).unwrap();
    let content = update.content.expect("a fresh settings file is written");
    let root: serde_json::Value = serde_json::from_str(&content).unwrap();
    let linked = root.get("rust-analyzer.linkedProjects").unwrap().as_array().unwrap();
    assert_eq!(linked.len(), 1);
    assert_eq!(linked[0].as_str().unwrap(), "./abc300/Cargo.toml");

    // A second update with the same entry writes nothing.
    let again = update_settings_text(Some(&content), &entry).unwrap();
    assert!(again.content.is_none());
}

#[test]
fn settings_update_preserves_other_keys() {
    let entry = "./abc300/Cargo.toml".to_string();
    let prev = "{\"editor.formatOnSave\": true}".to_string();
    let update = update_settings_text(Some(&prev), &entry).unwrap();
    let content = update.content.unwrap();
    let root: serde_json::Value = serde_json::from_str(&content).unwrap();
    assert_eq!(root.get("editor.formatOnSave").unwrap().as_bool(), Some(true));
    let linked = root.get("rust-analyzer.linkedProjects").unwrap().as_array().unwrap();
    assert_eq!(linked.len(), 1);
}

#[test]
fn settings_update_appends_to_an_existing_list() {
    let entry = "./abc301/Cargo.toml".to_string();
    let prev = "{\"rust-analyzer.linkedProjects\": [\"./abc300/Cargo.toml\"]}".to_string();
    let update = update_settings_text(Some(&prev), &entry).unwrap();
    let content = update.content.unwrap();
    let root: serde_json::Value = serde_json::from_str(&content).unwrap();
    let linked = root.get("rust-analyzer.linkedProjects").unwrap().as_array().unwrap();
    let names: Vec<&str> = linked.iter().map(|v| v.as_str().unwrap()).collect();
    assert_eq!(names, vec!["./abc300/Cargo.toml", "./abc301/Cargo.toml"]);
}

#[test]
fn settings_update_rejects_invalid_json() {
    let entry = "./abc300/Cargo.toml".to_string();
    let prev = "{not json".to_string();
    let err = update_settings_text(Some(&prev), &entry).unwrap_err();
    assert_eq!(err.kind, ErrorKind::ParseData);
}

#[test]
fn settings_update_rejects_a_non_object_root() {
    let entry = "./abc300/Cargo.toml".to_string();
    let prev = "[1, 2]".to_string();
    let err = update_settings_text(Some(&prev), &entry).unwrap_err();
    assert_eq!(err.kind, ErrorKind::ParseData);
}

#[test]
fn settings_update_rejects_a_scalar_project_list() {
    let entry = "./abc300/Cargo.toml".to_string();
    let prev = "{\"rust-analyzer.linkedProjects\": 5}".to_string();
    let err = update_settings_text(Some(&prev), &entry).unwrap_err();
    assert_eq!(err.kind, ErrorKind::ParseData);
}

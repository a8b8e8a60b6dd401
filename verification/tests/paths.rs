use release_core::context::Context;
use release_core::paths::{
    dependency_path, is_dependency_referred_to_package, manifest_dir, new_manifest_dir_path,
    parent_or_root,
};

fn entry(text: &str) -> toml_edit::Item {
    let document: toml_edit::DocumentMut = text.parse().unwrap();
    document["dep"].clone()
}

#[test]
fn manifest_is_in_its_directory() {
    assert_eq!(manifest_dir("/work/project/Cargo.toml").unwrap(), "/work/project");
    assert_eq!(manifest_dir("Cargo.toml").unwrap(), "");
    assert_eq!(manifest_dir("/"), None);
}

#[test]
fn manifest_directory_moves_with_its_project() {
    let path = new_manifest_dir_path("/work/project", "/work/project/crates/a", "/tmp/copy");
    assert_eq!(path.unwrap(), "/tmp/copy/project/crates/a");
    let path = new_manifest_dir_path("/", "/crates/a", "/tmp/copy");
    assert_eq!(path.unwrap(), "/tmp/copy/crates/a");
}

#[test]
fn manifest_directory_outside_is_refused() {
    let error = new_manifest_dir_path("/work/project", "/elsewhere", "/tmp/copy").unwrap_err();
    assert_eq!(error, Context::StripManifestPrefix);
    assert_eq!(error.text(), "cannot strip prefix for manifest dir");
}

#[test]
fn copy_onto_itself_moves_nothing() {
    let path = new_manifest_dir_path("/work/project", "/work/project/crates/a", "/work");
    assert_eq!(path.unwrap(), "/work/project/crates/a");
}

#[test]
fn moved_directory_moves_back() {
    for dir in ["/work/project/crates/a", "/work/project", "/work", "/work/./x//y"] {
        let moved = new_manifest_dir_path("/work/project", dir, "/tmp/copy").unwrap();
        assert!(moved.starts_with("/tmp/copy"));
        let back = new_manifest_dir_path("/tmp/copy/project", &moved, "/work").unwrap();
        assert!(is_dependency_referred_to_package(Some(back.as_str()), dir));
    }
    let stays = new_manifest_dir_path("project", "/elsewhere", "/tmp/copy").unwrap();
    assert_eq!(stays, "/elsewhere");
}

#[test]
fn root_without_parent_stands_for_it() {
    assert_eq!(parent_or_root("/", None), "/");
    assert_eq!(parent_or_root("/a/b", Some("/a".to_string())), "/a");
}

#[test]
fn dependency_path_is_seen_from_the_manifest() {
    let inline = entry("dep = { path = \"../a\", version = \"1\" }");
    assert_eq!(dependency_path(&inline, "/work/b").unwrap(), "/work/b/../a");
    let table = entry("[dep]\npath = \"a\"\n");
    assert_eq!(dependency_path(&table, "/work/b").unwrap(), "/work/b/a");
}

#[test]
fn dependency_without_path_has_none() {
    assert_eq!(dependency_path(&entry("dep = \"1\""), "/work/b"), None);
    assert_eq!(dependency_path(&entry("dep = { version = \"1\" }"), "/work/b"), None);
    assert_eq!(dependency_path(&entry("dep = { path = 3 }"), "/work/b"), None);
}

#[test]
fn dependency_refers_to_the_package_at_its_path() {
    assert!(is_dependency_referred_to_package(Some("/work/a"), "/work/a"));
    assert!(is_dependency_referred_to_package(Some("/work/a"), "/work//a/"));
    assert!(!is_dependency_referred_to_package(Some("/work/a"), "/work/b"));
    assert!(!is_dependency_referred_to_package(None, "/work/a"));
}

use release_core::package::{
    find_package, is_example_package, publishable_packages_from_manifest, workspace_names,
    workspace_packages, Metadata, Package, Publishable, Target, TargetKind,
};

fn package(name: &str, publish: Option<Vec<&str>>, targets: Vec<Vec<TargetKind>>) -> Package {
    Package {
        name: name.to_string(),
        version: "1.0.0".to_string(),
        id: format!("{}#1.0.0", name),
        publish: publish.map(|list| list.iter().map(|r| r.to_string()).collect()),
        targets: targets.into_iter().map(|kind| Target { kind }).collect(),
    }
}

fn metadata() -> Metadata {
    Metadata {
        packages: vec![
            package("serde", None, vec![vec![TargetKind::Lib]]),
            package("core", None, vec![vec![TargetKind::Lib]]),
            package("demo", None, vec![vec![TargetKind::Example]]),
            package("cli", Some(vec![]), vec![vec![TargetKind::Bin]]),
            package("lib", Some(vec!["my-reg"]), vec![vec![TargetKind::Example]]),
        ],
        workspace_members: vec!["lib#1.0.0", "cli#1.0.0", "demo#1.0.0", "core#1.0.0"]
            .iter()
            .map(|id| id.to_string())
            .collect(),
    }
}

fn names(packages: &[Package]) -> Vec<&str> {
    packages.iter().map(|p| p.name.as_str()).collect()
}

#[test]
fn package_for_no_registry_is_not_publishable() {
    assert!(!package("a", Some(vec![]), vec![vec![TargetKind::Lib]]).is_publishable());
}

#[test]
fn package_for_a_registry_is_publishable() {
    assert!(package("a", Some(vec!["my-reg"]), vec![vec![TargetKind::Example]]).is_publishable());
    assert!(package("a", Some(vec!["my-reg"]), vec![]).is_publishable());
}

#[test]
fn package_for_any_registry_is_publishable_unless_it_is_an_example() {
    let example = vec![TargetKind::Example];
    assert!(package("a", None, vec![vec![TargetKind::Lib]]).is_publishable());
    assert!(!package("a", None, vec![vec![TargetKind::Example]]).is_publishable());
    assert!(package("a", None, vec![example, vec![TargetKind::Bin]]).is_publishable());
    assert!(!package("a", None, vec![]).is_publishable());
    let both = vec![TargetKind::Example, TargetKind::Lib];
    assert!(!is_example_package(&package("a", None, vec![both])));
    let unknown = vec![TargetKind::Unknown("example".to_string())];
    assert!(!is_example_package(&package("a", None, vec![unknown])));
}

#[test]
fn workspace_packages_are_the_members() {
    assert_eq!(names(&workspace_packages(metadata())), vec!["core", "demo", "cli", "lib"]);
    assert_eq!(workspace_names(&metadata()), vec!["core", "demo", "cli", "lib"]);
}

#[test]
fn publishable_packages_are_members_that_can_be_published() {
    assert_eq!(names(&publishable_packages_from_manifest(metadata())), vec!["core", "lib"]);
}

#[test]
fn first_package_of_a_name_is_found() {
    let mut packages = metadata().packages;
    packages.push(package("core", None, vec![]));
    assert_eq!(find_package(&packages, "core"), Some(1));
    assert_eq!(find_package(&packages, "nothing"), None);
}

use release_core::collection::{PackagesCollection, ReleasePackage};
use release_core::config::UpdateConfig;
use release_core::context::Context;
use release_core::lookup::{LookupAction, LookupEvent};
use release_core::next_ver::{
    next_versions, stash_arguments, NextAction, NextEvent, NextVersions, RegistryQuery,
};
use release_core::package::{Metadata, Package};
use release_core::release_tag::ReleaseRegex;
use release_core::request::UpdateRequest;
use release_core::update::{ChangelogRequest, SemverCheck, UpdateResult, NO_COMMIT_ID};

fn text(s: &str) -> String {
    s.to_string()
}

fn package(name: &str) -> Package {
    Package {
        name: text(name),
        version: text("0.1.0"),
        id: text(name),
        publish: None,
        targets: vec![],
    }
}

fn metadata(names: &[&str]) -> Metadata {
    Metadata {
        packages: names.iter().map(|name| package(name)).collect(),
        workspace_members: names.iter().map(|name| text(name)).collect(),
    }
}

fn request(manifest: &str, git_only: bool, regex: Option<&str>, allow_dirty: bool) -> UpdateRequest {
    UpdateRequest {
        local_manifest: text(manifest),
        registry_manifest: Some(text("/released/Cargo.toml")),
        registry: Some(text("my-reg")),
        allow_dirty,
        git_only,
        git_only_release_regex: regex.map(|regex| ReleaseRegex::new(regex).unwrap()),
        default_config: UpdateConfig::default(),
        overrides: vec![],
    }
}

fn loaded(packages: Vec<Package>) -> NextEvent {
    NextEvent::Loaded(packages)
}

fn released(names: &[&str]) -> NextEvent {
    let mut packages = PackagesCollection::new();
    for name in names {
        packages = packages.with_package(ReleasePackage { package: package(name), commit: None });
    }
    NextEvent::Released(packages)
}

fn look_up(run: NextVersions, name: &str, commit: &str) -> NextVersions {
    let event = |event| NextEvent::LookUp(event);
    assert_eq!(run.action(), NextAction::LookUp(LookupAction::CreateWorktree(text(name))));
    let run = run.step(event(LookupEvent::Worktree(Some(format!("/tmp/{}", name)))));
    let run = run.step(event(LookupEvent::Done));
    assert_eq!(run.action(), NextAction::LookUp(LookupAction::ListTags));
    let run = run.step_tags(&vec![text("latest"), text("v0.1.2"), text("v0.1.3")]).unwrap();
    assert_eq!(run.action(), NextAction::LookUp(LookupAction::ResolveCommit(text("v0.1.3"))));
    let run = run.step(event(LookupEvent::Commit(text(commit))));
    let run = run.step(event(LookupEvent::Done));
    let run = run.step(event(LookupEvent::Done));
    let run = run.step(event(LookupEvent::Done));
    let run = run.step(event(LookupEvent::Metadata(metadata(&[name]))));
    run.step(event(LookupEvent::Metadata(metadata(&[name]))))
}

#[test]
fn registry_run_compares_with_the_registry() {
    let run = next_versions(request("/work/Cargo.toml", false, None, false), &metadata(&["a"]));
    assert_eq!(run.action(), NextAction::LoadProject);
    assert!(!run.accepts(&NextEvent::Done));
    let ignored = Package { publish: Some(vec![]), ..package("b") };
    let published = |name: &str| Package { publish: Some(vec![text("my-reg")]), ..package(name) };
    let run = run.step(loaded(vec![published("a"), ignored, package("c"), published("d")]));
    assert_eq!(
        run.action(),
        NextAction::ReadRegistry(RegistryQuery {
            manifest: Some(text("/released/Cargo.toml")),
            packages: vec![text("a"), text("d")],
            registry: Some(text("my-reg")),
        })
    );
    assert!(!run.accepts(&loaded(vec![])));
    assert!(!run.accepts(&NextEvent::Done));
    let run = run.step(released(&["a"]));
    assert!(!run.accepts(&released(&["b"])));
    assert_eq!(run.action(), NextAction::OpenWorktree(text("/work")));
    let run = run.step(NextEvent::Done);
    assert_eq!(run.action(), NextAction::CheckClean);
    let run = run.step(NextEvent::Done);
    assert_eq!(run.action(), NextAction::UpdatePackages);
    let run = run.step(NextEvent::Done);
    assert_eq!(run.action(), NextAction::Stop);
    assert_eq!(run.failure(), None);
    assert_eq!(run.released().packages().len(), 1);
    assert_eq!(run.released().get("a").unwrap().package, package("a"));
    assert!(!run.accepts(&NextEvent::Done));
}

#[test]
fn git_run_looks_up_every_package() {
    let input = request("/work/Cargo.toml", true, Some("^v"), false);
    let run = next_versions(input, &metadata(&["a", "b"])).step(loaded(vec![]));
    assert_eq!(run.action(), NextAction::OpenRepository(text("/work")));
    assert!(run.accepts(&NextEvent::Done));
    let run = run.step(NextEvent::Done);
    let run = look_up(run, "a", "c1");
    let run = look_up(run, "b", "c2");
    assert_eq!(run.action(), NextAction::OpenWorktree(text("/work")));
    let released = run.released();
    assert_eq!(released.packages().len(), 2);
    assert_eq!(released.get("a").unwrap().commit.as_deref(), Some("c1"));
    assert_eq!(released.get("b").unwrap().commit.as_deref(), Some("c2"));
    assert_eq!(released.get("b").unwrap().package, package("b"));
    assert!(released.get("c").is_none());
    let run = run.step(NextEvent::Done).step(NextEvent::Done).step(NextEvent::Done);
    assert_eq!(run.action(), NextAction::Stop);
    assert_eq!(run.failure(), None);
    assert_eq!(run.released().packages().len(), 2);
}

#[test]
fn git_run_without_packages_goes_on() {
    let input = request("/work/Cargo.toml", true, Some("^v"), false);
    let run = next_versions(input, &metadata(&[])).step(loaded(vec![])).step(NextEvent::Done);
    assert_eq!(run.action(), NextAction::OpenWorktree(text("/work")));
}

#[test]
fn git_run_without_pattern_has_no_next_step() {
    let input = request("/work/Cargo.toml", true, None, false);
    let run = next_versions(input, &metadata(&["a"])).step(loaded(vec![]));
    assert!(!run.accepts(&NextEvent::Done));
    let failed = run.step(NextEvent::Failed);
    assert_eq!(failed.failure(), Some(Some(Context::CreateUnreleasedRepo)));
    assert_eq!(
        Context::CreateUnreleasedRepo.text(),
        "create unreleased repo for spinning worktrees"
    );
}

#[test]
fn package_without_release_tag_has_no_next_step() {
    let input = request("/work/Cargo.toml", true, Some("^v"), false);
    let run = next_versions(input, &metadata(&["a"])).step(loaded(vec![])).step(NextEvent::Done);
    let run = run.step(NextEvent::LookUp(LookupEvent::Worktree(None)));
    let run = run.step(NextEvent::LookUp(LookupEvent::Done));
    assert!(run.step_tags(&vec![text("latest")]).is_none());
}

#[test]
fn release_tag_without_version_fails_the_run() {
    let input = request("/work/Cargo.toml", true, Some("release"), false);
    let run = next_versions(input, &metadata(&["a"])).step(loaded(vec![])).step(NextEvent::Done);
    let run = run.step(NextEvent::LookUp(LookupEvent::Worktree(None)));
    let run = run.step(NextEvent::LookUp(LookupEvent::Done));
    let run = run.step_tags(&vec![text("release-final")]).unwrap();
    assert_eq!(run.action(), NextAction::Stop);
    assert_eq!(run.failure(), Some(Some(Context::ReleaseWithoutVersion)));
    assert!(run.released().packages().is_empty());
}

#[test]
fn failed_lookup_fails_the_run() {
    let input = request("/work/Cargo.toml", true, Some("^v"), false);
    let run = next_versions(input, &metadata(&["a"])).step(loaded(vec![])).step(NextEvent::Done);
    let run = run.step(NextEvent::LookUp(LookupEvent::Failed));
    assert_eq!(run.failure(), Some(Some(Context::BuildPackageWorktree)));
    assert_eq!(run.action(), NextAction::Stop);
}

fn at_clean_check(allow_dirty: bool) -> NextVersions {
    let input = request("/work/Cargo.toml", false, None, allow_dirty);
    next_versions(input, &metadata(&["a"]))
        .step(loaded(vec![]))
        .step(released(&[]))
        .step(NextEvent::Done)
}

#[test]
fn dirty_repository_is_refused_or_stashed() {
    assert_eq!(at_clean_check(false).step(NextEvent::Failed).failure(), Some(None));
    let run = at_clean_check(true).step(NextEvent::Failed);
    assert_eq!(run.action(), NextAction::Stash);
    let run = run.step(NextEvent::Done);
    assert_eq!(run.action(), NextAction::UpdatePackages);
    assert_eq!(at_clean_check(true).step(NextEvent::Done).action(), NextAction::UpdatePackages);
    let run = at_clean_check(true).step(NextEvent::Failed).step(NextEvent::Failed);
    assert_eq!(run.failure(), Some(None));
    assert_eq!(
        stash_arguments(),
        vec![
            "stash",
            "push",
            "--include-untracked",
            "-m",
            "uncommitted changes stashed by release-plz"
        ]
    );
}

#[test]
fn manifest_without_directory_fails_the_run() {
    let run = next_versions(request("/", false, None, false), &metadata(&[]));
    let run = run.step(loaded(vec![])).step(released(&[]));
    assert_eq!(run.failure(), Some(Some(Context::GetLocalManifestParent)));
    assert_eq!(Context::GetLocalManifestParent.text(), "get local manifest parent");
    let run = next_versions(request("/", true, Some("^v"), false), &metadata(&[]));
    let run = run.step(loaded(vec![]));
    assert_eq!(run.failure(), Some(Some(Context::GetLocalManifestDir)));
    assert_eq!(Context::GetLocalManifestDir.text(), "get local manifest dir");
}

#[test]
fn other_failures_of_a_run_are_passed_on() {
    let start = || next_versions(request("/work/Cargo.toml", false, None, false), &metadata(&[]));
    assert_eq!(start().step(NextEvent::Failed).failure(), Some(None));
    let registry = || start().step(loaded(vec![]));
    assert_eq!(registry().step(NextEvent::Failed).failure(), Some(None));
    let opening = || registry().step(released(&[]));
    let failed = opening().step(NextEvent::Failed);
    assert_eq!(failed.failure(), Some(Some(Context::CreateUnreleasedWorktree)));
    assert_eq!(Context::CreateUnreleasedWorktree.text(), "create unreleased worktree");
    let failed = at_clean_check(false).step(NextEvent::Done).step(NextEvent::Failed);
    assert_eq!(failed.failure(), Some(None));
}

#[test]
fn later_package_replaces_one_of_the_same_name() {
    let release = |name: &str, commit: &str| ReleasePackage {
        package: package(name),
        commit: Some(text(commit)),
    };
    let collection = PackagesCollection::new()
        .with_package(release("a", "c1"))
        .with_package(release("b", "c2"))
        .with_package(release("a", "c3"));
    assert_eq!(collection.packages().len(), 2);
    assert_eq!(collection.get("a").unwrap().commit.as_deref(), Some("c3"));
    assert_eq!(collection.get("b").unwrap().commit.as_deref(), Some("c2"));
}

fn result(changelog: Option<&str>) -> UpdateResult {
    UpdateResult {
        version: cargo_metadata::semver::Version::new(1, 2, 3),
        changelog: changelog.map(|c| c.to_string()),
        semver_check: SemverCheck::Skipped,
        new_changelog_entry: None,
    }
}

#[test]
fn last_changes_are_those_of_the_changelog() {
    let parse = |changelog: &str| -> Result<Option<usize>, String> {
        if changelog.is_empty() {
            Err(text("empty"))
        } else {
            Ok(changelog.find("##"))
        }
    };
    assert_eq!(result(Some("# Log\n## 1.0")).last_changes(parse), Ok(Some(6)));
    assert_eq!(result(Some("# Log")).last_changes(parse), Ok(None));
    assert_eq!(result(Some("")).last_changes(parse), Err(text("empty")));
    assert_eq!(result(None).last_changes(parse), Ok(None));
}

#[test]
fn changelog_request_asks_for_nothing_by_default() {
    let request = ChangelogRequest::default();
    assert!(request.release_date.is_none());
    assert!(request.changelog_config.is_none());
}

#[test]
fn missing_commit_has_seven_zeros() {
    assert_eq!(NO_COMMIT_ID, "0000000");
}

#[test]
fn copy_of_an_update_is_the_same() {
    let update = UpdateResult {
        version: cargo_metadata::semver::Version::parse("1.2.3-alpha.1+build.7").unwrap(),
        changelog: Some(text("# Log")),
        semver_check: SemverCheck::Incompatible(text("gone")),
        new_changelog_entry: Some(text("## 1.2.3")),
    };
    let copy = update.clone();
    assert_eq!(copy.version, update.version);
    assert_eq!(copy.version.to_string(), "1.2.3-alpha.1+build.7");
    assert_eq!(copy.changelog.as_deref(), Some("# Log"));
    assert_eq!(copy.semver_check, SemverCheck::Incompatible(text("gone")));
    assert_eq!(copy.new_changelog_entry.as_deref(), Some("## 1.2.3"));
    assert_eq!(SemverCheck::Compatible.clone(), SemverCheck::Compatible);
    assert_eq!(SemverCheck::Skipped.clone(), SemverCheck::Skipped);
}

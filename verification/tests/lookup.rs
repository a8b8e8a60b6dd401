use release_core::context::Context;
use release_core::hash::MD5Hash;
use release_core::lookup::{Lookup, LookupAction, LookupEvent, LookupPhase};
use release_core::package::{Metadata, Package};
use release_core::release_tag::ReleaseRegex;
use release_core::visit::{GitPackage, RegistryPackage, ToPackage, VisitError};

fn package(name: &str, version: &str) -> Package {
    Package {
        name: name.to_string(),
        version: version.to_string(),
        id: format!("{}@{}", name, version),
        publish: None,
        targets: vec![],
    }
}

fn metadata(packages: Vec<Package>) -> Metadata {
    let workspace_members = packages.iter().map(|p| p.id.clone()).collect();
    Metadata { packages, workspace_members }
}

fn text(s: &str) -> String {
    s.to_string()
}

fn git_package() -> GitPackage {
    GitPackage {
        package_name: text("core"),
        git_tag_release_regex: ReleaseRegex::new("^v[0-9]").unwrap(),
    }
}

fn context_of(lookup: &Lookup<String>) -> Context {
    match &lookup.phase {
        LookupPhase::Failed { context } => *context,
        _ => panic!("not failed"),
    }
}

#[test]
fn visit_goes_through_all_steps() {
    let visit = git_package().try_visit_git_package(Some(text("/tmp/core"))).unwrap();
    let lookup = visit.lookup;
    assert_eq!(lookup.action(), LookupAction::OpenRepo);
    let lookup = lookup.step(LookupEvent::Done);
    assert_eq!(lookup.action(), LookupAction::ListTags);
    let tags = vec![text("nightly"), text("v1.0.0"), text("v1.2.3")];
    let lookup = lookup.step_tags(&visit.regex, &tags).unwrap();
    assert_eq!(lookup.action(), LookupAction::ResolveCommit(text("v1.2.3")));
    let lookup = lookup.step(LookupEvent::Commit(text("abc123")));
    assert_eq!(lookup.action(), LookupAction::Checkout(text("abc123")));
    let lookup = lookup.step(LookupEvent::Done);
    assert_eq!(lookup.action(), LookupAction::SpawnPackage);
    let lookup = lookup.step(LookupEvent::Done);
    assert_eq!(lookup.action(), LookupAction::WaitPackage);
    let lookup = lookup.step(LookupEvent::Done);
    assert_eq!(lookup.action(), LookupAction::ReadMetadata(text("/tmp/core/Cargo.toml")));
    let all = metadata(vec![package("other", "9.9.9"), package("core", "1.2.3")]);
    let lookup = lookup.step(LookupEvent::Metadata(all));
    let directory = "/tmp/core/target/package/core-1.2.3";
    assert_eq!(lookup.action(), LookupAction::HashDir(text(directory)));
    let lookup = lookup.step(LookupEvent::Hash(MD5Hash([7; 16])));
    assert_eq!(lookup.action(), LookupAction::ReadMetadata(format!("{}/Cargo.toml", directory)));
    let lookup = lookup.step(LookupEvent::Metadata(metadata(vec![package("core", "1.2.3")])));
    assert_eq!(lookup.action(), LookupAction::Stop);
    assert!(!lookup.accepts(&LookupEvent::Failed));
    match lookup.phase {
        LookupPhase::Visited { state } => {
            assert_eq!(state.md5_hash.0, [7; 16]);
            assert_eq!(state.metadata.packages, vec![package("core", "1.2.3")]);
        }
        _ => panic!("not visited"),
    }
}

#[test]
fn visit_without_release_tag_has_no_next_step() {
    let visit = git_package().try_visit_git_package(None).unwrap();
    let lookup = visit.lookup.step(LookupEvent::Done);
    assert!(!lookup.accepts(&LookupEvent::Release(None)));
    assert!(lookup.accepts(&LookupEvent::Release(Some(text("v1.0.0")))));
    assert!(lookup.step_tags(&visit.regex, &vec![text("nightly")]).is_none());
}

#[test]
fn release_tag_without_version_fails_before_its_commit() {
    let start = || git_package().try_visit_git_package(None).unwrap();
    let visit = start();
    let lookup = visit.lookup.step(LookupEvent::Done);
    let failed = lookup.step_tags(&visit.regex, &vec![text("v1.0.0"), text("v2")]).unwrap();
    assert_eq!(context_of(&failed), Context::ReleaseWithoutVersion);
    assert_eq!(context_of(&failed).text(), "release tag does not contain a semantic version");
    assert_eq!(failed.action(), LookupAction::Stop);
    let failed = start().lookup.step(LookupEvent::Done).step(LookupEvent::Unversioned);
    assert_eq!(context_of(&failed), Context::ReleaseWithoutVersion);
    let listed = start().lookup.step(LookupEvent::Done);
    let failed = listed.step(LookupEvent::Release(Some(text("release-final"))));
    assert_eq!(context_of(&failed), Context::ReleaseWithoutVersion);
}

#[test]
fn unreadable_worktree_path_counts_as_empty() {
    let lookup = to_workspace(Lookup::visit(text("core"), None));
    assert_eq!(lookup.action(), LookupAction::ReadMetadata(text("/Cargo.toml")));
}

fn to_workspace(lookup: Lookup<String>) -> Lookup<String> {
    lookup
        .step(LookupEvent::Done)
        .step(LookupEvent::Release(Some(text("v1.0.0"))))
        .step(LookupEvent::Commit(text("c1")))
        .step(LookupEvent::Done)
        .step(LookupEvent::Done)
        .step(LookupEvent::Done)
}

#[test]
fn missing_package_has_no_next_step() {
    let lookup = to_workspace(Lookup::visit(text("core"), Some(text("/w"))));
    let others = metadata(vec![package("other", "1.0.0")]);
    assert!(!lookup.accepts(&LookupEvent::Metadata(others)));
}

#[test]
fn failures_of_a_visit_are_told() {
    let lookup = || Lookup::visit(text("core"), Some(text("/w")));
    assert_eq!(context_of(&lookup().step(LookupEvent::Failed)).text(), "open worktree");
    let listing = || lookup().step(LookupEvent::Done);
    assert_eq!(context_of(&listing().step(LookupEvent::Failed)).text(), "get tags");
    let resolving = || listing().step(LookupEvent::Release(Some(text("v1.0.0"))));
    let failed = resolving().step(LookupEvent::Failed);
    assert_eq!(context_of(&failed).text(), "get commit for release tag");
    let checking_out = || resolving().step(LookupEvent::Commit(text("c1")));
    let failed = checking_out().step(LookupEvent::Failed);
    assert_eq!(context_of(&failed).text(), "checkout release commit");
    let spawning = || checking_out().step(LookupEvent::Done);
    let failed = spawning().step(LookupEvent::Failed);
    assert_eq!(context_of(&failed).text(), "run cargo package in worktree");
    let waiting = || spawning().step(LookupEvent::Done);
    let failed = waiting().step(LookupEvent::Failed);
    assert_eq!(context_of(&failed).text(), "wait for cargo package");
    let reading = || waiting().step(LookupEvent::Done);
    let failed = reading().step(LookupEvent::Failed);
    assert_eq!(context_of(&failed).text(), "get cargo metadata");
    let found = || LookupEvent::Metadata(metadata(vec![package("core", "1.0.0")]));
    let hashing = || reading().step(found());
    let failed = hashing().step(LookupEvent::Failed);
    assert_eq!(context_of(&failed).text(), "get md5 hash for package");
    let failed = hashing().step(LookupEvent::Hash(MD5Hash([0; 16]))).step(LookupEvent::Failed);
    assert_eq!(context_of(&failed).text(), "get cargo metadata");
    assert_eq!(failed.action(), LookupAction::Stop);
}

#[test]
fn released_package_is_taken_from_the_packaged_crate() {
    let lookup = Lookup::release(text("core"));
    assert_eq!(lookup.action(), LookupAction::CreateWorktree(text("core")));
    let lookup = lookup.step(LookupEvent::Worktree(Some(text("/tmp/core"))));
    let lookup = to_workspace(lookup);
    let lookup = lookup.step(LookupEvent::Metadata(metadata(vec![package("core", "1.0.0")])));
    let manifest = "/tmp/core/target/package/core-1.0.0/Cargo.toml";
    assert_eq!(lookup.action(), LookupAction::ReadMetadata(text(manifest)));
    let packaged = metadata(vec![package("core", "1.0.0")]);
    match lookup.step(LookupEvent::Metadata(packaged)).phase {
        LookupPhase::Released { package: released, commit } => {
            assert_eq!(released, package("core", "1.0.0"));
            assert_eq!(commit, "c1");
        }
        _ => panic!("not released"),
    }
}

#[test]
fn package_that_is_no_member_is_not_found() {
    let lookup = Lookup::release(text("core")).step(LookupEvent::Worktree(Some(text("/w"))));
    let found = metadata(vec![package("core", "1.0.0")]);
    let lookup = to_workspace(lookup).step(LookupEvent::Metadata(found));
    let packaged = Metadata { packages: vec![package("core", "1.0.0")], workspace_members: vec![] };
    let lookup = lookup.step(LookupEvent::Metadata(packaged));
    assert_eq!(context_of(&lookup), Context::FindPackage);
    assert_eq!(context_of(&lookup).text(), "Couldn't find the package");
}

#[test]
fn failures_of_a_release_lookup_are_told() {
    let start = || Lookup::release(text("core"));
    let failed = start().step(LookupEvent::Failed);
    assert_eq!(context_of(&failed).text(), "build worktree for package");
    let opening = || start().step(LookupEvent::Worktree(Some(text("/w"))));
    let failed = opening().step(LookupEvent::Failed);
    assert_eq!(context_of(&failed).text(), "open repo for package");
    let listing = || opening().step(LookupEvent::Done);
    let failed = listing().step(LookupEvent::Failed);
    assert_eq!(context_of(&failed).text(), "get tags for package");
    let resolving = || listing().step(LookupEvent::Release(Some(text("v1.0.0"))));
    let failed = resolving().step(LookupEvent::Failed);
    assert_eq!(context_of(&failed).text(), "get release tag commit");
    let checking_out = || resolving().step(LookupEvent::Commit(text("c1")));
    let failed = checking_out().step(LookupEvent::Failed);
    assert_eq!(context_of(&failed).text(), "checkout release commit for package");
}

#[test]
fn registry_package_cannot_be_visited_in_git() {
    let package = RegistryPackage { package_name: text("core") };
    let error = package.try_visit_git_package(Some(text("/w"))).unwrap_err();
    assert_eq!(error, VisitError::Unimplemented);
    assert_eq!(error.message(), "unimplemented");
}

#[test]
fn registry_package_cannot_be_visited_in_its_registry() {
    let package = RegistryPackage { package_name: text("core") };
    let error = package.try_visit_registry_package().unwrap_err();
    assert_eq!(error, VisitError::Unimplemented);
}

#[test]
fn git_package_cannot_be_visited_in_a_registry() {
    let error = git_package().try_visit_registry_package().unwrap_err();
    assert_eq!(error, VisitError::Unimplemented);
}

use release_core::context::Context;
use release_core::worktree::{
    delete_existing_worktree, minute_stamp, temp_worktree, temp_worktree_at, Deletion,
    DeletionEvent, Teardown, TeardownAction, TempAction, TempEvent, TempPhase,
};

fn listed(names: &[Option<&str>]) -> TempEvent {
    TempEvent::Listed(names.iter().map(|n| n.map(|n| n.to_string())).collect())
}

fn creation(name: &str, path: &str) -> TempAction<String> {
    TempAction::CreateWorktree { name: name.to_string(), path: path.to_string() }
}

#[test]
fn minute_is_written_day_first() {
    assert_eq!(minute_stamp(0), "01_01_1970_00_00");
    assert_eq!(minute_stamp(1_643_723_459), "01_02_2022_13_50");
    assert_eq!(minute_stamp(8_210_266_876_799), "31_12_+262142_23_59");
}

#[test]
fn worktree_is_made_at_the_path_given() {
    let worktree = temp_worktree(Some("core"), "tree");
    assert_eq!(worktree.name, "tree");
    assert_eq!(worktree.path, "/tmp/core");
    assert_eq!(worktree.action(), TempAction::ListWorktrees);
    let worktree = worktree.step(listed(&[Some("other"), None]));
    assert_eq!(worktree.action(), creation("tree", "/tmp/core"));
    let worktree = worktree.step(TempEvent::Done);
    assert_eq!(worktree.phase, TempPhase::Created);
    assert_eq!(worktree.action(), TempAction::Stop);
}

#[test]
fn worktree_without_path_is_called_by_the_minute() {
    let worktree = temp_worktree(None, "tree");
    let stamp = worktree.path.strip_prefix("/tmp/").unwrap();
    assert_eq!(stamp.len(), 16);
    assert!(!stamp.contains('/') && !stamp.contains('.'));
    assert_eq!(stamp.split('_').count(), 5);
}

#[test]
fn worktree_of_the_same_name_is_found_first() {
    let worktree = temp_worktree_at("core", "core").step(listed(&[None, Some("core")]));
    assert_eq!(worktree.action(), TempAction::FindWorktree("core".to_string()));
    let worktree = worktree.step(TempEvent::Done);
    assert_eq!(worktree.action(), creation("core", "/tmp/core"));
}

#[test]
fn failure_to_make_a_worktree_is_told() {
    let start = || temp_worktree_at("core", "core");
    let failed = start().step(TempEvent::Failed);
    assert_eq!(failed.phase, TempPhase::Failed(Context::GetWorktrees));
    let failed = start().step(listed(&[Some("core")])).step(TempEvent::Failed);
    assert_eq!(failed.phase, TempPhase::Failed(Context::FindWorktree));
    let failed = start().step(listed(&[])).step(TempEvent::Failed);
    assert_eq!(failed.phase, TempPhase::Failed(Context::CreateWorktree));
    assert_eq!(failed.action(), TempAction::Stop);
    assert_eq!(Context::GetWorktrees.text(), "get worktrees for repo");
    assert_eq!(Context::FindWorktree.text(), "find worktree to delete it ");
    assert_eq!(Context::CreateWorktree.text(), "create worktree");
}

#[test]
fn opened_worktree_is_pruned_whatever_fails() {
    let teardown = Teardown::new(Some("core".to_string()));
    assert_eq!(teardown.action(), TeardownAction::OpenRepo);
    let teardown = teardown.step(true);
    assert_eq!(teardown.action(), TeardownAction::DetachHead);
    let teardown = teardown.step(false);
    assert_eq!(teardown.action(), TeardownAction::DeleteBranch("core".to_string()));
    let teardown = teardown.step(false);
    assert_eq!(teardown.action(), TeardownAction::Prune);
    assert_eq!(teardown.step(true).action(), TeardownAction::Stop);
}

#[test]
fn worktree_that_does_not_open_is_left() {
    assert_eq!(Teardown::new(None).step(false).action(), TeardownAction::Stop);
}

#[test]
fn unreadable_worktree_name_gives_an_empty_branch() {
    let teardown = Teardown::new(None).step(true).step(true);
    assert_eq!(teardown.action(), TeardownAction::DeleteBranch(String::new()));
}

#[test]
fn nothing_there_is_nothing_to_delete() {
    let deletion = delete_existing_worktree();
    assert_eq!(deletion, Deletion::Opening);
    assert_eq!(deletion.step(DeletionEvent::NotFound), Deletion::Deleted);
}

#[test]
fn directory_and_file_are_removed_as_what_they_are() {
    let inspecting = delete_existing_worktree().step(DeletionEvent::Done);
    assert_eq!(inspecting, Deletion::Inspecting);
    let dir = inspecting.step(DeletionEvent::Inspected { is_dir: true });
    assert_eq!(dir, Deletion::RemovingDir);
    assert_eq!(dir.step(DeletionEvent::Done), Deletion::Deleted);
    let file = inspecting.step(DeletionEvent::Inspected { is_dir: false });
    assert_eq!(file, Deletion::RemovingFile);
    assert_eq!(file.step(DeletionEvent::Done), Deletion::Deleted);
    let failed = dir.step(DeletionEvent::Failed);
    assert_eq!(failed, Deletion::Failed(Some(Context::DeletePackageDir)));
    let failed = file.step(DeletionEvent::Failed);
    assert_eq!(failed, Deletion::Failed(Some(Context::DeletePackageFile)));
    assert_eq!(Context::DeletePackageDir.text(), "delete existing unreleased package");
    assert_eq!(Context::DeletePackageFile.text(), "delete existing unreleased package file");
}

#[test]
fn error_before_removal_is_passed_on() {
    let start = delete_existing_worktree();
    assert_eq!(start.step(DeletionEvent::Failed), Deletion::Failed(None));
    let inspecting = start.step(DeletionEvent::Done);
    assert_eq!(inspecting.step(DeletionEvent::Failed), Deletion::Failed(None));
}

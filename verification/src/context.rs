//! What is said of a step that failed.
use vstd::prelude::*;

verus! {

/// The step that failed, or the thing that was not there.
#[derive(Debug, Clone, Copy, PartialEq, Eq, Structural)]
pub enum Context {
    GetWorktrees,
    FindWorktree,
    CreateWorktree,
    OpenWorktree,
    GetTags,
    GetReleaseCommit,
    CheckoutRelease,
    RunCargoPackage,
    WaitForCargoPackage,
    GetCargoMetadata,
    HashPackage,
    BuildPackageWorktree,
    OpenPackageRepo,
    GetPackageTags,
    GetReleaseTagCommit,
    CheckoutPackageRelease,
    FindPackage,
    GetLocalManifestDir,
    CreateUnreleasedRepo,
    GetLocalManifestParent,
    CreateUnreleasedWorktree,
    DeletePackageDir,
    DeletePackageFile,
    StripManifestPrefix,
    ReleaseWithoutVersion,
}

impl Context {
    /// The words of the error message.
    pub open spec fn words(self) -> Seq<char> {
        match self {
            Context::GetWorktrees => "get worktrees for repo"@,
            Context::FindWorktree => "find worktree to delete it "@,
            Context::CreateWorktree => "create worktree"@,
            Context::OpenWorktree => "open worktree"@,
            Context::GetTags => "get tags"@,
            Context::GetReleaseCommit => "get commit for release tag"@,
            Context::CheckoutRelease => "checkout release commit"@,
            Context::RunCargoPackage => "run cargo package in worktree"@,
            Context::WaitForCargoPackage => "wait for cargo package"@,
            Context::GetCargoMetadata => "get cargo metadata"@,
            Context::HashPackage => "get md5 hash for package"@,
            Context::BuildPackageWorktree => "build worktree for package"@,
            Context::OpenPackageRepo => "open repo for package"@,
            Context::GetPackageTags => "get tags for package"@,
            Context::GetReleaseTagCommit => "get release tag commit"@,
            Context::CheckoutPackageRelease => "checkout release commit for package"@,
            Context::FindPackage => "Couldn't find the package"@,
            Context::GetLocalManifestDir => "get local manifest dir"@,
            Context::CreateUnreleasedRepo => "create unreleased repo for spinning worktrees"@,
            Context::GetLocalManifestParent => "get local manifest parent"@,
            Context::CreateUnreleasedWorktree => "create unreleased worktree"@,
            Context::DeletePackageDir => "delete existing unreleased package"@,
            Context::DeletePackageFile => "delete existing unreleased package file"@,
            Context::StripManifestPrefix => "cannot strip prefix for manifest dir"@,
            Context::ReleaseWithoutVersion => "release tag does not contain a semantic version"@,
        }
    }

    /// The words of the error message.
    pub fn text(&self) -> (text: &'static str)
        ensures
            text@ == self.words(),
    {
        match self {
            Context::GetWorktrees => "get worktrees for repo",
            Context::FindWorktree => "find worktree to delete it ",
            Context::CreateWorktree => "create worktree",
            Context::OpenWorktree => "open worktree",
            Context::GetTags => "get tags",
            Context::GetReleaseCommit => "get commit for release tag",
            Context::CheckoutRelease => "checkout release commit",
            Context::RunCargoPackage => "run cargo package in worktree",
            Context::WaitForCargoPackage => "wait for cargo package",
            Context::GetCargoMetadata => "get cargo metadata",
            Context::HashPackage => "get md5 hash for package",
            Context::BuildPackageWorktree => "build worktree for package",
            Context::OpenPackageRepo => "open repo for package",
            Context::GetPackageTags => "get tags for package",
            Context::GetReleaseTagCommit => "get release tag commit",
            Context::CheckoutPackageRelease => "checkout release commit for package",
            Context::FindPackage => "Couldn't find the package",
            Context::GetLocalManifestDir => "get local manifest dir",
            Context::CreateUnreleasedRepo => "create unreleased repo for spinning worktrees",
            Context::GetLocalManifestParent => "get local manifest parent",
            Context::CreateUnreleasedWorktree => "create unreleased worktree",
            Context::DeletePackageDir => "delete existing unreleased package",
            Context::DeletePackageFile => "delete existing unreleased package file",
            Context::StripManifestPrefix => "cannot strip prefix for manifest dir",
            Context::ReleaseWithoutVersion => "release tag does not contain a semantic version",
        }
    }
}

} // verus!

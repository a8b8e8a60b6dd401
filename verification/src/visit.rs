//! Turning a package into its state, wherever it comes from.
use crate::lookup::new_visit;
use crate::lookup::Lookup;
use crate::lookup::PackageState;
use crate::release_tag::ReleaseRegex;
use crate::text::path_text;
use vstd::prelude::*;

verus! {

/// Why a package cannot be turned into its state.
#[derive(Debug, Clone, Copy, PartialEq, Eq, Structural)]
pub enum VisitError {
    /// A package of this origin cannot be visited in this way.
    Unimplemented,
}

impl VisitError {
    /// The message of the error.
    pub fn message(&self) -> (text: &'static str)
        ensures
            text@ == "unimplemented"@,
    {
        "unimplemented"
    }
}

/// A visit that has begun.
#[derive(Debug)]
pub struct GitVisit {
    /// The lookup of the state.
    pub lookup: Lookup<String>,
    /// The pattern that the tags of releases match.
    pub regex: ReleaseRegex,
}

/// A package that can be turned into its state, so that it can be compared
/// with packages of another origin. A way of visiting that does not suit the
/// origin of a package is an error.
pub trait ToPackage: Sized {
    /// Begins to look up the state in a worktree of a git repository, which is
    /// at the path `worktree`, or `None` if that is not UTF-8.
    fn try_visit_git_package(self, worktree: Option<String>) -> (visit: Result<GitVisit, VisitError>)
        default_ensures
            visit == Err::<GitVisit, VisitError>(VisitError::Unimplemented),
    {
        Err(VisitError::Unimplemented)
    }

    /// The state of a package of a registry.
    fn try_visit_registry_package(self) -> (state: Result<PackageState, VisitError>)
        default_ensures
            state == Err::<PackageState, VisitError>(VisitError::Unimplemented),
    {
        Err(VisitError::Unimplemented)
    }
}

/// A package that is released by tagging a commit.
#[derive(Debug)]
pub struct GitPackage {
    /// The name of the package.
    pub package_name: String,
    /// The pattern that the tags of its releases match.
    pub git_tag_release_regex: ReleaseRegex,
}

impl ToPackage for GitPackage {
    fn try_visit_git_package(self, worktree: Option<String>) -> (visit: Result<GitVisit, VisitError>)
        ensures
            visit matches Ok(visit) && visit.regex == self.git_tag_release_regex
                && visit.lookup@ == new_visit(self.package_name@, path_text(worktree)),
    {
        Ok(
            GitVisit {
                lookup: Lookup::visit(self.package_name, worktree),
                regex: self.git_tag_release_regex,
            },
        )
    }
}

/// A package that is released to a registry. It cannot be visited in any way
/// yet, which is an error.
#[derive(Debug)]
pub struct RegistryPackage {
    /// The name of the package.
    pub package_name: String,
}

impl ToPackage for RegistryPackage {

}

} // verus!

//! What comes out of an update, and what goes into its changelog.
use vstd::prelude::*;

verus! {

/// Stands for the identifier of a commit where there is none.
pub const NO_COMMIT_ID: &'static str = "0000000";

/// The identifier that stands for none is long enough to be abbreviated like
/// that of a commit, which takes seven characters.
pub proof fn no_commit_id_can_be_abbreviated()
    ensures
        NO_COMMIT_ID@.len() >= 7,
        forall|i: int| 0 <= i < NO_COMMIT_ID@.len() ==> #[trigger] NO_COMMIT_ID@[i] == '0',
{
    reveal_strlit("0000000");
}

/// A day of the calendar.
#[verifier::external_type_specification]
#[verifier::external_body]
pub struct ExNaiveDate(chrono::NaiveDate);

/// How a changelog is written.
#[verifier::external_type_specification]
#[verifier::external_body]
pub struct ExConfig(git_cliff_core::config::Config);

/// A semantic version.
#[verifier::external_type_specification]
#[verifier::external_body]
pub struct ExVersion(cargo_metadata::semver::Version);

/// What is asked of a changelog.
#[derive(Debug, Clone)]
pub struct ChangelogRequest {
    /// When the new release is published. If unspecified, current date is used.
    pub release_date: Option<chrono::NaiveDate>,
    /// How the changelog is written.
    pub changelog_config: Option<git_cliff_core::config::Config>,
}

impl Default for ChangelogRequest {
    fn default() -> (request: Self)
        ensures
            request.release_date is None,
            request.changelog_config is None,
    {
        ChangelogRequest { release_date: None, changelog_config: None }
    }
}

/// Whether the changes of a package are compatible with its last release.
#[derive(Debug, PartialEq, Eq)]
pub enum SemverCheck {
    /// They are.
    Compatible,
    /// They are not, for these reasons.
    Incompatible(String),
    /// It was not checked.
    Skipped,
}

/// What comes out of the update of a package.
#[derive(Debug)]
pub struct UpdateResult {
    /// Next version of the package.
    pub version: cargo_metadata::semver::Version,
    /// New changelog.
    pub changelog: Option<String>,
    /// Whether the changes are compatible.
    pub semver_check: SemverCheck,
    /// The part of the changelog that is new.
    pub new_changelog_entry: Option<String>,
}

/// Calls `clone` of `semver::Version`: the copy is the version that was copied.
#[verifier::external_body]
fn same_version(version: &cargo_metadata::semver::Version) -> (
    same: cargo_metadata::semver::Version)
    ensures
        same == *version,
{
    version.clone()
}

impl Clone for SemverCheck {
    fn clone(&self) -> (check: Self)
        ensures
            check == *self,
    {
        match self {
            SemverCheck::Compatible => SemverCheck::Compatible,
            SemverCheck::Incompatible(reasons) => SemverCheck::Incompatible(reasons.clone()),
            SemverCheck::Skipped => SemverCheck::Skipped,
        }
    }
}

impl Clone for UpdateResult {
    fn clone(&self) -> (result: Self)
        ensures
            result == *self,
    {
        UpdateResult {
            version: same_version(&self.version),
            changelog: self.changelog.clone(),
            semver_check: self.semver_check.clone(),
            new_changelog_entry: self.new_changelog_entry.clone(),
        }
    }
}

impl UpdateResult {
    /// The last release in the changelog, as `parse` finds it there. Without a
    /// changelog there is none.
    pub fn last_changes<R, E, P: Fn(&str) -> Result<Option<R>, E>>(&self, parse: P) -> (changes:
        Result<Option<R>, E>)
        requires
            self.changelog matches Some(changelog) ==> forall|text: &str|
                text@ == changelog@ ==> #[trigger] call_requires(parse, (text,)),
        ensures
            self.changelog is None ==> changes == Ok::<Option<R>, E>(None),
            self.changelog matches Some(changelog) ==> exists|text: &str|
                text@ == changelog@ && #[trigger] call_ensures(parse, (text,), changes),
    {
        match &self.changelog {
            Some(changelog) => parse(changelog.as_str()),
            None => Ok(None),
        }
    }
}

} // verus!

//! How packages are updated.
use cargo_metadata::camino::Utf8PathBuf;
use vstd::prelude::*;

verus! {

/// A path, which is compared by its components.
#[verifier::external_type_specification]
#[verifier::external_body]
pub struct ExUtf8PathBuf(cargo_metadata::camino::Utf8PathBuf);

/// How a package is updated.
#[derive(Debug, Clone, PartialEq, Eq)]
pub struct UpdateConfig {
    /// This path needs to be a relative path to the Cargo.toml of the project.
    /// I.e. if you have a workspace, it needs to be relative to the workspace root.
    pub changelog_path: Option<Utf8PathBuf>,
    /// Controls when to run cargo-semver-checks.
    /// Note: You can only run cargo-semver-checks if the package contains a library.
    ///       For example, if it has a `lib.rs` file.
    pub semver_check: bool,
    /// Whether to create/update changelog or not.
    /// Default: `true`.
    pub changelog_update: bool,
    /// High-level toggle to process this package or ignore it.
    pub release: bool,
    /// Whether to publish this package to a registry.
    /// Default: `true`.
    pub publish: bool,
    /// - If `true`, feature commits will always bump the minor version, even in 0.x releases.
    /// - If `false` (default), feature commits will only bump the minor version starting with 1.x releases.
    pub features_always_increment_minor: bool,
    /// Template for the git tag of a release.
    pub tag_name_template: Option<String>,
    /// Use git tags for release information.
    /// Default: `None`.
    ///
    /// If `Some`, git tags determine what the latest version of the package is,
    /// i.e. the newest version is v0.1.3 and is associated with commit ac83762.
    /// If `None`, the registry does.
    ///
    /// It must be a valid regular expression that tells the tags of releases
    /// from other tags, since the tags of a repository can be called anything.
    ///
    /// NOTE: Every tag that it matches has to contain a semantic version
    /// somewhere. One that does not is an error, before anything is checked out.
    pub git_only_release_regex: Option<String>,
}

/// Package-specific config.
#[derive(Debug, Clone, PartialEq, Eq)]
pub struct PackageUpdateConfig {
    /// Config that can be applied by default to all packages.
    pub generic: UpdateConfig,
    /// List of package names.
    /// Include the changelogs of these packages in the changelog of the current package.
    pub changelog_include: Vec<String>,
    /// The group of packages that share a version, if the package is in one.
    pub version_group: Option<String>,
}

/// The rules by which the next version of a package follows from its commits.
#[derive(Debug, Clone, Copy, PartialEq, Eq, Structural)]
pub struct VersionUpdater {
    /// Whether a feature increments the minor version of a 0.x release too.
    pub features_always_increment_minor: bool,
}

impl Default for VersionUpdater {
    fn default() -> (updater: Self)
        ensures
            !updater.features_always_increment_minor,
    {
        VersionUpdater { features_always_increment_minor: false }
    }
}

impl VersionUpdater {
    /// The same rules, with this one for features.
    pub fn with_features_always_increment_minor(
        self,
        features_always_increment_minor: bool,
    ) -> (updater: Self)
        ensures
            updater == (VersionUpdater { features_always_increment_minor, ..self }),
    {
        VersionUpdater { features_always_increment_minor, ..self }
    }
}

impl UpdateConfig {
    /// The same config, with this choice of when to run cargo-semver-checks.
    pub open spec fn having_semver_check(self, semver_check: bool) -> Self {
        UpdateConfig { semver_check, ..self }
    }

    /// The same config, with this rule for features.
    pub open spec fn having_features_always_increment_minor(
        self,
        features_always_increment_minor: bool,
    ) -> Self {
        UpdateConfig { features_always_increment_minor, ..self }
    }

    /// The same config, with this choice of whether to update the changelog.
    pub open spec fn having_changelog_update(self, changelog_update: bool) -> Self {
        UpdateConfig { changelog_update, ..self }
    }

    /// The same config, with this choice of whether to publish.
    pub open spec fn having_publish(self, publish: bool) -> Self {
        UpdateConfig { publish, ..self }
    }

    /// The rules by which the next version is found.
    pub open spec fn updater(self) -> VersionUpdater {
        VersionUpdater { features_always_increment_minor: self.features_always_increment_minor }
    }

    /// The config that holds where nothing else is said.
    pub open spec fn is_default(self) -> bool {
        &&& self.semver_check
        &&& self.changelog_update
        &&& self.release
        &&& self.publish
        &&& !self.features_always_increment_minor
        &&& self.tag_name_template is None
        &&& self.changelog_path is None
        &&& self.git_only_release_regex is None
    }
}

impl Default for UpdateConfig {
    fn default() -> (config: Self)
        ensures
            config.is_default(),
    {
        UpdateConfig {
            semver_check: true,
            changelog_update: true,
            release: true,
            publish: true,
            features_always_increment_minor: false,
            tag_name_template: None,
            changelog_path: None,
            git_only_release_regex: None,
        }
    }
}

impl UpdateConfig {
    /// The same config, with this choice of when to run cargo-semver-checks.
    pub fn with_semver_check(self, semver_check: bool) -> (config: Self)
        ensures
            config == self.having_semver_check(semver_check),
    {
        UpdateConfig { semver_check, ..self }
    }

    /// The same config, with this rule for features.
    pub fn with_features_always_increment_minor(
        self,
        features_always_increment_minor: bool,
    ) -> (config: Self)
        ensures
            config == self.having_features_always_increment_minor(features_always_increment_minor),
    {
        UpdateConfig { features_always_increment_minor, ..self }
    }

    /// The same config, with this choice of whether to update the changelog.
    pub fn with_changelog_update(self, changelog_update: bool) -> (config: Self)
        ensures
            config == self.having_changelog_update(changelog_update),
    {
        UpdateConfig { changelog_update, ..self }
    }

    /// The same config, with this choice of whether to publish.
    pub fn with_publish(self, publish: bool) -> (config: Self)
        ensures
            config == self.having_publish(publish),
    {
        UpdateConfig { publish, ..self }
    }

    /// The rules by which the next version is found: the default ones, but for
    /// what the config says of features.
    pub fn version_updater(&self) -> (updater: VersionUpdater)
        ensures
            updater == self.updater(),
    {
        VersionUpdater::default().with_features_always_increment_minor(
            self.features_always_increment_minor,
        )
    }
}

impl vstd::std_specs::convert::FromSpecImpl<UpdateConfig> for PackageUpdateConfig {
    open spec fn obeys_from_spec() -> bool {
        false
    }

    open spec fn from_spec(config: UpdateConfig) -> Self {
        arbitrary()
    }
}

impl From<UpdateConfig> for PackageUpdateConfig {
    /// The config of a package of which nothing is said but the generic part.
    fn from(config: UpdateConfig) -> (package: Self)
        ensures
            package.generic == config,
            package.changelog_include@.len() == 0,
            package.version_group is None,
    {
        PackageUpdateConfig { generic: config, changelog_include: Vec::new(), version_group: None }
    }
}

impl Default for PackageUpdateConfig {
    fn default() -> (package: Self)
        ensures
            package.generic.is_default(),
            package.changelog_include@.len() == 0,
            package.version_group is None,
    {
        PackageUpdateConfig {
            generic: UpdateConfig::default(),
            changelog_include: Vec::new(),
            version_group: None,
        }
    }
}

impl PackageUpdateConfig {
    /// Whether to run cargo-semver-checks.
    pub fn semver_check(&self) -> (check: bool)
        ensures
            check == self.generic.semver_check,
    {
        self.generic.semver_check
    }

    /// Whether to create or update the changelog.
    pub fn should_update_changelog(&self) -> (update: bool)
        ensures
            update == self.generic.changelog_update,
    {
        self.generic.changelog_update
    }

    /// Whether to publish the package to a registry.
    pub fn should_publish(&self) -> (publish: bool)
        ensures
            publish == self.generic.publish,
    {
        self.generic.publish
    }
}

/// A default config checks, updates, releases and publishes, and says nothing more.
pub proof fn default_config_asks_for_everything(config: UpdateConfig)
    requires
        config.is_default(),
    ensures
        config.semver_check && config.changelog_update && config.release && config.publish,
        !config.features_always_increment_minor,
        config.changelog_path is None,
        config.tag_name_template is None,
        config.git_only_release_regex is None,
{
}

/// Each choice is kept as it is made, and leaves every other part of the config
/// as it was, whatever the config holds.
pub proof fn each_choice_changes_itself_alone(config: UpdateConfig, choice: bool)
    ensures
        ({
            let checked = config.having_semver_check(choice);
            &&& checked.semver_check == choice
            &&& checked.changelog_path == config.changelog_path
            &&& checked.changelog_update == config.changelog_update
            &&& checked.release == config.release
            &&& checked.publish == config.publish
            &&& checked.features_always_increment_minor == config.features_always_increment_minor
            &&& checked.tag_name_template == config.tag_name_template
            &&& checked.git_only_release_regex == config.git_only_release_regex
        }),
        ({
            let ruled = config.having_features_always_increment_minor(choice);
            &&& ruled.features_always_increment_minor == choice
            &&& ruled.changelog_path == config.changelog_path
            &&& ruled.semver_check == config.semver_check
            &&& ruled.changelog_update == config.changelog_update
            &&& ruled.release == config.release
            &&& ruled.publish == config.publish
            &&& ruled.tag_name_template == config.tag_name_template
            &&& ruled.git_only_release_regex == config.git_only_release_regex
        }),
        ({
            let updated = config.having_changelog_update(choice);
            &&& updated.changelog_update == choice
            &&& updated.changelog_path == config.changelog_path
            &&& updated.semver_check == config.semver_check
            &&& updated.release == config.release
            &&& updated.publish == config.publish
            &&& updated.features_always_increment_minor == config.features_always_increment_minor
            &&& updated.tag_name_template == config.tag_name_template
            &&& updated.git_only_release_regex == config.git_only_release_regex
        }),
        ({
            let published = config.having_publish(choice);
            &&& published.publish == choice
            &&& published.changelog_path == config.changelog_path
            &&& published.semver_check == config.semver_check
            &&& published.changelog_update == config.changelog_update
            &&& published.release == config.release
            &&& published.features_always_increment_minor == config.features_always_increment_minor
            &&& published.tag_name_template == config.tag_name_template
            &&& published.git_only_release_regex == config.git_only_release_regex
        }),
{
}

/// The rules by which versions grow follow the choice for features, and no other
/// choice has a part in them.
pub proof fn rules_follow_the_choice_for_features(config: UpdateConfig, choice: bool, other: bool)
    ensures
        config.having_features_always_increment_minor(
            choice,
        ).updater().features_always_increment_minor == choice,
        config.having_publish(other).updater() == config.updater(),
        config.having_semver_check(other).updater() == config.updater(),
        config.having_changelog_update(other).updater() == config.updater(),
        config.is_default() ==> !config.updater().features_always_increment_minor,
{
}

} // verus!

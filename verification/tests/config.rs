use release_core::config::{PackageUpdateConfig, UpdateConfig, VersionUpdater};
use release_core::request::{PackageOverride, ReleaseMetadataBuilder, UpdateRequest};

#[test]
fn default_config_updates_and_publishes() {
    let config = UpdateConfig::default();
    assert!(config.semver_check && config.changelog_update && config.release && config.publish);
    assert!(!config.features_always_increment_minor);
    assert_eq!(config.tag_name_template, None);
    assert_eq!(config.changelog_path, None);
    assert_eq!(config.git_only_release_regex, None);
}

#[test]
fn each_setting_changes_itself_alone() {
    let default = UpdateConfig::default();
    let config = UpdateConfig::default().with_semver_check(false);
    assert!(!config.semver_check);
    assert_eq!(config.with_semver_check(true), default);
    let config = UpdateConfig::default().with_changelog_update(false);
    assert!(!config.changelog_update);
    assert_eq!(config.with_changelog_update(true), default);
    let config = UpdateConfig::default().with_publish(false);
    assert!(!config.publish);
    assert_eq!(config.with_publish(true), default);
    let config = UpdateConfig::default().with_features_always_increment_minor(true);
    assert!(config.features_always_increment_minor);
    assert_eq!(config.with_features_always_increment_minor(false), default);
}

#[test]
fn changelog_paths_are_compared_by_components() {
    let at = |path: &str| UpdateConfig { changelog_path: Some(path.into()), ..Default::default() };
    assert_eq!(at("a/b"), at("a//b"));
    assert_ne!(at("a/b"), at("a/c"));
}

#[test]
fn version_updater_follows_the_config() {
    let config = UpdateConfig::default();
    assert_eq!(config.version_updater(), VersionUpdater::default());
    let config = config.with_features_always_increment_minor(true);
    assert!(config.version_updater().features_always_increment_minor);
}

#[test]
fn generic_config_becomes_that_of_a_package() {
    let config = UpdateConfig::default().with_publish(false).with_semver_check(false);
    let package = PackageUpdateConfig::from(config.clone());
    assert_eq!(package.generic, config);
    assert!(package.changelog_include.is_empty());
    assert_eq!(package.version_group, None);
    assert!(!package.should_publish());
    assert!(!package.semver_check());
    assert!(package.should_update_changelog());
    assert_eq!(PackageUpdateConfig::default(), PackageUpdateConfig::from(UpdateConfig::default()));
}

fn request() -> UpdateRequest {
    let mut quiet = UpdateConfig::default();
    quiet.release = false;
    let mut tagged = UpdateConfig::default();
    tagged.tag_name_template = Some("{{ package }}-v{{ version }}".to_string());
    UpdateRequest {
        local_manifest: "/work/Cargo.toml".to_string(),
        registry_manifest: None,
        registry: None,
        allow_dirty: false,
        git_only: false,
        git_only_release_regex: None,
        default_config: UpdateConfig::default(),
        overrides: vec![
            PackageOverride { package_name: "quiet".to_string(), config: quiet.into() },
            PackageOverride { package_name: "tagged".to_string(), config: tagged.into() },
        ],
    }
}

#[test]
fn ignored_package_has_no_release_metadata() {
    assert!(request().get_release_metadata("quiet").is_none());
}

#[test]
fn release_metadata_follows_the_config_of_the_package() {
    let metadata = request().get_release_metadata("tagged").unwrap();
    assert_eq!(metadata.tag_name_template.as_deref(), Some("{{ package }}-v{{ version }}"));
    assert_eq!(metadata.release_name_template, None);
    let metadata = request().get_release_metadata("other").unwrap();
    assert_eq!(metadata.tag_name_template, None);
    assert_eq!(metadata.release_name_template, None);
}

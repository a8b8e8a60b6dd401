//! A request to update the packages of a workspace, and what it says of the
//! release of each.
use crate::config::PackageUpdateConfig;
use crate::config::UpdateConfig;
use crate::release_tag::ReleaseRegex;
use crate::text::same_text;
use vstd::prelude::*;

verus! {

/// How the release of a package is called.
#[derive(Debug, Clone)]
pub struct ReleaseMetadata {
    /// Template for the git tag of the release.
    pub tag_name_template: Option<String>,
    /// Template for the name of the git release.
    pub release_name_template: Option<String>,
}

/// Something that knows how the releases of packages are called.
pub trait ReleaseMetadataBuilder {
    /// How the release of the package is called. `None` if the package is not released.
    spec fn release_metadata(&self, package_name: Seq<char>) -> Option<ReleaseMetadata>;

    /// How the release of the package is called. `None` if the package is not released.
    fn get_release_metadata(&self, package_name: &str) -> (metadata: Option<ReleaseMetadata>)
        ensures
            metadata == self.release_metadata(package_name@),
    ;
}

/// The config of a package that differs from the default.
#[derive(Debug)]
pub struct PackageOverride {
    /// The name of the package.
    pub package_name: String,
    /// Its config.
    pub config: PackageUpdateConfig,
}

/// A request to update the packages of a workspace.
#[derive(Debug)]
pub struct UpdateRequest {
    /// The path of the manifest of the workspace.
    pub local_manifest: String,
    /// The path of the manifest of the released project, if the released packages
    /// are to be read from there.
    pub registry_manifest: Option<String>,
    /// The registry that the released packages are read from, if it is not the default one.
    pub registry: Option<String>,
    /// Whether changes that are not committed are allowed.
    pub allow_dirty: bool,
    /// Whether git tags, not a registry, tell what has been released.
    pub git_only: bool,
    /// The pattern that the tags of releases match.
    pub git_only_release_regex: Option<ReleaseRegex>,
    /// The config of the packages that have none of their own.
    pub default_config: UpdateConfig,
    /// The packages that have a config of their own.
    pub overrides: Vec<PackageOverride>,
}

/// `i` is the first override for the package.
pub open spec fn is_first_override(
    overrides: Seq<PackageOverride>,
    package_name: Seq<char>,
    i: int,
) -> bool {
    &&& 0 <= i < overrides.len()
    &&& overrides[i].package_name@ == package_name
    &&& forall|j: int| 0 <= j < i ==> (#[trigger] overrides[j]).package_name@ != package_name
}

impl UpdateRequest {
    /// The generic config of a package: its own, or else the default.
    pub open spec fn generic_config(&self, package_name: Seq<char>) -> UpdateConfig {
        if exists|i: int| #[trigger] is_first_override(self.overrides@, package_name, i) {
            self.overrides@[choose|i: int| #[trigger]
                is_first_override(self.overrides@, package_name, i)].config.generic
        } else {
            self.default_config
        }
    }

    /// The generic config of a package: its own, or else the default.
    pub fn get_generic_config(&self, package_name: &str) -> (config: &UpdateConfig)
        ensures
            *config == self.generic_config(package_name@),
    {
        let mut i: usize = 0;
        while i < self.overrides.len()
            invariant
                i <= self.overrides.len(),
                forall|j: int|
                    0 <= j < i ==> (#[trigger] self.overrides@[j]).package_name@ != package_name@,
            decreases self.overrides.len() - i,
        {
            if same_text(self.overrides[i].package_name.as_str(), package_name) {
                proof {
                    assert(is_first_override(self.overrides@, package_name@, i as int));
                    let k = choose|k: int| #[trigger]
                        is_first_override(self.overrides@, package_name@, k);
                    assert(!(k < i) && !(i < k));
                }
                return &self.overrides[i].config.generic;
            }
            i = i + 1;
        }
        &self.default_config
    }
}

impl ReleaseMetadataBuilder for UpdateRequest {
    /// A package that is ignored has no release. The tag of a release is called
    /// as the config of the package says; nothing is said of the name of the release.
    open spec fn release_metadata(&self, package_name: Seq<char>) -> Option<ReleaseMetadata> {
        let config = self.generic_config(package_name);
        if config.release {
            Some(
                ReleaseMetadata {
                    tag_name_template: config.tag_name_template,
                    release_name_template: None,
                },
            )
        } else {
            None
        }
    }

    fn get_release_metadata(&self, package_name: &str) -> (metadata: Option<ReleaseMetadata>) {
        let config: &UpdateConfig = self.get_generic_config(package_name);
        if config.release {
            let tag_name_template: Option<String> = match &config.tag_name_template {
                Some(template) => Some(template.clone()),
                None => None,
            };
            Some(ReleaseMetadata { tag_name_template, release_name_template: None })
        } else {
            None
        }
    }
}

/// A package that no override names has the default config.
pub proof fn package_without_override_has_the_default(request: UpdateRequest, name: Seq<char>)
    requires
        forall|i: int|
            0 <= i < request.overrides@.len() ==> (#[trigger] request.overrides@[i]).package_name@
                != name,
    ensures
        request.generic_config(name) == request.default_config,
{
}

/// A package has the config of the first override that names it, by its whole
/// name and at whatever place; overrides of other packages do not matter.
pub proof fn package_has_the_config_of_its_override(
    request: UpdateRequest,
    name: Seq<char>,
    i: int,
)
    requires
        0 <= i < request.overrides@.len(),
        request.overrides@[i].package_name@ == name,
        forall|j: int| 0 <= j < i ==> (#[trigger] request.overrides@[j]).package_name@ != name,
    ensures
        request.generic_config(name) == request.overrides@[i].config.generic,
{
    assert(is_first_override(request.overrides@, name, i));
    let k = choose|k: int| #[trigger] is_first_override(request.overrides@, name, k);
    assert(!(k < i) && !(i < k));
}

/// A package has a release exactly if its config says so, and then the tag is
/// called as its config says, whatever else the config holds.
pub proof fn config_decides_on_the_release(request: UpdateRequest, name: Seq<char>)
    ensures
        request.release_metadata(name) is Some <==> request.generic_config(name).release,
        request.release_metadata(name) matches Some(metadata) ==> metadata.tag_name_template
            == request.generic_config(name).tag_name_template && metadata.release_name_template is None,
{
}

} // verus!

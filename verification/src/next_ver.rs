//! Finding out which packages of a workspace need a next version.
//!
//! The run begins with the packages that have been released, be it by the tags
//! of the repository or by a registry, and ends with the comparison of the
//! workspace to them.
use crate::collection::PackagesCollection;
use crate::collection::ReleasePackage;
use crate::context::Context;
use crate::lookup::lookup_ends;
use crate::lookup::lookup_fits_its_flow;
use crate::lookup::release_events;
use crate::lookup::Flow;
use crate::lookup::Lookup;
use crate::lookup::LookupAction;
use crate::lookup::LookupEvent;
use crate::lookup::LookupPhase;
use crate::package::first_named;
use crate::package::first_named_is_unique;
use crate::package::has_named;
use crate::package::is_first_named;
use crate::package::publishable_names;
use crate::package::publishable_names_of;
use crate::package::workspace_names;
use crate::package::Metadata;
use crate::package::Package;
use crate::paths::manifest_dir;
use crate::paths::path_parent;
use crate::paths::text_view;
use crate::release_tag::find_release_tag;
use crate::release_tag::is_release_tag;
use crate::release_tag::regex_is_match;
use crate::release_tag::release_lacks_version;
use crate::release_tag::NoVersion;
use crate::release_tag::ReleaseRegex;
use crate::request::UpdateRequest;
use crate::version::bears_version;
use vstd::prelude::*;

verus! {

/// What a registry is asked for. `S` is the type of its texts, and `L` that of
/// its lists of texts.
#[derive(Debug, PartialEq, Eq)]
pub struct RegistryQuery<S, L> {
    /// The path of the manifest of the released project, if the released
    /// packages are to be read from there.
    pub manifest: Option<S>,
    /// The names of the packages of the project that can be published.
    pub packages: L,
    /// The registry, if it is not the default one.
    pub registry: Option<S>,
}

/// How far a run has come. `S` is the type of its texts, and `L` that of its
/// lists of texts.
#[derive(Debug)]
pub enum NextPhase<S, L> {
    /// The project has to be loaded.
    LoadProject,
    /// The repository that worktrees are made from has to be opened.
    OpenRepository { directory: S },
    /// The release of a package has to be looked up.
    LookUp { lookup: Lookup<S> },
    /// The released packages have to be read from a registry.
    ReadRegistry { query: RegistryQuery<S, L> },
    /// The repository with the changes that are not released has to be opened.
    OpenWorktree { directory: S },
    /// It has to be found out whether there are changes that are not committed.
    CheckClean,
    /// Changes that are not committed have to be stashed.
    Stash,
    /// The packages that need an update have to be found.
    UpdatePackages,
    /// The packages that need an update are known.
    Finished,
    /// A step failed. Its error is passed on, with the context if there is one.
    Failed { context: Option<Context> },
}

/// What has to be done. `S` is the type of its texts, and `L` that of its lists
/// of texts.
#[derive(Debug, PartialEq, Eq)]
pub enum NextAction<S, L> {
    /// Load the project.
    LoadProject,
    /// Open the repository in this directory.
    OpenRepository(S),
    /// Do what the lookup of a package asks for.
    LookUp(LookupAction<S>),
    /// Read the released packages from a registry.
    ReadRegistry(RegistryQuery<S, L>),
    /// Open the repository in this directory.
    OpenWorktree(S),
    /// Find out whether the repository is clean. That it is not counts as a failure.
    CheckClean,
    /// Run git with [`stash_arguments`].
    Stash,
    /// Find the packages that need an update.
    UpdatePackages,
    /// Nothing: the run is over.
    Stop,
}

/// What came of an action.
#[derive(Debug)]
pub enum NextEvent {
    /// It failed.
    Failed,
    /// It was done.
    Done,
    /// The project was loaded, and has these packages.
    Loaded(Vec<Package>),
    /// These released packages were read from a registry.
    Released(PackagesCollection),
    /// What came of an action of a lookup.
    LookUp(LookupEvent),
}

/// A run.
#[derive(Debug)]
pub struct NextVersions {
    allow_dirty: bool,
    git_only: bool,
    registry_manifest: Option<String>,
    registry: Option<String>,
    regex: Option<ReleaseRegex>,
    manifest_dir: Option<String>,
    packages: Vec<String>,
    next_package: usize,
    released: PackagesCollection,
    phase: NextPhase<String, Vec<String>>,
}

/// What a run is, as far as it matters to what it does.
pub struct NextView {
    /// Whether changes that are not committed are allowed.
    pub allow_dirty: bool,
    /// Whether git tags, not a registry, tell what has been released.
    pub git_only: bool,
    /// The path of the manifest of the released project, if one is given.
    pub registry_manifest: Option<Seq<char>>,
    /// The registry, if one is given.
    pub registry: Option<Seq<char>>,
    /// The pattern that the tags of releases match.
    pub pattern: Option<Seq<char>>,
    /// The directory of the manifest of the workspace.
    pub manifest_dir: Option<Seq<char>>,
    /// The names of the packages of the workspace.
    pub packages: Seq<Seq<char>>,
    /// The package that is looked up, or will be next.
    pub next_package: int,
    /// The released packages that have been found, by name.
    pub released: Map<Seq<char>, ReleasePackage<Seq<char>>>,
    /// How far the run has come.
    pub phase: NextPhase<Seq<char>, Seq<Seq<char>>>,
}

/// The texts of a list.
pub open spec fn texts(list: Seq<String>) -> Seq<Seq<char>> {
    list.map_values(|text: String| text@)
}

impl View for RegistryQuery<String, Vec<String>> {
    type V = RegistryQuery<Seq<char>, Seq<Seq<char>>>;

    open spec fn view(&self) -> RegistryQuery<Seq<char>, Seq<Seq<char>>> {
        RegistryQuery {
            manifest: text_view(self.manifest),
            packages: texts(self.packages@),
            registry: text_view(self.registry),
        }
    }
}

impl View for NextPhase<String, Vec<String>> {
    type V = NextPhase<Seq<char>, Seq<Seq<char>>>;

    open spec fn view(&self) -> NextPhase<Seq<char>, Seq<Seq<char>>> {
        match *self {
            NextPhase::LoadProject => NextPhase::LoadProject,
            NextPhase::OpenRepository { directory } => NextPhase::OpenRepository {
                directory: directory@,
            },
            NextPhase::LookUp { lookup } => NextPhase::LookUp { lookup: lookup@ },
            NextPhase::ReadRegistry { query } => NextPhase::ReadRegistry { query: query@ },
            NextPhase::OpenWorktree { directory } => NextPhase::OpenWorktree {
                directory: directory@,
            },
            NextPhase::CheckClean => NextPhase::CheckClean,
            NextPhase::Stash => NextPhase::Stash,
            NextPhase::UpdatePackages => NextPhase::UpdatePackages,
            NextPhase::Finished => NextPhase::Finished,
            NextPhase::Failed { context } => NextPhase::Failed { context },
        }
    }
}

impl View for NextAction<String, Vec<String>> {
    type V = NextAction<Seq<char>, Seq<Seq<char>>>;

    open spec fn view(&self) -> NextAction<Seq<char>, Seq<Seq<char>>> {
        match *self {
            NextAction::LoadProject => NextAction::LoadProject,
            NextAction::OpenRepository(directory) => NextAction::OpenRepository(directory@),
            NextAction::LookUp(action) => NextAction::LookUp(action@),
            NextAction::ReadRegistry(query) => NextAction::ReadRegistry(query@),
            NextAction::OpenWorktree(directory) => NextAction::OpenWorktree(directory@),
            NextAction::CheckClean => NextAction::CheckClean,
            NextAction::Stash => NextAction::Stash,
            NextAction::UpdatePackages => NextAction::UpdatePackages,
            NextAction::Stop => NextAction::Stop,
        }
    }
}

impl View for NextVersions {
    type V = NextView;

    closed spec fn view(&self) -> NextView {
        NextView {
            allow_dirty: self.allow_dirty,
            git_only: self.git_only,
            registry_manifest: text_view(self.registry_manifest),
            registry: text_view(self.registry),
            pattern: match self.regex {
                Some(regex) => Some(regex.pattern()),
                None => None,
            },
            manifest_dir: text_view(self.manifest_dir),
            packages: texts(self.packages@),
            next_package: self.next_package as int,
            released: self.released@,
            phase: self.phase@,
        }
    }
}

/// The phase in which the packages that need an update are being found, from
/// its beginning, where `manifest_dir` is the directory of the manifest.
pub open spec fn comparison_in(manifest_dir: Option<Seq<char>>) -> NextPhase<
    Seq<char>,
    Seq<Seq<char>>,
> {
    match manifest_dir {
        Some(directory) => NextPhase::OpenWorktree { directory },
        None => NextPhase::Failed { context: Some(Context::GetLocalManifestParent) },
    }
}

impl NextView {
    /// The run of a request on the workspace that `metadata` describes, before its first action.
    pub open spec fn of_request(request: UpdateRequest, metadata: Metadata) -> NextView {
        NextView {
            allow_dirty: request.allow_dirty,
            git_only: request.git_only,
            registry_manifest: text_view(request.registry_manifest),
            registry: text_view(request.registry),
            pattern: match request.git_only_release_regex {
                Some(regex) => Some(regex.pattern()),
                None => None,
            },
            manifest_dir: path_parent(request.local_manifest@),
            packages: metadata.member_names(),
            next_package: 0,
            released: Map::empty(),
            phase: NextPhase::LoadProject,
        }
    }

    /// Whether the run has come to an end.
    pub open spec fn is_over(self) -> bool {
        self.phase is Finished || self.phase is Failed
    }

    /// What has to be done next.
    pub open spec fn action(self) -> NextAction<Seq<char>, Seq<Seq<char>>> {
        match self.phase {
            NextPhase::LoadProject => NextAction::LoadProject,
            NextPhase::OpenRepository { directory } => NextAction::OpenRepository(directory),
            NextPhase::LookUp { lookup } => NextAction::LookUp(lookup.action()),
            NextPhase::ReadRegistry { query } => NextAction::ReadRegistry(query),
            NextPhase::OpenWorktree { directory } => NextAction::OpenWorktree(directory),
            NextPhase::CheckClean => NextAction::CheckClean,
            NextPhase::Stash => NextAction::Stash,
            NextPhase::UpdatePackages => NextAction::UpdatePackages,
            _ => NextAction::Stop,
        }
    }

    /// Whether the event answers the action, in a way for which there is a next step.
    ///
    /// Without a pattern for the tags of releases there is none after the
    /// repository has been opened.
    pub open spec fn accepts(self, event: NextEvent) -> bool {
        match (self.phase, event) {
            (NextPhase::LookUp { lookup }, NextEvent::LookUp(event)) => lookup.accepts(event),
            (NextPhase::LookUp { .. }, _) => false,
            (_, NextEvent::LookUp(_)) => false,
            (NextPhase::LoadProject, NextEvent::Done) => false,
            (NextPhase::LoadProject, NextEvent::Released(_)) => false,
            (NextPhase::LoadProject, _) => true,
            (_, NextEvent::Loaded(_)) => false,
            (NextPhase::ReadRegistry { .. }, NextEvent::Done) => false,
            (NextPhase::ReadRegistry { .. }, _) => true,
            (_, NextEvent::Released(_)) => false,
            (NextPhase::OpenRepository { .. }, NextEvent::Done) => self.pattern is Some,
            _ => !self.is_over(),
        }
    }

    /// The phase in which the packages that need an update are being found, from its beginning.
    pub open spec fn comparison(self) -> NextPhase<Seq<char>, Seq<Seq<char>>> {
        comparison_in(self.manifest_dir)
    }

    /// The phase for the next package of the workspace, or the one after the last of them.
    pub open spec fn next_lookup(self) -> NextPhase<Seq<char>, Seq<Seq<char>>> {
        if self.next_package < self.packages.len() {
            NextPhase::LookUp {
                lookup: Lookup {
                    flow: Flow::Release,
                    package: self.packages[self.next_package],
                    phase: LookupPhase::CreateWorktree,
                },
            }
        } else {
            self.comparison()
        }
    }

    /// The run after its lookup has come to `lookup`.
    pub open spec fn looked_up(self, lookup: Lookup<Seq<char>>) -> NextView {
        match lookup.phase {
            LookupPhase::Released { package, commit } => {
                let after = NextView {
                    next_package: self.next_package + 1,
                    released: self.released.insert(
                        package.name@,
                        ReleasePackage { package, commit: Some(commit) },
                    ),
                    ..self
                };
                NextView { phase: after.next_lookup(), ..after }
            },
            LookupPhase::Failed { context } => NextView {
                phase: NextPhase::Failed { context: Some(context) },
                ..self
            },
            _ => NextView { phase: NextPhase::LookUp { lookup }, ..self },
        }
    }

    /// The phase after the project has been loaded. A registry is asked for the
    /// packages of the project that can be published.
    pub open spec fn loaded(self, packages: Seq<Package>) -> NextPhase<Seq<char>, Seq<Seq<char>>> {
        if !self.git_only {
            NextPhase::ReadRegistry {
                query: RegistryQuery {
                    manifest: self.registry_manifest,
                    packages: publishable_names_of(packages),
                    registry: self.registry,
                },
            }
        } else {
            match self.manifest_dir {
                Some(directory) => NextPhase::OpenRepository { directory },
                None => NextPhase::Failed { context: Some(Context::GetLocalManifestDir) },
            }
        }
    }

    /// The phase after an action that was done, outside of a lookup.
    pub open spec fn advanced(self) -> NextPhase<Seq<char>, Seq<Seq<char>>> {
        match self.phase {
            NextPhase::OpenRepository { .. } => self.next_lookup(),
            NextPhase::OpenWorktree { .. } => NextPhase::CheckClean,
            NextPhase::CheckClean => NextPhase::UpdatePackages,
            NextPhase::Stash => NextPhase::UpdatePackages,
            NextPhase::UpdatePackages => NextPhase::Finished,
            other => other,
        }
    }

    /// The phase after an action that failed, outside of a lookup. Changes that
    /// are not committed are stashed where they are allowed.
    pub open spec fn failed(self) -> NextPhase<Seq<char>, Seq<Seq<char>>> {
        match self.phase {
            NextPhase::OpenRepository { .. } => NextPhase::Failed {
                context: Some(Context::CreateUnreleasedRepo),
            },
            NextPhase::OpenWorktree { .. } => NextPhase::Failed {
                context: Some(Context::CreateUnreleasedWorktree),
            },
            NextPhase::CheckClean => if self.allow_dirty {
                NextPhase::Stash
            } else {
                NextPhase::Failed { context: None }
            },
            _ => NextPhase::Failed { context: None },
        }
    }

    /// The run after an event.
    pub open spec fn next(self, event: NextEvent) -> NextView {
        match event {
            NextEvent::LookUp(event) => self.looked_up(self.phase->LookUp_lookup.next(event)),
            NextEvent::Loaded(packages) => NextView { phase: self.loaded(packages@), ..self },
            NextEvent::Released(released) => NextView {
                released: released@,
                phase: self.comparison(),
                ..self
            },
            NextEvent::Done => NextView { phase: self.advanced(), ..self },
            NextEvent::Failed => NextView { phase: self.failed(), ..self },
        }
    }
}

fn copied(text: &Option<String>) -> (copy: Option<String>)
    ensures
        text_view(copy) == text_view(*text),
{
    match text {
        Some(text) => Some(text.clone()),
        None => None,
    }
}

fn copied_query(query: &RegistryQuery<String, Vec<String>>) -> (copy: RegistryQuery<
    String,
    Vec<String>,
>)
    ensures
        copy@ == query@,
{
    let mut packages: Vec<String> = Vec::new();
    let mut i: usize = 0;
    while i < query.packages.len()
        invariant
            i <= query.packages.len(),
            texts(packages@) == texts(query.packages@).take(i as int),
        decreases query.packages.len() - i,
    {
        let ghost before = packages@;
        packages.push(query.packages[i].clone());
        assert(texts(packages@) =~= texts(before).push(query.packages@[i as int]@));
        i = i + 1;
        assert(texts(packages@) =~= texts(query.packages@).take(i as int));
    }
    assert(texts(packages@) =~= texts(query.packages@));
    RegistryQuery { manifest: copied(&query.manifest), packages, registry: copied(&query.registry) }
}

impl NextVersions {
    /// There is a package wherever one is looked up.
    #[verifier::type_invariant]
    spec fn is_in_bounds(self) -> bool {
        &&& self.next_package <= self.packages@.len()
        &&& self.phase is LookUp ==> self.next_package < self.packages@.len()
    }

    /// What has to be done next.
    pub fn action(&self) -> (action: NextAction<String, Vec<String>>)
        ensures
            action@ == self@.action(),
    {
        match &self.phase {
            NextPhase::LoadProject => NextAction::LoadProject,
            NextPhase::OpenRepository { directory } => NextAction::OpenRepository(
                directory.clone(),
            ),
            NextPhase::LookUp { lookup } => NextAction::LookUp(lookup.action()),
            NextPhase::ReadRegistry { query } => NextAction::ReadRegistry(copied_query(query)),
            NextPhase::OpenWorktree { directory } => NextAction::OpenWorktree(directory.clone()),
            NextPhase::CheckClean => NextAction::CheckClean,
            NextPhase::Stash => NextAction::Stash,
            NextPhase::UpdatePackages => NextAction::UpdatePackages,
            _ => NextAction::Stop,
        }
    }

    /// Whether the event answers the action, in a way for which there is a next step.
    pub fn accepts(&self, event: &NextEvent) -> (accepted: bool)
        ensures
            accepted == self@.accepts(*event),
    {
        match (&self.phase, event) {
            (NextPhase::LookUp { lookup }, NextEvent::LookUp(event)) => lookup.accepts(event),
            (NextPhase::LookUp { .. }, _) => false,
            (_, NextEvent::LookUp(_)) => false,
            (NextPhase::LoadProject, NextEvent::Done) => false,
            (NextPhase::LoadProject, NextEvent::Released(_)) => false,
            (NextPhase::LoadProject, _) => true,
            (_, NextEvent::Loaded(_)) => false,
            (NextPhase::ReadRegistry { .. }, NextEvent::Done) => false,
            (NextPhase::ReadRegistry { .. }, _) => true,
            (_, NextEvent::Released(_)) => false,
            (NextPhase::OpenRepository { .. }, NextEvent::Done) => self.regex.is_some(),
            (NextPhase::Finished, _) => false,
            (NextPhase::Failed { .. }, _) => false,
            _ => true,
        }
    }

    /// What the failure of the run is reported with, if it has failed: `Some(None)`
    /// where the error of the step is passed on as it is.
    pub fn failure(&self) -> (failure: Option<Option<Context>>)
        ensures
            failure == match self@.phase {
                NextPhase::Failed { context } => Some(context),
                _ => None,
            },
    {
        match &self.phase {
            NextPhase::Failed { context } => Some(*context),
            _ => None,
        }
    }

    /// The released packages that have been found so far.
    pub fn released(&self) -> (released: &PackagesCollection)
        ensures
            released@ == self@.released,
    {
        &self.released
    }

    fn comparison(manifest_dir: &Option<String>) -> (phase: NextPhase<String, Vec<String>>)
        ensures
            phase@ == comparison_in(text_view(*manifest_dir)),
    {
        match manifest_dir {
            Some(directory) => NextPhase::OpenWorktree { directory: directory.clone() },
            None => NextPhase::Failed { context: Some(Context::GetLocalManifestParent) },
        }
    }

    fn next_lookup(
        packages: &Vec<String>,
        next_package: usize,
        manifest_dir: &Option<String>,
    ) -> (phase: NextPhase<String, Vec<String>>)
        ensures
            phase is LookUp <==> next_package < packages@.len(),
            phase matches NextPhase::LookUp { lookup } ==> lookup@ == (Lookup {
                flow: Flow::Release,
                package: packages@[next_package as int]@,
                phase: LookupPhase::<Seq<char>>::CreateWorktree,
            }),
            next_package >= packages@.len() ==> phase@ == comparison_in(text_view(*manifest_dir)),
    {
        if next_package < packages.len() {
            NextPhase::LookUp { lookup: Lookup::release(packages[next_package].clone()) }
        } else {
            Self::comparison(manifest_dir)
        }
    }

    /// The run after an event.
    pub fn step(self, event: NextEvent) -> (next: NextVersions)
        requires
            self@.accepts(event),
        ensures
            next@ == self@.next(event),
    {
        proof {
            use_type_invariant(&self);
        }
        let NextVersions {
            allow_dirty,
            git_only,
            registry_manifest,
            registry,
            regex,
            manifest_dir,
            packages,
            next_package,
            released,
            phase,
        } = self;
        let mut next_package: usize = next_package;
        let mut released: PackagesCollection = released;
        let phase: NextPhase<String, Vec<String>> = match (phase, event) {
            (NextPhase::LookUp { lookup }, NextEvent::LookUp(event)) => {
                let Lookup { flow, package, phase } = lookup.step(event);
                match phase {
                    LookupPhase::Released { package, commit } => {
                        assert(next_package < packages.len());
                        next_package = next_package + 1;
                        released =
                        released.with_package(ReleasePackage { package, commit: Some(commit) });
                        Self::next_lookup(&packages, next_package, &manifest_dir)
                    },
                    LookupPhase::Failed { context } => NextPhase::Failed { context: Some(context) },
                    phase => NextPhase::LookUp { lookup: Lookup { flow, package, phase } },
                }
            },
            (NextPhase::LoadProject, NextEvent::Loaded(project)) => if !git_only {
                NextPhase::ReadRegistry {
                    query: RegistryQuery {
                        manifest: copied(&registry_manifest),
                        packages: publishable_names(&project),
                        registry: copied(&registry),
                    },
                }
            } else {
                match &manifest_dir {
                    Some(directory) => NextPhase::OpenRepository { directory: directory.clone() },
                    None => NextPhase::Failed { context: Some(Context::GetLocalManifestDir) },
                }
            },
            (NextPhase::OpenRepository { .. }, NextEvent::Done) => Self::next_lookup(
                &packages,
                next_package,
                &manifest_dir,
            ),
            (NextPhase::ReadRegistry { .. }, NextEvent::Released(found)) => {
                released = found;
                Self::comparison(&manifest_dir)
            },
            (NextPhase::OpenWorktree { .. }, NextEvent::Done) => NextPhase::CheckClean,
            (NextPhase::CheckClean, NextEvent::Done) => NextPhase::UpdatePackages,
            (NextPhase::Stash, NextEvent::Done) => NextPhase::UpdatePackages,
            (NextPhase::UpdatePackages, NextEvent::Done) => NextPhase::Finished,
            (NextPhase::OpenRepository { .. }, _) => NextPhase::Failed {
                context: Some(Context::CreateUnreleasedRepo),
            },
            (NextPhase::OpenWorktree { .. }, _) => NextPhase::Failed {
                context: Some(Context::CreateUnreleasedWorktree),
            },
            (NextPhase::CheckClean, _) => if allow_dirty {
                NextPhase::Stash
            } else {
                NextPhase::Failed { context: None }
            },
            _ => NextPhase::Failed { context: None },
        };
        NextVersions {
            allow_dirty,
            git_only,
            registry_manifest,
            registry,
            regex,
            manifest_dir,
            packages,
            next_package,
            released,
            phase,
        }
    }

    /// The run after the tags have been listed for the package that is looked
    /// up: its release tag is the one with the greatest version of those that the
    /// pattern matches. That one of those bears no version is an error. `None` if
    /// the pattern matches no tag, in which case there is no next step.
    pub fn step_tags(self, tags: &Vec<String>) -> (next: Option<NextVersions>)
        requires
            self@.phase is LookUp,
            self@.phase->LookUp_lookup.phase is ListTags,
            self@.pattern is Some,
        ensures
            next is None <==> forall|i: int|
                0 <= i < tags@.len() ==> !regex_is_match(
                    self@.pattern->Some_0,
                    #[trigger] tags@[i]@,
                ),
            next matches Some(next) ==> (next@.phase is Failed <==> release_lacks_version(
                self@.pattern->Some_0,
                tags@,
            )),
            next matches Some(next) ==> next@.phase is Failed ==> next@ == (NextView {
                phase: NextPhase::<Seq<char>, Seq<Seq<char>>>::Failed {
                    context: Some(Context::ReleaseWithoutVersion),
                },
                ..self@
            }),
            next matches Some(next) ==> !(next@.phase is Failed) ==> exists|i: int| #[trigger]
                is_release_tag(self@.pattern->Some_0, tags@, i) && next@ == (NextView {
                    phase: NextPhase::LookUp {
                        lookup: Lookup {
                            phase: LookupPhase::ResolveCommit {
                                worktree: self@.phase->LookUp_lookup.phase->ListTags_worktree,
                                tag: tags@[i]@,
                            },
                            ..self@.phase->LookUp_lookup
                        },
                    },
                    ..self@
                }),
    {
        let found: Result<Option<String>, NoVersion> = match &self.regex {
            Some(regex) => find_release_tag(regex, tags),
            None => Ok(None),
        };
        match found {
            Ok(Some(tag)) => {
                let ghost pattern = self@.pattern->Some_0;
                let ghost i = choose|i: int| #[trigger]
                    is_release_tag(pattern, tags@, i) && tag@ == tags@[i]@;
                let next = self.step(NextEvent::LookUp(LookupEvent::Release(Some(tag))));
                assert(is_release_tag(pattern, tags@, i));
                Some(next)
            },
            Ok(None) => None,
            Err(NoVersion {  }) => Some(
                self.step(NextEvent::LookUp(LookupEvent::Unversioned)),
            ),
        }
    }
}

/// Begins the run of a request on the workspace that `metadata` describes.
pub fn next_versions(request: UpdateRequest, metadata: &Metadata) -> (run: NextVersions)
    ensures
        run@ == NextView::of_request(request, *metadata),
{
    let manifest_dir: Option<String> = manifest_dir(request.local_manifest.as_str());
    let packages: Vec<String> = workspace_names(metadata);
    NextVersions {
        allow_dirty: request.allow_dirty,
        git_only: request.git_only,
        registry_manifest: request.registry_manifest,
        registry: request.registry,
        regex: request.git_only_release_regex,
        manifest_dir,
        packages,
        next_package: 0,
        released: PackagesCollection::new(),
        phase: NextPhase::LoadProject,
    }
}

/// The arguments by which git stashes changes that are not committed.
pub fn stash_arguments() -> (arguments: Vec<&'static str>)
    ensures
        arguments@.map_values(|argument: &str| argument@) == seq![
            "stash"@,
            "push"@,
            "--include-untracked"@,
            "-m"@,
            "uncommitted changes stashed by release-plz"@,
        ],
{
    let arguments: Vec<&'static str> = vec![
        "stash",
        "push",
        "--include-untracked",
        "-m",
        "uncommitted changes stashed by release-plz",
    ];
    assert(arguments@.map_values(|argument: &str| argument@) =~= seq![
        "stash"@,
        "push"@,
        "--include-untracked"@,
        "-m"@,
        "uncommitted changes stashed by release-plz"@,
    ]);
    arguments
}

impl NextView {
    /// What holds in every state of a run.
    pub open spec fn is_sound(self) -> bool {
        &&& 0 <= self.next_package <= self.packages.len()
        &&& self.git_only ==> {
            &&& self.released.dom() == self.packages.take(self.next_package).to_set()
            &&& forall|name: Seq<char>| #[trigger]
                self.released.contains_key(name) ==> self.released[name].package.name@ == name
                    && self.released[name].commit is Some
        }
        &&& self.next_package > 0 ==> self.git_only
        &&& match self.phase {
            NextPhase::LoadProject => self.next_package == 0,
            NextPhase::OpenRepository { directory } => {
                &&& self.git_only
                &&& self.next_package == 0
                &&& self.manifest_dir == Some(directory)
            },
            NextPhase::LookUp { lookup } => {
                &&& self.git_only
                &&& self.pattern is Some
                &&& self.next_package < self.packages.len()
                &&& lookup.flow is Release
                &&& lookup.package == self.packages[self.next_package]
                &&& lookup.fits_flow()
                &&& !lookup.is_over()
            },
            NextPhase::ReadRegistry { query } => {
                &&& !self.git_only
                &&& query.manifest == self.registry_manifest
                &&& query.registry == self.registry
            },
            NextPhase::OpenWorktree { directory } => {
                &&& self.git_only ==> self.next_package == self.packages.len()
                &&& self.manifest_dir == Some(directory)
            },
            NextPhase::Stash => {
                &&& self.git_only ==> self.next_package == self.packages.len()
                &&& self.allow_dirty
            },
            NextPhase::Failed { .. } => true,
            _ => self.git_only ==> self.next_package == self.packages.len(),
        }
    }

    /// The run after several events.
    pub open spec fn run(self, events: Seq<NextEvent>) -> NextView
        decreases events.len(),
    {
        if events.len() == 0 {
            self
        } else {
            self.run(events.drop_last()).next(events.last())
        }
    }

    /// Every one of several events answers the action of its time.
    pub open spec fn accepts_all(self, events: Seq<NextEvent>) -> bool
        decreases events.len(),
    {
        events.len() > 0 ==> self.accepts_all(events.drop_last()) && self.run(
            events.drop_last(),
        ).accepts(events.last())
    }

    /// The most events that can still come.
    pub open spec fn remaining(self) -> int {
        let left = self.packages.len() - self.next_package;
        match self.phase {
            NextPhase::LoadProject => 6 + 11 * left,
            NextPhase::OpenRepository { .. } => 5 + 11 * left,
            NextPhase::LookUp { lookup } => 5 + 11 * (left - 1) + lookup.remaining(),
            NextPhase::ReadRegistry { .. } => 5,
            NextPhase::OpenWorktree { .. } => 4,
            NextPhase::CheckClean => 3,
            NextPhase::Stash => 2,
            NextPhase::UpdatePackages => 1,
            _ => 0,
        }
    }
}

/// What holds in every state of a run holds at its beginning.
pub proof fn run_begins_sound(request: UpdateRequest, metadata: Metadata)
    ensures
        NextView::of_request(request, metadata).is_sound(),
{
    let run = NextView::of_request(request, metadata);
    assert(run.packages.take(0) =~= Seq::<Seq<char>>::empty());
    assert(run.released.dom() =~= run.packages.take(0).to_set());
}

/// What holds in every state of a run still holds after any event. So each
/// package of the workspace is looked up in turn, and each one that has been
/// looked up is among the released packages under its own name, with the commit
/// of its release.
pub proof fn run_stays_sound(run: NextView, event: NextEvent)
    requires
        run.is_sound(),
        run.accepts(event),
    ensures
        run.next(event).is_sound(),
{
    if let NextPhase::LookUp { lookup } = run.phase {
        let lookup_event = event->LookUp_0;
        let after = lookup.next(lookup_event);
        lookup_ends(lookup, lookup_event);
        if let LookupPhase::Released { package, commit } = after.phase {
            let members = lookup_event->Metadata_0.members();
            let i = choose|i: int| #[trigger] is_first_named(members, lookup.package, i);
            first_named_is_unique(members, lookup.package, i);
            assert(package.name@ == lookup.package);
            let n = run.next_package;
            let next = run.next(event);
            assert(run.packages.take(n + 1) =~= run.packages.take(n).push(run.packages[n]));
            assert forall|name: Seq<char>| #[trigger]
                next.released.dom().contains(name) == run.packages.take(n + 1).to_set().contains(
                    name,
                ) by {
                let taken = run.packages.take(n);
                let more = run.packages.take(n + 1);
                assert(more[n] == run.packages[n]);
                if more.contains(name) && name != run.packages[n] {
                    let k = choose|k: int| 0 <= k < more.len() && more[k] == name;
                    assert(taken[k] == name);
                }
                if taken.contains(name) {
                    let k = choose|k: int| 0 <= k < taken.len() && taken[k] == name;
                    assert(more[k] == name);
                }
                assert(run.released.dom().contains(name) == taken.to_set().contains(name));
            }
            assert(next.released.dom() =~= run.packages.take(n + 1).to_set());
        }
    }
}

/// Every state that a run can come to is sound, and what was asked for stays as it was.
pub proof fn every_state_is_sound(request: UpdateRequest, metadata: Metadata, events: Seq<NextEvent>)
    requires
        NextView::of_request(request, metadata).accepts_all(events),
    ensures
        ({
            let start = NextView::of_request(request, metadata);
            let run = start.run(events);
            &&& run.is_sound()
            &&& run.packages == start.packages
            &&& run.git_only == start.git_only
            &&& run.allow_dirty == start.allow_dirty
            &&& run.pattern == start.pattern
            &&& run.manifest_dir == start.manifest_dir
            &&& run.registry_manifest == start.registry_manifest
            &&& run.registry == start.registry
        }),
    decreases events.len(),
{
    if events.len() == 0 {
        run_begins_sound(request, metadata);
    } else {
        every_state_is_sound(request, metadata, events.drop_last());
        run_stays_sound(
            NextView::of_request(request, metadata).run(events.drop_last()),
            events.last(),
        );
    }
}

/// A run that finishes by git tags knows the release of every package of the
/// workspace, and of no other.
pub proof fn finished_run_knows_every_release(
    request: UpdateRequest,
    metadata: Metadata,
    events: Seq<NextEvent>,
    name: Seq<char>,
)
    requires
        request.git_only,
        NextView::of_request(request, metadata).accepts_all(events),
        NextView::of_request(request, metadata).run(events).phase is Finished,
    ensures
        ({
            let names = metadata.members().map_values(|package: Package| package.name@);
            let released = NextView::of_request(request, metadata).run(events).released;
            &&& released.contains_key(name) <==> names.contains(name)
            &&& names.contains(name) ==> released[name].package.name@ == name
                && released[name].commit is Some
        }),
{
    every_state_is_sound(request, metadata, events);
    let run = NextView::of_request(request, metadata).run(events);
    assert(run.packages.take(run.packages.len() as int) =~= run.packages);
    assert(run.released.dom().contains(name) == run.packages.to_set().contains(name));
}

/// Every event brings a run nearer to its end.
pub proof fn run_ends(run: NextView, event: NextEvent)
    requires
        run.is_sound(),
        run.accepts(event),
    ensures
        0 <= run.next(event).remaining() < run.remaining(),
{
    if let NextPhase::LookUp { lookup } = run.phase {
        lookup_ends(lookup, event->LookUp_0);
    }
}

/// The packages are compared only when there are no changes that are not
/// committed, or after such changes, being allowed, have been stashed; and
/// nothing is stashed otherwise.
pub proof fn dirty_changes_are_refused_or_stashed(run: NextView, event: NextEvent)
    requires
        run.is_sound(),
        run.accepts(event),
    ensures
        run.next(event).phase is UpdatePackages ==> event is Done && (run.phase is CheckClean
            || run.phase is Stash),
        run.next(event).phase is Stash <==> run.phase is CheckClean && event is Failed
            && run.allow_dirty,
        run.phase is CheckClean && event is Failed && !run.allow_dirty ==> run.next(event).phase
            == (NextPhase::<Seq<char>, Seq<Seq<char>>>::Failed { context: None }),
{
}

/// The released packages come from a registry exactly if git tags are not to
/// tell them; the registry is then asked for the packages of the project that
/// can be published, and for no other.
pub proof fn releases_come_from_one_place(run: NextView, event: NextEvent)
    requires
        run.is_sound(),
        run.accepts(event),
        run.phase is LoadProject,
        event is Loaded,
    ensures
        run.next(event).phase is ReadRegistry <==> !run.git_only,
        run.next(event).phase matches NextPhase::ReadRegistry { query } ==> query.packages
            == publishable_names_of(event->Loaded_0@),
        run.next(event).phase is OpenRepository <==> run.git_only && run.manifest_dir is Some,
{
}

/// The released packages that the workspace is compared to are those that a
/// registry has told or that have been looked up: nothing else changes them.
pub proof fn released_packages_are_those_told(run: NextView, event: NextEvent)
    requires
        run.is_sound(),
        run.accepts(event),
    ensures
        event matches NextEvent::Released(told) ==> run.phase is ReadRegistry && run.next(
            event,
        ).released == told@,
        event is Failed || event is Done || event is Loaded ==> run.next(event).released
            == run.released,
        event is LookUp ==> run.git_only,
{
}

proof fn one_more_event(start: NextView, events: Seq<NextEvent>, n: int)
    requires
        0 <= n < events.len(),
    ensures
        start.run(events.take(n + 1)) == start.run(events.take(n)).next(events[n]),
        start.accepts_all(events.take(n + 1)) <==> start.accepts_all(events.take(n)) && start.run(
            events.take(n),
        ).accepts(events[n]),
{
    assert(events.take(n + 1).drop_last() =~= events.take(n));
}

/// Once every step of the lookup of a package is done, the package is recorded
/// with the commit that was told for its release tag, and the run goes on with
/// the next package, or after the last with the comparison.
pub proof fn package_is_recorded(
    run: NextView,
    worktree: Option<String>,
    tag: String,
    commit: String,
    workspace: Metadata,
    metadata: Metadata,
)
    requires
        run.is_sound(),
        run.phase is LookUp,
        run.phase->LookUp_lookup.is_new(),
        bears_version(tag@),
        has_named(workspace.packages@, run.packages[run.next_package]),
        has_named(metadata.members(), run.packages[run.next_package]),
    ensures
        ({
            let name = run.packages[run.next_package];
            let events = release_events(worktree, tag, commit, workspace, metadata).map_values(
                |event: LookupEvent| NextEvent::LookUp(event),
            );
            let after = NextView {
                next_package: run.next_package + 1,
                released: run.released.insert(
                    name,
                    ReleasePackage {
                        package: first_named(metadata.members(), name),
                        commit: Some(commit@),
                    },
                ),
                ..run
            };
            &&& run.accepts_all(events)
            &&& run.run(events) == NextView { phase: after.next_lookup(), ..after }
        }),
{
    let name = run.packages[run.next_package];
    let events = release_events(worktree, tag, commit, workspace, metadata).map_values(
        |event: LookupEvent| NextEvent::LookUp(event),
    );
    let i = choose|i: int| #[trigger] is_first_named(metadata.members(), name, i);
    first_named_is_unique(metadata.members(), name, i);
    one_more_event(run, events, 0);
    one_more_event(run, events, 1);
    one_more_event(run, events, 2);
    one_more_event(run, events, 3);
    one_more_event(run, events, 4);
    one_more_event(run, events, 5);
    one_more_event(run, events, 6);
    one_more_event(run, events, 7);
    one_more_event(run, events, 8);
    assert(events.take(9) =~= events);
}

/// A run by way of a registry in which every step is done finishes, and the
/// released packages are those that were read from the registry.
pub proof fn registry_run_succeeds(
    request: UpdateRequest,
    metadata: Metadata,
    project: Vec<Package>,
    released: PackagesCollection,
)
    requires
        !request.git_only,
        path_parent(request.local_manifest@) is Some,
    ensures
        ({
            let start = NextView::of_request(request, metadata);
            let events = seq![
                NextEvent::Loaded(project),
                NextEvent::Released(released),
                NextEvent::Done,
                NextEvent::Done,
                NextEvent::Done,
            ];
            &&& start.accepts_all(events)
            &&& start.run(events).phase is Finished
            &&& start.run(events).released == released@
        }),
{
    let start = NextView::of_request(request, metadata);
    let events = seq![
        NextEvent::Loaded(project),
        NextEvent::Released(released),
        NextEvent::Done,
        NextEvent::Done,
        NextEvent::Done,
    ];
    one_more_event(start, events, 0);
    one_more_event(start, events, 1);
    one_more_event(start, events, 2);
    one_more_event(start, events, 3);
    one_more_event(start, events, 4);
    assert(events.take(5) =~= events);
}

/// What is told in the lookup of one package, if every step of it is done.
pub struct Told {
    /// Where the worktree is.
    pub worktree: Option<String>,
    /// The release tag.
    pub tag: String,
    /// The commit that the tag marks.
    pub commit: String,
    /// What cargo tells of the worktree.
    pub workspace: Metadata,
    /// What cargo tells of the packaged crate.
    pub metadata: Metadata,
}

impl Told {
    /// The events by which it is told.
    pub open spec fn events(self) -> Seq<NextEvent> {
        release_events(
            self.worktree,
            self.tag,
            self.commit,
            self.workspace,
            self.metadata,
        ).map_values(|event: LookupEvent| NextEvent::LookUp(event))
    }

    /// The tag bears a version, and the package called `name` is in the worktree
    /// and in the packaged crate.
    pub open spec fn has_package(self, name: Seq<char>) -> bool {
        &&& bears_version(self.tag@)
        &&& has_named(self.workspace.packages@, name)
        &&& has_named(self.metadata.members(), name)
    }

    /// The released package called `name`.
    pub open spec fn released(self, name: Seq<char>) -> ReleasePackage<Seq<char>> {
        ReleasePackage {
            package: first_named(self.metadata.members(), name),
            commit: Some(self.commit@),
        }
    }
}

/// The events of several lookups, one after the other.
pub open spec fn told_events(told: Seq<Told>) -> Seq<NextEvent>
    decreases told.len(),
{
    if told.len() == 0 {
        Seq::empty()
    } else {
        told_events(told.drop_last()) + told.last().events()
    }
}

/// The events of a run by git tags in which every step is done.
pub open spec fn git_run_events(project: Vec<Package>, told: Seq<Told>) -> Seq<NextEvent> {
    seq![NextEvent::Loaded(project), NextEvent::Done] + told_events(told) + seq![
        NextEvent::Done,
        NextEvent::Done,
        NextEvent::Done,
    ]
}

/// `i` is the last of the first `n` places at which its name stands.
pub open spec fn is_last_of_its_name(names: Seq<Seq<char>>, n: int, i: int) -> bool {
    &&& 0 <= i < n
    &&& forall|j: int| i < j < n ==> #[trigger] names[j] != names[i]
}

proof fn run_in_two_parts(start: NextView, first: Seq<NextEvent>, second: Seq<NextEvent>)
    ensures
        start.run(first + second) == start.run(first).run(second),
        start.accepts_all(first + second) <==> start.accepts_all(first) && start.run(
            first,
        ).accepts_all(second),
    decreases second.len(),
{
    if second.len() == 0 {
        assert(first + second =~= first);
    } else {
        run_in_two_parts(start, first, second.drop_last());
        assert((first + second).drop_last() =~= first + second.drop_last());
        assert((first + second).last() == second.last());
    }
}

proof fn sound_after_events(run: NextView, events: Seq<NextEvent>)
    requires
        run.is_sound(),
        run.accepts_all(events),
    ensures
        run.run(events).is_sound(),
    decreases events.len(),
{
    if events.len() > 0 {
        sound_after_events(run, events.drop_last());
        run_stays_sound(run.run(events.drop_last()), events.last());
    }
}

proof fn packages_are_recorded(run: NextView, told: Seq<Told>)
    requires
        run.is_sound(),
        run.git_only,
        run.pattern is Some,
        run.next_package == 0,
        run.phase == run.next_lookup(),
        told.len() <= run.packages.len(),
        forall|i: int|
            0 <= i < told.len() ==> (#[trigger] told[i]).has_package(run.packages[i]),
    ensures
        run.accepts_all(told_events(told)),
        ({
            let after = run.run(told_events(told));
            &&& after.is_sound()
            &&& after.next_package == told.len()
            &&& after.phase == after.next_lookup()
            &&& after == NextView {
                next_package: after.next_package,
                released: after.released,
                phase: after.phase,
                ..run
            }
            &&& forall|i: int| #[trigger]
                is_last_of_its_name(run.packages, told.len() as int, i)
                    ==> after.released.contains_pair(
                    run.packages[i],
                    told[i].released(run.packages[i]),
                )
        }),
    decreases told.len(),
{
    if told.len() > 0 {
        let n = told.len() - 1;
        let rest = told.drop_last();
        let last = told.last();
        assert forall|i: int| 0 <= i < rest.len() implies (#[trigger] rest[i]).has_package(
            run.packages[i],
        ) by {
            assert(rest[i] == told[i]);
        }
        packages_are_recorded(run, rest);
        let before = run.run(told_events(rest));
        assert(told[n].has_package(run.packages[n]));
        package_is_recorded(
            before,
            last.worktree,
            last.tag,
            last.commit,
            last.workspace,
            last.metadata,
        );
        run_in_two_parts(run, told_events(rest), last.events());
        sound_after_events(run, told_events(told));
        let after = run.run(told_events(told));
        assert forall|i: int| #[trigger]
            is_last_of_its_name(
                run.packages,
                told.len() as int,
                i,
            ) implies after.released.contains_pair(
            run.packages[i],
            told[i].released(run.packages[i]),
        ) by {
            if i < n {
                assert(run.packages[n] != run.packages[i]);
                assert(is_last_of_its_name(run.packages, n, i));
                assert(rest[i] == told[i]);
            }
        }
    }
}

/// A run by git tags in which every step is done finishes, and then every
/// package of the workspace is recorded as it was told for it, with the commit
/// that was told for its release tag. Of packages with the same name the last
/// one counts.
pub proof fn git_run_succeeds(
    request: UpdateRequest,
    metadata: Metadata,
    project: Vec<Package>,
    told: Seq<Told>,
    i: int,
)
    requires
        request.git_only,
        request.git_only_release_regex is Some,
        path_parent(request.local_manifest@) is Some,
        told.len() == metadata.members().len(),
        forall|k: int|
            0 <= k < told.len() ==> (#[trigger] told[k]).has_package(
                metadata.members()[k].name@,
            ),
    ensures
        ({
            let start = NextView::of_request(request, metadata);
            let run = start.run(git_run_events(project, told));
            &&& start.accepts_all(git_run_events(project, told))
            &&& run.phase is Finished
            &&& is_last_of_its_name(start.packages, told.len() as int, i)
                ==> run.released.contains_pair(
                start.packages[i],
                told[i].released(start.packages[i]),
            )
        }),
{
    let start = NextView::of_request(request, metadata);
    let begin = seq![NextEvent::Loaded(project), NextEvent::Done];
    let rest = seq![NextEvent::Done, NextEvent::Done, NextEvent::Done];
    run_begins_sound(request, metadata);
    one_more_event(start, begin, 0);
    one_more_event(start, begin, 1);
    assert(begin.take(2) =~= begin);
    let opened = start.run(begin);
    sound_after_events(start, begin);
    packages_are_recorded(opened, told);
    let compared = opened.run(told_events(told));
    one_more_event(compared, rest, 0);
    one_more_event(compared, rest, 1);
    one_more_event(compared, rest, 2);
    assert(rest.take(3) =~= rest);
    run_in_two_parts(start, begin, told_events(told));
    run_in_two_parts(start, begin + told_events(told), rest);
}

/// Changes that are not committed are stashed exactly if the request allows
/// them, whatever else it asks for. Otherwise the error of the check is passed
/// on, and the run is over.
pub proof fn request_decides_on_uncommitted_changes(
    request: UpdateRequest,
    metadata: Metadata,
    events: Seq<NextEvent>,
)
    requires
        NextView::of_request(request, metadata).accepts_all(events),
        NextView::of_request(request, metadata).run(events).action() is CheckClean,
    ensures
        ({
            let run = NextView::of_request(request, metadata).run(events);
            &&& run.accepts(NextEvent::Failed) && run.accepts(NextEvent::Done)
            &&& request.allow_dirty ==> run.next(NextEvent::Failed).action() is Stash
            &&& !request.allow_dirty ==> run.next(NextEvent::Failed).phase == (NextPhase::<
                Seq<char>,
                Seq<Seq<char>>,
            >::Failed { context: None }) && run.next(NextEvent::Failed).action() is Stop
            &&& run.next(NextEvent::Done).action() is UpdatePackages
        }),
{
    every_state_is_sound(request, metadata, events);
}

/// Nothing is stashed in a run whose request does not allow changes that are
/// not committed, and where something is stashed, the check has just failed.
pub proof fn nothing_is_stashed_without_the_request(
    request: UpdateRequest,
    metadata: Metadata,
    events: Seq<NextEvent>,
)
    requires
        NextView::of_request(request, metadata).accepts_all(events),
        NextView::of_request(request, metadata).run(events).action() is Stash,
    ensures
        request.allow_dirty,
        events.len() > 0,
        events.last() is Failed,
        NextView::of_request(request, metadata).run(events.drop_last()).action() is CheckClean,
{
    let start = NextView::of_request(request, metadata);
    every_state_is_sound(request, metadata, events);
    assert(events.len() > 0);
    every_state_is_sound(request, metadata, events.drop_last());
    dirty_changes_are_refused_or_stashed(start.run(events.drop_last()), events.last());
}

/// A run begins with the project, and goes on as its request says: to the
/// directory of its manifest if git tags tell what has been released, and
/// otherwise to the registry, which is asked for the packages of the project
/// that can be published, in the registry and by the manifest of the request.
pub proof fn request_decides_where_releases_come_from(
    request: UpdateRequest,
    metadata: Metadata,
    project: Vec<Package>,
)
    ensures
        ({
            let start = NextView::of_request(request, metadata);
            let loaded = start.next(NextEvent::Loaded(project));
            &&& start.action() is LoadProject
            &&& start.released == Map::<Seq<char>, ReleasePackage<Seq<char>>>::empty()
            &&& start.accepts(NextEvent::Loaded(project)) && start.accepts(NextEvent::Failed)
            &&& !start.accepts(NextEvent::Done)
            &&& start.next(NextEvent::Failed).phase == (NextPhase::<
                Seq<char>,
                Seq<Seq<char>>,
            >::Failed { context: None })
            &&& !request.git_only ==> loaded.action() == NextAction::ReadRegistry(
                RegistryQuery {
                    manifest: match request.registry_manifest {
                        Some(manifest) => Some(manifest@),
                        None => None,
                    },
                    packages: publishable_names_of(project@),
                    registry: match request.registry {
                        Some(registry) => Some(registry@),
                        None => None,
                    },
                },
            )
            &&& request.git_only ==> match path_parent(request.local_manifest@) {
                Some(directory) => loaded.action() == NextAction::<
                    Seq<char>,
                    Seq<Seq<char>>,
                >::OpenRepository(directory),
                None => loaded.phase == (NextPhase::<Seq<char>, Seq<Seq<char>>>::Failed {
                    context: Some(Context::GetLocalManifestDir),
                }),
            }
        }),
{
}

/// The repository that worktrees are made from is the one at the manifest of
/// the request. Once it is open, the first member of the workspace is looked up,
/// and without a member the comparison begins; without a pattern in the request
/// there is no next step.
pub proof fn first_member_is_looked_up_first(
    request: UpdateRequest,
    metadata: Metadata,
    events: Seq<NextEvent>,
)
    requires
        NextView::of_request(request, metadata).accepts_all(events),
        NextView::of_request(request, metadata).run(events).action() is OpenRepository,
    ensures
        ({
            let run = NextView::of_request(request, metadata).run(events);
            let next = run.next(NextEvent::Done);
            let members = metadata.members();
            &&& request.git_only
            &&& path_parent(request.local_manifest@) == Some(run.action()->OpenRepository_0)
            &&& run.accepts(NextEvent::Failed)
            &&& run.accepts(NextEvent::Done) <==> request.git_only_release_regex is Some
            &&& run.next(NextEvent::Failed).phase == (NextPhase::<
                Seq<char>,
                Seq<Seq<char>>,
            >::Failed { context: Some(Context::CreateUnreleasedRepo) })
            &&& members.len() > 0 ==> next.next_package == 0 && next.action()
                == NextAction::<Seq<char>, Seq<Seq<char>>>::LookUp(
                LookupAction::CreateWorktree(members[0].name@),
            )
            &&& members.len() == 0 ==> match path_parent(request.local_manifest@) {
                Some(directory) => next.action() == NextAction::<
                    Seq<char>,
                    Seq<Seq<char>>,
                >::OpenWorktree(directory),
                None => next.phase == (NextPhase::<Seq<char>, Seq<Seq<char>>>::Failed {
                    context: Some(Context::GetLocalManifestParent),
                }),
            }
        }),
{
    every_state_is_sound(request, metadata, events);
}

/// The members of the workspace are looked up one after the other, in their
/// order, by the pattern of the request. A lookup is told what came of its
/// actions; what it fails with, the run fails with; and the package and commit
/// that it gives are recorded under the name of the package, before the next
/// member has its turn or, after the last, the comparison begins.
pub proof fn members_are_looked_up_in_their_order(
    request: UpdateRequest,
    metadata: Metadata,
    events: Seq<NextEvent>,
    event: LookupEvent,
)
    requires
        NextView::of_request(request, metadata).accepts_all(events),
        NextView::of_request(request, metadata).run(events).phase is LookUp,
        NextView::of_request(request, metadata).run(events).phase->LookUp_lookup.accepts(event),
    ensures
        ({
            let run = NextView::of_request(request, metadata).run(events);
            let lookup = run.phase->LookUp_lookup;
            let told = lookup.next(event);
            let next = run.next(NextEvent::LookUp(event));
            let members = metadata.members();
            let k = run.next_package;
            &&& 0 <= k < members.len()
            &&& lookup.flow is Release
            &&& lookup.package == members[k].name@
            &&& request.git_only_release_regex is Some
            &&& run.pattern == Some(request.git_only_release_regex->Some_0.pattern())
            &&& run.action() == NextAction::<Seq<char>, Seq<Seq<char>>>::LookUp(lookup.action())
            &&& run.accepts(NextEvent::LookUp(event))
            &&& told.phase matches LookupPhase::Failed { context } ==> next.phase == (NextPhase::<
                Seq<char>,
                Seq<Seq<char>>,
            >::Failed { context: Some(context) }) && next.released == run.released
            &&& told.phase matches LookupPhase::Released { package, commit } ==> {
                &&& next.released == run.released.insert(
                    package.name@,
                    ReleasePackage { package, commit: Some(commit) },
                )
                &&& k + 1 < members.len() ==> next.next_package == k + 1 && next.action()
                    == NextAction::<Seq<char>, Seq<Seq<char>>>::LookUp(
                    LookupAction::CreateWorktree(members[k + 1].name@),
                )
                &&& k + 1 == members.len() ==> match path_parent(request.local_manifest@) {
                Some(directory) => next.action() == NextAction::<
                    Seq<char>,
                    Seq<Seq<char>>,
                >::OpenWorktree(directory),
                None => next.phase == (NextPhase::<Seq<char>, Seq<Seq<char>>>::Failed {
                    context: Some(Context::GetLocalManifestParent),
                }),
            }
            }
            &&& !told.is_over() ==> next.action() == NextAction::<
                Seq<char>,
                Seq<Seq<char>>,
            >::LookUp(told.action()) && next.released == run.released && next.next_package == k
        }),
{
    every_state_is_sound(request, metadata, events);
    let run = NextView::of_request(request, metadata).run(events);
    lookup_fits_its_flow(run.phase->LookUp_lookup, event);
}

/// What a registry tells is what the workspace is compared to.
pub proof fn registry_is_asked_once(
    request: UpdateRequest,
    metadata: Metadata,
    events: Seq<NextEvent>,
    released: PackagesCollection,
)
    requires
        NextView::of_request(request, metadata).accepts_all(events),
        NextView::of_request(request, metadata).run(events).action() is ReadRegistry,
    ensures
        ({
            let run = NextView::of_request(request, metadata).run(events);
            let next = run.next(NextEvent::Released(released));
            &&& !request.git_only
            &&& run.accepts(NextEvent::Released(released)) && run.accepts(NextEvent::Failed)
            &&& !run.accepts(NextEvent::Done)
            &&& next.released == released@
            &&& match path_parent(request.local_manifest@) {
                Some(directory) => next.action() == NextAction::<
                    Seq<char>,
                    Seq<Seq<char>>,
                >::OpenWorktree(directory),
                None => next.phase == (NextPhase::<Seq<char>, Seq<Seq<char>>>::Failed {
                    context: Some(Context::GetLocalManifestParent),
                }),
            }
            &&& run.next(NextEvent::Failed).phase == (NextPhase::<
                Seq<char>,
                Seq<Seq<char>>,
            >::Failed { context: None })
        }),
{
    every_state_is_sound(request, metadata, events);
}

/// The comparison goes step by step: the repository at the manifest of the
/// request is opened, it is checked, what is stashed is stashed, and the packages
/// that need an update are found; then the run is finished. What is said of a
/// step that fails is said here too. None of it changes the released packages.
pub proof fn comparison_goes_step_by_step(
    request: UpdateRequest,
    metadata: Metadata,
    events: Seq<NextEvent>,
)
    requires
        NextView::of_request(request, metadata).accepts_all(events),
    ensures
        ({
            let run = NextView::of_request(request, metadata).run(events);
            let done = run.next(NextEvent::Done);
            let failed = run.next(NextEvent::Failed);
            let nothing_said = NextPhase::<Seq<char>, Seq<Seq<char>>>::Failed { context: None };
            &&& run.action() matches NextAction::OpenWorktree(directory) ==> {
                &&& path_parent(request.local_manifest@) == Some(directory)
                &&& run.accepts(NextEvent::Done) && run.accepts(NextEvent::Failed)
                &&& done.action() is CheckClean
                &&& failed.phase == (NextPhase::<Seq<char>, Seq<Seq<char>>>::Failed {
                    context: Some(Context::CreateUnreleasedWorktree),
                })
                &&& done.released == run.released
            }
            &&& run.action() is Stash ==> {
                &&& run.accepts(NextEvent::Done) && run.accepts(NextEvent::Failed)
                &&& done.action() is UpdatePackages
                &&& failed.phase == nothing_said
                &&& done.released == run.released
            }
            &&& run.action() is UpdatePackages ==> {
                &&& run.accepts(NextEvent::Done) && run.accepts(NextEvent::Failed)
                &&& done.phase is Finished && done.action() is Stop
                &&& failed.phase == nothing_said
                &&& done.released == run.released
            }
            &&& run.action() is CheckClean ==> done.released == run.released && failed.released
                == run.released
        }),
{
    every_state_is_sound(request, metadata, events);
}

/// A run that has nothing more to do takes no more answers, and what does not
/// answer its action is not taken.
pub proof fn run_takes_the_answer_to_its_action(
    request: UpdateRequest,
    metadata: Metadata,
    events: Seq<NextEvent>,
    event: NextEvent,
)
    requires
        NextView::of_request(request, metadata).accepts_all(events),
    ensures
        ({
            let run = NextView::of_request(request, metadata).run(events);
            &&& run.action() is Stop <==> run.phase is Finished || run.phase is Failed
            &&& run.action() is Stop ==> !run.accepts(event)
            &&& event is Loaded && run.accepts(event) ==> run.action() is LoadProject
            &&& event is Released && run.accepts(event) ==> run.action() is ReadRegistry
            &&& event is LookUp && run.accepts(event) ==> run.action() is LookUp
            &&& event is Done && run.accepts(event) ==> !(run.action() is LoadProject) && !(
            run.action() is ReadRegistry) && !(run.action() is LookUp)
            &&& run.action() is LookUp ==> !run.accepts(NextEvent::Failed)
        }),
{
    every_state_is_sound(request, metadata, events);
}

/// An action is seen with the texts that it has.
pub proof fn action_is_seen_as_it_is(
    text: String,
    action: LookupAction<String>,
    query: RegistryQuery<String, Vec<String>>,
)
    ensures
        NextAction::<String, Vec<String>>::OpenRepository(text)@ == NextAction::<
            Seq<char>,
            Seq<Seq<char>>,
        >::OpenRepository(text@),
        NextAction::<String, Vec<String>>::OpenWorktree(text)@ == NextAction::<
            Seq<char>,
            Seq<Seq<char>>,
        >::OpenWorktree(text@),
        NextAction::<String, Vec<String>>::LookUp(action)@ == NextAction::<
            Seq<char>,
            Seq<Seq<char>>,
        >::LookUp(action@),
        NextAction::ReadRegistry(query)@ == NextAction::ReadRegistry(query@),
        NextAction::<String, Vec<String>>::LoadProject@ is LoadProject,
        NextAction::<String, Vec<String>>::CheckClean@ is CheckClean,
        NextAction::<String, Vec<String>>::Stash@ is Stash,
        NextAction::<String, Vec<String>>::UpdatePackages@ is UpdatePackages,
        NextAction::<String, Vec<String>>::Stop@ is Stop,
{
}

/// What a registry is asked for is seen with the texts that it has, in their order.
pub proof fn query_is_seen_as_it_is(query: RegistryQuery<String, Vec<String>>, i: int)
    requires
        0 <= i < query.packages@.len(),
    ensures
        query@.packages.len() == query.packages@.len(),
        query@.packages[i] == query.packages@[i]@,
        query@.manifest is Some <==> query.manifest is Some,
        query.manifest matches Some(manifest) ==> query@.manifest == Some(manifest@),
        query@.registry is Some <==> query.registry is Some,
        query.registry matches Some(registry) ==> query@.registry == Some(registry@),
{
}

} // verus!

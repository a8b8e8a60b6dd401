//! Looking up the last release of one package: the release tag is found, its
//! commit is checked out in a worktree, and the package is built there the way
//! a registry would hold it.
//!
//! A lookup is a state. [`Lookup::action`] says what has to be done in it, and
//! [`Lookup::step`] takes what came of that and gives the state after it.
use crate::context::Context;
use crate::hash::MD5Hash;
use crate::package::find_package;
use crate::package::first_named;
use crate::package::first_named_is_the_first_with_the_whole_name;
use crate::package::first_named_is_unique;
use crate::package::has_named;
use crate::package::is_first_named;
use crate::package::missing_name_is_not_found;
use crate::package::workspace_packages;
use crate::package::Metadata;
use crate::package::Package;
use crate::release_tag::find_release_tag;
use crate::release_tag::is_release_tag;
use crate::release_tag::regex_is_match;
use crate::release_tag::release_lacks_version;
use crate::release_tag::NoVersion;
use crate::release_tag::ReleaseRegex;
use crate::text::path_text;
use crate::text::text_of_path;
use crate::version::bears_version;
use crate::version::tag_version;
use vstd::prelude::*;

verus! {

/// A package as far as its form on disk is concerned. The hash tells when its
/// contents change, and is all that two packages are compared by.
#[derive(Debug)]
pub struct PackageState {
    /// What cargo tells of the packaged crate.
    pub metadata: Metadata,
    /// The hash of the packaged crate.
    pub md5_hash: MD5Hash,
}

/// What the lookup is for.
#[derive(Debug, Clone, Copy, PartialEq, Eq, Structural)]
pub enum Flow {
    /// The state of a package in a worktree that is already there.
    Visit,
    /// The package to which the next version is compared, in a worktree of its own.
    Release,
}

/// How far a lookup has come. `S` is the type of its texts.
#[derive(Debug)]
pub enum LookupPhase<S> {
    /// A worktree for the package has to be made.
    CreateWorktree,
    /// The repository in the worktree has to be opened.
    OpenRepo { worktree: S },
    /// The tags of the repository have to be listed.
    ListTags { worktree: S },
    /// The commit of the release tag has to be found.
    ResolveCommit { worktree: S, tag: S },
    /// The commit has to be checked out.
    Checkout { worktree: S, commit: S },
    /// Packaging has to be started in the worktree.
    SpawnPackage { worktree: S, commit: S },
    /// Packaging has to come to its end.
    WaitPackage { worktree: S, commit: S },
    /// The metadata of the worktree has to be read.
    ReadWorkspace { worktree: S, commit: S },
    /// The packaged crate has to be hashed.
    HashPackage { directory: S },
    /// The metadata of the packaged crate has to be read, for its state.
    ReadVisited { directory: S, md5_hash: MD5Hash },
    /// The metadata of the packaged crate has to be read, for the package.
    ReadReleased { directory: S, commit: S },
    /// The state of the package is known.
    Visited { state: PackageState },
    /// The package is known, and the commit of its release.
    Released { package: Package, commit: S },
    /// A step failed.
    Failed { context: Context },
}

/// A lookup. `S` is the type of its texts.
#[derive(Debug)]
pub struct Lookup<S> {
    /// What the lookup is for.
    pub flow: Flow,
    /// The name of the package.
    pub package: S,
    /// How far the lookup has come.
    pub phase: LookupPhase<S>,
}

/// What has to be done. `S` is the type of its texts.
#[derive(Debug, PartialEq, Eq)]
pub enum LookupAction<S> {
    /// Make a worktree with this name, at the path that is made from the same name.
    CreateWorktree(S),
    /// Open the repository in the worktree.
    OpenRepo,
    /// List the tags of the repository.
    ListTags,
    /// Find the commit that this tag marks.
    ResolveCommit(S),
    /// Check out this commit.
    Checkout(S),
    /// Start `cargo package` in the worktree.
    SpawnPackage,
    /// Wait for `cargo package`. How it ends does not matter.
    WaitPackage,
    /// Read what cargo tells of the manifest at this path.
    ReadMetadata(S),
    /// Hash the directory at this path.
    HashDir(S),
    /// Nothing: the lookup is over.
    Stop,
}

/// What came of an action.
#[derive(Debug)]
pub enum LookupEvent {
    /// It failed.
    Failed,
    /// It was done, and there is nothing more to tell.
    Done,
    /// The worktree is at this path, which is `None` if it is not UTF-8.
    Worktree(Option<String>),
    /// The release tag, if one of the tags is one.
    Release(Option<String>),
    /// A tag marks a release, but bears no version.
    Unversioned,
    /// The commit that the tag marks.
    Commit(String),
    /// What cargo tells.
    Metadata(Metadata),
    /// The hash of the directory.
    Hash(MD5Hash),
}

impl View for LookupPhase<String> {
    type V = LookupPhase<Seq<char>>;

    open spec fn view(&self) -> LookupPhase<Seq<char>> {
        match *self {
            LookupPhase::CreateWorktree => LookupPhase::CreateWorktree,
            LookupPhase::OpenRepo { worktree } => LookupPhase::OpenRepo { worktree: worktree@ },
            LookupPhase::ListTags { worktree } => LookupPhase::ListTags { worktree: worktree@ },
            LookupPhase::ResolveCommit { worktree, tag } => LookupPhase::ResolveCommit {
                worktree: worktree@,
                tag: tag@,
            },
            LookupPhase::Checkout { worktree, commit } => LookupPhase::Checkout {
                worktree: worktree@,
                commit: commit@,
            },
            LookupPhase::SpawnPackage { worktree, commit } => LookupPhase::SpawnPackage {
                worktree: worktree@,
                commit: commit@,
            },
            LookupPhase::WaitPackage { worktree, commit } => LookupPhase::WaitPackage {
                worktree: worktree@,
                commit: commit@,
            },
            LookupPhase::ReadWorkspace { worktree, commit } => LookupPhase::ReadWorkspace {
                worktree: worktree@,
                commit: commit@,
            },
            LookupPhase::HashPackage { directory } => LookupPhase::HashPackage {
                directory: directory@,
            },
            LookupPhase::ReadVisited { directory, md5_hash } => LookupPhase::ReadVisited {
                directory: directory@,
                md5_hash,
            },
            LookupPhase::ReadReleased { directory, commit } => LookupPhase::ReadReleased {
                directory: directory@,
                commit: commit@,
            },
            LookupPhase::Visited { state } => LookupPhase::Visited { state },
            LookupPhase::Released { package, commit } => LookupPhase::Released {
                package,
                commit: commit@,
            },
            LookupPhase::Failed { context } => LookupPhase::Failed { context },
        }
    }
}

impl View for Lookup<String> {
    type V = Lookup<Seq<char>>;

    open spec fn view(&self) -> Lookup<Seq<char>> {
        Lookup { flow: self.flow, package: self.package@, phase: self.phase@ }
    }
}

impl View for LookupAction<String> {
    type V = LookupAction<Seq<char>>;

    open spec fn view(&self) -> LookupAction<Seq<char>> {
        match *self {
            LookupAction::CreateWorktree(name) => LookupAction::CreateWorktree(name@),
            LookupAction::OpenRepo => LookupAction::OpenRepo,
            LookupAction::ListTags => LookupAction::ListTags,
            LookupAction::ResolveCommit(tag) => LookupAction::ResolveCommit(tag@),
            LookupAction::Checkout(commit) => LookupAction::Checkout(commit@),
            LookupAction::SpawnPackage => LookupAction::SpawnPackage,
            LookupAction::WaitPackage => LookupAction::WaitPackage,
            LookupAction::ReadMetadata(path) => LookupAction::ReadMetadata(path@),
            LookupAction::HashDir(path) => LookupAction::HashDir(path@),
            LookupAction::Stop => LookupAction::Stop,
        }
    }
}

/// The path of the manifest in a directory.
pub open spec fn manifest_in(directory: Seq<char>) -> Seq<char> {
    directory + "/Cargo.toml"@
}

/// Where `cargo package` leaves a package that it has built in a worktree.
pub open spec fn packaged_in(worktree: Seq<char>, package: Package) -> Seq<char> {
    worktree + "/target/package/"@ + package.name@ + "-"@ + package.version@
}

/// The lookup of the state of a package in a worktree, before its first action.
pub open spec fn new_visit(package: Seq<char>, worktree: Seq<char>) -> Lookup<Seq<char>> {
    Lookup { flow: Flow::Visit, package, phase: LookupPhase::OpenRepo { worktree } }
}

/// The lookup of a released package, before its first action.
pub open spec fn new_release(package: Seq<char>) -> Lookup<Seq<char>> {
    Lookup { flow: Flow::Release, package, phase: LookupPhase::CreateWorktree }
}

fn manifest_path(directory: &str) -> (path: String)
    ensures
        path@ == manifest_in(directory@),
{
    let mut path: String = directory.to_owned();
    path.append("/Cargo.toml");
    path
}

/// Where `cargo package` leaves a package that it has built in a worktree.
pub fn packaged_path(worktree: &str, package: &Package) -> (path: String)
    ensures
        path@ == packaged_in(worktree@, *package),
{
    let mut path: String = worktree.to_owned();
    path.append("/target/package/");
    path.append(package.name.as_str());
    path.append("-");
    path.append(package.version.as_str());
    path
}

impl Lookup<Seq<char>> {
    /// Whether the lookup has come to an end.
    pub open spec fn is_over(self) -> bool {
        self.phase is Visited || self.phase is Released || self.phase is Failed
    }

    /// What has to be done next.
    pub open spec fn action(self) -> LookupAction<Seq<char>> {
        match self.phase {
            LookupPhase::CreateWorktree => LookupAction::CreateWorktree(self.package),
            LookupPhase::OpenRepo { .. } => LookupAction::OpenRepo,
            LookupPhase::ListTags { .. } => LookupAction::ListTags,
            LookupPhase::ResolveCommit { tag, .. } => LookupAction::ResolveCommit(tag),
            LookupPhase::Checkout { commit, .. } => LookupAction::Checkout(commit),
            LookupPhase::SpawnPackage { .. } => LookupAction::SpawnPackage,
            LookupPhase::WaitPackage { .. } => LookupAction::WaitPackage,
            LookupPhase::ReadWorkspace { worktree, .. } => LookupAction::ReadMetadata(
                manifest_in(worktree),
            ),
            LookupPhase::HashPackage { directory } => LookupAction::HashDir(directory),
            LookupPhase::ReadVisited { directory, .. } => LookupAction::ReadMetadata(
                manifest_in(directory),
            ),
            LookupPhase::ReadReleased { directory, .. } => LookupAction::ReadMetadata(
                manifest_in(directory),
            ),
            _ => LookupAction::Stop,
        }
    }

    /// Whether the event answers the action, in a way for which there is a next step.
    ///
    /// There is none where no tag marks a release, nor where the packages in the
    /// worktree do not include the one that is looked for.
    pub open spec fn accepts(self, event: LookupEvent) -> bool {
        match (self.phase, event) {
            (_, LookupEvent::Failed) => !self.is_over(),
            (LookupPhase::CreateWorktree, LookupEvent::Worktree(_)) => true,
            (LookupPhase::OpenRepo { .. }, LookupEvent::Done) => true,
            (LookupPhase::ListTags { .. }, LookupEvent::Release(tag)) => tag is Some,
            (LookupPhase::ListTags { .. }, LookupEvent::Unversioned) => true,
            (LookupPhase::ResolveCommit { .. }, LookupEvent::Commit(_)) => true,
            (LookupPhase::Checkout { .. }, LookupEvent::Done) => true,
            (LookupPhase::SpawnPackage { .. }, LookupEvent::Done) => true,
            (LookupPhase::WaitPackage { .. }, LookupEvent::Done) => true,
            (LookupPhase::ReadWorkspace { .. }, LookupEvent::Metadata(metadata)) => has_named(
                metadata.packages@,
                self.package,
            ),
            (LookupPhase::HashPackage { .. }, LookupEvent::Hash(_)) => true,
            (LookupPhase::ReadVisited { .. }, LookupEvent::Metadata(_)) => true,
            (LookupPhase::ReadReleased { .. }, LookupEvent::Metadata(_)) => true,
            _ => false,
        }
    }

    /// What is said of a failure of the action.
    pub open spec fn failure(self) -> Context {
        let visit = self.flow is Visit;
        match self.phase {
            LookupPhase::CreateWorktree => Context::BuildPackageWorktree,
            LookupPhase::OpenRepo { .. } => if visit {
                Context::OpenWorktree
            } else {
                Context::OpenPackageRepo
            },
            LookupPhase::ListTags { .. } => if visit {
                Context::GetTags
            } else {
                Context::GetPackageTags
            },
            LookupPhase::ResolveCommit { .. } => if visit {
                Context::GetReleaseCommit
            } else {
                Context::GetReleaseTagCommit
            },
            LookupPhase::Checkout { .. } => if visit {
                Context::CheckoutRelease
            } else {
                Context::CheckoutPackageRelease
            },
            LookupPhase::SpawnPackage { .. } => Context::RunCargoPackage,
            LookupPhase::WaitPackage { .. } => Context::WaitForCargoPackage,
            LookupPhase::HashPackage { .. } => Context::HashPackage,
            _ => Context::GetCargoMetadata,
        }
    }

    /// The phase after an event other than a failure. A release tag without a
    /// version is an error before its commit is looked for.
    pub open spec fn advanced(self, event: LookupEvent) -> LookupPhase<Seq<char>> {
        match self.phase {
            LookupPhase::CreateWorktree => LookupPhase::OpenRepo {
                worktree: path_text(event->Worktree_0),
            },
            LookupPhase::OpenRepo { worktree } => LookupPhase::ListTags { worktree },
            LookupPhase::ListTags { worktree } => if event is Release && bears_version(
                event->Release_0->Some_0@,
            ) {
                LookupPhase::ResolveCommit { worktree, tag: event->Release_0->Some_0@ }
            } else {
                LookupPhase::Failed { context: Context::ReleaseWithoutVersion }
            },
            LookupPhase::ResolveCommit { worktree, .. } => LookupPhase::Checkout {
                worktree,
                commit: event->Commit_0@,
            },
            LookupPhase::Checkout { worktree, commit } => LookupPhase::SpawnPackage {
                worktree,
                commit,
            },
            LookupPhase::SpawnPackage { worktree, commit } => LookupPhase::WaitPackage {
                worktree,
                commit,
            },
            LookupPhase::WaitPackage { worktree, commit } => LookupPhase::ReadWorkspace {
                worktree,
                commit,
            },
            LookupPhase::ReadWorkspace { worktree, commit } => {
                let directory = packaged_in(
                    worktree,
                    first_named(event->Metadata_0.packages@, self.package),
                );
                if self.flow is Visit {
                    LookupPhase::HashPackage { directory }
                } else {
                    LookupPhase::ReadReleased { directory, commit }
                }
            },
            LookupPhase::HashPackage { directory } => LookupPhase::ReadVisited {
                directory,
                md5_hash: event->Hash_0,
            },
            LookupPhase::ReadVisited { md5_hash, .. } => LookupPhase::Visited {
                state: PackageState { metadata: event->Metadata_0, md5_hash },
            },
            LookupPhase::ReadReleased { commit, .. } => {
                let members = event->Metadata_0.members();
                if has_named(members, self.package) {
                    LookupPhase::Released { package: first_named(members, self.package), commit }
                } else {
                    LookupPhase::Failed { context: Context::FindPackage }
                }
            },
            over => over,
        }
    }

    /// The lookup after an event.
    pub open spec fn next(self, event: LookupEvent) -> Lookup<Seq<char>> {
        let phase = if event is Failed {
            LookupPhase::Failed { context: self.failure() }
        } else {
            self.advanced(event)
        };
        Lookup { phase, ..self }
    }
}

impl Lookup<String> {
    /// Looks up the state of a package in the worktree at `worktree`, which is
    /// `None` if the path is not UTF-8.
    pub fn visit(package: String, worktree: Option<String>) -> (lookup: Lookup<String>)
        ensures
            lookup@ == new_visit(package@, path_text(worktree)),
    {
        Lookup {
            flow: Flow::Visit,
            package,
            phase: LookupPhase::OpenRepo { worktree: text_of_path(worktree) },
        }
    }

    /// Looks up the released package called `package`.
    pub fn release(package: String) -> (lookup: Lookup<String>)
        ensures
            lookup@ == new_release(package@),
    {
        Lookup { flow: Flow::Release, package, phase: LookupPhase::CreateWorktree }
    }

    /// What has to be done next.
    pub fn action(&self) -> (action: LookupAction<String>)
        ensures
            action@ == self@.action(),
    {
        match &self.phase {
            LookupPhase::CreateWorktree => LookupAction::CreateWorktree(self.package.clone()),
            LookupPhase::OpenRepo { .. } => LookupAction::OpenRepo,
            LookupPhase::ListTags { .. } => LookupAction::ListTags,
            LookupPhase::ResolveCommit { tag, .. } => LookupAction::ResolveCommit(tag.clone()),
            LookupPhase::Checkout { commit, .. } => LookupAction::Checkout(commit.clone()),
            LookupPhase::SpawnPackage { .. } => LookupAction::SpawnPackage,
            LookupPhase::WaitPackage { .. } => LookupAction::WaitPackage,
            LookupPhase::ReadWorkspace { worktree, .. } => LookupAction::ReadMetadata(
                manifest_path(worktree.as_str()),
            ),
            LookupPhase::HashPackage { directory } => LookupAction::HashDir(directory.clone()),
            LookupPhase::ReadVisited { directory, .. } => LookupAction::ReadMetadata(
                manifest_path(directory.as_str()),
            ),
            LookupPhase::ReadReleased { directory, .. } => LookupAction::ReadMetadata(
                manifest_path(directory.as_str()),
            ),
            _ => LookupAction::Stop,
        }
    }

    /// Whether the event answers the action, in a way for which there is a next step.
    pub fn accepts(&self, event: &LookupEvent) -> (accepted: bool)
        ensures
            accepted == self@.accepts(*event),
    {
        match (&self.phase, event) {
            (LookupPhase::Visited { .. }, _) => false,
            (LookupPhase::Released { .. }, _) => false,
            (LookupPhase::Failed { .. }, _) => false,
            (_, LookupEvent::Failed) => true,
            (LookupPhase::CreateWorktree, LookupEvent::Worktree(_)) => true,
            (LookupPhase::OpenRepo { .. }, LookupEvent::Done) => true,
            (LookupPhase::ListTags { .. }, LookupEvent::Release(tag)) => tag.is_some(),
            (LookupPhase::ListTags { .. }, LookupEvent::Unversioned) => true,
            (LookupPhase::ResolveCommit { .. }, LookupEvent::Commit(_)) => true,
            (LookupPhase::Checkout { .. }, LookupEvent::Done) => true,
            (LookupPhase::SpawnPackage { .. }, LookupEvent::Done) => true,
            (LookupPhase::WaitPackage { .. }, LookupEvent::Done) => true,
            (LookupPhase::ReadWorkspace { .. }, LookupEvent::Metadata(metadata)) => find_package(
                &metadata.packages,
                self.package.as_str(),
            ).is_some(),
            (LookupPhase::HashPackage { .. }, LookupEvent::Hash(_)) => true,
            (LookupPhase::ReadVisited { .. }, LookupEvent::Metadata(_)) => true,
            (LookupPhase::ReadReleased { .. }, LookupEvent::Metadata(_)) => true,
            _ => false,
        }
    }

    fn failure(&self) -> (context: Context)
        ensures
            context == self@.failure(),
    {
        let visit: bool = match self.flow {
            Flow::Visit => true,
            Flow::Release => false,
        };
        match &self.phase {
            LookupPhase::CreateWorktree => Context::BuildPackageWorktree,
            LookupPhase::OpenRepo { .. } => if visit {
                Context::OpenWorktree
            } else {
                Context::OpenPackageRepo
            },
            LookupPhase::ListTags { .. } => if visit {
                Context::GetTags
            } else {
                Context::GetPackageTags
            },
            LookupPhase::ResolveCommit { .. } => if visit {
                Context::GetReleaseCommit
            } else {
                Context::GetReleaseTagCommit
            },
            LookupPhase::Checkout { .. } => if visit {
                Context::CheckoutRelease
            } else {
                Context::CheckoutPackageRelease
            },
            LookupPhase::SpawnPackage { .. } => Context::RunCargoPackage,
            LookupPhase::WaitPackage { .. } => Context::WaitForCargoPackage,
            LookupPhase::HashPackage { .. } => Context::HashPackage,
            _ => Context::GetCargoMetadata,
        }
    }

    /// The lookup after an event.
    pub fn step(self, event: LookupEvent) -> (next: Lookup<String>)
        requires
            self@.accepts(event),
        ensures
            next@ == self@.next(event),
    {
        if let LookupEvent::Failed = event {
            let context: Context = self.failure();
            return Lookup {
                flow: self.flow,
                package: self.package,
                phase: LookupPhase::Failed { context },
            };
        }
        let Lookup { flow, package, phase } = self;
        let phase: LookupPhase<String> = match (phase, event) {
            (LookupPhase::CreateWorktree, LookupEvent::Worktree(path)) => LookupPhase::OpenRepo {
                worktree: text_of_path(path),
            },
            (LookupPhase::OpenRepo { worktree }, _) => LookupPhase::ListTags { worktree },
            (
                LookupPhase::ListTags { worktree },
                LookupEvent::Release(Some(tag)),
            ) => match tag_version(tag.as_str()) {
                Some(_) => LookupPhase::ResolveCommit { worktree, tag },
                None => LookupPhase::Failed { context: Context::ReleaseWithoutVersion },
            },
            (LookupPhase::ListTags { .. }, _) => LookupPhase::Failed {
                context: Context::ReleaseWithoutVersion,
            },
            (
                LookupPhase::ResolveCommit { worktree, .. },
                LookupEvent::Commit(commit),
            ) => LookupPhase::Checkout { worktree, commit },
            (LookupPhase::Checkout { worktree, commit }, _) => LookupPhase::SpawnPackage {
                worktree,
                commit,
            },
            (LookupPhase::SpawnPackage { worktree, commit }, _) => LookupPhase::WaitPackage {
                worktree,
                commit,
            },
            (LookupPhase::WaitPackage { worktree, commit }, _) => LookupPhase::ReadWorkspace {
                worktree,
                commit,
            },
            (
                LookupPhase::ReadWorkspace { worktree, commit },
                LookupEvent::Metadata(metadata),
            ) => match find_package(&metadata.packages, package.as_str()) {
                Some(place) => {
                    let directory: String = packaged_path(
                        worktree.as_str(),
                        &metadata.packages[place],
                    );
                    match flow {
                        Flow::Visit => LookupPhase::HashPackage { directory },
                        Flow::Release => LookupPhase::ReadReleased { directory, commit },
                    }
                },
                None => LookupPhase::ReadWorkspace { worktree, commit },
            },
            (
                LookupPhase::HashPackage { directory },
                LookupEvent::Hash(md5_hash),
            ) => LookupPhase::ReadVisited { directory, md5_hash },
            (
                LookupPhase::ReadVisited { md5_hash, .. },
                LookupEvent::Metadata(metadata),
            ) => LookupPhase::Visited { state: PackageState { metadata, md5_hash } },
            (
                LookupPhase::ReadReleased { commit, .. },
                LookupEvent::Metadata(metadata),
            ) => {
                let mut members: Vec<Package> = workspace_packages(metadata);
                match find_package(&members, package.as_str()) {
                    Some(place) => LookupPhase::Released {
                        package: members.remove(place),
                        commit,
                    },
                    None => LookupPhase::Failed { context: Context::FindPackage },
                }
            },
            (phase, _) => phase,
        };
        Lookup { flow, package, phase }
    }

    /// The lookup after the tags have been listed: the release tag is the one
    /// with the greatest version of those that the pattern matches. That one of
    /// those bears no version is an error. `None` if the pattern matches no tag,
    /// in which case there is no next step.
    pub fn step_tags(self, regex: &ReleaseRegex, tags: &Vec<String>) -> (next: Option<
        Lookup<String>,
    >)
        requires
            self@.phase is ListTags,
        ensures
            next is None <==> forall|i: int|
                0 <= i < tags@.len() ==> !regex_is_match(regex.pattern(), #[trigger] tags@[i]@),
            next matches Some(next) ==> (next@.phase is Failed <==> release_lacks_version(
                regex.pattern(),
                tags@,
            )),
            next matches Some(next) ==> next@.phase is Failed ==> next@ == (Lookup {
                phase: LookupPhase::<Seq<char>>::Failed { context: Context::ReleaseWithoutVersion },
                ..self@
            }),
            next matches Some(next) ==> !(next@.phase is Failed) ==> exists|i: int| #[trigger]
                is_release_tag(regex.pattern(), tags@, i) && next@ == (Lookup {
                    phase: LookupPhase::ResolveCommit {
                        worktree: self@.phase->ListTags_worktree,
                        tag: tags@[i]@,
                    },
                    ..self@
                }),
    {
        match find_release_tag(regex, tags) {
            Ok(Some(tag)) => {
                let ghost i = choose|i: int| #[trigger]
                    is_release_tag(regex.pattern(), tags@, i) && tag@ == tags@[i]@;
                let next = self.step(LookupEvent::Release(Some(tag)));
                assert(is_release_tag(regex.pattern(), tags@, i));
                Some(next)
            },
            Ok(None) => None,
            Err(NoVersion {  }) => Some(self.step(LookupEvent::Unversioned)),
        }
    }
}

impl Lookup<Seq<char>> {
    /// A lookup that has not begun.
    pub open spec fn is_new(self) -> bool {
        match self.flow {
            Flow::Visit => self.phase is OpenRepo,
            Flow::Release => self.phase is CreateWorktree,
        }
    }

    /// The lookup is in a phase that what it is for can bring it to.
    pub open spec fn fits_flow(self) -> bool {
        match self.flow {
            Flow::Visit => !(self.phase is CreateWorktree || self.phase is ReadReleased
                || self.phase is Released),
            Flow::Release => !(self.phase is HashPackage || self.phase is ReadVisited
                || self.phase is Visited),
        }
    }

    /// The lookup after several events.
    pub open spec fn run(self, events: Seq<LookupEvent>) -> Lookup<Seq<char>>
        decreases events.len(),
    {
        if events.len() == 0 {
            self
        } else {
            self.run(events.drop_last()).next(events.last())
        }
    }

    /// Every one of several events answers the action of its time.
    pub open spec fn accepts_all(self, events: Seq<LookupEvent>) -> bool
        decreases events.len(),
    {
        events.len() > 0 ==> self.accepts_all(events.drop_last()) && self.run(
            events.drop_last(),
        ).accepts(events.last())
    }

    /// The most events that can still come.
    pub open spec fn remaining(self) -> nat {
        match self.phase {
            LookupPhase::CreateWorktree => 10,
            LookupPhase::OpenRepo { .. } => 9,
            LookupPhase::ListTags { .. } => 8,
            LookupPhase::ResolveCommit { .. } => 7,
            LookupPhase::Checkout { .. } => 6,
            LookupPhase::SpawnPackage { .. } => 5,
            LookupPhase::WaitPackage { .. } => 4,
            LookupPhase::ReadWorkspace { .. } => 3,
            LookupPhase::HashPackage { .. } => 2,
            LookupPhase::ReadVisited { .. } => 1,
            LookupPhase::ReadReleased { .. } => 1,
            _ => 0,
        }
    }

    /// The events have taken a lookup with this flow and this package to this
    /// state, where `worktree` is the worktree that a visit was given: each text
    /// in the state is the one that the event of its step has told, and every
    /// step before it was answered.
    pub open spec fn is_told_by(self, worktree: Seq<char>, events: Seq<LookupEvent>) -> bool {
        let first = if self.flow is Visit {
            0int
        } else {
            1
        };
        let n = events.len() - first;
        let place = if self.flow is Visit {
            worktree
        } else {
            path_text(events[0]->Worktree_0)
        };
        let opened = n > 0 && events[first] is Done;
        let tagged = n > 1 && opened && events[first + 1] is Release && events[first
            + 1]->Release_0 is Some && bears_version(events[first + 1]->Release_0->Some_0@);
        let resolved = n > 2 && tagged && events[first + 2] is Commit;
        let commit_told = events[first + 2]->Commit_0@;
        let checked_out = n > 3 && resolved && events[first + 3] is Done;
        let spawned = n > 4 && checked_out && events[first + 4] is Done;
        let packaged = n > 5 && spawned && events[first + 5] is Done;
        let known = n > 6 && packaged && events[first + 6] is Metadata && has_named(
            events[first + 6]->Metadata_0.packages@,
            self.package,
        );
        let directory_told = packaged_in(
            place,
            first_named(events[first + 6]->Metadata_0.packages@, self.package),
        );
        &&& first == 1 && n >= 0 ==> events[0] is Worktree || self.phase is Failed
        &&& match self.phase {
            LookupPhase::CreateWorktree => first == 1 && n == -1,
            LookupPhase::OpenRepo { worktree } => n == 0 && worktree == place,
            LookupPhase::ListTags { worktree } => n == 1 && opened && worktree == place,
            LookupPhase::ResolveCommit { worktree, tag } => n == 2 && tagged && worktree == place
                && tag == events[first + 1]->Release_0->Some_0@,
            LookupPhase::Checkout { worktree, commit } => n == 3 && resolved && worktree == place
                && commit == commit_told,
            LookupPhase::SpawnPackage { worktree, commit } => n == 4 && checked_out && worktree
                == place && commit == commit_told,
            LookupPhase::WaitPackage { worktree, commit } => n == 5 && spawned && worktree == place
                && commit == commit_told,
            LookupPhase::ReadWorkspace { worktree, commit } => n == 6 && packaged && worktree
                == place && commit == commit_told,
            LookupPhase::HashPackage { directory } => n == 7 && first == 0 && known && directory
                == directory_told,
            LookupPhase::ReadVisited { directory, md5_hash } => n == 8 && first == 0 && known
                && directory == directory_told && events[7] == LookupEvent::Hash(md5_hash),
            LookupPhase::Visited { state } => n == 9 && first == 0 && known && events[7]
                == LookupEvent::Hash(state.md5_hash) && events[8] == LookupEvent::Metadata(
                state.metadata,
            ),
            LookupPhase::ReadReleased { directory, commit } => n == 7 && first == 1 && known
                && directory == directory_told && commit == commit_told,
            LookupPhase::Released { package, commit } => n == 8 && first == 1 && known && commit
                == commit_told && events[8] is Metadata && has_named(
                events[8]->Metadata_0.members(),
                self.package,
            ) && package == first_named(events[8]->Metadata_0.members(), self.package),
            LookupPhase::Failed { context } => events.len() > 0 && (events.last() is Failed || (
            context == Context::ReleaseWithoutVersion && n == 2 && opened && !tagged) || (context
                == Context::FindPackage && n == 8 && first == 1 && known && events[8] is Metadata
                && !has_named(events[8]->Metadata_0.members(), self.package))),
        }
    }
}

/// Every event brings a lookup nearer to its end, and as long as it is not over
/// a failure of the action can be told.
pub proof fn lookup_ends(lookup: Lookup<Seq<char>>, event: LookupEvent)
    ensures
        lookup.accepts(event) ==> lookup.next(event).remaining() < lookup.remaining(),
        lookup.is_over() <==> lookup.remaining() == 0,
        lookup.is_over() <==> lookup.action() is Stop,
        lookup.accepts(LookupEvent::Failed) <==> !lookup.is_over(),
        !lookup.is_over() ==> lookup.next(LookupEvent::Failed).phase == (LookupPhase::<
            Seq<char>,
        >::Failed { context: lookup.failure() }),
{
}

/// A visit ends with the state of a package and never with a released package;
/// the lookup of a released package ends the other way. Only a failure ends both.
pub proof fn lookup_fits_its_flow(lookup: Lookup<Seq<char>>, event: LookupEvent)
    ensures
        lookup.is_new() ==> lookup.fits_flow(),
        lookup.fits_flow() && lookup.accepts(event) ==> lookup.next(event).fits_flow()
            && lookup.next(event).flow == lookup.flow,
{
}

/// What a lookup knows in any state is what the events have told, and no step
/// was left out: a commit is looked for only of a tag that bears a version, and a
/// package is hashed or compared only after its release commit has been checked
/// out and packaging has ended, and it is the one that packaging has left in the
/// worktree.
pub proof fn lookup_is_told_by_events(start: Lookup<Seq<char>>, events: Seq<LookupEvent>)
    requires
        start.is_new(),
        start.accepts_all(events),
    ensures
        start.run(events).flow == start.flow,
        start.run(events).package == start.package,
        start.run(events).is_told_by(start.phase->OpenRepo_worktree, events),
    decreases events.len(),
{
    if events.len() > 0 {
        let before = events.drop_last();
        lookup_is_told_by_events(start, before);
        let state = start.run(before);
        assert(forall|i: int| 0 <= i < before.len() ==> before[i] == events[i]);
        assert(state.accepts(events.last()));
    }
}

proof fn one_more_event(start: Lookup<Seq<char>>, events: Seq<LookupEvent>, n: int)
    requires
        0 <= n < events.len(),
    ensures
        start.run(events.take(n + 1)) == start.run(events.take(n)).next(events[n]),
        start.accepts_all(events.take(n + 1)) <==> start.accepts_all(events.take(n)) && start.run(
            events.take(n),
        ).accepts(events[n]),
{
    assert(events.take(n + 1).drop_last() =~= events.take(n));
}

/// The events of a visit in which every step is done.
pub open spec fn visit_events(
    tag: String,
    commit: String,
    workspace: Metadata,
    md5_hash: MD5Hash,
    metadata: Metadata,
) -> Seq<LookupEvent> {
    seq![
        LookupEvent::Done,
        LookupEvent::Release(Some(tag)),
        LookupEvent::Commit(commit),
        LookupEvent::Done,
        LookupEvent::Done,
        LookupEvent::Done,
        LookupEvent::Metadata(workspace),
        LookupEvent::Hash(md5_hash),
        LookupEvent::Metadata(metadata),
    ]
}

/// A visit in which every step is done ends with the hash and the metadata
/// that were told for the packaged crate.
pub proof fn visit_succeeds(
    start: Lookup<Seq<char>>,
    tag: String,
    commit: String,
    workspace: Metadata,
    md5_hash: MD5Hash,
    metadata: Metadata,
)
    requires
        start.is_new(),
        start.flow is Visit,
        bears_version(tag@),
        has_named(workspace.packages@, start.package),
    ensures
        ({
            let events = visit_events(tag, commit, workspace, md5_hash, metadata);
            &&& start.accepts_all(events)
            &&& start.run(events).phase == (LookupPhase::<Seq<char>>::Visited {
                state: PackageState { metadata, md5_hash },
            })
        }),
{
    let events = visit_events(tag, commit, workspace, md5_hash, metadata);
    one_more_event(start, events, 0);
    one_more_event(start, events, 1);
    one_more_event(start, events, 2);
    one_more_event(start, events, 3);
    one_more_event(start, events, 4);
    one_more_event(start, events, 5);
    one_more_event(start, events, 6);
    one_more_event(start, events, 7);
    one_more_event(start, events, 8);
    assert(events.take(9) =~= events);
}

/// The events of the lookup of a released package in which every step is done.
pub open spec fn release_events(
    worktree: Option<String>,
    tag: String,
    commit: String,
    workspace: Metadata,
    metadata: Metadata,
) -> Seq<LookupEvent> {
    seq![
        LookupEvent::Worktree(worktree),
        LookupEvent::Done,
        LookupEvent::Release(Some(tag)),
        LookupEvent::Commit(commit),
        LookupEvent::Done,
        LookupEvent::Done,
        LookupEvent::Done,
        LookupEvent::Metadata(workspace),
        LookupEvent::Metadata(metadata),
    ]
}

/// The lookup of a released package in which every step is done ends with the
/// package that the metadata of the packaged crate has, and the commit that was
/// told for the release tag; or, if the metadata does not have it, with that
/// being said.
pub proof fn release_succeeds(
    start: Lookup<Seq<char>>,
    worktree: Option<String>,
    tag: String,
    commit: String,
    workspace: Metadata,
    metadata: Metadata,
)
    requires
        start.is_new(),
        start.flow is Release,
        bears_version(tag@),
        has_named(workspace.packages@, start.package),
    ensures
        ({
            let events = release_events(worktree, tag, commit, workspace, metadata);
            &&& start.accepts_all(events)
            &&& start.run(events).phase == if has_named(metadata.members(), start.package) {
                LookupPhase::Released {
                    package: first_named(metadata.members(), start.package),
                    commit: commit@,
                }
            } else {
                LookupPhase::Failed { context: Context::FindPackage }
            }
        }),
{
    let events = release_events(worktree, tag, commit, workspace, metadata);
    one_more_event(start, events, 0);
    one_more_event(start, events, 1);
    one_more_event(start, events, 2);
    one_more_event(start, events, 3);
    one_more_event(start, events, 4);
    one_more_event(start, events, 5);
    one_more_event(start, events, 6);
    one_more_event(start, events, 7);
    one_more_event(start, events, 8);
    assert(events.take(9) =~= events);
}

/// What a lookup of `start` has to do after `n` steps in its worktree, where
/// nothing has failed: each action has the texts that the answers before it have
/// told, as they were told.
///
/// A visit is in its worktree from the beginning. The lookup of a released
/// package first has a worktree made that bears the name of the package.
pub proof fn lookup_acts_on_what_it_was_told(start: Lookup<Seq<char>>, events: Seq<LookupEvent>)
    requires
        start.flow is Visit ==> start.phase is OpenRepo,
        start.flow is Release ==> start.phase is CreateWorktree,
        start.accepts_all(events),
        forall|k: int|
            0 <= k < events.len() ==> !(#[trigger] events[k] is Failed) && !(
            events[k] is Unversioned) && (events[k] matches LookupEvent::Release(Some(tag))
                ==> bears_version(tag@)),
    ensures
        ({
            let action = start.run(events).action();
            let first = if start.flow is Visit {
                0int
            } else {
                1
            };
            let n = events.len() - first;
            &&& n == -1 ==> action == LookupAction::CreateWorktree(start.package)
            &&& n == 0 ==> action is OpenRepo
            &&& n == 1 ==> action is ListTags
            &&& n == 2 ==> action == LookupAction::ResolveCommit(
                events[first + 1]->Release_0->Some_0@,
            )
            &&& n == 3 ==> action == LookupAction::Checkout(events[first + 2]->Commit_0@)
            &&& n == 4 ==> action is SpawnPackage
            &&& n == 5 ==> action is WaitPackage
            &&& n == 9 ==> action is Stop
            &&& n == 8 && start.flow is Release ==> action is Stop
            &&& n <= 9
        }),
{
    lookup_is_told_by_events(start, events);
    lookup_is_not_told_of_more(start, events);
}

proof fn lookup_is_not_told_of_more(start: Lookup<Seq<char>>, events: Seq<LookupEvent>)
    requires
        start.accepts_all(events),
    ensures
        start.run(events).remaining() + events.len() <= start.remaining(),
    decreases events.len(),
{
    if events.len() > 0 {
        lookup_is_not_told_of_more(start, events.drop_last());
        lookup_ends(start.run(events.drop_last()), events.last());
    }
}

/// What a lookup hashes and reads of a package is what packaging has left in
/// the worktree for the first package with the name, in the version that the
/// worktree has it. `first` is the number of answers before the worktree is there.
pub proof fn lookup_reads_in_its_worktree(
    start: Lookup<Seq<char>>,
    events: Seq<LookupEvent>,
    tree: Seq<char>,
    first: int,
    i: int,
)
    requires
        start.flow is Visit ==> start.phase is OpenRepo,
        start.flow is Release ==> start.phase is CreateWorktree,
        start.accepts_all(events),
        forall|k: int|
            0 <= k < events.len() ==> !(#[trigger] events[k] is Failed) && !(
            events[k] is Unversioned) && (events[k] matches LookupEvent::Release(Some(tag))
                ==> bears_version(tag@)),
        start.flow is Visit ==> start.phase->OpenRepo_worktree == tree,
        start.flow is Release ==> match events[0]->Worktree_0 {
            Some(path) => path@ == tree,
            None => tree.len() == 0,
        },
        events.len() > 6 + first && first == if start.flow is Visit {
            0int
        } else {
            1
        },
        0 <= i < events[first + 6]->Metadata_0.packages@.len(),
        events[first + 6]->Metadata_0.packages@[i].name@ == start.package,
        forall|j: int|
            0 <= j < i ==> (#[trigger] events[first + 6]->Metadata_0.packages@[j]).name@
                != start.package,
    ensures
        ({
            let action = start.run(events).action();
            let package = events[first + 6]->Metadata_0.packages@[i];
            let directory = tree + "/target/package/"@ + package.name@ + "-"@ + package.version@;
            &&& events.len() == 7 + first && start.flow is Visit ==> action
                == LookupAction::HashDir(directory)
            &&& events.len() == 8 + first && start.flow is Visit ==> action
                == LookupAction::ReadMetadata(directory + "/Cargo.toml"@)
            &&& events.len() == 7 + first && start.flow is Release ==> action
                == LookupAction::ReadMetadata(directory + "/Cargo.toml"@)
        }),
{
    lookup_is_told_by_events(start, events);
    if start.flow is Release && events[0]->Worktree_0 is None {
        assert(tree =~= path_text(events[0]->Worktree_0));
    }
    let packages = events[first + 6]->Metadata_0.packages@;
    assert(is_first_named(packages, start.package, i));
    first_named_is_unique(packages, start.package, i);
}

/// The manifest that a lookup reads first is the one of its worktree.
pub proof fn lookup_reads_the_manifest_of_its_worktree(
    start: Lookup<Seq<char>>,
    events: Seq<LookupEvent>,
    tree: Seq<char>,
)
    requires
        start.flow is Visit ==> start.phase is OpenRepo,
        start.flow is Release ==> start.phase is CreateWorktree,
        start.accepts_all(events),
        forall|k: int|
            0 <= k < events.len() ==> !(#[trigger] events[k] is Failed) && !(
            events[k] is Unversioned) && (events[k] matches LookupEvent::Release(Some(tag))
                ==> bears_version(tag@)),
        start.flow is Visit ==> start.phase->OpenRepo_worktree == tree && events.len() == 6,
        start.flow is Release ==> events.len() == 7 && match events[0]->Worktree_0 {
            Some(path) => path@ == tree,
            None => tree.len() == 0,
        },
    ensures
        start.run(events).action() == LookupAction::ReadMetadata(tree + "/Cargo.toml"@),
{
    lookup_is_told_by_events(start, events);
    if start.flow is Release && events[0]->Worktree_0 is None {
        assert(tree =~= path_text(events[0]->Worktree_0));
    }
}

/// Which answers a lookup takes: after each step the one that the step gives,
/// or that it has failed, and nothing once it is over. The metadata of the
/// worktree has to have a package with the name.
pub proof fn lookup_takes_the_answer_to_its_action(
    start: Lookup<Seq<char>>,
    events: Seq<LookupEvent>,
    event: LookupEvent,
)
    requires
        start.flow is Visit ==> start.phase is OpenRepo,
        start.flow is Release ==> start.phase is CreateWorktree,
        start.accepts_all(events),
        forall|k: int|
            0 <= k < events.len() ==> !(#[trigger] events[k] is Failed) && !(
            events[k] is Unversioned) && (events[k] matches LookupEvent::Release(Some(tag))
                ==> bears_version(tag@)),
    ensures
        ({
            let taken = start.run(events).accepts(event);
            let first = if start.flow is Visit {
                0int
            } else {
                1
            };
            let n = events.len() - first;
            let visit = start.flow is Visit;
            &&& n == -1 ==> (taken <==> event is Worktree || event is Failed)
            &&& n == 0 || n == 3 || n == 4 || n == 5 ==> (taken <==> event is Done
                || event is Failed)
            &&& n == 1 ==> (taken <==> (event is Release && event->Release_0 is Some)
                || event is Unversioned || event is Failed)
            &&& n == 2 ==> (taken <==> event is Commit || event is Failed)
            &&& n == 6 ==> (taken <==> event is Failed || (event is Metadata && exists|i: int|
                0 <= i < event->Metadata_0.packages@.len() && (
                #[trigger] event->Metadata_0.packages@[i]).name@ == start.package))
            &&& n == 7 && visit ==> (taken <==> event is Hash || event is Failed)
            &&& n == 7 && !visit ==> (taken <==> event is Metadata || event is Failed)
            &&& n == 8 && visit ==> (taken <==> event is Metadata || event is Failed)
            &&& n == 8 && !visit ==> !taken
            &&& n == 9 ==> !taken
        }),
{
    lookup_is_told_by_events(start, events);
    if event is Metadata {
        let packages = event->Metadata_0.packages@;
        if exists|i: int| 0 <= i < packages.len() && (#[trigger] packages[i]).name@ == start.package {
            let i = choose|i: int|
                0 <= i < packages.len() && (#[trigger] packages[i]).name@ == start.package;
            first_named_is_the_first_with_the_whole_name(packages, start.package, i);
        } else {
            missing_name_is_not_found(packages, start.package);
        }
        if has_named(packages, start.package) {
            let k = choose|k: int| #[trigger] is_first_named(packages, start.package, k);
            assert(packages[k].name@ == start.package);
        }
    }
}

/// What is said of a step that failed, for either kind of lookup; and a release
/// tag without a version is said to be that.
pub proof fn failed_step_is_told_by_its_name(start: Lookup<Seq<char>>, events: Seq<LookupEvent>)
    requires
        start.flow is Visit ==> start.phase is OpenRepo,
        start.flow is Release ==> start.phase is CreateWorktree,
        start.accepts_all(events),
        forall|k: int|
            0 <= k < events.len() ==> !(#[trigger] events[k] is Failed) && !(
            events[k] is Unversioned) && (events[k] matches LookupEvent::Release(Some(tag))
                ==> bears_version(tag@)),
    ensures
        ({
            let run = start.run(events);
            let first = if start.flow is Visit {
                0int
            } else {
                1
            };
            let n = events.len() - first;
            let visit = start.flow is Visit;
            let failed = run.next(LookupEvent::Failed).phase;
            let unversioned = run.next(LookupEvent::Unversioned).phase;
            &&& n < 8 || (visit && n == 8) ==> failed is Failed
            &&& n == -1 ==> failed->context == Context::BuildPackageWorktree
            &&& n == 0 && visit ==> failed->context == Context::OpenWorktree
            &&& n == 0 && !visit ==> failed->context == Context::OpenPackageRepo
            &&& n == 1 && visit ==> failed->context == Context::GetTags
            &&& n == 1 && !visit ==> failed->context == Context::GetPackageTags
            &&& n == 2 && visit ==> failed->context == Context::GetReleaseCommit
            &&& n == 2 && !visit ==> failed->context == Context::GetReleaseTagCommit
            &&& n == 3 && visit ==> failed->context == Context::CheckoutRelease
            &&& n == 3 && !visit ==> failed->context == Context::CheckoutPackageRelease
            &&& n == 4 ==> failed->context == Context::RunCargoPackage
            &&& n == 5 ==> failed->context == Context::WaitForCargoPackage
            &&& n == 6 ==> failed->context == Context::GetCargoMetadata
            &&& n == 7 && visit ==> failed->context == Context::HashPackage
            &&& n == 7 && !visit ==> failed->context == Context::GetCargoMetadata
            &&& n == 8 && visit ==> failed->context == Context::GetCargoMetadata
            &&& n == 1 ==> unversioned == (LookupPhase::<Seq<char>>::Failed {
                context: Context::ReleaseWithoutVersion,
            })
        }),
{
    lookup_is_told_by_events(start, events);
}

/// A release tag without a version is refused before its commit is looked for,
/// and one with a version is resolved, by its whole name.
pub proof fn release_tag_is_resolved_only_with_a_version(
    start: Lookup<Seq<char>>,
    events: Seq<LookupEvent>,
    tag: String,
)
    requires
        start.flow is Visit ==> start.phase is OpenRepo,
        start.flow is Release ==> start.phase is CreateWorktree,
        start.accepts_all(events),
        forall|k: int|
            0 <= k < events.len() ==> !(#[trigger] events[k] is Failed) && !(
            events[k] is Unversioned) && (events[k] matches LookupEvent::Release(Some(tag))
                ==> bears_version(tag@)),
        events.len() == if start.flow is Visit {
            1int
        } else {
            2
        },
    ensures
        ({
            let next = start.run(events).next(LookupEvent::Release(Some(tag)));
            &&& bears_version(tag@) ==> next.action() == LookupAction::ResolveCommit(tag@)
            &&& !bears_version(tag@) ==> next.action() is Stop && next.phase == (LookupPhase::<
                Seq<char>,
            >::Failed { context: Context::ReleaseWithoutVersion })
        }),
{
    lookup_is_told_by_events(start, events);
}

/// What comes out of a lookup is what it was told: a visit gives the hash and
/// the metadata of the packaged crate, and the lookup of a released package
/// gives the first member with the name and the commit of the release tag.
pub proof fn lookup_gives_what_it_was_told(
    start: Lookup<Seq<char>>,
    events: Seq<LookupEvent>,
    i: int,
)
    requires
        start.flow is Visit ==> start.phase is OpenRepo,
        start.flow is Release ==> start.phase is CreateWorktree,
        start.accepts_all(events),
        forall|k: int|
            0 <= k < events.len() ==> !(#[trigger] events[k] is Failed) && !(
            events[k] is Unversioned) && (events[k] matches LookupEvent::Release(Some(tag))
                ==> bears_version(tag@)),
    ensures
        ({
            let run = start.run(events);
            let members = events[8]->Metadata_0.members();
            let found = 0 <= i < members.len() && members[i].name@ == start.package && forall|
                j: int,
            |
                0 <= j < i ==> (#[trigger] members[j]).name@ != start.package;
            &&& start.flow is Visit && events.len() == 9 ==> run.phase == (LookupPhase::<
                Seq<char>,
            >::Visited {
                state: PackageState {
                    metadata: events[8]->Metadata_0,
                    md5_hash: events[7]->Hash_0,
                },
            })
            &&& start.flow is Release && events.len() == 9 && found ==> run.phase == (
            LookupPhase::Released { package: members[i], commit: events[3]->Commit_0@ })
            &&& start.flow is Release && events.len() == 9 && (forall|j: int|
                0 <= j < members.len() ==> (#[trigger] members[j]).name@ != start.package)
                ==> run.phase == (LookupPhase::<Seq<char>>::Failed {
                context: Context::FindPackage,
            })
        }),
{
    lookup_is_told_by_events(start, events);
    let members = events[8]->Metadata_0.members();
    if 0 <= i < members.len() && members[i].name@ == start.package && forall|j: int|
        0 <= j < i ==> (#[trigger] members[j]).name@ != start.package {
        assert(is_first_named(members, start.package, i));
        first_named_is_unique(members, start.package, i);
    }
}

/// An action is seen with the texts that it has.
pub proof fn lookup_action_is_seen_as_it_is(text: String)
    ensures
        LookupAction::CreateWorktree(text)@ == LookupAction::CreateWorktree(text@),
        LookupAction::ResolveCommit(text)@ == LookupAction::ResolveCommit(text@),
        LookupAction::Checkout(text)@ == LookupAction::Checkout(text@),
        LookupAction::ReadMetadata(text)@ == LookupAction::ReadMetadata(text@),
        LookupAction::HashDir(text)@ == LookupAction::HashDir(text@),
        LookupAction::<String>::OpenRepo@ is OpenRepo,
        LookupAction::<String>::ListTags@ is ListTags,
        LookupAction::<String>::SpawnPackage@ is SpawnPackage,
        LookupAction::<String>::WaitPackage@ is WaitPackage,
        LookupAction::<String>::Stop@ is Stop,
{
}

/// A lookup is seen with its flow, its package and the texts of its phase.
pub proof fn lookup_is_seen_as_it_is(lookup: Lookup<String>)
    ensures
        lookup@.flow == lookup.flow,
        lookup@.package == lookup.package@,
        lookup.phase matches LookupPhase::Released { package, commit } ==> lookup@.phase == (
        LookupPhase::Released { package, commit: commit@ }),
        lookup.phase matches LookupPhase::Visited { state } ==> lookup@.phase == (LookupPhase::<
            Seq<char>,
        >::Visited { state }),
        lookup.phase matches LookupPhase::Failed { context } ==> lookup@.phase == (LookupPhase::<
            Seq<char>,
        >::Failed { context }),
        lookup@.phase is Released <==> lookup.phase is Released,
        lookup@.phase is Visited <==> lookup.phase is Visited,
        lookup@.phase is Failed <==> lookup.phase is Failed,
{
}

/// A visit begins in the worktree that it was given, and the lookup of a
/// released package with a worktree of its name; each is for the package that
/// was asked for.
pub proof fn lookups_begin_as_they_are_asked(package: Seq<char>, worktree: Seq<char>)
    ensures
        new_visit(package, worktree).package == package,
        new_visit(package, worktree).flow is Visit,
        new_visit(package, worktree).action() is OpenRepo,
        new_visit(package, worktree).phase->OpenRepo_worktree == worktree,
        new_release(package).package == package,
        new_release(package).flow is Release,
        new_release(package).action() == LookupAction::CreateWorktree(package),
{
}

} // verus!

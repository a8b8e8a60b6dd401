//! The packages of a workspace, as cargo describes them.
use crate::text::same_text;
use vstd::prelude::*;

verus! {

/// What a target of a package is built into.
#[derive(Debug, PartialEq, Eq)]
pub enum TargetKind {
    /// `cargo bench` target.
    Bench,
    /// Binary executable target.
    Bin,
    /// Custom build target.
    CustomBuild,
    /// Dynamic system library target.
    CDyLib,
    /// Dynamic Rust library target.
    DyLib,
    /// Example target.
    Example,
    /// Rust library.
    Lib,
    /// Procedural macro.
    ProcMacro,
    /// Rust library for use as an intermediate artifact.
    RLib,
    /// Static system library.
    StaticLib,
    /// Test target.
    Test,
    /// A kind that is not known.
    Unknown(String),
}

/// A target of a package.
#[derive(Debug, PartialEq, Eq)]
pub struct Target {
    /// The kinds of the target.
    pub kind: Vec<TargetKind>,
}

/// A package.
#[derive(Debug, PartialEq, Eq)]
pub struct Package {
    /// The name, as given in its manifest.
    pub name: String,
    /// The version, as given in its manifest.
    pub version: String,
    /// What identifies the package among all packages.
    pub id: String,
    /// The registries that the package may be published to. `None` stands for any.
    pub publish: Option<Vec<String>>,
    /// The targets.
    pub targets: Vec<Target>,
}

/// What cargo tells of a workspace.
#[derive(Debug, PartialEq, Eq)]
pub struct Metadata {
    /// The packages of the workspace and of everything that it depends on.
    pub packages: Vec<Package>,
    /// The identifiers of the packages that are members of the workspace.
    pub workspace_members: Vec<String>,
}

/// Something that may be published.
pub trait Publishable {
    /// Whether it can be published to at least one registry.
    spec fn publishable(&self) -> bool;

    /// Whether it can be published to at least one registry.
    fn is_publishable(&self) -> (publishable: bool)
        ensures
            publishable == self.publishable(),
    ;
}

impl Target {
    /// Whether the target is an example and nothing else.
    pub open spec fn is_example(&self) -> bool {
        self.kind@.len() == 1 && self.kind@[0] is Example
    }
}

impl Package {
    /// Whether there is nothing but examples in the package.
    pub open spec fn only_examples(&self) -> bool {
        forall|i: int| 0 <= i < self.targets@.len() ==> (#[trigger] self.targets@[i]).is_example()
    }
}

impl Publishable for Package {
    /// A package that names registries can be published if it names at least
    /// one. A package that names none can be published anywhere, unless there is
    /// nothing but examples in it.
    open spec fn publishable(&self) -> bool {
        match self.publish {
            Some(registries) => registries@.len() > 0,
            None => !self.only_examples(),
        }
    }

    fn is_publishable(&self) -> (publishable: bool) {
        match &self.publish {
            Some(registries) => registries.len() != 0,
            None => !is_example_package(self),
        }
    }
}

/// Whether there is nothing but examples in the package.
pub fn is_example_package(package: &Package) -> (example: bool)
    ensures
        example == package.only_examples(),
{
    let mut i: usize = 0;
    while i < package.targets.len()
        invariant
            i <= package.targets.len(),
            forall|j: int| 0 <= j < i ==> (#[trigger] package.targets@[j]).is_example(),
        decreases package.targets.len() - i,
    {
        let kind: &Vec<TargetKind> = &package.targets[i].kind;
        if kind.len() != 1 {
            assert(!package.targets@[i as int].is_example());
            return false;
        }
        match &kind[0] {
            TargetKind::Example => {},
            _ => {
                assert(!package.targets@[i as int].is_example());
                return false;
            },
        }
        i = i + 1;
    }
    true
}

impl Metadata {
    /// Whether the package is a member of the workspace.
    pub open spec fn has_member(self, package: Package) -> bool {
        exists|i: int|
            0 <= i < self.workspace_members@.len() && (#[trigger] self.workspace_members@[i])@
                == package.id@
    }

    /// The members of the workspace that can be published, in the order of the packages.
    pub open spec fn publishable_members(self) -> Seq<Package> {
        self.members().filter(|package: Package| package.publishable())
    }

    /// The names of the members of the workspace, in the order of the packages.
    pub open spec fn member_names(self) -> Seq<Seq<char>> {
        self.members().map_values(|package: Package| package.name@)
    }

    /// The members of the workspace, in the order of the packages.
    pub open spec fn members(self) -> Seq<Package> {
        self.packages@.filter(|package: Package| self.has_member(package))
    }
}

fn is_listed(list: &Vec<String>, text: &str) -> (listed: bool)
    ensures
        listed == exists|i: int| 0 <= i < list@.len() && (#[trigger] list@[i])@ == text@,
{
    let mut i: usize = 0;
    while i < list.len()
        invariant
            i <= list.len(),
            forall|j: int| 0 <= j < i ==> (#[trigger] list@[j])@ != text@,
        decreases list.len() - i,
    {
        if same_text(list[i].as_str(), text) {
            return true;
        }
        i = i + 1;
    }
    false
}

/// The packages that are members of the workspace.
pub fn workspace_packages(metadata: Metadata) -> (members: Vec<Package>)
    ensures
        members@ == metadata.members(),
{
    let ghost all = metadata.packages@;
    let ghost member = |package: Package| metadata.has_member(package);
    let Metadata { packages, workspace_members } = metadata;
    let mut members: Vec<Package> = Vec::new();
    for package in it: packages
        invariant
            it.seq() == all,
            members@ == all.take(it.index()).filter(member),
            forall|package: Package| #[trigger]
                member(package) == exists|i: int|
                    0 <= i < workspace_members@.len() && (#[trigger] workspace_members@[i])@
                        == package.id@,
    {
        reveal(Seq::filter);
        assert(all.take(it.index() + 1).drop_last() =~= all.take(it.index()));
        let is_member: bool = is_listed(&workspace_members, package.id.as_str());
        assert(is_member == member(package));
        if is_member {
            members.push(package);
        }
    }
    assert(all.take(all.len() as int) =~= all);
    members
}

/// The members of the workspace that can be published, in the order of the packages.
pub fn publishable_packages_from_manifest(metadata: Metadata) -> (publishable: Vec<Package>)
    ensures
        publishable@ == metadata.publishable_members(),
{
    let members: Vec<Package> = workspace_packages(metadata);
    let ghost all = members@;
    let ghost wanted = |package: Package| package.publishable();
    let mut publishable: Vec<Package> = Vec::new();
    for package in it: members
        invariant
            it.seq() == all,
            publishable@ == all.take(it.index()).filter(wanted),
            wanted == (|package: Package| package.publishable()),
    {
        reveal(Seq::filter);
        assert(all.take(it.index() + 1).drop_last() =~= all.take(it.index()));
        if package.is_publishable() {
            publishable.push(package);
        }
    }
    assert(all.take(all.len() as int) =~= all);
    publishable
}

/// What comes out as publishable are packages of the workspace that can be
/// published, and all of them.
pub proof fn publishable_packages_are_the_members_that_can_be_published(
    metadata: Metadata,
    package: Package,
)
    ensures
        metadata.members().contains(package) <==> metadata.packages@.contains(package)
            && metadata.has_member(package),
        metadata.publishable_members().contains(package) <==> metadata.packages@.contains(package) && metadata.has_member(package)
            && package.publishable(),
{
    filter_keeps_what_is_wanted(
        metadata.packages@,
        |package: Package| metadata.has_member(package),
        package,
    );
    filter_keeps_what_is_wanted(
        metadata.members(),
        |package: Package| package.publishable(),
        package,
    );
}

proof fn filter_keeps_what_is_wanted(
    packages: Seq<Package>,
    wanted: spec_fn(Package) -> bool,
    package: Package,
)
    ensures
        packages.filter(wanted).contains(package) <==> packages.contains(package) && wanted(
            package,
        ),
    decreases packages.len(),
{
    reveal(Seq::filter);
    if packages.len() > 0 {
        let rest = packages.drop_last();
        filter_keeps_what_is_wanted(rest, wanted, package);
        assert(packages =~= rest.push(packages.last()));
        let kept = rest.filter(wanted);
        if wanted(packages.last()) {
            assert(packages.filter(wanted) == kept.push(packages.last()));
            assert(packages.filter(wanted)[kept.len() as int] == packages.last());
            if kept.contains(package) {
                let i = choose|i: int| 0 <= i < kept.len() && kept[i] == package;
                assert(packages.filter(wanted)[i] == package);
            }
        }
        if rest.contains(package) {
            let i = choose|i: int| 0 <= i < rest.len() && rest[i] == package;
            assert(packages[i] == package);
        }
        assert(packages[packages.len() - 1] == packages.last());
    }
}

/// The names of the members of the workspace, in the order of the packages.
pub fn workspace_names(metadata: &Metadata) -> (names: Vec<String>)
    ensures
        names@.map_values(|name: String| name@) == metadata.member_names(),
{
    let ghost all = metadata.packages@;
    let ghost member = |package: Package| metadata.has_member(package);
    let ghost text = |name: String| name@;
    let ghost name_of = |package: Package| package.name@;
    let mut names: Vec<String> = Vec::new();
    let mut i: usize = 0;
    while i < metadata.packages.len()
        invariant
            i <= metadata.packages.len(),
            all == metadata.packages@,
            member == (|package: Package| metadata.has_member(package)),
            text == (|name: String| name@),
            name_of == (|package: Package| package.name@),
            names@.map_values(text) == all.take(i as int).filter(member).map_values(name_of),
        decreases metadata.packages.len() - i,
    {
        let ghost before = names@;
        proof {
            reveal(Seq::filter);
            assert(all.take(i + 1).drop_last() =~= all.take(i as int));
        }
        if is_listed(&metadata.workspace_members, metadata.packages[i].id.as_str()) {
            names.push(metadata.packages[i].name.clone());
            assert(member(all[i as int]));
            assert(names@.map_values(text) =~= before.map_values(text).push(all[i as int].name@));
            assert(all.take(i + 1).filter(member).map_values(name_of) =~= all.take(i as int).filter(
                member,
            ).map_values(name_of).push(all[i as int].name@));
        } else {
            assert(!member(all[i as int]));
        }
        i = i + 1;
    }
    assert(all.take(all.len() as int) =~= all);
    names
}

/// The names of the packages that can be published, in the order of the packages.
pub open spec fn publishable_names_of(packages: Seq<Package>) -> Seq<Seq<char>> {
    packages.filter(|package: Package| package.publishable()).map_values(
        |package: Package| package.name@,
    )
}

/// The names of the packages that can be published, in the order of the packages.
pub fn publishable_names(packages: &Vec<Package>) -> (names: Vec<String>)
    ensures
        names@.map_values(|name: String| name@) == publishable_names_of(packages@),
{
    let ghost all = packages@;
    let ghost wanted = |package: Package| package.publishable();
    let ghost text = |name: String| name@;
    let ghost name_of = |package: Package| package.name@;
    let mut names: Vec<String> = Vec::new();
    let mut i: usize = 0;
    while i < packages.len()
        invariant
            i <= packages.len(),
            all == packages@,
            wanted == (|package: Package| package.publishable()),
            text == (|name: String| name@),
            name_of == (|package: Package| package.name@),
            names@.map_values(text) == all.take(i as int).filter(wanted).map_values(name_of),
        decreases packages.len() - i,
    {
        let ghost before = names@;
        proof {
            reveal(Seq::filter);
            assert(all.take(i + 1).drop_last() =~= all.take(i as int));
        }
        if packages[i].is_publishable() {
            names.push(packages[i].name.clone());
            assert(names@.map_values(text) =~= before.map_values(text).push(all[i as int].name@));
            assert(all.take(i + 1).filter(wanted).map_values(name_of) =~= all.take(i as int).filter(
                wanted,
            ).map_values(name_of).push(all[i as int].name@));
        }
        i = i + 1;
    }
    assert(all.take(all.len() as int) =~= all);
    names
}

/// `i` is the first package called `name`.
pub open spec fn is_first_named(packages: Seq<Package>, name: Seq<char>, i: int) -> bool {
    &&& 0 <= i < packages.len()
    &&& packages[i].name@ == name
    &&& forall|j: int| 0 <= j < i ==> (#[trigger] packages[j]).name@ != name
}

/// Whether there is a package called `name`.
pub open spec fn has_named(packages: Seq<Package>, name: Seq<char>) -> bool {
    exists|i: int| #[trigger] is_first_named(packages, name, i)
}

/// The first package called `name`.
pub open spec fn first_named(packages: Seq<Package>, name: Seq<char>) -> Package
    recommends
        has_named(packages, name),
{
    packages[choose|i: int| #[trigger] is_first_named(packages, name, i)]
}

/// The place of the first package called `name`.
pub fn find_package(packages: &Vec<Package>, name: &str) -> (place: Option<usize>)
    ensures
        place is Some <==> has_named(packages@, name@),
        place matches Some(i) ==> i < packages@.len() && packages@[i as int] == first_named(
            packages@,
            name@,
        ),
{
    let mut i: usize = 0;
    while i < packages.len()
        invariant
            i <= packages.len(),
            forall|j: int| 0 <= j < i ==> (#[trigger] packages@[j]).name@ != name@,
        decreases packages.len() - i,
    {
        if same_text(packages[i].name.as_str(), name) {
            proof {
                assert(is_first_named(packages@, name@, i as int));
                first_named_is_unique(packages@, name@, i as int);
            }
            return Some(i);
        }
        i = i + 1;
    }
    None
}

/// There is one first package of a name, and it has that name.
pub proof fn first_named_is_unique(packages: Seq<Package>, name: Seq<char>, i: int)
    requires
        is_first_named(packages, name, i),
    ensures
        first_named(packages, name) == packages[i],
        first_named(packages, name).name@ == name,
{
    let k = choose|k: int| #[trigger] is_first_named(packages, name, k);
    assert(is_first_named(packages, name, k));
    assert(!(k < i) && !(i < k));
}

/// A package that names no registries can be published if it has a target, at
/// any place, that is anything but an example.
pub proof fn any_other_target_makes_a_package_publishable(package: Package, i: int)
    requires
        package.publish is None,
        0 <= i < package.targets@.len(),
        package.targets@[i].kind@ != seq![TargetKind::Example],
    ensures
        package.publishable(),
{
    if package.targets@[i].is_example() {
        assert(package.targets@[i].kind@ =~= seq![TargetKind::Example]);
    }
}

/// A package that names no registries and has nothing but examples cannot be
/// published, and neither can one without any target.
pub proof fn package_of_examples_is_not_publishable(package: Package)
    requires
        package.publish is None,
        forall|i: int|
            0 <= i < package.targets@.len() ==> (#[trigger] package.targets@[i]).kind@ == seq![
                TargetKind::Example,
            ],
    ensures
        !package.publishable(),
{
    assert forall|i: int| 0 <= i < package.targets@.len() implies (
    #[trigger] package.targets@[i]).is_example() by {
        assert(package.targets@[i].kind@.len() == 1);
        assert(package.targets@[i].kind@[0] == TargetKind::Example);
    }
}

/// Two packages that name no registries and have the same targets, in whatever
/// order each of them lists them, can both be published or both not.
pub proof fn order_of_targets_does_not_matter(a: Package, b: Package)
    requires
        a.publish is None,
        b.publish is None,
        forall|target: Target| #[trigger]
            a.targets@.contains(target) <==> b.targets@.contains(target),
    ensures
        a.publishable() == b.publishable(),
{
    if a.only_examples() {
        examples_are_those_of(a, b);
    }
    if b.only_examples() {
        examples_are_those_of(b, a);
    }
}

proof fn examples_are_those_of(a: Package, b: Package)
    requires
        forall|target: Target| #[trigger]
            a.targets@.contains(target) <==> b.targets@.contains(target),
        a.only_examples(),
    ensures
        b.only_examples(),
{
    assert forall|i: int| 0 <= i < b.targets@.len() implies (
    #[trigger] b.targets@[i]).is_example() by {
        assert(b.targets@.contains(b.targets@[i]));
        assert(a.targets@.contains(b.targets@[i]));
        let k = choose|k: int| 0 <= k < a.targets@.len() && a.targets@[k] == b.targets@[i];
        assert(a.targets@[k].is_example());
    }
}

/// The registries that a package names decide alone, whatever else it has: it
/// can be published as soon as there is one.
pub proof fn named_registries_decide(package: Package, registries: Vec<String>)
    requires
        package.publish == Some(registries),
    ensures
        registries@.len() == 0 ==> !package.publishable(),
        registries@.len() > 0 ==> package.publishable(),
{
}

/// The members of a workspace come out in the order of its packages, each as
/// often as it is there: those of a longer list are those of its beginning and
/// then those of its rest.
pub proof fn members_of_two_lists(first: Metadata, second: Metadata, both: Metadata)
    requires
        both.packages@ == first.packages@ + second.packages@,
        first.workspace_members@ == both.workspace_members@,
        second.workspace_members@ == both.workspace_members@,
    ensures
        both.members() == first.members() + second.members(),
{
    filter_of_two_lists(
        first.packages@,
        second.packages@,
        |package: Package| both.has_member(package),
    );
    same_filter(
        first.packages@,
        |package: Package| first.has_member(package),
        |package: Package| both.has_member(package),
    );
    same_filter(
        second.packages@,
        |package: Package| second.has_member(package),
        |package: Package| both.has_member(package),
    );
}

proof fn same_filter(
    packages: Seq<Package>,
    wanted: spec_fn(Package) -> bool,
    other: spec_fn(Package) -> bool,
)
    requires
        forall|package: Package| #[trigger] wanted(package) == other(package),
    ensures
        packages.filter(wanted) == packages.filter(other),
    decreases packages.len(),
{
    reveal(Seq::filter);
    if packages.len() > 0 {
        same_filter(packages.drop_last(), wanted, other);
        assert(wanted(packages.last()) == other(packages.last()));
    }
}

proof fn filter_of_two_lists(
    first: Seq<Package>,
    second: Seq<Package>,
    wanted: spec_fn(Package) -> bool,
)
    ensures
        (first + second).filter(wanted) == first.filter(wanted) + second.filter(wanted),
    decreases second.len(),
{
    reveal(Seq::filter);
    if second.len() == 0 {
        assert(first + second =~= first);
        assert(first.filter(wanted) + second.filter(wanted) =~= first.filter(wanted));
    } else {
        filter_of_two_lists(first, second.drop_last(), wanted);
        assert((first + second).drop_last() =~= first + second.drop_last());
        assert((first + second).last() == second.last());
        assert((first + second).filter(wanted) =~= first.filter(wanted) + second.filter(wanted));
    }
}

/// A package is a member of the workspace exactly if the workspace lists its
/// identifier, at whatever place.
pub proof fn listed_package_is_a_member(metadata: Metadata, package: Package)
    requires
        metadata.packages@ == seq![package],
    ensures
        metadata.members() == if exists|i: int|
            0 <= i < metadata.workspace_members@.len() && (#[trigger] metadata.workspace_members@[i])@
                == package.id@ {
            seq![package]
        } else {
            Seq::empty()
        },
{
    reveal(Seq::filter);
    reveal_with_fuel(Seq::filter, 2);
    let member = |package: Package| metadata.has_member(package);
    assert(metadata.packages@.drop_last() =~= Seq::<Package>::empty());
    assert(metadata.packages@.last() == package);
    assert(metadata.packages@.drop_last().filter(member) =~= Seq::<Package>::empty());
    if member(package) {
        assert(metadata.members() =~= seq![package]);
    } else {
        assert(metadata.members() =~= Seq::<Package>::empty());
    }
}

/// The names of packages that can be published come out in the order of the
/// packages: those of a longer list are those of its beginning and then those of
/// its rest, and a single package gives its name if it can be published.
pub proof fn publishable_names_of_two_lists(first: Seq<Package>, second: Seq<Package>, one: Package)
    ensures
        publishable_names_of(first + second) == publishable_names_of(first)
            + publishable_names_of(second),
        one.publishable() ==> publishable_names_of(seq![one]) == seq![one.name@],
        !one.publishable() ==> publishable_names_of(seq![one]) == Seq::<Seq<char>>::empty(),
{
    let wanted = |package: Package| package.publishable();
    let name_of = |package: Package| package.name@;
    filter_of_two_lists(first, second, wanted);
    assert(publishable_names_of(first + second) =~= publishable_names_of(first)
        + publishable_names_of(second));
    reveal(Seq::filter);
    reveal_with_fuel(Seq::filter, 2);
    assert(seq![one].drop_last() =~= Seq::<Package>::empty());
    assert(seq![one].drop_last().filter(wanted) =~= Seq::<Package>::empty());
    if one.publishable() {
        assert(wanted(one));
        assert(seq![one].filter(wanted) =~= seq![one]);
        assert(publishable_names_of(seq![one]) =~= seq![one.name@]);
    } else {
        assert(!wanted(one));
        assert(seq![one].filter(wanted) =~= Seq::<Package>::empty());
        assert(publishable_names_of(seq![one]) =~= Seq::<Seq<char>>::empty());
    }
}

/// There is a package of a name exactly if a package is called by that whole
/// name, at whatever place, and the first one has no such package before it.
pub proof fn first_named_is_the_first_with_the_whole_name(
    packages: Seq<Package>,
    name: Seq<char>,
    i: int,
)
    requires
        0 <= i < packages.len(),
        packages[i].name@ == name,
    ensures
        has_named(packages, name),
        first_named(packages, name).name@ == name,
        exists|k: int|
            0 <= k <= i && #[trigger] packages[k] == first_named(packages, name) && forall|j: int|
                0 <= j < k ==> (#[trigger] packages[j]).name@ != name,
    decreases i,
{
    if exists|j: int| 0 <= j < i && (#[trigger] packages[j]).name@ == name {
        let j = choose|j: int| 0 <= j < i && (#[trigger] packages[j]).name@ == name;
        first_named_is_the_first_with_the_whole_name(packages, name, j);
    } else {
        assert(is_first_named(packages, name, i));
        first_named_is_unique(packages, name, i);
        assert(packages[i] == first_named(packages, name));
    }
}

/// A name by which no package is called is not found.
pub proof fn missing_name_is_not_found(packages: Seq<Package>, name: Seq<char>)
    requires
        forall|i: int| 0 <= i < packages.len() ==> (#[trigger] packages[i]).name@ != name,
    ensures
        !has_named(packages, name),
{
}

/// The members that can be published come out in the order of the packages,
/// each as often as it is there.
pub proof fn publishable_members_of_two_lists(first: Metadata, second: Metadata, both: Metadata)
    requires
        both.packages@ == first.packages@ + second.packages@,
        first.workspace_members@ == both.workspace_members@,
        second.workspace_members@ == both.workspace_members@,
    ensures
        both.publishable_members() == first.publishable_members() + second.publishable_members(),
{
    members_of_two_lists(first, second, both);
    filter_of_two_lists(
        first.members(),
        second.members(),
        |package: Package| package.publishable(),
    );
}

/// A single package comes out exactly if the workspace lists it and it can be
/// published.
pub proof fn publishable_member_comes_out(metadata: Metadata, package: Package)
    requires
        metadata.packages@ == seq![package],
    ensures
        metadata.publishable_members() == if package.publishable() && exists|i: int|
            0 <= i < metadata.workspace_members@.len() && (#[trigger] metadata.workspace_members@[i])@
                == package.id@ {
            seq![package]
        } else {
            Seq::empty()
        },
{
    let wanted = |package: Package| package.publishable();
    listed_package_is_a_member(metadata, package);
    reveal(Seq::filter);
    reveal_with_fuel(Seq::filter, 2);
    let members = metadata.members();
    if members.len() > 0 {
        assert(members.drop_last() =~= Seq::<Package>::empty());
        assert(members.drop_last().filter(wanted) =~= Seq::<Package>::empty());
        assert(members.last() == package);
        if wanted(package) {
            assert(members.filter(wanted) =~= seq![package]);
        } else {
            assert(members.filter(wanted) =~= Seq::<Package>::empty());
        }
    } else {
        assert(members.filter(wanted) =~= Seq::<Package>::empty());
    }
}

/// Each member is named by its own name, at its own place.
pub proof fn members_are_named_in_their_order(metadata: Metadata, i: int)
    requires
        0 <= i < metadata.members().len(),
    ensures
        metadata.member_names().len() == metadata.members().len(),
        metadata.member_names()[i] == metadata.members()[i].name@,
{
}

} // verus!

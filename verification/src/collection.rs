//! The released packages of a workspace, by name.
use crate::package::Package;
use crate::text::same_text;
use vstd::prelude::*;

verus! {

/// A released package, with the commit of its release if that is known. `S` is
/// the type of its texts.
#[derive(Debug)]
pub struct ReleasePackage<S> {
    /// The package, as it was released.
    pub package: Package,
    /// The commit that it was released from.
    pub commit: Option<S>,
}

impl View for ReleasePackage<String> {
    type V = ReleasePackage<Seq<char>>;

    open spec fn view(&self) -> ReleasePackage<Seq<char>> {
        ReleasePackage {
            package: self.package,
            commit: match self.commit {
                Some(commit) => Some(commit@),
                None => None,
            },
        }
    }
}

/// Released packages, of which no two have the same name.
#[derive(Debug)]
pub struct PackagesCollection {
    packages: Vec<ReleasePackage<String>>,
}

/// `i` is a package called `name`.
spec fn is_called(packages: Seq<ReleasePackage<String>>, name: Seq<char>, i: int) -> bool {
    0 <= i < packages.len() && packages[i].package.name@ == name
}

spec fn place_of(packages: Seq<ReleasePackage<String>>, name: Seq<char>) -> int {
    choose|i: int| is_called(packages, name, i)
}

spec fn has_called(packages: Seq<ReleasePackage<String>>, name: Seq<char>) -> bool {
    exists|i: int| is_called(packages, name, i)
}

impl View for PackagesCollection {
    type V = Map<Seq<char>, ReleasePackage<Seq<char>>>;

    /// The packages, by name.
    closed spec fn view(&self) -> Map<Seq<char>, ReleasePackage<Seq<char>>> {
        Map::new(
            |name: Seq<char>| has_called(self.packages@, name),
            |name: Seq<char>| self.packages@[place_of(self.packages@, name)]@,
        )
    }
}

/// Released packages with one more, under its own name.
pub open spec fn recorded(
    packages: Map<Seq<char>, ReleasePackage<Seq<char>>>,
    package: ReleasePackage<Seq<char>>,
) -> Map<Seq<char>, ReleasePackage<Seq<char>>> {
    packages.insert(package.package.name@, package)
}

impl PackagesCollection {
    /// No two packages have the same name.
    #[verifier::type_invariant]
    spec fn names_differ(self) -> bool {
        forall|i: int, j: int|
            0 <= i < j < self.packages@.len() ==> (#[trigger] self.packages@[i]).package.name@ != (
            #[trigger] self.packages@[j]).package.name@
    }

    /// No packages.
    pub fn new() -> (collection: Self)
        ensures
            collection@ == Map::<Seq<char>, ReleasePackage<Seq<char>>>::empty(),
    {
        let collection = PackagesCollection { packages: Vec::new() };
        assert forall|name: Seq<char>| !has_called(collection.packages@, name) by {}
        assert(collection@ =~= Map::<Seq<char>, ReleasePackage<Seq<char>>>::empty());
        collection
    }

    /// The package called `name`.
    pub fn get(&self, name: &str) -> (package: Option<&ReleasePackage<String>>)
        ensures
            package is Some <==> self@.contains_key(name@),
            package matches Some(package) ==> package@ == self@[name@],
    {
        proof {
            use_type_invariant(self);
        }
        match self.find(name) {
            Some(i) => {
                proof {
                    assert(is_called(self.packages@, name@, i as int));
                    assert(is_called(self.packages@, name@, place_of(self.packages@, name@)));
                    assert(place_of(self.packages@, name@) == i);
                }
                Some(&self.packages[i])
            },
            None => None,
        }
    }

    fn find(&self, name: &str) -> (place: Option<usize>)
        ensures
            place is Some <==> has_called(self.packages@, name@),
            place matches Some(i) ==> is_called(self.packages@, name@, i as int),
    {
        let mut i: usize = 0;
        while i < self.packages.len()
            invariant
                i <= self.packages.len(),
                forall|j: int| 0 <= j < i ==> !#[trigger] is_called(self.packages@, name@, j),
            decreases self.packages.len() - i,
        {
            if same_text(self.packages[i].package.name.as_str(), name) {
                assert(is_called(self.packages@, name@, i as int));
                return Some(i);
            }
            i = i + 1;
        }
        None
    }

    /// The collection with one more package, which takes the place of one with the same name.
    pub fn with_package(self, package: ReleasePackage<String>) -> (collection: Self)
        ensures
            collection@ == recorded(self@, package@),
    {
        proof {
            use_type_invariant(&self);
        }
        let ghost before = self.packages@;
        let ghost added = package.package.name@;
        let place: Option<usize> = self.find(package.package.name.as_str());
        let PackagesCollection { mut packages } = self;
        match place {
            Some(i) => {
                packages.set(i, package);
            },
            None => {
                packages.push(package);
                proof {
                    assert forall|i: int| 0 <= i < before.len() implies (#[trigger] packages@[i]).package.name@
                        != added by {
                        assert(!is_called(before, added, i));
                    }
                }
            },
        }
        let collection = PackagesCollection { packages };
        proof {
            let after = packages@;
            let at: int = if place is Some {
                place->Some_0 as int
            } else {
                before.len() as int
            };
            assert(is_called(after, added, at));
            assert forall|name: Seq<char>| has_called(after, name) == (name == added || has_called(
                before,
                name,
            )) by {
                if has_called(after, name) && name != added {
                    let i = choose|i: int| is_called(after, name, i);
                    assert(is_called(before, name, i));
                }
                if has_called(before, name) && name != added {
                    let i = choose|i: int| is_called(before, name, i);
                    assert(is_called(after, name, i));
                }
            }
            assert forall|name: Seq<char>| has_called(after, name) implies after[place_of(
                after,
                name,
            )] == if name == added {
                after[at]
            } else {
                before[place_of(before, name)]
            } by {
                let i = place_of(after, name);
                assert(is_called(after, name, i));
                if name == added {
                    assert(i == at);
                } else {
                    let j = place_of(before, name);
                    assert(is_called(before, name, j));
                    assert(is_called(before, name, i));
                    assert(i == j);
                }
            }
            assert(collection@ =~= self@.insert(added, package@));
        }
        collection
    }

    /// The packages as a list, each of them once.
    pub fn packages(&self) -> (packages: &Vec<ReleasePackage<String>>)
        ensures
            forall|i: int|
                0 <= i < packages@.len() ==> self@.contains_pair(
                    (#[trigger] packages@[i]).package.name@,
                    packages@[i]@,
                ),
            forall|i: int, j: int|
                0 <= i < j < packages@.len() ==> (#[trigger] packages@[i]).package.name@ != (
                #[trigger] packages@[j]).package.name@,
            forall|name: Seq<char>| #[trigger]
                self@.contains_key(name) ==> exists|i: int|
                    0 <= i < packages@.len() && (#[trigger] packages@[i]).package.name@ == name,
    {
        proof {
            use_type_invariant(self);
            assert forall|i: int| 0 <= i < self.packages@.len() implies self@.contains_pair(
                (#[trigger] self.packages@[i]).package.name@,
                self.packages@[i]@,
            ) by {
                let name = self.packages@[i].package.name@;
                assert(is_called(self.packages@, name, i));
                assert(is_called(self.packages@, name, place_of(self.packages@, name)));
                assert(place_of(self.packages@, name) == i);
            }
            assert forall|name: Seq<char>| #[trigger] self@.contains_key(name) implies exists|i: int|
                0 <= i < self.packages@.len() && (#[trigger] self.packages@[i]).package.name@
                    == name by {
                let i = choose|i: int| is_called(self.packages@, name, i);
                assert(self.packages@[i].package.name@ == name);
            }
        }
        &self.packages
    }
}

/// A released package is seen with its commit as it is.
pub proof fn released_package_is_seen_as_it_is(released: ReleasePackage<String>)
    ensures
        released@.package == released.package,
        released@.commit is Some <==> released.commit is Some,
        released.commit matches Some(commit) ==> released@.commit == Some(commit@),
{
}

/// A package that is recorded is found under its own name as it was recorded,
/// also where another had that name, and every other package stays as it was.
pub proof fn recorded_package_is_found(
    packages: Map<Seq<char>, ReleasePackage<Seq<char>>>,
    package: ReleasePackage<Seq<char>>,
    name: Seq<char>,
)
    ensures
        recorded(packages, package).contains_pair(package.package.name@, package),
        name != package.package.name@ ==> (recorded(packages, package).contains_key(name)
            <==> packages.contains_key(name)),
        name != package.package.name@ && packages.contains_key(name) ==> recorded(
            packages,
            package,
        )[name] == packages[name],
{
}

} // verus!

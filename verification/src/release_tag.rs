//! Finding the tag that marks the latest release.
use crate::version::bears_version;
use crate::version::older;
use crate::version::tag_version;
use crate::version::version_is_valid;
use crate::version::version_of;
use crate::version::TagVersion;
use vstd::prelude::*;

verus! {

/// A pattern that tells the tags of releases from other tags.
///
/// It is made by [`ReleaseRegex::new`] alone, so that `regex` is always the
/// compiled form of `pattern`.
#[derive(Debug)]
pub struct ReleaseRegex {
    pattern: String,
    regex: regex::Regex,
}

/// Why a pattern does not compile.
#[derive(Debug, Clone, Copy, PartialEq, Eq, Structural)]
pub enum InvalidRegex {
    /// It is not a regular expression.
    Syntax,
    /// It is a regular expression, but its compiled form is too big.
    TooBig,
}

/// The compiled form of a regular expression.
#[verifier::external_type_specification]
#[verifier::external_body]
pub struct ExRegex(regex::Regex);

/// Whether `pattern` is a regular expression: whether `regex::Regex::new` finds
/// no syntax error in it.
pub uninterp spec fn is_regex(pattern: Seq<char>) -> bool;

/// Whether the regular expression `pattern` matches somewhere in `haystack`:
/// what `regex::Regex::is_match` answers.
pub uninterp spec fn regex_is_match(pattern: Seq<char>, haystack: Seq<char>) -> bool;

impl ReleaseRegex {
    /// The text of the pattern.
    pub closed spec fn pattern(&self) -> Seq<char> {
        self.pattern@
    }

    /// Compiles a pattern. What is not a regular expression is refused as such.
    /// A regular expression is refused only where its compiled form is too big,
    /// which rests on the machine.
    pub fn new(pattern: &str) -> (regex: Result<ReleaseRegex, InvalidRegex>)
        ensures
            regex matches Ok(regex) ==> regex.pattern() == pattern@,
            regex is Ok ==> is_regex(pattern@),
            regex matches Err(e) ==> e == if is_regex(pattern@) {
                InvalidRegex::TooBig
            } else {
                InvalidRegex::Syntax
            },
    {
        compiled(pattern)
    }

    /// Whether the pattern matches somewhere in `text`.
    pub fn is_match(&self, text: &str) -> (matched: bool)
        ensures
            matched == regex_is_match(self.pattern(), text@),
    {
        matches_in(self, text)
    }
}

/// Calls `regex::Regex::new` and keeps the pattern beside the compiled form. It
/// parses the pattern first, and whether that gives a syntax error is a function
/// of the pattern. After that it fails only where the compiled form is too big.
/// For which patterns it is so is left open: the limit is counted in bytes of
/// memory, which differ between machines.
#[verifier::external_body]
fn compiled(pattern: &str) -> (regex: Result<ReleaseRegex, InvalidRegex>)
    ensures
        regex matches Ok(regex) ==> regex.pattern() == pattern@,
        (regex matches Err(e) && e is Syntax) <==> !is_regex(pattern@),
{
    match regex::Regex::new(pattern) {
        Ok(regex) => Ok(ReleaseRegex { pattern: pattern.to_string(), regex }),
        Err(regex::Error::CompiledTooBig(_)) => Err(InvalidRegex::TooBig),
        Err(_) => Err(InvalidRegex::Syntax),
    }
}

/// Calls `regex::Regex::is_match` on the compiled form: its answer is a
/// function of the pattern and of the text.
#[verifier::external_body]
fn matches_in(regex: &ReleaseRegex, text: &str) -> (matched: bool)
    ensures
        matched == regex_is_match(regex.pattern(), text@),
{
    regex.regex.is_match(text)
}

/// A tag marks a release but bears no semantic version.
#[derive(Debug, Clone, Copy, PartialEq, Eq, Structural)]
pub struct NoVersion {}

/// Some tag that is accepted bears no version.
pub open spec fn lacks_version(tags: Seq<String>, accepted: Seq<bool>) -> bool {
    exists|k: int| 0 <= k < tags.len() && accepted[k] && !bears_version((#[trigger] tags[k])@)
}

/// `i` is the tag with the greatest version of those that are accepted. Where
/// several bear it, `i` is the first of them.
pub open spec fn is_latest(tags: Seq<String>, accepted: Seq<bool>, i: int) -> bool {
    &&& 0 <= i < tags.len()
    &&& accepted[i]
    &&& bears_version(tags[i]@)
    &&& forall|k: int|
        0 <= k < tags.len() && accepted[k] ==> !version_of(tags[i]@).is_older(
            version_of((#[trigger] tags[k])@),
        )
    &&& forall|k: int|
        0 <= k < i && accepted[k] ==> version_of((#[trigger] tags[k])@).is_older(
            version_of(tags[i]@),
        )
}

/// Of the tags that are accepted, the one with the greatest version, where
/// `accepted[i]` says of `tags[i]` whether it is. Each of them has to bear a version.
pub fn latest_accepted(tags: &Vec<String>, accepted: &Vec<bool>) -> (tag: Result<
    Option<String>,
    NoVersion,
>)
    requires
        accepted@.len() == tags@.len(),
    ensures
        tag is Err <==> lacks_version(tags@, accepted@),
        tag == Ok::<Option<String>, NoVersion>(None) <==> forall|k: int|
            0 <= k < accepted@.len() ==> !#[trigger] accepted@[k],
        tag matches Ok(Some(tag)) ==> exists|i: int| #[trigger]
            is_latest(tags@, accepted@, i) && tag@ == tags@[i]@,
{
    let mut best: Option<(usize, TagVersion<String>)> = None;
    let mut i: usize = 0;
    while i < tags.len()
        invariant
            i <= tags.len(),
            accepted@.len() == tags@.len(),
            !lacks_version(tags@.take(i as int), accepted@.take(i as int)),
            best is None ==> forall|k: int| 0 <= k < i ==> !#[trigger] accepted@[k],
            best matches Some((at, version)) ==> {
                &&& at < i
                &&& version@.is_valid()
                &&& version@ == version_of(tags@[at as int]@)
                &&& is_latest(tags@.take(i as int), accepted@.take(i as int), at as int)
            },
        decreases tags.len() - i,
    {
        let ghost before = tags@.take(i as int);
        let ghost after = tags@.take(i + 1);
        let ghost said = accepted@.take(i as int);
        let ghost says = accepted@.take(i + 1);
        proof {
            assert forall|k: int| 0 <= k < i implies before[k] == #[trigger] after[k] && said[k]
                == says[k] by {}
        }
        if accepted[i] {
            match tag_version(tags[i].as_str()) {
                None => {
                    assert(!bears_version(tags@[i as int]@));
                    return Err(NoVersion {  });
                },
                Some(version) => {
                    let newer: bool = match &best {
                        Some((_, known)) => older(known, &version),
                        None => true,
                    };
                    proof {
                        assert forall|k: int|
                            0 <= k < after.len() && says[k] implies bears_version(
                            (#[trigger] after[k])@,
                        ) by {
                            if k < i {
                                assert(before[k] == after[k]);
                            }
                        }
                        assert forall|k: int| 0 <= k < i && says[k] implies version_of(
                            (#[trigger] after[k])@,
                        ).is_valid() by {
                            version_is_valid(after[k]@);
                        }
                    }
                    if newer {
                        proof {
                            if best is Some {
                                let at = best->Some_0.0 as int;
                                let known = best->Some_0.1@;
                                assert(known.is_older(version@));
                                assert forall|k: int|
                                    0 <= k < i && says[k] implies !version@.is_older(
                                    version_of((#[trigger] after[k])@),
                                ) && version_of(after[k]@).is_older(version@) by {
                                    assert(before[k] == after[k]);
                                    assert(!known.is_older(version_of(before[k]@)));
                                }
                            }
                            assert(after[i as int] == tags@[i as int]);
                            assert(is_latest(after, says, i as int));
                        }
                        best = Some((i, version));
                    } else {
                        proof {
                            let at = best->Some_0.0 as int;
                            assert(before[at] == after[at]);
                            assert forall|k: int| 0 <= k < after.len() && says[k] implies !version_of(
                                after[at]@,
                            ).is_older(version_of((#[trigger] after[k])@)) by {
                                if k < i {
                                    assert(before[k] == after[k]);
                                }
                            }
                            assert forall|k: int| 0 <= k < at && says[k] implies version_of(
                                (#[trigger] after[k])@,
                            ).is_older(version_of(after[at]@)) by {
                                assert(before[k] == after[k]);
                            }
                            assert(is_latest(after, says, at));
                        }
                    }
                },
            }
        } else {
            proof {
                assert forall|k: int| 0 <= k < after.len() && says[k] implies k < i && before[k]
                    == #[trigger] after[k] by {}
                if best is Some {
                    let at = best->Some_0.0 as int;
                    assert(before[at] == after[at]);
                    assert(is_latest(after, says, at));
                }
            }
        }
        i = i + 1;
    }
    proof {
        assert(tags@.take(tags@.len() as int) =~= tags@);
        assert(accepted@.take(accepted@.len() as int) =~= accepted@);
    }
    match best {
        Some((at, _)) => {
            assert(is_latest(tags@, accepted@, at as int));
            Ok(Some(tags[at].clone()))
        },
        None => Ok(None),
    }
}

/// Which tags the pattern matches.
pub open spec fn accepted_by(pattern: Seq<char>, tags: Seq<String>) -> Seq<bool> {
    tags.map_values(|tag: String| regex_is_match(pattern, tag@))
}

/// Some tag that the pattern matches bears no version.
pub open spec fn release_lacks_version(pattern: Seq<char>, tags: Seq<String>) -> bool {
    exists|k: int|
        0 <= k < tags.len() && regex_is_match(pattern, (#[trigger] tags[k])@) && !bears_version(
            tags[k]@,
        )
}

/// `i` is the release tag: of the tags that the pattern matches, the one with
/// the greatest version, and the first of them where several bear it.
pub open spec fn is_release_tag(pattern: Seq<char>, tags: Seq<String>, i: int) -> bool {
    is_latest(tags, accepted_by(pattern, tags), i)
}

/// The release tag: of the tags that the pattern matches, the one with the
/// greatest version. Each tag that the pattern matches has to bear a version.
pub fn find_release_tag(regex: &ReleaseRegex, tags: &Vec<String>) -> (tag: Result<
    Option<String>,
    NoVersion,
>)
    ensures
        tag is Err <==> release_lacks_version(regex.pattern(), tags@),
        tag == Ok::<Option<String>, NoVersion>(None) <==> forall|i: int|
            0 <= i < tags@.len() ==> !regex_is_match(regex.pattern(), #[trigger] tags@[i]@),
        tag matches Ok(Some(tag)) ==> exists|i: int| #[trigger]
            is_release_tag(regex.pattern(), tags@, i) && tag@ == tags@[i]@,
{
    let mut accepted: Vec<bool> = Vec::new();
    let mut i: usize = 0;
    while i < tags.len()
        invariant
            i <= tags.len(),
            accepted@ == accepted_by(regex.pattern(), tags@).take(i as int),
        decreases tags.len() - i,
    {
        accepted.push(regex.is_match(tags[i].as_str()));
        i = i + 1;
        assert(accepted@ =~= accepted_by(regex.pattern(), tags@).take(i as int));
    }
    assert(accepted@ =~= accepted_by(regex.pattern(), tags@));
    proof {
        assert forall|k: int| 0 <= k < tags@.len() implies accepted@[k] == regex_is_match(
            regex.pattern(),
            #[trigger] tags@[k]@,
        ) by {}
    }
    let tag = latest_accepted(tags, &accepted);
    proof {
        assert(lacks_version(tags@, accepted@) == release_lacks_version(regex.pattern(), tags@));
        if tag == Ok::<Option<String>, NoVersion>(None) {
            assert forall|k: int| 0 <= k < tags@.len() implies !regex_is_match(
                regex.pattern(),
                #[trigger] tags@[k]@,
            ) by {
                assert(!accepted@[k]);
            }
        } else if tag is Ok {
            let k = choose|k: int| #[trigger]
                is_latest(tags@, accepted@, k) && tag->Ok_0->Some_0@ == tags@[k]@;
            assert(is_release_tag(regex.pattern(), tags@, k));
            assert(regex_is_match(regex.pattern(), tags@[k]@));
        }
    }
    tag
}

/// The order in which the tags are listed does not decide which release is
/// found: of two lists with the same tags, neither has a release tag with a
/// greater version than the other.
pub proof fn order_of_tags_does_not_matter(
    pattern: Seq<char>,
    tags: Seq<String>,
    others: Seq<String>,
    i: int,
    j: int,
)
    requires
        forall|tag: String| #[trigger] tags.contains(tag) <==> others.contains(tag),
        is_release_tag(pattern, tags, i),
        is_release_tag(pattern, others, j),
    ensures
        !version_of(tags[i]@).is_older(version_of(others[j]@)),
        !version_of(others[j]@).is_older(version_of(tags[i]@)),
{
    assert(tags.contains(tags[i]));
    assert(others.contains(others[j]));
    assert(tags.contains(others[j]));
    let k = choose|k: int| 0 <= k < others.len() && others[k] == tags[i];
    let l = choose|l: int| 0 <= l < tags.len() && tags[l] == others[j];
    assert(accepted_by(pattern, others)[k]);
    assert(accepted_by(pattern, tags)[l]);
    assert(others[k] == tags[i] && tags[l] == others[j]);
}

/// The release tag stays the release tag when a tag is added, unless that one
/// marks a release with a greater version.
pub proof fn release_stays_until_a_newer_one(
    pattern: Seq<char>,
    tags: Seq<String>,
    i: int,
    added: String,
)
    requires
        is_release_tag(pattern, tags, i),
        regex_is_match(pattern, added@) ==> bears_version(added@),
    ensures
        is_release_tag(pattern, tags.push(added), i) <==> !(regex_is_match(pattern, added@)
            && version_of(tags[i]@).is_older(version_of(added@))),
{
    let more = tags.push(added);
    let said = accepted_by(pattern, tags);
    let says = accepted_by(pattern, more);
    let n = tags.len() as int;
    assert(more[n] == added);
    assert(says[n] == regex_is_match(pattern, added@));
    assert forall|k: int| 0 <= k < n implies #[trigger] more[k] == tags[k] && says[k]
        == said[k] by {}
    if !(regex_is_match(pattern, added@) && version_of(tags[i]@).is_older(version_of(added@))) {
        assert forall|k: int| 0 <= k < more.len() && says[k] implies !version_of(
            more[i]@,
        ).is_older(version_of((#[trigger] more[k])@)) by {
            if k < n {
                assert(more[k] == tags[k]);
            }
        }
        assert forall|k: int| 0 <= k < i && says[k] implies version_of(
            (#[trigger] more[k])@,
        ).is_older(version_of(more[i]@)) by {
            assert(more[k] == tags[k]);
        }
    }
}

/// A tag that is accepted and bears no version is missing it wherever in the
/// list it stands; and where every accepted tag bears one, none is missing.
pub proof fn every_accepted_tag_needs_a_version(tags: Seq<String>, accepted: Seq<bool>, k: int)
    ensures
        0 <= k < tags.len() && accepted[k] && !bears_version(tags[k]@) ==> lacks_version(
            tags,
            accepted,
        ),
        (forall|i: int|
            0 <= i < tags.len() && accepted[i] ==> bears_version((#[trigger] tags[i])@))
            ==> !lacks_version(tags, accepted),
{
}

/// Each tag that the pattern matches needs a version: of two lists, one after
/// the other, one lacks it exactly if one of either list does.
pub proof fn every_release_needs_a_version(
    pattern: Seq<char>,
    first: Seq<String>,
    second: Seq<String>,
    tag: String,
)
    ensures
        release_lacks_version(pattern, first + second) <==> release_lacks_version(pattern, first)
            || release_lacks_version(pattern, second),
        release_lacks_version(pattern, seq![tag]) <==> regex_is_match(pattern, tag@)
            && !bears_version(tag@),
        !release_lacks_version(pattern, Seq::empty()),
{
    let all = first + second;
    if release_lacks_version(pattern, all) {
        let k = choose|k: int|
            0 <= k < all.len() && regex_is_match(pattern, (#[trigger] all[k])@) && !bears_version(
                all[k]@,
            );
        if k < first.len() {
            assert(first[k] == all[k]);
        } else {
            assert(second[k - first.len()] == all[k]);
        }
    }
    if release_lacks_version(pattern, first) {
        let k = choose|k: int|
            0 <= k < first.len() && regex_is_match(pattern, (#[trigger] first[k])@)
                && !bears_version(first[k]@);
        assert(all[k] == first[k]);
    }
    if release_lacks_version(pattern, second) {
        let k = choose|k: int|
            0 <= k < second.len() && regex_is_match(pattern, (#[trigger] second[k])@)
                && !bears_version(second[k]@);
        assert(all[k + first.len()] == second[k]);
    }
    assert(seq![tag][0] == tag);
}

/// The release tag marks a release and bears a version, and no tag that marks a
/// release bears a greater one, before it or behind it; one before it bears a
/// lesser one.
pub proof fn no_release_exceeds_the_release_tag(
    pattern: Seq<char>,
    tags: Seq<String>,
    i: int,
    k: int,
)
    requires
        is_release_tag(pattern, tags, i),
        0 <= k < tags.len(),
        regex_is_match(pattern, tags[k]@),
    ensures
        0 <= i < tags.len(),
        regex_is_match(pattern, tags[i]@),
        bears_version(tags[i]@),
        !version_of(tags[i]@).is_older(version_of(tags[k]@)),
        k < i ==> version_of(tags[k]@).is_older(version_of(tags[i]@)),
{
    assert(accepted_by(pattern, tags)[k]);
    assert(accepted_by(pattern, tags)[i]);
}

/// A tag that marks a release and bears a version is the release tag if every
/// other one that marks a release bears an older version.
pub proof fn tag_that_exceeds_all_is_the_release_tag(pattern: Seq<char>, tags: Seq<String>, i: int)
    requires
        0 <= i < tags.len(),
        regex_is_match(pattern, tags[i]@),
        bears_version(tags[i]@),
        !version_of(tags[i]@).is_older(version_of(tags[i]@)),
        forall|k: int|
            0 <= k < tags.len() && k != i && regex_is_match(pattern, (#[trigger] tags[k])@) ==> {
                &&& version_of(tags[k]@).is_older(version_of(tags[i]@))
                &&& !version_of(tags[i]@).is_older(version_of(tags[k]@))
            },
    ensures
        is_release_tag(pattern, tags, i),
{
    assert(accepted_by(pattern, tags)[i]);
    assert forall|k: int| 0 <= k < tags.len() && accepted_by(pattern, tags)[k] implies !version_of(
        tags[i]@,
    ).is_older(version_of((#[trigger] tags[k])@)) by {
        assert(regex_is_match(pattern, tags[k]@));
    }
    assert forall|k: int| 0 <= k < i && accepted_by(pattern, tags)[k] implies version_of(
        (#[trigger] tags[k])@,
    ).is_older(version_of(tags[i]@)) by {
        assert(regex_is_match(pattern, tags[k]@));
    }
}

/// There is one release tag.
pub proof fn release_tag_is_one(pattern: Seq<char>, tags: Seq<String>, i: int, j: int)
    requires
        is_release_tag(pattern, tags, i),
        is_release_tag(pattern, tags, j),
    ensures
        i == j,
{
    assert(tags[i] == tags[i] && tags[j] == tags[j]);
    if i < j {
        assert(version_of(tags[i]@).is_older(version_of(tags[j]@)));
    }
    if j < i {
        assert(version_of(tags[j]@).is_older(version_of(tags[i]@)));
    }
}

/// The accepted tag with the greatest version is accepted and bears a version,
/// and no accepted tag bears a greater one.
pub proof fn no_accepted_tag_exceeds_the_latest(
    tags: Seq<String>,
    accepted: Seq<bool>,
    i: int,
    k: int,
)
    requires
        is_latest(tags, accepted, i),
        0 <= k < tags.len(),
        accepted[k],
    ensures
        0 <= i < tags.len(),
        accepted[i],
        bears_version(tags[i]@),
        !version_of(tags[i]@).is_older(version_of(tags[k]@)),
        k < i ==> version_of(tags[k]@).is_older(version_of(tags[i]@)),
{
    assert(tags[k] == tags[k]);
}

/// A tag is accepted exactly if the pattern matches it.
pub proof fn accepted_are_those_that_match(pattern: Seq<char>, tags: Seq<String>, i: int)
    requires
        0 <= i < tags.len(),
    ensures
        accepted_by(pattern, tags).len() == tags.len(),
        accepted_by(pattern, tags)[i] == regex_is_match(pattern, tags[i]@),
{
}

} // verus!

//! The semantic version that a tag bears.
use cargo_metadata::semver::BuildMetadata;
use cargo_metadata::semver::Prerelease;
use cargo_metadata::semver::Version;
use vstd::prelude::*;

verus! {

/// A semantic version, as a tag bears it. `S` is the type of its texts.
#[derive(Debug, PartialEq, Eq)]
pub struct TagVersion<S> {
    /// The major number.
    pub major: u64,
    /// The minor number.
    pub minor: u64,
    /// The patch number.
    pub patch: u64,
    /// The pre-release identifiers. Empty for an ordinary release.
    pub pre: S,
    /// The build metadata. Empty if there is none.
    pub build: S,
}

impl View for TagVersion<String> {
    type V = TagVersion<Seq<char>>;

    open spec fn view(&self) -> TagVersion<Seq<char>> {
        TagVersion {
            major: self.major,
            minor: self.minor,
            patch: self.patch,
            pre: self.pre@,
            build: self.build@,
        }
    }
}

/// A decimal digit.
pub open spec fn is_digit(c: char) -> bool {
    '0' <= c <= '9'
}

/// The digit of a number below ten.
pub open spec fn digit(n: nat) -> char {
    ('0' as int + n) as char
}

/// A number in decimal digits, without leading zeros.
pub open spec fn decimal(n: nat) -> Seq<char>
    decreases n,
{
    if n < 10 {
        seq![digit(n)]
    } else {
        decimal(n / 10).push(digit(n % 10))
    }
}

/// A character that an identifier can have: a letter, a digit or a hyphen, in ASCII.
pub open spec fn is_identifier_char(c: char) -> bool {
    is_digit(c) || 'a' <= c <= 'z' || 'A' <= c <= 'Z' || c == '-'
}

/// The part from `i` to `j` is one of those that dots divide the text into.
pub open spec fn is_segment(text: Seq<char>, i: int, j: int) -> bool {
    &&& 0 <= i <= j <= text.len()
    &&& i == 0 || text[i - 1] == '.'
    &&& j == text.len() || text[j] == '.'
    &&& forall|k: int| i <= k < j ==> #[trigger] text[k] != '.'
}

/// Identifiers with dots between them, none of them empty.
pub open spec fn are_identifiers(text: Seq<char>) -> bool {
    &&& forall|k: int|
        0 <= k < text.len() ==> is_identifier_char(#[trigger] text[k]) || text[k] == '.'
    &&& forall|i: int, j: int| #[trigger] is_segment(text, i, j) ==> i < j
}

/// No identifier is a number that begins with a needless zero.
pub open spec fn has_no_leading_zero(text: Seq<char>) -> bool {
    forall|i: int, j: int| #[trigger]
        is_segment(text, i, j) && i + 1 < j && (forall|k: int|
            i <= k < j ==> is_digit(#[trigger] text[k])) ==> text[i] != '0'
}

/// A text behind a mark, or nothing where there is no text.
pub open spec fn marked(mark: char, text: Seq<char>) -> Seq<char> {
    if text.len() == 0 {
        text
    } else {
        seq![mark] + text
    }
}

impl TagVersion<Seq<char>> {
    /// The parts are what a semantic version can have.
    pub open spec fn is_valid(self) -> bool {
        &&& self.pre.len() > 0 ==> are_identifiers(self.pre) && has_no_leading_zero(self.pre)
        &&& self.build.len() > 0 ==> are_identifiers(self.build)
    }

    /// What stands behind the three numbers.
    pub open spec fn suffix(self) -> Seq<char> {
        marked('-', self.pre) + marked('+', self.build)
    }

    /// The version as it is written.
    pub open spec fn text(self) -> Seq<char> {
        decimal(self.major as nat) + (seq!['.'] + (decimal(self.minor as nat) + (seq!['.'] + (
        decimal(self.patch as nat) + self.suffix()))))
    }

    /// Whether the version is older than another: the numbers decide from left
    /// to right, and a pre-release is older than the release with its numbers.
    pub open spec fn is_older(self, other: Self) -> bool {
        if self.major != other.major {
            self.major < other.major
        } else if self.minor != other.minor {
            self.minor < other.minor
        } else if self.patch != other.patch {
            self.patch < other.patch
        } else if self.suffix_decides(other) {
            suffix_is_older(self.pre, self.build, other.pre, other.build)
        } else {
            self.pre.len() > 0 && other.pre.len() == 0
        }
    }

    /// Two versions have the same numbers, both or neither are pre-releases,
    /// and they still differ.
    pub open spec fn suffix_decides(self, other: Self) -> bool {
        &&& self.major == other.major && self.minor == other.minor && self.patch == other.patch
        &&& self.pre.len() == 0 <==> other.pre.len() == 0
        &&& self.pre != other.pre || self.build != other.build
    }
}

/// Whether the first of two versions with the same numbers is less than the
/// second, by pre-release identifiers and then by build metadata: what `<` says
/// of two `semver::Version`s.
pub uninterp spec fn suffix_is_older(
    pre: Seq<char>,
    build: Seq<char>,
    other_pre: Seq<char>,
    other_build: Seq<char>,
) -> bool;

/// The text is the written form of a version.
pub open spec fn is_version_text(text: Seq<char>) -> bool {
    exists|v: TagVersion<Seq<char>>| v.is_valid() && #[trigger] v.text() == text
}

/// Calls `semver::Version::parse` and takes the parts of the version: it accepts
/// exactly the texts that are the written form of a semantic version.
#[verifier::external_body]
fn parse_version(text: &str) -> (version: Option<TagVersion<String>>)
    ensures
        version is Some <==> is_version_text(text@),
        version matches Some(parsed) ==> parsed@.is_valid() && parsed@.text() == text@,
{
    Version::parse(text).ok().map(|version| TagVersion {
        major: version.major,
        minor: version.minor,
        patch: version.patch,
        pre: version.pre.to_string(),
        build: version.build.to_string(),
    })
}

/// Calls `<` on two `semver::Version`s with these parts, which is the order of
/// versions. It is a total order, so whatever is newer than the second version
/// is newer than the first if that is older, and whatever is not newer than the
/// first is then older than the second.
#[verifier::external_body]
pub(crate) fn older(a: &TagVersion<String>, b: &TagVersion<String>) -> (older: bool)
    requires
        a@.is_valid(),
        b@.is_valid(),
    ensures
        a@.suffix_decides(b@) ==> older == suffix_is_older(a@.pre, a@.build, b@.pre, b@.build),
        older == a@.is_older(b@),
        older ==> forall|c: TagVersion<Seq<char>>| #[trigger]
            b@.is_older(c) && c.is_valid() ==> a@.is_older(c),
        older ==> forall|c: TagVersion<Seq<char>>|
            !#[trigger] a@.is_older(c) && c.is_valid() ==> c.is_older(b@),
{
    let pre = Prerelease::new(&a.pre).unwrap();
    let build = BuildMetadata::new(&a.build).unwrap();
    let first = Version { major: a.major, minor: a.minor, patch: a.patch, pre, build };
    let pre = Prerelease::new(&b.pre).unwrap();
    let build = BuildMetadata::new(&b.build).unwrap();
    first < Version { major: b.major, minor: b.minor, patch: b.patch, pre, build }
}

/// The part of the tag from `i` to `j` is the version `v`.
pub open spec fn holds_version(tag: Seq<char>, i: int, j: int, v: TagVersion<Seq<char>>) -> bool {
    &&& 0 <= i <= j <= tag.len()
    &&& v.is_valid()
    &&& v.text() == tag.subrange(i, j)
}

/// The part of the tag from `i` to `j` is a version.
pub open spec fn is_version_at(tag: Seq<char>, i: int, j: int) -> bool {
    exists|v: TagVersion<Seq<char>>| #[trigger] holds_version(tag, i, j, v)
}

/// Somewhere in the tag there is a version.
pub open spec fn bears_version(tag: Seq<char>) -> bool {
    exists|i: int, j: int| #[trigger] is_version_at(tag, i, j)
}

/// The version that the tag bears is from `i` to `j`: none begins further to
/// the left, and none that begins there is longer.
pub open spec fn is_first_version(tag: Seq<char>, i: int, j: int) -> bool {
    &&& is_version_at(tag, i, j)
    &&& forall|a: int, b: int| a < i ==> !#[trigger] is_version_at(tag, a, b)
    &&& forall|b: int| b > j ==> !#[trigger] is_version_at(tag, i, b)
}

/// `v` is the version that the tag bears.
pub open spec fn is_version_of(tag: Seq<char>, v: TagVersion<Seq<char>>) -> bool {
    exists|i: int, j: int| #[trigger] is_first_version(tag, i, j) && holds_version(tag, i, j, v)
}

/// The version that a tag bears.
pub open spec fn version_of(tag: Seq<char>) -> TagVersion<Seq<char>>
    recommends
        bears_version(tag),
{
    choose|v: TagVersion<Seq<char>>| #[trigger] is_version_of(tag, v)
}

proof fn decimal_is_digits(n: nat)
    ensures
        decimal(n).len() > 0,
        forall|k: int| 0 <= k < decimal(n).len() ==> is_digit(#[trigger] decimal(n)[k]),
    decreases n,
{
    if n >= 10 {
        decimal_is_digits(n / 10);
    }
}

proof fn decimal_is_one_number(a: nat, b: nat)
    requires
        decimal(a) == decimal(b),
    ensures
        a == b,
    decreases a,
{
    decimal_is_digits(a / 10);
    decimal_is_digits(b / 10);
    assert(decimal(a).last() == digit(a % 10));
    assert(decimal(b).last() == digit(b % 10));
    assert(digit(a % 10) as int == '0' as int + a % 10);
    assert(digit(b % 10) as int == '0' as int + b % 10);
    if a < 10 {
        assert(decimal(b).len() == 1);
    } else {
        assert(decimal(b).len() > 1);
        assert(decimal(a).drop_last() =~= decimal(a / 10));
        assert(decimal(b).drop_last() =~= decimal(b / 10));
        decimal_is_one_number(a / 10, b / 10);
    }
}

/// A text can be divided in one way only into a part that is all of one kind
/// and a rest that does not begin with that kind.
proof fn one_division(
    kind: spec_fn(char) -> bool,
    a: Seq<char>,
    rest_a: Seq<char>,
    b: Seq<char>,
    rest_b: Seq<char>,
)
    requires
        a + rest_a == b + rest_b,
        forall|k: int| 0 <= k < a.len() ==> kind(#[trigger] a[k]),
        forall|k: int| 0 <= k < b.len() ==> kind(#[trigger] b[k]),
        rest_a.len() > 0 ==> !kind(rest_a[0]),
        rest_b.len() > 0 ==> !kind(rest_b[0]),
    ensures
        a == b,
        rest_a == rest_b,
{
    let all = a + rest_a;
    assert(all.len() == b.len() + rest_b.len());
    if a.len() < b.len() {
        assert(all[a.len() as int] == rest_a[0]);
        assert((b + rest_b)[a.len() as int] == b[a.len() as int]);
    }
    if b.len() < a.len() {
        assert((b + rest_b)[b.len() as int] == rest_b[0]);
        assert(all[b.len() as int] == a[b.len() as int]);
    }
    assert(a =~= all.take(a.len() as int));
    assert(b =~= (b + rest_b).take(b.len() as int));
    assert(rest_a =~= all.skip(a.len() as int));
    assert(rest_b =~= (b + rest_b).skip(b.len() as int));
}

proof fn one_number_first(a: nat, rest_a: Seq<char>, b: nat, rest_b: Seq<char>)
    requires
        decimal(a) + rest_a == decimal(b) + rest_b,
        rest_a.len() > 0 ==> !is_digit(rest_a[0]),
        rest_b.len() > 0 ==> !is_digit(rest_b[0]),
    ensures
        a == b,
        rest_a == rest_b,
{
    decimal_is_digits(a);
    decimal_is_digits(b);
    one_division(|c: char| is_digit(c), decimal(a), rest_a, decimal(b), rest_b);
    decimal_is_one_number(a, b);
}

proof fn one_marked(mark: char, a: Seq<char>, b: Seq<char>)
    requires
        marked(mark, a) == marked(mark, b),
    ensures
        a == b,
{
    assert(marked(mark, a).len() == marked(mark, b).len());
    if a.len() > 0 {
        assert(a =~= marked(mark, a).skip(1));
        assert(b =~= marked(mark, b).skip(1));
    }
}

proof fn pre_has_no_plus(v: TagVersion<Seq<char>>)
    requires
        v.is_valid(),
    ensures
        forall|k: int| 0 <= k < marked('-', v.pre).len() ==> #[trigger] marked('-', v.pre)[k] != '+',
{
    assert forall|k: int| 0 <= k < marked('-', v.pre).len() implies #[trigger] marked(
        '-',
        v.pre,
    )[k] != '+' by {
        if k > 0 {
            assert(marked('-', v.pre)[k] == v.pre[k - 1]);
        }
    }
}

/// A text is the written form of at most one version.
pub proof fn text_is_one_version(a: TagVersion<Seq<char>>, b: TagVersion<Seq<char>>)
    requires
        a.is_valid(),
        b.is_valid(),
        a.text() == b.text(),
    ensures
        a == b,
{
    let patch_a = decimal(a.patch as nat) + a.suffix();
    let patch_b = decimal(b.patch as nat) + b.suffix();
    let minor_a = decimal(a.minor as nat) + (seq!['.'] + patch_a);
    let minor_b = decimal(b.minor as nat) + (seq!['.'] + patch_b);
    one_number_first(a.major as nat, seq!['.'] + minor_a, b.major as nat, seq!['.'] + minor_b);
    assert((seq!['.'] + minor_a).skip(1) =~= minor_a);
    assert((seq!['.'] + minor_b).skip(1) =~= minor_b);
    one_number_first(a.minor as nat, seq!['.'] + patch_a, b.minor as nat, seq!['.'] + patch_b);
    assert((seq!['.'] + patch_a).skip(1) =~= patch_a);
    assert((seq!['.'] + patch_b).skip(1) =~= patch_b);
    one_number_first(a.patch as nat, a.suffix(), b.patch as nat, b.suffix());
    pre_has_no_plus(a);
    pre_has_no_plus(b);
    one_division(
        |c: char| c != '+',
        marked('-', a.pre),
        marked('+', a.build),
        marked('-', b.pre),
        marked('+', b.build),
    );
    one_marked('-', a.pre, b.pre);
    one_marked('+', a.build, b.build);
}

/// A tag bears at most one version.
pub proof fn tag_bears_one_version(tag: Seq<char>, v: TagVersion<Seq<char>>)
    requires
        is_version_of(tag, v),
    ensures
        version_of(tag) == v,
        bears_version(tag),
{
    let w = version_of(tag);
    assert(is_version_of(tag, w));
    let (i, j) = choose|i: int, j: int| #[trigger]
        is_first_version(tag, i, j) && holds_version(tag, i, j, v);
    let (a, b) = choose|a: int, b: int| #[trigger]
        is_first_version(tag, a, b) && holds_version(tag, a, b, w);
    assert(is_version_at(tag, i, j));
    assert(is_version_at(tag, a, b));
    assert(a == i);
    assert(b == j);
    text_is_one_version(v, w);
}

proof fn version_begins_with_a_digit(tag: Seq<char>, i: int, j: int)
    requires
        is_version_at(tag, i, j),
    ensures
        0 <= i < j <= tag.len(),
        is_digit(tag[i]),
{
    let v = choose|v: TagVersion<Seq<char>>| #[trigger] holds_version(tag, i, j, v);
    decimal_is_digits(v.major as nat);
    assert(v.text().len() > 0);
    assert(tag.subrange(i, j).len() == j - i);
    assert(v.text()[0] == decimal(v.major as nat)[0]);
    assert(tag.subrange(i, j)[0] == tag[i]);
}

/// A tag without a digit bears no version.
pub proof fn tag_without_digit_bears_no_version(tag: Seq<char>)
    requires
        forall|k: int| 0 <= k < tag.len() ==> !is_digit(#[trigger] tag[k]),
    ensures
        !bears_version(tag),
{
    if bears_version(tag) {
        let (i, j) = choose|i: int, j: int| #[trigger] is_version_at(tag, i, j);
        version_begins_with_a_digit(tag, i, j);
    }
}

/// A tag that is made of a prefix without a digit and a version bears that version.
pub proof fn tag_bears_the_version_behind_its_prefix(
    prefix: Seq<char>,
    v: TagVersion<Seq<char>>,
)
    requires
        v.is_valid(),
        forall|k: int| 0 <= k < prefix.len() ==> !is_digit(#[trigger] prefix[k]),
    ensures
        bears_version(prefix + v.text()),
        version_of(prefix + v.text()) == v,
{
    let tag = prefix + v.text();
    let i = prefix.len() as int;
    let j = tag.len() as int;
    assert(tag.subrange(i, j) =~= v.text());
    assert(holds_version(tag, i, j, v));
    assert(is_version_at(tag, i, j));
    assert forall|a: int, b: int| a < i implies !#[trigger] is_version_at(tag, a, b) by {
        if is_version_at(tag, a, b) {
            version_begins_with_a_digit(tag, a, b);
            assert(tag[a] == prefix[a]);
        }
    }
    assert forall|b: int| b > j implies !#[trigger] is_version_at(tag, i, b) by {
        if is_version_at(tag, i, b) {
            version_begins_with_a_digit(tag, i, b);
        }
    }
    assert(is_first_version(tag, i, j));
    assert(is_version_of(tag, v));
    tag_bears_one_version(tag, v);
}

/// The version of a tag that bears one is a valid one, which the tag bears.
pub proof fn version_is_valid(tag: Seq<char>)
    requires
        bears_version(tag),
    ensures
        is_version_of(tag, version_of(tag)),
        version_of(tag).is_valid(),
{
    let (a, b) = choose|a: int, b: int| #[trigger] is_version_at(tag, a, b);
    let i = leftmost_version(tag, a, b);
    let j = longest_version(tag, i);
    let v = choose|v: TagVersion<Seq<char>>| #[trigger] holds_version(tag, i, j, v);
    assert(is_first_version(tag, i, j));
    assert(is_version_of(tag, v));
}

proof fn leftmost_version(tag: Seq<char>, a: int, b: int) -> (i: int)
    requires
        is_version_at(tag, a, b),
    ensures
        exists|j: int| #[trigger] is_version_at(tag, i, j),
        forall|c: int, d: int| c < i ==> !#[trigger] is_version_at(tag, c, d),
    decreases a,
{
    version_begins_with_a_digit(tag, a, b);
    if exists|c: int, d: int| c < a && #[trigger] is_version_at(tag, c, d) {
        let (c, d) = choose|c: int, d: int| c < a && #[trigger] is_version_at(tag, c, d);
        version_begins_with_a_digit(tag, c, d);
        leftmost_version(tag, c, d)
    } else {
        a
    }
}

proof fn longest_version(tag: Seq<char>, i: int) -> (j: int)
    requires
        exists|j: int| #[trigger] is_version_at(tag, i, j),
    ensures
        is_version_at(tag, i, j),
        forall|b: int| b > j ==> !#[trigger] is_version_at(tag, i, b),
{
    let j = choose|j: int| #[trigger] is_version_at(tag, i, j);
    longer_version(tag, i, j)
}

proof fn longer_version(tag: Seq<char>, i: int, at: int) -> (j: int)
    requires
        is_version_at(tag, i, at),
    ensures
        is_version_at(tag, i, j),
        forall|b: int| b > j ==> !#[trigger] is_version_at(tag, i, b),
    decreases tag.len() - at,
{
    version_begins_with_a_digit(tag, i, at);
    if exists|b: int| b > at && #[trigger] is_version_at(tag, i, b) {
        let b = choose|b: int| b > at && #[trigger] is_version_at(tag, i, b);
        version_begins_with_a_digit(tag, i, b);
        longer_version(tag, i, b)
    } else {
        at
    }
}

/// The longest version that begins at `i`.
fn version_at(tag: &str, len: usize, i: usize) -> (version: Option<TagVersion<String>>)
    requires
        len == tag@.len(),
        i < len,
        forall|a: int, b: int| a < i ==> !#[trigger] is_version_at(tag@, a, b),
    ensures
        version is None ==> forall|j: int| !#[trigger] is_version_at(tag@, i as int, j),
        version matches Some(v) ==> v@.is_valid() && is_version_of(tag@, v@),
{
    let mut j: usize = len;
    while j > i
        invariant
            len == tag@.len(),
            i <= j <= len,
            forall|b: int| b > j ==> !#[trigger] is_version_at(tag@, i as int, b),
            forall|a: int, b: int| a < i ==> !#[trigger] is_version_at(tag@, a, b),
        decreases j,
    {
        if let Some(version) = parse_version(tag.substring_char(i, j)) {
            proof {
                assert(holds_version(tag@, i as int, j as int, version@));
                assert(is_version_at(tag@, i as int, j as int));
                assert(is_first_version(tag@, i as int, j as int));
            }
            return Some(version);
        }
        proof {
            if is_version_at(tag@, i as int, j as int) {
                let v = choose|v: TagVersion<Seq<char>>| #[trigger]
                    holds_version(tag@, i as int, j as int, v);
                assert(v.text() == tag@.subrange(i as int, j as int));
            }
        }
        j = j - 1;
    }
    proof {
        assert forall|b: int| !#[trigger] is_version_at(tag@, i as int, b) by {
            if is_version_at(tag@, i as int, b) {
                version_begins_with_a_digit(tag@, i as int, b);
            }
        }
    }
    None
}

/// The version that a tag bears: the first one that is in it, as long as it is.
/// `None` if there is no version in the tag.
pub fn tag_version(tag: &str) -> (version: Option<TagVersion<String>>)
    ensures
        version is Some <==> bears_version(tag@),
        version matches Some(v) ==> v@.is_valid() && v@ == version_of(tag@),
{
    let len: usize = tag.unicode_len();
    let mut i: usize = 0;
    while i < len
        invariant
            len == tag@.len(),
            i <= len,
            forall|a: int, b: int| a < i ==> !#[trigger] is_version_at(tag@, a, b),
        decreases len - i,
    {
        let c: char = tag.get_char(i);
        if '0' <= c && c <= '9' {
            if let Some(version) = version_at(tag, len, i) {
                proof {
                    tag_bears_one_version(tag@, version@);
                }
                return Some(version);
            }
        }
        proof {
            assert forall|a: int, b: int| a < i + 1 implies !#[trigger] is_version_at(
                tag@,
                a,
                b,
            ) by {
                if is_version_at(tag@, a, b) {
                    version_begins_with_a_digit(tag@, a, b);
                }
            }
        }
        i = i + 1;
    }
    proof {
        if bears_version(tag@) {
            let (a, b) = choose|a: int, b: int| #[trigger] is_version_at(tag@, a, b);
            version_begins_with_a_digit(tag@, a, b);
        }
    }
    None
}

/// The first number in which two versions differ decides which is older,
/// whatever comes behind it; and of the same numbers a pre-release is older than
/// the release.
pub proof fn numbers_decide_from_left_to_right(
    a: TagVersion<Seq<char>>,
    b: TagVersion<Seq<char>>,
)
    ensures
        a.major < b.major ==> a.is_older(b) && !b.is_older(a),
        a.major == b.major && a.minor < b.minor ==> a.is_older(b) && !b.is_older(a),
        a.major == b.major && a.minor == b.minor && a.patch < b.patch ==> a.is_older(b)
            && !b.is_older(a),
        a.major == b.major && a.minor == b.minor && a.patch == b.patch && a.pre.len() > 0
            && b.pre.len() == 0 ==> a.is_older(b) && !b.is_older(a),
        !a.is_older(a),
{
}

/// Of any two different releases that have no build metadata one is older than
/// the other, and what is older than an older one is older.
pub proof fn releases_are_in_one_order(
    a: TagVersion<Seq<char>>,
    b: TagVersion<Seq<char>>,
    c: TagVersion<Seq<char>>,
)
    requires
        a.pre.len() == 0 && b.pre.len() == 0 && c.pre.len() == 0,
        a.build.len() == 0 && b.build.len() == 0 && c.build.len() == 0,
    ensures
        a.is_older(b) && b.is_older(c) ==> a.is_older(c),
        a != b ==> a.is_older(b) || b.is_older(a),
        !(a.is_older(b) && b.is_older(a)),
{
    assert(a.pre =~= b.pre && a.build =~= b.build);
    assert(a.pre =~= c.pre && a.build =~= c.build);
}

/// A number is written in decimal digits: its last digit is what is left over
/// from ten, and the others are the number without it.
pub proof fn numbers_are_written_in_decimal(n: nat, last: nat)
    requires
        last < 10,
    ensures
        decimal(last) == seq![('0' as int + last) as char],
        n > 0 ==> decimal(10 * n + last) == decimal(n).push(('0' as int + last) as char),
{
}

/// A release is written with its three numbers and a dot between each two, and
/// every such text is the written form of a version.
pub proof fn release_is_written_with_three_numbers(v: TagVersion<Seq<char>>)
    requires
        v.pre.len() == 0,
        v.build.len() == 0,
    ensures
        v.is_valid(),
        v.text() == decimal(v.major as nat) + seq!['.'] + decimal(v.minor as nat) + seq!['.']
            + decimal(v.patch as nat),
        is_version_text(v.text()),
{
    assert(v.text() =~= decimal(v.major as nat) + seq!['.'] + decimal(v.minor as nat) + seq!['.']
        + decimal(v.patch as nat));
}

/// A pre-release is written behind a hyphen and build metadata behind a plus,
/// after the three numbers.
pub proof fn parts_behind_the_numbers_are_marked(v: TagVersion<Seq<char>>)
    ensures
        ({
            let numbers = decimal(v.major as nat) + seq!['.'] + decimal(v.minor as nat) + seq!['.']
                + decimal(v.patch as nat);
            &&& v.pre.len() > 0 && v.build.len() == 0 ==> v.text() == numbers + seq!['-'] + v.pre
            &&& v.pre.len() == 0 && v.build.len() > 0 ==> v.text() == numbers + seq!['+'] + v.build
            &&& v.pre.len() > 0 && v.build.len() > 0 ==> v.text() == numbers + seq!['-'] + v.pre
                + seq!['+'] + v.build
        }),
{
    let numbers = decimal(v.major as nat) + seq!['.'] + decimal(v.minor as nat) + seq!['.']
        + decimal(v.patch as nat);
    assert(v.text() =~= numbers + v.suffix());
    if v.pre.len() > 0 && v.build.len() == 0 {
        assert(v.text() =~= numbers + seq!['-'] + v.pre);
    }
    if v.pre.len() == 0 && v.build.len() > 0 {
        assert(v.text() =~= numbers + seq!['+'] + v.build);
    }
    if v.pre.len() > 0 && v.build.len() > 0 {
        assert(v.text() =~= numbers + seq!['-'] + v.pre + seq!['+'] + v.build);
    }
}

/// The version that a tag bears stands in the tag as it is written.
pub proof fn version_stands_in_the_tag(tag: Seq<char>)
    requires
        bears_version(tag),
    ensures
        version_of(tag).is_valid(),
        exists|i: int, j: int|
            0 <= i < j <= tag.len() && version_of(tag).text() == #[trigger] tag.subrange(i, j),
{
    version_is_valid(tag);
    let v = version_of(tag);
    let (i, j) = choose|i: int, j: int| #[trigger]
        is_first_version(tag, i, j) && holds_version(tag, i, j, v);
    version_begins_with_a_digit(tag, i, j);
    assert(v.text() == tag.subrange(i, j));
}

/// Whatever stands around a version, a tag with a version in it bears one.
pub proof fn tag_around_a_version_bears_one(
    before: Seq<char>,
    v: TagVersion<Seq<char>>,
    after: Seq<char>,
)
    requires
        v.is_valid(),
    ensures
        bears_version(before + v.text() + after),
{
    let tag = before + v.text() + after;
    let i = before.len() as int;
    let j = before.len() + v.text().len();
    assert(tag.subrange(i, j as int) =~= v.text());
    assert(holds_version(tag, i, j as int, v));
    assert(is_version_at(tag, i, j as int));
}

proof fn version_behind(prefix: Seq<char>, tag: Seq<char>, i: int, j: int)
    ensures
        i >= 0 ==> is_version_at(prefix + tag, prefix.len() + i, prefix.len() + j) == is_version_at(
            tag,
            i,
            j,
        ),
{
    let n = prefix.len() as int;
    if 0 <= i <= j <= tag.len() {
        assert((prefix + tag).subrange(n + i, n + j) =~= tag.subrange(i, j));
    }
    if is_version_at(tag, i, j) {
        let v = choose|v: TagVersion<Seq<char>>| #[trigger] holds_version(tag, i, j, v);
        assert(holds_version(prefix + tag, n + i, n + j, v));
    }
    if i >= 0 && is_version_at(prefix + tag, n + i, n + j) {
        let v = choose|v: TagVersion<Seq<char>>| #[trigger]
            holds_version(prefix + tag, n + i, n + j, v);
        assert(holds_version(tag, i, j, v));
    }
}

/// A prefix without a digit changes neither whether a tag bears a version nor
/// which one.
pub proof fn prefix_without_digit_does_not_count(prefix: Seq<char>, tag: Seq<char>)
    requires
        forall|k: int| 0 <= k < prefix.len() ==> !is_digit(#[trigger] prefix[k]),
    ensures
        bears_version(prefix + tag) <==> bears_version(tag),
        bears_version(tag) ==> version_of(prefix + tag) == version_of(tag),
{
    let all = prefix + tag;
    let n = prefix.len() as int;
    assert forall|a: int, b: int| #[trigger] is_version_at(all, a, b) implies a >= n
        && is_version_at(tag, a - n, b - n) by {
        version_begins_with_a_digit(all, a, b);
        if a < n {
            assert(all[a] == prefix[a]);
        }
        version_behind(prefix, tag, a - n, b - n);
    }
    if bears_version(all) {
        let (a, b) = choose|a: int, b: int| #[trigger] is_version_at(all, a, b);
        assert(is_version_at(tag, a - n, b - n));
    }
    if bears_version(tag) {
        version_is_valid(tag);
        let v = version_of(tag);
        let (i, j) = choose|i: int, j: int| #[trigger]
            is_first_version(tag, i, j) && holds_version(tag, i, j, v);
        version_begins_with_a_digit(tag, i, j);
        version_behind(prefix, tag, i, j);
        assert(all.subrange(n + i, n + j) =~= tag.subrange(i, j));
        assert(holds_version(all, n + i, n + j, v));
        assert(is_version_at(all, n + i, n + j));
        assert(is_first_version(all, n + i, n + j));
        assert(is_version_of(all, v));
        tag_bears_one_version(all, v);
    }
}

proof fn chars_of_a_version(v: TagVersion<Seq<char>>, k: int)
    requires
        v.is_valid(),
        0 <= k < v.text().len(),
    ensures
        is_identifier_char(v.text()[k]) || v.text()[k] == '.' || v.text()[k] == '+',
{
    decimal_is_digits(v.major as nat);
    decimal_is_digits(v.minor as nat);
    decimal_is_digits(v.patch as nat);
    let a = decimal(v.major as nat).len() as int;
    let b = a + 1 + decimal(v.minor as nat).len();
    let c = b + 1 + decimal(v.patch as nat).len();
    let d = c + marked('-', v.pre).len();
    if k < a {
        assert(v.text()[k] == decimal(v.major as nat)[k]);
    } else if k == a {
        assert(v.text()[k] == '.');
    } else if k < b {
        assert(v.text()[k] == decimal(v.minor as nat)[k - a - 1]);
    } else if k == b {
        assert(v.text()[k] == '.');
    } else if k < c {
        assert(v.text()[k] == decimal(v.patch as nat)[k - b - 1]);
    } else if k < d {
        assert(v.text()[k] == marked('-', v.pre)[k - c]);
        if k > c {
            assert(v.text()[k] == v.pre[k - c - 1]);
        }
    } else {
        assert(v.text()[k] == marked('+', v.build)[k - d]);
        if k > d {
            assert(v.text()[k] == v.build[k - d - 1]);
        }
    }
}

/// A version ends where a character follows that no version has, so what stands
/// behind that does not count.
pub proof fn version_ends_at_a_foreign_character(
    prefix: Seq<char>,
    v: TagVersion<Seq<char>>,
    c: char,
    rest: Seq<char>,
)
    requires
        v.is_valid(),
        forall|k: int| 0 <= k < prefix.len() ==> !is_digit(#[trigger] prefix[k]),
        !(is_identifier_char(c) || c == '.' || c == '+'),
    ensures
        bears_version(prefix + v.text() + seq![c] + rest),
        version_of(prefix + v.text() + seq![c] + rest) == v,
{
    let tag = prefix + v.text() + seq![c] + rest;
    let i = prefix.len() as int;
    let j = i + v.text().len();
    assert(tag.subrange(i, j) =~= v.text());
    assert(holds_version(tag, i, j, v));
    assert(is_version_at(tag, i, j));
    assert(tag[j] == c);
    assert forall|a: int, b: int| a < i implies !#[trigger] is_version_at(tag, a, b) by {
        if is_version_at(tag, a, b) {
            version_begins_with_a_digit(tag, a, b);
            assert(tag[a] == prefix[a]);
        }
    }
    assert forall|b: int| b > j implies !#[trigger] is_version_at(tag, i, b) by {
        if is_version_at(tag, i, b) {
            let w = choose|w: TagVersion<Seq<char>>| #[trigger] holds_version(tag, i, b, w);
            assert(tag.subrange(i, b)[j - i] == tag[j]);
            chars_of_a_version(w, j - i);
        }
    }
    assert(is_first_version(tag, i, j));
    assert(is_version_of(tag, v));
    tag_bears_one_version(tag, v);
}

/// A version is seen with its own numbers and texts.
pub proof fn version_is_seen_as_it_is(v: TagVersion<String>)
    ensures
        v@.major == v.major && v@.minor == v.minor && v@.patch == v.patch,
        v@.pre == v.pre@ && v@.build == v.build@,
{
}

} // verus!

//! Commit identifiers and their hexadecimal form.
use vstd::prelude::*;

verus! {

/// Number of bytes in a commit identifier.
pub const ID_BYTES: usize = 20;

/// Number of hexadecimal digits in the full form of a commit identifier.
pub const ID_DIGITS: usize = 40;

/// The identifier of a git commit.
#[derive(Debug, Clone, Copy)]
pub struct CommitId {
    /// The raw identifier.
    pub bytes: [u8; 20],
}

/// Why a text is not a commit identifier.
#[derive(Debug)]
pub enum CommitError {
    /// The text is empty, has too many digits, or holds something that is not a
    /// digit. What the git library says of it is kept.
    NotAnId(git2::Error),
}

impl CommitError {
    /// What is said of the error.
    pub fn message(&self) -> (text: &'static str)
        ensures
            text@ == "convert commit sha to oid"@,
    {
        "convert commit sha to oid"
    }
}

/// A hexadecimal digit, in either case.
pub open spec fn is_hex_digit(c: char) -> bool {
    ||| '0' <= c <= '9'
    ||| 'a' <= c <= 'f'
    ||| 'A' <= c <= 'F'
}

/// The value of a hexadecimal digit.
pub open spec fn digit_value(c: char) -> int
    recommends
        is_hex_digit(c),
{
    if c <= '9' {
        c as int - '0' as int
    } else if c <= 'F' {
        c as int - 'A' as int + 10
    } else {
        c as int - 'a' as int + 10
    }
}

/// The lower-case hexadecimal digit of a value below sixteen.
pub open spec fn digit_of(value: int) -> char
    recommends
        0 <= value < 16,
{
    if value < 10 {
        ('0' as int + value) as char
    } else {
        ('a' as int + value - 10) as char
    }
}

/// A text that names a commit: at least one and at most forty hexadecimal digits.
pub open spec fn is_commit_text(text: Seq<char>) -> bool {
    &&& 1 <= text.len() <= ID_DIGITS
    &&& forall|i: int| 0 <= i < text.len() ==> is_hex_digit(#[trigger] text[i])
}

/// The value of the `i`th digit, where a short text is filled up with zeros on the right.
pub open spec fn padded_digit(text: Seq<char>, i: int) -> int {
    if i < text.len() {
        digit_value(text[i])
    } else {
        0
    }
}

/// `bytes` are the digits of `text`, two to a byte, high digit first.
pub open spec fn spells(text: Seq<char>, bytes: Seq<u8>) -> bool {
    &&& bytes.len() == ID_BYTES
    &&& forall|k: int|
        0 <= k < ID_BYTES ==> #[trigger] bytes[k] == 16 * padded_digit(text, 2 * k) + padded_digit(
            text,
            2 * k + 1,
        )
}

/// The full lower-case hexadecimal form of an identifier.
pub open spec fn hex_text(bytes: Seq<u8>) -> Seq<char> {
    Seq::new(
        2 * bytes.len(),
        |i: int|
            if i % 2 == 0 {
                digit_of(bytes[i / 2] as int / 16)
            } else {
                digit_of(bytes[i / 2] as int % 16)
            },
    )
}

/// The error of the git library.
#[verifier::external_type_specification]
#[verifier::external_body]
pub struct ExGitError(git2::Error);

/// Calls `git2::Oid::from_str` and takes the bytes of the identifier: it
/// accepts exactly the texts of one to forty hexadecimal digits of either case,
/// and fills a short one up with zeros.
#[verifier::external_body]
fn parse_oid(text: &str) -> (parsed: Result<[u8; 20], git2::Error>)
    ensures
        parsed is Ok <==> is_commit_text(text@),
        parsed matches Ok(bytes) ==> spells(text@, bytes@),
{
    git2::Oid::from_str(text).map(|oid| oid.as_bytes().try_into().unwrap())
}

/// Calls the `Display` of `git2::Oid`: two lower-case hexadecimal digits for
/// each byte.
#[verifier::external_body]
fn format_oid(bytes: &[u8; 20]) -> (text: String)
    ensures
        text@ == hex_text(bytes@),
{
    git2::Oid::from_bytes(bytes).unwrap().to_string()
}

impl CommitId {
    /// The identifier in full lower-case hexadecimal form.
    pub fn to_hex(&self) -> (text: String)
        ensures
            text@ == hex_text(self.bytes@),
    {
        format_oid(&self.bytes)
    }
}

/// The commit that has to be checked out when `commit_sha` is asked for.
pub fn checkout_commit(commit_sha: &str) -> (id: Result<CommitId, CommitError>)
    ensures
        id is Ok <==> is_commit_text(commit_sha@),
        id matches Ok(id) ==> spells(commit_sha@, id.bytes@),
        id matches Err(e) ==> e is NotAnId,
{
    match parse_oid(commit_sha) {
        Ok(bytes) => Ok(CommitId { bytes }),
        Err(e) => Err(CommitError::NotAnId(e)),
    }
}

/// Writing an identifier out and reading it back gives the same identifier:
/// the commit found for a tag is the one that is checked out.
pub proof fn hex_text_names_its_commit(bytes: Seq<u8>)
    requires
        bytes.len() == ID_BYTES,
    ensures
        is_commit_text(hex_text(bytes)),
        spells(hex_text(bytes), bytes),
{
    let text = hex_text(bytes);
    assert forall|i: int| 0 <= i < text.len() implies is_hex_digit(#[trigger] text[i]) by {
        let b = bytes[i / 2] as int;
        assert(0 <= b / 16 < 16 && 0 <= b % 16 < 16);
    }
    assert forall|k: int| 0 <= k < ID_BYTES implies #[trigger] bytes[k] == 16 * padded_digit(
        text,
        2 * k,
    ) + padded_digit(text, 2 * k + 1) by {
        let b = bytes[k] as int;
        assert((2 * k) / 2 == k && (2 * k + 1) / 2 == k);
        assert(0 <= b / 16 < 16 && 0 <= b % 16 < 16);
        assert(text[2 * k] == digit_of(b / 16));
        assert(text[2 * k + 1] == digit_of(b % 16));
        assert(digit_value(digit_of(b / 16)) == b / 16);
        assert(digit_value(digit_of(b % 16)) == b % 16);
    }
}

/// A text names at most one commit.
pub proof fn commit_text_names_one_commit(text: Seq<char>, a: Seq<u8>, b: Seq<u8>)
    requires
        spells(text, a),
        spells(text, b),
    ensures
        a == b,
{
    assert(a =~= b);
}

/// Every beginning of a written identifier names a commit, and whatever is
/// empty, is too long, or has anything in it but hexadecimal digits names none.
pub proof fn commit_texts_are_digits(text: Seq<char>, i: int)
    ensures
        text.len() == 0 || text.len() > 40 ==> !is_commit_text(text),
        is_commit_text(text) && 0 <= i < text.len() ==> {
            ||| '0' <= text[i] <= '9'
            ||| 'a' <= text[i] <= 'f'
            ||| 'A' <= text[i] <= 'F'
        },
        0 < text.len() <= 40 && (forall|k: int|
            0 <= k < text.len() ==> '0' <= #[trigger] text[k] <= '9' || 'a' <= text[k] <= 'f'
                || 'A' <= text[k] <= 'F') ==> is_commit_text(text),
{
}

/// The written form of an identifier has forty digits, and begins with the text
/// that named the commit, in lower case; behind that there are zeros.
pub proof fn written_commit_begins_with_its_name(text: Seq<char>, bytes: Seq<u8>, i: int)
    requires
        is_commit_text(text),
        spells(text, bytes),
        0 <= i < 40,
    ensures
        hex_text(bytes).len() == 40,
        i >= text.len() ==> hex_text(bytes)[i] == '0',
        i < text.len() && ('0' <= text[i] <= '9' || 'a' <= text[i] <= 'f') ==> hex_text(bytes)[i]
            == text[i],
        i < text.len() && 'A' <= text[i] <= 'F' ==> hex_text(bytes)[i] as int == text[i] as int + 32,
{
    let k = i / 2;
    let high = padded_digit(text, 2 * k);
    let low = padded_digit(text, 2 * k + 1);
    assert(2 * k < text.len() ==> is_hex_digit(text[2 * k]));
    assert(2 * k + 1 < text.len() ==> is_hex_digit(text[2 * k + 1]));
    assert(0 <= high < 16 && 0 <= low < 16);
    assert(bytes[k] == 16 * high + low);
    assert(bytes[k] as int / 16 == high && bytes[k] as int % 16 == low);
}

/// Two identifiers with the same written form are the same.
pub proof fn written_commits_differ(a: Seq<u8>, b: Seq<u8>)
    requires
        a.len() == 20,
        b.len() == 20,
        hex_text(a) == hex_text(b),
    ensures
        a == b,
{
    hex_text_names_its_commit(a);
    hex_text_names_its_commit(b);
    commit_text_names_one_commit(hex_text(a), a, b);
}

} // verus!

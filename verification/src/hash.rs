//! The MD5 hash of the contents of a directory, by which two states of a
//! package are told apart.
use bytes::BufMut;
use bytes::BytesMut;
use vstd::bytes::lemma_auto_spec_u64_to_from_le_bytes;
use vstd::bytes::spec_u64_from_le_bytes;
use vstd::bytes::spec_u64_to_le_bytes;
use vstd::bytes::u64_to_le_bytes;
use vstd::prelude::*;
use vstd::relations::sorted_by;
use vstd::relations::total_ordering;

verus! {

/// An MD5 hash. It is fast, and need not be cryptographically secure here.
#[derive(Debug, Clone, Copy)]
pub struct MD5Hash(pub [u8; 16]);

impl Default for MD5Hash {
    /// The hash of all zeros.
    fn default() -> (hash: Self)
        ensures
            hash.0@ == Seq::new(16, |i: int| 0u8),
    {
        let hash = MD5Hash([0u8; 16]);
        assert(hash.0@ =~= Seq::new(16, |i: int| 0u8));
        hash
    }
}

/// A file that is met on a walk through a directory. `B` is the type of its bytes.
#[derive(Debug)]
pub struct WalkedFile<B> {
    /// The path in the directory.
    pub path: B,
    /// The contents.
    pub contents: B,
}

impl View for WalkedFile<Vec<u8>> {
    type V = WalkedFile<Seq<u8>>;

    open spec fn view(&self) -> WalkedFile<Seq<u8>> {
        WalkedFile { path: self.path@, contents: self.contents@ }
    }
}

/// Something that is met on a walk through a directory.
#[derive(Debug)]
pub enum WalkEntry {
    /// A file.
    File(WalkedFile<Vec<u8>>),
    /// Anything else, such as a directory.
    Other,
}

/// What there is at a path.
#[derive(Debug)]
pub struct ScannedDir {
    /// Whether there is anything.
    pub exists: bool,
    /// Whether it is a directory.
    pub is_dir: bool,
    /// What a walk through the directory meets, in whatever order it does.
    pub entries: Vec<WalkEntry>,
}

/// Why a directory has no hash.
#[derive(Debug, Clone, Copy, PartialEq, Eq, Structural)]
pub enum HashDirError {
    /// There is nothing at the path.
    DoesNotExist,
    /// What is at the path is not a directory.
    NotADirectory,
}

impl HashDirError {
    /// What is said of the path in the error message.
    pub fn message(&self) -> (text: &'static str)
        ensures
            text@ == match *self {
                HashDirError::DoesNotExist => "does not exist"@,
                HashDirError::NotADirectory => "is not a directory"@,
            },
    {
        match self {
            HashDirError::DoesNotExist => "does not exist",
            HashDirError::NotADirectory => "is not a directory",
        }
    }
}

/// The files that a walk meets, in the order of the walk.
pub open spec fn files_of(entries: Seq<WalkEntry>) -> Seq<WalkedFile<Seq<u8>>>
    decreases entries.len(),
{
    if entries.len() == 0 {
        Seq::empty()
    } else {
        match entries.last() {
            WalkEntry::File(file) => files_of(entries.drop_last()).push(file@),
            WalkEntry::Other => files_of(entries.drop_last()),
        }
    }
}

/// Whether bytes come before others, or are the same, as words do in a dictionary.
pub open spec fn bytes_le(a: Seq<u8>, b: Seq<u8>) -> bool
    decreases a.len(),
{
    if a.len() == 0 {
        true
    } else if b.len() == 0 {
        false
    } else if a[0] != b[0] {
        a[0] < b[0]
    } else {
        bytes_le(a.drop_first(), b.drop_first())
    }
}

/// Whether a file comes before another, or is the same: by path, and for the
/// same path by contents.
pub open spec fn file_le(a: WalkedFile<Seq<u8>>, b: WalkedFile<Seq<u8>>) -> bool {
    if a.path == b.path {
        bytes_le(a.contents, b.contents)
    } else {
        bytes_le(a.path, b.path)
    }
}

/// The order of files.
pub open spec fn file_order() -> spec_fn(WalkedFile<Seq<u8>>, WalkedFile<Seq<u8>>) -> bool {
    |a: WalkedFile<Seq<u8>>, b: WalkedFile<Seq<u8>>| file_le(a, b)
}

/// Bytes behind their number, which takes eight bytes with the lowest first.
pub open spec fn counted(bytes: Seq<u8>) -> Seq<u8> {
    spec_u64_to_le_bytes(bytes.len() as u64) + bytes
}

/// What is hashed of a file: its path and its contents, each behind its length.
pub open spec fn record(file: WalkedFile<Seq<u8>>) -> Seq<u8> {
    counted(file.path) + counted(file.contents)
}

/// The records of files, one after the other.
pub open spec fn records(files: Seq<WalkedFile<Seq<u8>>>) -> Seq<u8>
    decreases files.len(),
{
    if files.len() == 0 {
        Seq::empty()
    } else {
        records(files.drop_last()) + record(files.last())
    }
}

/// What is hashed of the files that a walk meets: their records, in the order of
/// the files.
pub open spec fn file_bytes(entries: Seq<WalkEntry>) -> Seq<u8> {
    records(files_of(entries).sort_by(file_order()))
}

proof fn bytes_le_is_reflexive(a: Seq<u8>)
    ensures
        bytes_le(a, a),
    decreases a.len(),
{
    if a.len() > 0 {
        bytes_le_is_reflexive(a.drop_first());
    }
}

proof fn bytes_le_is_total(a: Seq<u8>, b: Seq<u8>)
    ensures
        bytes_le(a, b) || bytes_le(b, a),
    decreases a.len(),
{
    if a.len() > 0 && b.len() > 0 {
        bytes_le_is_total(a.drop_first(), b.drop_first());
    }
}

proof fn bytes_le_is_antisymmetric(a: Seq<u8>, b: Seq<u8>)
    requires
        bytes_le(a, b),
        bytes_le(b, a),
    ensures
        a == b,
    decreases a.len(),
{
    if a.len() > 0 && b.len() > 0 {
        bytes_le_is_antisymmetric(a.drop_first(), b.drop_first());
        assert(a =~= seq![a[0]] + a.drop_first());
        assert(b =~= seq![b[0]] + b.drop_first());
    } else {
        assert(a =~= b);
    }
}

proof fn bytes_le_is_transitive(a: Seq<u8>, b: Seq<u8>, c: Seq<u8>)
    requires
        bytes_le(a, b),
        bytes_le(b, c),
    ensures
        bytes_le(a, c),
    decreases a.len(),
{
    if a.len() > 0 && b.len() > 0 && c.len() > 0 && a[0] == b[0] && b[0] == c[0] {
        bytes_le_is_transitive(a.drop_first(), b.drop_first(), c.drop_first());
    }
}

/// Any two files have an order.
pub proof fn file_order_is_total()
    ensures
        total_ordering(file_order()),
{
    let le = file_order();
    assert forall|a: WalkedFile<Seq<u8>>| #[trigger] le(a, a) by {
        bytes_le_is_reflexive(a.contents);
    }
    assert forall|a: WalkedFile<Seq<u8>>, b: WalkedFile<Seq<u8>>| #[trigger]
        le(a, b) && #[trigger] le(b, a) implies a == b by {
        if a.path == b.path {
            bytes_le_is_antisymmetric(a.contents, b.contents);
        } else {
            bytes_le_is_antisymmetric(a.path, b.path);
        }
    }
    assert forall|a: WalkedFile<Seq<u8>>, b: WalkedFile<Seq<u8>>, c: WalkedFile<Seq<u8>>| #[trigger]
        le(a, b) && #[trigger] le(b, c) implies le(a, c) by {
        if a.path == b.path && b.path == c.path {
            bytes_le_is_transitive(a.contents, b.contents, c.contents);
        } else if a.path != b.path && b.path != c.path {
            bytes_le_is_transitive(a.path, b.path, c.path);
            if a.path == c.path {
                bytes_le_is_antisymmetric(a.path, b.path);
            }
        }
    }
    assert forall|a: WalkedFile<Seq<u8>>, b: WalkedFile<Seq<u8>>| #[trigger]
        le(a, b) || #[trigger] le(b, a) by {
        bytes_le_is_total(a.contents, b.contents);
        bytes_le_is_total(a.path, b.path);
    }
}

fn bytes_in_order(a: &Vec<u8>, b: &Vec<u8>) -> (le: bool)
    ensures
        le == bytes_le(a@, b@),
{
    let mut i: usize = 0;
    proof {
        assert(a@.skip(0) =~= a@);
        assert(b@.skip(0) =~= b@);
    }
    while i < a.len() && i < b.len()
        invariant
            i <= a.len(),
            i <= b.len(),
            bytes_le(a@, b@) == bytes_le(a@.skip(i as int), b@.skip(i as int)),
        decreases a.len() - i,
    {
        if a[i] != b[i] {
            return a[i] < b[i];
        }
        proof {
            assert(a@.skip(i as int).drop_first() =~= a@.skip(i + 1));
            assert(b@.skip(i as int).drop_first() =~= b@.skip(i + 1));
        }
        i = i + 1;
    }
    i == a.len()
}

fn same_bytes(a: &Vec<u8>, b: &Vec<u8>) -> (same: bool)
    ensures
        same == (a@ == b@),
{
    if a.len() != b.len() {
        return false;
    }
    let mut i: usize = 0;
    while i < a.len()
        invariant
            i <= a.len(),
            a.len() == b.len(),
            forall|k: int| 0 <= k < i ==> a@[k] == b@[k],
        decreases a.len() - i,
    {
        if a[i] != b[i] {
            return false;
        }
        i = i + 1;
    }
    assert(a@ =~= b@);
    true
}

fn in_order(a: &WalkedFile<Vec<u8>>, b: &WalkedFile<Vec<u8>>) -> (le: bool)
    ensures
        le == file_le(a@, b@),
{
    if same_bytes(&a.path, &b.path) {
        bytes_in_order(&a.contents, &b.contents)
    } else {
        bytes_in_order(&a.path, &b.path)
    }
}

/// The views of files.
spec fn views(files: Seq<&WalkedFile<Vec<u8>>>) -> Seq<WalkedFile<Seq<u8>>> {
    Seq::new(files.len(), |i: int| files[i]@)
}

/// Puts a file at its place among files that are in order.
fn insert<'a>(files: &mut Vec<&'a WalkedFile<Vec<u8>>>, file: &'a WalkedFile<Vec<u8>>)
    requires
        sorted_by(views(old(files)@), file_order()),
    ensures
        sorted_by(views(final(files)@), file_order()),
        views(final(files)@).to_multiset() == views(old(files)@).to_multiset().insert(file@),
{
    let ghost le = file_order();
    let ghost before = views(files@);
    let mut at: usize = 0;
    let mut looking: bool = true;
    while looking
        invariant
            before == views(files@),
            le == file_order(),
            at <= files.len(),
            forall|k: int| 0 <= k < at ==> le(#[trigger] before[k], file@),
            !looking ==> at == files.len() || !le(before[at as int], file@),
        decreases files.len() - at + (if looking { 1int } else { 0int }),
    {
        if at < files.len() && in_order(files[at], file) {
            at = at + 1;
        } else {
            looking = false;
        }
    }
    files.insert(at, file);
    proof {
        let after = views(files@);
        file_order_is_total();
        assert(after =~= before.insert(at as int, file@));
        assert forall|k: int| at <= k < before.len() implies le(file@, #[trigger] before[k]) by {
            assert(le(file@, before[at as int]) || le(before[at as int], file@));
            if k > at {
                assert(le(before[at as int], before[k]));
            }
        }
        assert forall|i: int, j: int| 0 <= i < j < after.len() implies #[trigger] le(
            after[i],
            after[j],
        ) by {
            let a = if i < at {
                i
            } else {
                i - 1
            };
            let b = if j < at {
                j
            } else {
                j - 1
            };
            if i != at && j != at {
                assert(after[i] == before[a] && after[j] == before[b]);
                assert(le(before[a], before[b]));
            } else if i == at {
                assert(after[j] == before[b]);
            } else {
                assert(after[i] == before[a]);
            }
        }
        vstd::seq_lib::to_multiset_insert(before, at as int, file@);
    }
}

/// A growing buffer of bytes.
#[verifier::external_type_specification]
#[verifier::external_body]
pub struct ExBytesMut(bytes::BytesMut);

/// The bytes that a buffer holds.
pub uninterp spec fn buffered(buffer: BytesMut) -> Seq<u8>;

/// Calls `bytes::BytesMut::new`: the buffer is empty.
#[verifier::external_body]
fn empty_buffer() -> (buffer: BytesMut)
    ensures
        buffered(buffer) == Seq::<u8>::empty(),
{
    BytesMut::new()
}

/// Calls `put_slice` of `bytes::BytesMut`: the bytes are added at the end. It
/// panics where the buffer would outgrow the largest allocation, and as the
/// buffer doubles when it is full, that can come from half of that on.
#[verifier::external_body]
fn put_slice(buffer: &mut BytesMut, src: &Vec<u8>)
    requires
        2 * (buffered(*old(buffer)).len() + src@.len()) <= isize::MAX,
    ensures
        buffered(*final(buffer)) == buffered(*old(buffer)) + src@,
{
    buffer.put_slice(src)
}

/// Calls `to_vec` on a `bytes::BytesMut`: a copy of the bytes that it holds.
#[verifier::external_body]
fn to_vec(buffer: &BytesMut) -> (bytes: Vec<u8>)
    ensures
        bytes@ == buffered(*buffer),
{
    buffer.to_vec()
}

/// The MD5 digest of `data`: what `md5::compute` returns.
pub uninterp spec fn md5_digest(data: Seq<u8>) -> Seq<u8>;

/// Calls `md5::compute` and takes the bytes of the digest.
#[verifier::external_body]
fn md5_compute(data: &Vec<u8>) -> (digest: [u8; 16])
    ensures
        digest@ == md5_digest(data@),
{
    md5::compute(data).0
}

/// Puts bytes at the end of a buffer, behind their number.
fn put_counted(buffer: &mut BytesMut, bytes: &Vec<u8>)
    requires
        2 * (buffered(*old(buffer)).len() + counted(bytes@).len()) <= isize::MAX,
    ensures
        buffered(*final(buffer)) == buffered(*old(buffer)) + counted(bytes@),
{
    proof {
        lemma_auto_spec_u64_to_from_le_bytes();
    }
    let number: Vec<u8> = u64_to_le_bytes(bytes.len() as u64);
    put_slice(buffer, &number);
    put_slice(buffer, bytes);
    assert(buffered(*buffer) =~= buffered(*old(buffer)) + counted(bytes@));
}

/// The hash of what there is at a path, or why it has none.
pub open spec fn dir_hash(dir: ScannedDir) -> Result<Seq<u8>, HashDirError> {
    if !dir.exists {
        Err(HashDirError::DoesNotExist)
    } else if !dir.is_dir {
        Err(HashDirError::NotADirectory)
    } else {
        Ok(md5_digest(file_bytes(dir.entries@)))
    }
}

/// The hash of a directory: the MD5 digest of the records of its files, in the
/// order of their paths. The records have to fit twice into the largest
/// allocation, since they are put into a buffer that doubles.
pub fn hash_dir_md5(dir: &ScannedDir) -> (hash: Result<MD5Hash, HashDirError>)
    requires
        2 * file_bytes(dir.entries@).len() <= isize::MAX,
    ensures
        hash matches Err(e) ==> e == if dir.exists {
            HashDirError::NotADirectory
        } else {
            HashDirError::DoesNotExist
        },
        hash is Ok <==> dir.exists && dir.is_dir,
        hash matches Ok(hash) ==> hash.0@ == md5_digest(file_bytes(dir.entries@)),
        hash matches Ok(hash) ==> dir_hash(*dir) == Ok::<Seq<u8>, HashDirError>(hash.0@),
        hash matches Err(e) ==> dir_hash(*dir) == Err::<Seq<u8>, HashDirError>(e),
{
    if !dir.exists {
        return Err(HashDirError::DoesNotExist);
    }
    if !dir.is_dir {
        return Err(HashDirError::NotADirectory);
    }
    let files: Vec<&WalkedFile<Vec<u8>>> = files_in_order(&dir.entries);
    let ghost sorted = views(files@);
    let mut all_bytes: BytesMut = empty_buffer();
    let mut i: usize = 0;
    while i < files.len()
        invariant
            i <= files.len(),
            sorted == views(files@),
            buffered(all_bytes) == records(sorted.take(i as int)),
            2 * records(sorted).len() <= isize::MAX,
        decreases files.len() - i,
    {
        let ghost before = buffered(all_bytes);
        let ghost path = counted(sorted[i as int].path);
        let ghost contents = counted(sorted[i as int].contents);
        proof {
            assert(sorted.take(i + 1).drop_last() =~= sorted.take(i as int));
            assert(records(sorted.take(i + 1)) == before + (path + contents));
            records_grow(sorted, i + 1);
        }
        put_counted(&mut all_bytes, &files[i].path);
        put_counted(&mut all_bytes, &files[i].contents);
        assert(buffered(all_bytes) =~= before + (path + contents));
        i = i + 1;
    }
    assert(sorted.take(sorted.len() as int) =~= sorted);
    Ok(MD5Hash(md5_compute(&to_vec(&all_bytes))))
}

/// The files that a walk meets, in the order of the files.
fn files_in_order(entries: &Vec<WalkEntry>) -> (files: Vec<&WalkedFile<Vec<u8>>>)
    ensures
        views(files@) == files_of(entries@).sort_by(file_order()),
{
    let mut files: Vec<&WalkedFile<Vec<u8>>> = Vec::new();
    let mut i: usize = 0;
    proof {
        assert(views(files@) =~= files_of(entries@.take(0)));
    }
    while i < entries.len()
        invariant
            i <= entries.len(),
            sorted_by(views(files@), file_order()),
            views(files@).to_multiset() == files_of(entries@.take(i as int)).to_multiset(),
        decreases entries.len() - i,
    {
        proof {
            assert(entries@.take(i + 1).drop_last() =~= entries@.take(i as int));
        }
        if let WalkEntry::File(file) = &entries[i] {
            insert(&mut files, file);
            proof {
                vstd::seq_lib::to_multiset_build(files_of(entries@.take(i as int)), file@);
            }
        }
        i = i + 1;
    }
    proof {
        assert(entries@.take(entries@.len() as int) =~= entries@);
        file_order_is_total();
        files_of(entries@).lemma_sort_by_ensures(file_order());
        vstd::seq_lib::lemma_sorted_unique(
            views(files@),
            files_of(entries@).sort_by(file_order()),
            file_order(),
        );
    }
    files
}

proof fn records_grow(files: Seq<WalkedFile<Seq<u8>>>, n: int)
    requires
        0 <= n <= files.len(),
    ensures
        records(files.take(n)).len() <= records(files).len(),
    decreases files.len(),
{
    if n < files.len() {
        records_grow(files.drop_last(), n);
        assert(files.drop_last().take(n) =~= files.take(n));
    } else {
        assert(files.take(n) =~= files);
    }
}

proof fn first_record(files: Seq<WalkedFile<Seq<u8>>>)
    requires
        files.len() > 0,
    ensures
        records(files) == record(files[0]) + records(files.drop_first()),
    decreases files.len(),
{
    let rest = files.drop_first();
    reveal_with_fuel(records, 2);
    if files.len() == 1 {
        assert(files.drop_last() =~= Seq::<WalkedFile<Seq<u8>>>::empty());
        assert(rest =~= Seq::<WalkedFile<Seq<u8>>>::empty());
        assert(records(files) =~= record(files[0]));
        assert(record(files[0]) + records(rest) =~= record(files[0]));
    } else {
        first_record(files.drop_last());
        assert(files.drop_last().drop_first() =~= rest.drop_last());
        assert(rest.last() == files.last());
        assert(records(files) =~= record(files[0]) + records(rest));
    }
}

/// A number of bytes that a length can tell.
spec fn fits(bytes: Seq<u8>) -> bool {
    bytes.len() <= u64::MAX
}

spec fn all_fit(files: Seq<WalkedFile<Seq<u8>>>) -> bool {
    forall|i: int|
        0 <= i < files.len() ==> fits((#[trigger] files[i]).path) && fits(files[i].contents)
}

proof fn one_counted(a: Seq<u8>, rest_a: Seq<u8>, b: Seq<u8>, rest_b: Seq<u8>)
    requires
        fits(a),
        fits(b),
        counted(a) + rest_a == counted(b) + rest_b,
    ensures
        a == b,
        rest_a == rest_b,
{
    lemma_auto_spec_u64_to_from_le_bytes();
    let all_a = counted(a) + rest_a;
    let all_b = counted(b) + rest_b;
    let number_a = spec_u64_to_le_bytes(a.len() as u64);
    let number_b = spec_u64_to_le_bytes(b.len() as u64);
    assert(all_a.take(8) =~= number_a);
    assert(all_b.take(8) =~= number_b);
    assert(spec_u64_from_le_bytes(number_a) == a.len() as u64);
    assert(spec_u64_from_le_bytes(number_b) == b.len() as u64);
    assert(a.len() == b.len());
    assert(all_a.subrange(8, 8 + a.len() as int) =~= a);
    assert(all_b.subrange(8, 8 + b.len() as int) =~= b);
    assert(all_a.skip(8 + a.len() as int) =~= rest_a);
    assert(all_b.skip(8 + b.len() as int) =~= rest_b);
}

proof fn one_list_of_files(a: Seq<WalkedFile<Seq<u8>>>, b: Seq<WalkedFile<Seq<u8>>>)
    requires
        all_fit(a),
        all_fit(b),
        records(a) == records(b),
    ensures
        a == b,
    decreases a.len(),
{
    lemma_auto_spec_u64_to_from_le_bytes();
    if a.len() > 0 {
        first_record(a);
        assert(records(a).len() >= counted(a[0].path).len() >= 8);
    }
    if b.len() > 0 {
        first_record(b);
        assert(records(b).len() >= counted(b[0].path).len() >= 8);
    }
    if a.len() == 0 || b.len() == 0 {
        assert(a =~= b);
    } else {
        let rest_a = records(a.drop_first());
        let rest_b = records(b.drop_first());
        let contents_a = counted(a[0].contents) + rest_a;
        let contents_b = counted(b[0].contents) + rest_b;
        assert(records(a) =~= counted(a[0].path) + contents_a);
        assert(records(b) =~= counted(b[0].path) + contents_b);
        one_counted(a[0].path, contents_a, b[0].path, contents_b);
        one_counted(a[0].contents, rest_a, b[0].contents, rest_b);
        assert forall|i: int| 0 <= i < a.drop_first().len() implies fits(
            (#[trigger] a.drop_first()[i]).path,
        ) && fits(a.drop_first()[i].contents) by {
            assert(a.drop_first()[i] == a[i + 1]);
        }
        assert forall|i: int| 0 <= i < b.drop_first().len() implies fits(
            (#[trigger] b.drop_first()[i]).path,
        ) && fits(b.drop_first()[i].contents) by {
            assert(b.drop_first()[i] == b[i + 1]);
        }
        one_list_of_files(a.drop_first(), b.drop_first());
        assert(a =~= seq![a[0]] + a.drop_first());
        assert(b =~= seq![b[0]] + b.drop_first());
    }
}

proof fn walked_files_fit(entries: Seq<WalkEntry>)
    ensures
        all_fit(files_of(entries)),
    decreases entries.len(),
{
    if entries.len() > 0 {
        walked_files_fit(entries.drop_last());
        if let WalkEntry::File(file) = entries.last() {
            assert(file.path.len() == file.path@.len());
            assert(file.contents.len() == file.contents@.len());
        }
    }
}

proof fn sorted_files_fit(entries: Seq<WalkEntry>)
    ensures
        all_fit(files_of(entries).sort_by(file_order())),
{
    let files = files_of(entries);
    let sorted = files.sort_by(file_order());
    walked_files_fit(entries);
    file_order_is_total();
    files.lemma_sort_by_ensures(file_order());
    assert forall|i: int| 0 <= i < sorted.len() implies fits((#[trigger] sorted[i]).path) && fits(
        sorted[i].contents,
    ) by {
        assert(sorted.contains(sorted[i]));
        assert(files.contains(sorted[i]));
        let k = choose|k: int| 0 <= k < files.len() && files[k] == sorted[i];
        assert(fits(files[k].path));
    }
}

/// Whatever changes in the files of a directory, be it the contents of one, its
/// path, or that there is one more or one less, changes what is hashed.
pub proof fn changed_files_change_what_is_hashed(first: Seq<WalkEntry>, second: Seq<WalkEntry>)
    requires
        files_of(first).to_multiset() != files_of(second).to_multiset(),
    ensures
        file_bytes(first) != file_bytes(second),
{
    if file_bytes(first) == file_bytes(second) {
        sorted_files_fit(first);
        sorted_files_fit(second);
        file_order_is_total();
        files_of(first).lemma_sort_by_ensures(file_order());
        files_of(second).lemma_sort_by_ensures(file_order());
        one_list_of_files(
            files_of(first).sort_by(file_order()),
            files_of(second).sort_by(file_order()),
        );
    }
}

/// A file that is replaced by another, with other contents or at another path,
/// changes what is hashed, wherever in the walk it stands.
pub proof fn changed_file_changes_what_is_hashed(
    before: Seq<WalkEntry>,
    file: WalkedFile<Vec<u8>>,
    other: WalkedFile<Vec<u8>>,
    after: Seq<WalkEntry>,
)
    requires
        file@ != other@,
    ensures
        file_bytes(before + seq![WalkEntry::File(file)] + after) != file_bytes(
            before + seq![WalkEntry::File(other)] + after,
        ),
{
    broadcast use vstd::multiset::group_multiset_axioms;

    let rest = files_of(before) + files_of(after);
    walk_with_file(before, file, after);
    walk_with_file(before, other, after);
    let first = files_of(before + seq![WalkEntry::File(file)] + after).to_multiset();
    let second = files_of(before + seq![WalkEntry::File(other)] + after).to_multiset();
    assert(first.count(file@) == rest.to_multiset().count(file@) + 1);
    assert(second.count(file@) == rest.to_multiset().count(file@));
    changed_files_change_what_is_hashed(
        before + seq![WalkEntry::File(file)] + after,
        before + seq![WalkEntry::File(other)] + after,
    );
}

proof fn walk_with_file(before: Seq<WalkEntry>, file: WalkedFile<Vec<u8>>, after: Seq<WalkEntry>)
    ensures
        files_of(before + seq![WalkEntry::File(file)] + after).to_multiset() == (files_of(before)
            + files_of(after)).to_multiset().insert(file@),
{
    let one = seq![WalkEntry::File(file)];
    let rest = files_of(before) + files_of(after);
    files_of_two_walks(before + one, after);
    files_of_two_walks(before, one);
    reveal_with_fuel(files_of, 2);
    assert(one.drop_last() =~= Seq::<WalkEntry>::empty());
    assert(files_of(one) =~= seq![file@]);
    assert(files_of(before + one + after) =~= rest.insert(files_of(before).len() as int, file@));
    vstd::seq_lib::to_multiset_insert(rest, files_of(before).len() as int, file@);
}

/// Two walks that meet the same files hash alike, in whatever order each of
/// them meets them: the hash rests on the contents of the directory alone.
pub proof fn same_files_hash_alike(first: Seq<WalkEntry>, second: Seq<WalkEntry>)
    requires
        files_of(first).to_multiset() == files_of(second).to_multiset(),
    ensures
        file_bytes(first) == file_bytes(second),
        md5_digest(file_bytes(first)) == md5_digest(file_bytes(second)),
{
    let a = files_of(first);
    let b = files_of(second);
    file_order_is_total();
    a.lemma_sort_by_ensures(file_order());
    b.lemma_sort_by_ensures(file_order());
    vstd::seq_lib::lemma_sorted_unique(
        a.sort_by(file_order()),
        b.sort_by(file_order()),
        file_order(),
    );
}

/// A walk that meets the files in their order is hashed as it goes.
pub proof fn walk_in_order_is_hashed_as_it_goes(entries: Seq<WalkEntry>)
    requires
        sorted_by(files_of(entries), file_order()),
    ensures
        file_bytes(entries) == records(files_of(entries)),
{
    let files = files_of(entries);
    file_order_is_total();
    files.lemma_sort_by_ensures(file_order());
    vstd::seq_lib::lemma_sorted_unique(files.sort_by(file_order()), files, file_order());
}

/// The files of two walks, one after the other, are those of the first and then
/// those of the second.
pub proof fn files_of_two_walks(first: Seq<WalkEntry>, second: Seq<WalkEntry>)
    ensures
        files_of(first + second) == files_of(first) + files_of(second),
    decreases second.len(),
{
    if second.len() == 0 {
        assert(first + second =~= first);
        assert(files_of(first) + files_of(second) =~= files_of(first));
    } else {
        files_of_two_walks(first, second.drop_last());
        assert((first + second).drop_last() =~= first + second.drop_last());
        assert((first + second).last() == second.last());
        assert(files_of(first + second) =~= files_of(first) + files_of(second));
    }
}

/// What is not a file has no part in the hash: the walk may meet it or not.
pub proof fn hash_ignores_other_entries(first: Seq<WalkEntry>, second: Seq<WalkEntry>)
    ensures
        md5_digest(file_bytes(first + seq![WalkEntry::Other] + second)) == md5_digest(
            file_bytes(first + second),
        ),
{
    let other = seq![WalkEntry::Other];
    files_of_two_walks(first + other, second);
    files_of_two_walks(first, other);
    files_of_two_walks(first, second);
    reveal_with_fuel(files_of, 2);
    assert(other.drop_last() =~= Seq::<WalkEntry>::empty());
    assert(files_of(first) + files_of(other) =~= files_of(first));
}

/// The order in which a walk meets two entries does not matter.
pub proof fn order_of_the_walk_does_not_matter(
    before: Seq<WalkEntry>,
    one: WalkEntry,
    other: WalkEntry,
    after: Seq<WalkEntry>,
)
    ensures
        file_bytes(before + seq![one] + seq![other] + after) == file_bytes(
            before + seq![other] + seq![one] + after,
        ),
{
    broadcast use vstd::multiset::group_multiset_axioms;

    let nothing = Seq::<WalkEntry>::empty();
    let first = before + seq![one] + seq![other] + after;
    let second = before + seq![other] + seq![one] + after;
    files_of_two_walks(before + seq![one] + seq![other], after);
    files_of_two_walks(before + seq![other] + seq![one], after);
    files_of_two_walks(before + seq![one], seq![other]);
    files_of_two_walks(before + seq![other], seq![one]);
    files_of_two_walks(before, seq![one]);
    files_of_two_walks(before, seq![other]);
    let a = files_of(before);
    let x = files_of(seq![one]);
    let y = files_of(seq![other]);
    let b = files_of(after);
    assert(files_of(first) == a + x + y + b);
    assert(files_of(second) == a + y + x + b);
    vstd::seq_lib::lemma_multiset_commutative(a + x + y, b);
    vstd::seq_lib::lemma_multiset_commutative(a + y + x, b);
    vstd::seq_lib::lemma_multiset_commutative(a + x, y);
    vstd::seq_lib::lemma_multiset_commutative(a + y, x);
    vstd::seq_lib::lemma_multiset_commutative(a, x);
    vstd::seq_lib::lemma_multiset_commutative(a, y);
    assert(files_of(first).to_multiset() =~= files_of(second).to_multiset());
    same_files_hash_alike(first, second);
}

/// One more file, whatever it is called and even if it is empty, changes what is hashed.
pub proof fn added_file_changes_what_is_hashed(
    before: Seq<WalkEntry>,
    file: WalkedFile<Vec<u8>>,
    after: Seq<WalkEntry>,
)
    ensures
        file_bytes(before + seq![WalkEntry::File(file)] + after) != file_bytes(before + after),
{
    broadcast use vstd::multiset::group_multiset_axioms;

    walk_with_file(before, file, after);
    files_of_two_walks(before, after);
    let with = files_of(before + seq![WalkEntry::File(file)] + after).to_multiset();
    let without = files_of(before + after).to_multiset();
    assert(with.count(file@) == without.count(file@) + 1);
    changed_files_change_what_is_hashed(
        before + seq![WalkEntry::File(file)] + after,
        before + after,
    );
}

/// A file is met with its own path and contents, and nothing but files are.
pub proof fn walked_file_is_the_file(file: WalkedFile<Vec<u8>>)
    ensures
        files_of(seq![WalkEntry::File(file)]) == seq![
            WalkedFile { path: file.path@, contents: file.contents@ },
        ],
        files_of(seq![WalkEntry::Other]) == Seq::<WalkedFile<Seq<u8>>>::empty(),
        files_of(Seq::<WalkEntry>::empty()) == Seq::<WalkedFile<Seq<u8>>>::empty(),
{
    reveal_with_fuel(files_of, 2);
    assert(seq![WalkEntry::File(file)].drop_last() =~= Seq::<WalkEntry>::empty());
    assert(seq![WalkEntry::Other].drop_last() =~= Seq::<WalkEntry>::empty());
    assert(files_of(seq![WalkEntry::File(file)]) =~= seq![file@]);
}

/// Files are hashed in the order of their paths, byte by byte, and each takes
/// sixteen bytes more than its path and its contents.
pub proof fn one_file_is_hashed_with_its_lengths(file: WalkedFile<Vec<u8>>)
    ensures
        file_bytes(seq![WalkEntry::File(file)]) == spec_u64_to_le_bytes(file.path@.len() as u64)
            + file.path@ + spec_u64_to_le_bytes(file.contents@.len() as u64) + file.contents@,
        file_bytes(Seq::<WalkEntry>::empty()) == Seq::<u8>::empty(),
{
    walked_file_is_the_file(file);
    reveal_with_fuel(records, 2);
    let entries = seq![WalkEntry::File(file)];
    let nothing = Seq::<WalkEntry>::empty();
    file_order_is_total();
    walk_in_order_is_hashed_as_it_goes(entries);
    walk_in_order_is_hashed_as_it_goes(nothing);
    let files = files_of(entries);
    assert(files.len() == 1);
    assert(files.drop_last() =~= Seq::<WalkedFile<Seq<u8>>>::empty());
    assert(records(files) =~= record(file@));
    assert(file_bytes(entries) =~= spec_u64_to_le_bytes(file.path@.len() as u64) + file.path@
        + spec_u64_to_le_bytes(file.contents@.len() as u64) + file.contents@);
}

/// The files of a directory whose paths all come before those of another are
/// hashed before them.
pub proof fn earlier_paths_are_hashed_first(first: Seq<WalkEntry>, second: Seq<WalkEntry>)
    requires
        forall|i: int, j: int|
            0 <= i < files_of(first).len() && 0 <= j < files_of(second).len() ==> file_le(
                #[trigger] files_of(first)[i],
                #[trigger] files_of(second)[j],
            ),
    ensures
        file_bytes(second + first) == file_bytes(first) + file_bytes(second),
{
    let le = file_order();
    let a = files_of(first).sort_by(le);
    let b = files_of(second).sort_by(le);
    let all = files_of(second + first);
    file_order_is_total();
    files_of(first).lemma_sort_by_ensures(le);
    files_of(second).lemma_sort_by_ensures(le);
    all.lemma_sort_by_ensures(le);
    files_of_two_walks(second, first);
    assert forall|i: int, j: int| 0 <= i < j < (a + b).len() implies #[trigger] le(
        (a + b)[i],
        (a + b)[j],
    ) by {
        if i < a.len() && j >= a.len() {
            assert(a.contains(a[i]));
            assert(b.contains(b[j - a.len()]));
            assert(files_of(first).contains(a[i]));
            assert(files_of(second).contains(b[j - a.len()]));
            let k = choose|k: int|
                0 <= k < files_of(first).len() && files_of(first)[k] == a[i];
            let l = choose|l: int|
                0 <= l < files_of(second).len() && files_of(second)[l] == b[j - a.len()];
            assert(file_le(files_of(first)[k], files_of(second)[l]));
        } else if j < a.len() {
            assert(le(a[i], a[j]));
        } else {
            assert(le(b[i - a.len()], b[j - a.len()]));
        }
    }
    vstd::seq_lib::lemma_multiset_commutative(files_of(second), files_of(first));
    vstd::seq_lib::lemma_multiset_commutative(a, b);
    assert((a + b).to_multiset() =~= all.to_multiset());
    vstd::seq_lib::lemma_sorted_unique(all.sort_by(le), a + b, le);
    records_of_two_lists(a, b);
}

proof fn records_of_two_lists(a: Seq<WalkedFile<Seq<u8>>>, b: Seq<WalkedFile<Seq<u8>>>)
    ensures
        records(a + b) == records(a) + records(b),
    decreases b.len(),
{
    if b.len() == 0 {
        assert(a + b =~= a);
        assert(records(a) + records(b) =~= records(a));
    } else {
        records_of_two_lists(a, b.drop_last());
        assert((a + b).drop_last() =~= a + b.drop_last());
        assert((a + b).last() == b.last());
        assert(records(a + b) =~= records(a) + records(b));
    }
}

/// Paths are ordered as words are: a path comes before every path that goes on
/// where it ends, and otherwise the first byte in which two paths differ decides.
pub proof fn paths_are_ordered_as_words(
    start: Seq<u8>,
    a: Seq<u8>,
    b: Seq<u8>,
    x: u8,
    y: u8,
    one: Seq<u8>,
    other: Seq<u8>,
)
    requires
        x < y,
    ensures
        file_le(
            WalkedFile { path: start + seq![x] + a, contents: one },
            WalkedFile { path: start + seq![y] + b, contents: other },
        ),
        !file_le(
            WalkedFile { path: start + seq![y] + b, contents: one },
            WalkedFile { path: start + seq![x] + a, contents: other },
        ),
        file_le(
            WalkedFile { path: start, contents: one },
            WalkedFile { path: start + seq![x] + a, contents: other },
        ),
        !file_le(
            WalkedFile { path: start + seq![x] + a, contents: one },
            WalkedFile { path: start, contents: other },
        ),
{
    let p = start + seq![x] + a;
    let q = start + seq![y] + b;
    assert(p[start.len() as int] == x);
    assert(q[start.len() as int] == y);
    assert(p != q);
    assert(p.len() > start.len());
    words_from(start, seq![x] + a, seq![y] + b);
    words_from(start, seq![y] + b, seq![x] + a);
    words_from(start, Seq::empty(), seq![x] + a);
    words_from(start, seq![x] + a, Seq::empty());
    assert(start + (seq![x] + a) =~= p);
    assert(start + (seq![y] + b) =~= q);
    assert(start + Seq::<u8>::empty() =~= start);
}

proof fn words_from(start: Seq<u8>, a: Seq<u8>, b: Seq<u8>)
    ensures
        bytes_le(start + a, start + b) == bytes_le(a, b),
    decreases start.len(),
{
    if start.len() == 0 {
        assert(start + a =~= a);
        assert(start + b =~= b);
    } else {
        words_from(start.drop_first(), a, b);
        assert((start + a).drop_first() =~= start.drop_first() + a);
        assert((start + b).drop_first() =~= start.drop_first() + b);
    }
}

/// What is not there and what is not a directory has no hash, whatever a walk
/// has met, and every directory has one, however many files are in it.
pub proof fn every_directory_has_a_hash(dir: ScannedDir)
    ensures
        dir.exists && dir.is_dir <==> dir_hash(dir) is Ok,
        !dir.exists ==> dir_hash(dir) == Err::<Seq<u8>, HashDirError>(HashDirError::DoesNotExist),
        dir.exists && !dir.is_dir ==> dir_hash(dir) == Err::<Seq<u8>, HashDirError>(
            HashDirError::NotADirectory,
        ),
{
}

/// Two directories with the same files have the same hash, however a walk
/// meets them; and two that differ in a file have the hashes of different bytes.
pub proof fn hash_is_that_of_the_files(one: ScannedDir, other: ScannedDir)
    requires
        one.exists && one.is_dir,
        other.exists && other.is_dir,
    ensures
        files_of(one.entries@).to_multiset() == files_of(other.entries@).to_multiset()
            ==> dir_hash(one) == dir_hash(other),
        exists|bytes: Seq<u8>, others: Seq<u8>|
            #![trigger md5_digest(bytes), md5_digest(others)]
            {
                &&& dir_hash(one) == Ok::<Seq<u8>, HashDirError>(md5_digest(bytes))
                &&& dir_hash(other) == Ok::<Seq<u8>, HashDirError>(md5_digest(others))
                &&& files_of(one.entries@).to_multiset() != files_of(other.entries@).to_multiset()
                    ==> bytes != others
            },
{
    if files_of(one.entries@).to_multiset() == files_of(other.entries@).to_multiset() {
        same_files_hash_alike(one.entries@, other.entries@);
    } else {
        changed_files_change_what_is_hashed(one.entries@, other.entries@);
    }
    let bytes = file_bytes(one.entries@);
    let others = file_bytes(other.entries@);
    assert(dir_hash(one) == Ok::<Seq<u8>, HashDirError>(md5_digest(bytes)));
    assert(dir_hash(other) == Ok::<Seq<u8>, HashDirError>(md5_digest(others)));
}

} // verus!

use release_core::hash::{
    hash_dir_md5, HashDirError, MD5Hash, ScannedDir, WalkEntry, WalkedFile,
};

fn file(path: &str, contents: &str) -> WalkEntry {
    WalkEntry::File(WalkedFile {
        path: path.as_bytes().to_vec(),
        contents: contents.as_bytes().to_vec(),
    })
}

fn dir(entries: Vec<WalkEntry>) -> ScannedDir {
    ScannedDir { exists: true, is_dir: true, entries }
}

fn hex(hash: MD5Hash) -> String {
    hash.0.iter().map(|b| format!("{:02x}", b)).collect()
}

fn record(path: &str, contents: &str) -> Vec<u8> {
    let mut bytes = Vec::new();
    for part in [path, contents] {
        bytes.extend_from_slice(&(part.len() as u64).to_le_bytes());
        bytes.extend_from_slice(part.as_bytes());
    }
    bytes
}

#[test]
fn hash_is_that_of_the_records_of_all_files() {
    let long = "x".repeat(300);
    let entries = vec![
        WalkEntry::Other,
        file("b.rs", &long),
        WalkEntry::Other,
        file("a.rs", "abcdefghijklm"),
    ];
    let hash = hash_dir_md5(&dir(entries)).unwrap();
    let mut bytes = record("a.rs", "abcdefghijklm");
    bytes.extend(record("b.rs", &long));
    assert_eq!(hash.0, md5::compute(&bytes).0);
    let one = hash_dir_md5(&dir(vec![file("x", "a")])).unwrap();
    assert_eq!(hex(one), format!("{:x}", md5::compute(b"\x01\0\0\0\0\0\0\0x\x01\0\0\0\0\0\0\0a")));
}

#[test]
fn empty_directory_has_the_hash_of_nothing() {
    let hash = hash_dir_md5(&dir(vec![WalkEntry::Other])).unwrap();
    assert_eq!(hex(hash), "d41d8cd98f00b204e9800998ecf8427e");
}

#[test]
fn same_files_in_another_order_hash_alike() {
    let names = ["src/lib.rs", "Cargo.toml", "src", "src/a/b.rs", "src/a.rs", "src-x"];
    let entries = |order: &[usize]| {
        dir(order.iter().map(|i| file(names[*i], &format!("{}.", i))).collect())
    };
    let one = hash_dir_md5(&entries(&[0, 1, 2, 3, 4, 5])).unwrap();
    for order in [[5, 4, 3, 2, 1, 0], [1, 2, 5, 4, 3, 0], [3, 1, 4, 0, 5, 2]] {
        assert_eq!(hash_dir_md5(&entries(&order)).unwrap().0, one.0);
    }
    let mut sorted = Vec::new();
    for i in [1, 2, 5, 4, 3, 0] {
        sorted.extend(record(names[i], &format!("{}.", i)));
    }
    assert_eq!(md5::compute(&sorted).0, one.0);
}

#[test]
fn changed_contents_change_the_hash() {
    let one = hash_dir_md5(&dir(vec![file("x", "a"), file("y", "b")])).unwrap();
    let other = hash_dir_md5(&dir(vec![file("x", "b"), file("y", "a")])).unwrap();
    assert_ne!(one.0, other.0);
}

#[test]
fn bytes_that_move_between_files_change_the_hash() {
    let one = hash_dir_md5(&dir(vec![file("x", "ab"), file("y", "c")])).unwrap();
    let other = hash_dir_md5(&dir(vec![file("x", "a"), file("y", "bc")])).unwrap();
    assert_ne!(one.0, other.0);
    let joined = hash_dir_md5(&dir(vec![file("x", "abc")])).unwrap();
    assert_ne!(one.0, joined.0);
}

#[test]
fn renamed_file_changes_the_hash() {
    let one = hash_dir_md5(&dir(vec![file("x", "ab")])).unwrap();
    let other = hash_dir_md5(&dir(vec![file("z", "ab")])).unwrap();
    assert_ne!(one.0, other.0);
    let moved = hash_dir_md5(&dir(vec![file("xa", "b")])).unwrap();
    assert_ne!(one.0, moved.0);
    let empty = hash_dir_md5(&dir(vec![file("x", "ab"), file("y", "")])).unwrap();
    assert_ne!(one.0, empty.0);
}

#[test]
fn what_is_not_a_file_does_not_count() {
    let with = hash_dir_md5(&dir(vec![file("x", "a"), WalkEntry::Other, file("y", "b")])).unwrap();
    let without = hash_dir_md5(&dir(vec![file("x", "a"), file("y", "b")])).unwrap();
    assert_eq!(with.0, without.0);
}

#[test]
fn what_is_not_there_has_no_hash() {
    let nothing = ScannedDir { exists: false, is_dir: false, entries: vec![] };
    let error = hash_dir_md5(&nothing).unwrap_err();
    assert_eq!(error, HashDirError::DoesNotExist);
    assert_eq!(error.message(), "does not exist");
    let a_file = ScannedDir { exists: true, is_dir: false, entries: vec![] };
    let error = hash_dir_md5(&a_file).unwrap_err();
    assert_eq!(error, HashDirError::NotADirectory);
    assert_eq!(error.message(), "is not a directory");
}

#[test]
fn default_hash_is_zero() {
    assert_eq!(MD5Hash::default().0, [0u8; 16]);
}

use release_core::commit::{checkout_commit, CommitError, CommitId};

#[test]
fn short_commit_is_filled_up() {
    let id = checkout_commit("aB1").unwrap();
    assert_eq!(id.bytes[0], 0xab);
    assert_eq!(id.bytes[1], 0x10);
    assert_eq!(&id.bytes[2..], &[0u8; 18]);
}

#[test]
fn full_commit_is_read() {
    let id = checkout_commit("0123456789abcdef0123456789ABCDEF01234567").unwrap();
    assert_eq!(
        id.bytes,
        [
            0x01, 0x23, 0x45, 0x67, 0x89, 0xab, 0xcd, 0xef, 0x01, 0x23, 0x45, 0x67, 0x89, 0xab,
            0xcd, 0xef, 0x01, 0x23, 0x45, 0x67
        ]
    );
    assert_eq!(id.to_hex(), "0123456789abcdef0123456789abcdef01234567");
}

#[test]
fn what_is_not_a_commit_is_refused() {
    let too_long = "0".repeat(41);
    for text in ["", "xyz", "abc-", "12 ", "é", too_long.as_str()] {
        let error = checkout_commit(text).unwrap_err();
        assert_eq!(error.message(), "convert commit sha to oid");
        let CommitError::NotAnId(cause) = error;
        assert!(!cause.message().is_empty());
    }
    assert!(checkout_commit(&"f".repeat(40)).is_ok());
}

#[test]
fn written_commit_is_read_back() {
    let mut bytes = [0u8; 20];
    for i in 0..20 {
        bytes[i] = (i * 13 + 7) as u8;
    }
    let id = CommitId { bytes };
    assert_eq!(checkout_commit(&id.to_hex()).unwrap().bytes, bytes);
}

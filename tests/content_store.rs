use warg_content_store::{
    check_upload, commit_result, content_path, open_result, temp_path, ContentStore, ContentStoreError, Digest,
    DigestAlgorithm, ErrorKind, MemoryContentStore, OpenOutcome, PackageId, RenameOutcome,
};

const HELLO_DIGEST: &str = "sha256:2cf24dba5fb0a30e26e83b2ac5b9e29e1b161e5c1fa7425e73043362938b9824";
const OTHER_DIGEST: &str = "sha256:deadbeef00000000000000000000000000000000000000000000000000000000";

fn package() -> PackageId {
    PackageId::parse("acme:widget").unwrap()
}

fn digest(text: &str) -> Digest {
    Digest::parse(text).unwrap()
}

fn internal_kind(e: &ContentStoreError) -> Option<ErrorKind> {
    e.kind()
}

#[test]
fn hello_scenario() {
    let mut store = MemoryContentStore::new();
    let id = package();
    let d = digest(HELLO_DIGEST);
    assert!(store.store_content(&id, &d, b"hello").is_ok());
    assert_eq!(store.content_present(&id, &d).unwrap(), true);
    assert_eq!(store.fetch_content(&id, &d).unwrap(), b"hello".to_vec());
    let other = digest(OTHER_DIGEST);
    match store.fetch_content(&id, &other) {
        Err(ContentStoreError::ContentNotFound(missing)) => assert!(missing.same_as(&other)),
        _ => panic!("expected not found"),
    }
}

#[test]
fn round_trip_returns_stored_bytes() {
    let mut store = MemoryContentStore::new();
    let content = vec![0u8, 1, 2, 255, 254, 10, 13];
    let d = Digest::of(DigestAlgorithm::Sha256, &content);
    store.store_content(&package(), &d, &content).unwrap();
    assert_eq!(store.fetch_content(&package(), &d).unwrap(), content);
}

#[test]
fn presence_changes_only_on_successful_store() {
    let mut store = MemoryContentStore::new();
    let d = digest(HELLO_DIGEST);
    assert_eq!(store.content_present(&package(), &d).unwrap(), false);
    store.store_content(&package(), &d, b"hello").unwrap();
    assert_eq!(store.content_present(&package(), &d).unwrap(), true);
}

#[test]
fn mismatched_bytes_are_rejected() {
    let mut store = MemoryContentStore::new();
    let d = digest(HELLO_DIGEST);
    let err = store.store_content(&package(), &d, b"hellp").unwrap_err();
    assert_eq!(internal_kind(&err), Some(ErrorKind::IntegrityMismatch));
    assert_eq!(store.content_present(&package(), &d).unwrap(), false);
    assert!(matches!(store.fetch_content(&package(), &d), Err(ContentStoreError::ContentNotFound(_))));
}

#[test]
fn storing_twice_is_idempotent() {
    let mut store = MemoryContentStore::new();
    let d = digest(HELLO_DIGEST);
    assert!(store.store_content(&package(), &d, b"hello").is_ok());
    assert!(store.store_content(&package(), &d, b"hello").is_ok());
    assert_eq!(store.fetch_content(&package(), &d).unwrap(), b"hello".to_vec());
}

#[test]
fn content_is_shared_across_packages() {
    let mut store = MemoryContentStore::new();
    let d = digest(HELLO_DIGEST);
    store.store_content(&package(), &d, b"hello").unwrap();
    let other = PackageId::parse("other-ns:thing2").unwrap();
    assert_eq!(store.content_present(&other, &d).unwrap(), true);
    assert_eq!(store.fetch_content(&other, &d).unwrap(), b"hello".to_vec());
}

#[test]
fn unknown_digest_is_not_found() {
    let store = MemoryContentStore::new();
    let d = digest(OTHER_DIGEST);
    assert!(matches!(store.fetch_content(&package(), &d), Err(ContentStoreError::ContentNotFound(_))));
    assert_eq!(store.content_present(&package(), &d).unwrap(), false);
}

#[test]
fn hash_of_hello() {
    let d = Digest::of(DigestAlgorithm::Sha256, b"hello");
    assert_eq!(d.to_canonical_string(), HELLO_DIGEST);
    assert!(d.same_as(&digest(HELLO_DIGEST)));
    assert!(d.matches_content(b"hello"));
    assert!(!d.matches_content(b"hello!"));
}

#[test]
fn hash_of_empty_input() {
    let d = Digest::of(DigestAlgorithm::Sha256, b"");
    assert_eq!(
        d.to_canonical_string(),
        "sha256:e3b0c44298fc1c149afbf4c8996fb92427ae41e4649b934ca495991b7852b855"
    );
}

#[test]
fn parse_decodes_hex() {
    let d = digest(HELLO_DIGEST);
    assert_eq!(d.algorithm(), DigestAlgorithm::Sha256);
    assert_eq!(d.bytes().len(), 32);
    assert_eq!(&d.bytes()[0..4], &[0x2c, 0xf2, 0x4d, 0xba]);
    assert_eq!(d.to_canonical_string(), HELLO_DIGEST);
}

#[test]
fn parse_rejects_malformed_digests() {
    let bad = [
        "",
        "sha256",
        "sha256:",
        "sha256:2cf2",
        "md5:2cf24dba5fb0a30e26e83b2ac5b9e29e1b161e5c1fa7425e73043362938b9824",
        "SHA256:2cf24dba5fb0a30e26e83b2ac5b9e29e1b161e5c1fa7425e73043362938b9824",
        "sha256:2CF24DBA5FB0A30E26E83B2AC5B9E29E1B161E5C1FA7425E73043362938B9824",
        "sha256:2cf24dba5fb0a30e26e83b2ac5b9e29e1b161e5c1fa7425e73043362938b982",
        "sha256:2cf24dba5fb0a30e26e83b2ac5b9e29e1b161e5c1fa7425e73043362938b982400",
        "sha256:2cf24dba5fb0a30e26e83b2ac5b9e29e1b161e5c1fa7425e73043362938b982g",
    ];
    for text in bad {
        let err = Digest::parse(text).unwrap_err();
        assert_eq!(internal_kind(&err), Some(ErrorKind::InvalidIdentifier), "{text}");
    }
}

#[test]
fn traversal_texts_are_invalid_identifiers() {
    for text in ["sha256:../../etc/passwd", "../sha256:2cf2", "sha256:2c/f2", "sha256:.."] {
        let err = Digest::parse(text).unwrap_err();
        assert_eq!(internal_kind(&err), Some(ErrorKind::InvalidIdentifier));
    }
    for text in ["../acme:widget", "acme:../widget", "acme:wid/get", "acme:widget.tar", "acme:wid\\get"] {
        let err = PackageId::parse(text).unwrap_err();
        assert_eq!(internal_kind(&err), Some(ErrorKind::InvalidIdentifier));
    }
}

#[test]
fn package_ids() {
    assert_eq!(PackageId::parse("acme:widget").unwrap().as_str(), "acme:widget");
    assert_eq!(PackageId::parse("my-ns:pkg2-x").unwrap().as_str(), "my-ns:pkg2-x");
    for text in ["", "acme", "acme:", ":widget", "Acme:widget", "acme:Widget", "acme:-widget", "acme:widget-", "a:b:c", "acme:2d", "acme:wid--get", "acme:pkg-2"] {
        assert!(PackageId::parse(text).is_err(), "{text}");
    }
}

#[test]
fn content_path_is_sharded_by_leading_hex() {
    let d = digest(HELLO_DIGEST);
    assert_eq!(content_path("/var/content", &d), format!("/var/content/2c/f2/{HELLO_DIGEST}"));
}

#[test]
fn temp_path_is_marked() {
    assert_eq!(temp_path("/var/content", "17"), "/var/content/.upload-17");
    assert_ne!(temp_path("/var/content", "x"), content_path("/var/content", &digest(HELLO_DIGEST)));
}

#[test]
fn check_upload_compares_digests() {
    let d = digest(HELLO_DIGEST);
    assert!(check_upload(&d, b"hello").is_ok());
    let err = check_upload(&d, b"").unwrap_err();
    assert_eq!(internal_kind(&err), Some(ErrorKind::IntegrityMismatch));
}

#[test]
fn commit_outcomes() {
    assert!(commit_result(RenameOutcome::Renamed).is_ok());
    assert!(commit_result(RenameOutcome::AlreadyCommitted).is_ok());
    match commit_result(RenameOutcome::Failed("disk full".to_string())) {
        Err(ContentStoreError::ContentStoreInternalError(ErrorKind::Io, m)) => assert_eq!(m, "disk full"),
        _ => panic!("expected an I/O error"),
    }
}

#[test]
fn open_outcomes() {
    let d = digest(HELLO_DIGEST);
    assert!(open_result(&d, OpenOutcome::Opened).is_ok());
    match open_result(&d, OpenOutcome::Missing) {
        Err(ContentStoreError::ContentNotFound(missing)) => assert!(missing.same_as(&d)),
        _ => panic!("expected not found"),
    }
    match open_result(&d, OpenOutcome::Failed("denied".to_string())) {
        Err(ContentStoreError::ContentStoreInternalError(ErrorKind::Io, m)) => assert_eq!(m, "denied"),
        _ => panic!("expected an I/O error"),
    }
}

#[test]
fn error_kinds() {
    let e = ContentStoreError::internal(ErrorKind::Io, "boom");
    assert_eq!(e.kind(), Some(ErrorKind::Io));
    let nf = ContentStoreError::ContentNotFound(digest(HELLO_DIGEST));
    assert_eq!(nf.kind(), None);
}

#[test]
fn stores_of_different_digests_commute() {
    let a = b"first blob".to_vec();
    let b = b"second blob".to_vec();
    let da = Digest::of(DigestAlgorithm::Sha256, &a);
    let db = Digest::of(DigestAlgorithm::Sha256, &b);
    let mut one = MemoryContentStore::new();
    one.store_content(&package(), &da, &a).unwrap();
    one.store_content(&package(), &db, &b).unwrap();
    let mut two = MemoryContentStore::new();
    two.store_content(&package(), &db, &b).unwrap();
    two.store_content(&package(), &da, &a).unwrap();
    for store in [&one, &two] {
        assert_eq!(store.fetch_content(&package(), &da).unwrap(), a);
        assert_eq!(store.fetch_content(&package(), &db).unwrap(), b);
    }
}

#[test]
fn canonical_text_parses_back() {
    let d = Digest::of(DigestAlgorithm::Sha256, b"The quick brown fox jumped over the lazy dog");
    let text = d.to_canonical_string();
    assert_eq!(text, "sha256:7d38b5cd25a2baf85ad3bb5b9311383e671a8a142eb302b324d4a5fba8748c69");
    assert!(Digest::parse(&text).unwrap().same_as(&d));
}

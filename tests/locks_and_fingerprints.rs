use smoke_harness::fingerprint::{compare_fingerprints, fingerprint, to_hex, Reproducibility};
use smoke_harness::locks::{classify_lock, collect_locks, locks_in_order, LockKind, WalkEntry};

fn entry(is_file: bool, parent: Option<&str>, name: &str) -> WalkEntry {
    WalkEntry {
        is_file,
        file_name: Some(name.to_string()),
        has_parent: true,
        parent_name: parent.map(|p| p.to_string()),
    }
}

#[test]
fn classifies_lock_files() {
    assert_eq!(classify_lock(&entry(true, Some("locks"), "configure-abc.lck")), Some(LockKind::Configure));
    assert_eq!(classify_lock(&entry(true, Some("locks"), "install-abc.lck")), Some(LockKind::Install));
    assert_eq!(classify_lock(&entry(true, None, "install-abc.lck")), Some(LockKind::Install));
}

#[test]
fn ignores_non_lock_entries() {
    assert_eq!(classify_lock(&entry(false, Some("locks"), "configure-abc.lck")), None);
    assert_eq!(classify_lock(&entry(true, Some("bindings"), "configure-abc.lck")), None);
    assert_eq!(classify_lock(&entry(true, Some("locks"), "configure-abc.lock")), None);
    assert_eq!(classify_lock(&entry(true, Some("locks"), "other-abc.lck")), None);
    let unnamed = WalkEntry { is_file: true, file_name: None, has_parent: true, parent_name: Some("locks".to_string()) };
    assert_eq!(classify_lock(&unnamed), None);
    let orphan = WalkEntry { is_file: true, file_name: Some("install-x.lck".to_string()), has_parent: false, parent_name: None };
    assert_eq!(classify_lock(&orphan), None);
}

#[test]
fn two_launches_leave_configure_then_install() {
    let walk = vec![
        entry(false, Some("nce"), "locks"),
        entry(true, Some("locks"), "configure-1234.lck"),
        entry(true, Some("venvs"), "install-1234.lck"),
        entry(true, Some("locks"), "install-1234.lck"),
        entry(true, Some("bindings"), "readme.txt"),
    ];
    let locks = collect_locks(&walk);
    assert_eq!(locks, vec![LockKind::Configure, LockKind::Install]);
    assert!(locks_in_order(&locks));
}

#[test]
fn lock_order_refusals() {
    assert!(!locks_in_order(&vec![LockKind::Install, LockKind::Configure]));
    assert!(!locks_in_order(&vec![LockKind::Configure]));
    assert!(!locks_in_order(&vec![]));
    assert!(!locks_in_order(&vec![LockKind::Configure, LockKind::Install, LockKind::Install]));
}

#[test]
fn hex_renders_lowercase_pairs() {
    assert_eq!(to_hex(&[0x00, 0x0f, 0xa5, 0xff]), "000fa5ff");
    assert_eq!(to_hex(&[]), "");
}

#[test]
fn fingerprint_is_sha256_hex() {
    assert_eq!(
        fingerprint(b"abc"),
        "ba7816bf8f01cfea414140de5dae2223b00361a396177a9cb410ff61f20015ad"
    );
    assert_eq!(
        fingerprint(b""),
        "e3b0c44298fc1c149afbf4c8996fb92427ae41e4649b934ca495991b7852b855"
    );
}

#[test]
fn fingerprint_is_deterministic() {
    let contents = b"tools.pex contents".to_vec();
    assert_eq!(fingerprint(&contents), fingerprint(&contents.clone()));
}

#[test]
fn corrupted_copy_changes_fingerprint() {
    let ours = b"reproducible artifact".to_vec();
    let theirs = ours.clone();
    let mut corrupted = ours.clone();
    corrupted[3] ^= 1;
    let f_ours = fingerprint(&ours);
    assert_eq!(compare_fingerprints(&f_ours, &fingerprint(&theirs), false), Reproducibility::Matches);
    assert_eq!(compare_fingerprints(&f_ours, &fingerprint(&corrupted), false), Reproducibility::MismatchFailed);
    assert_eq!(compare_fingerprints(&f_ours, &fingerprint(&corrupted), true), Reproducibility::MismatchWarned);
}

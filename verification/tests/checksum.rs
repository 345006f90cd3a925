use apt_vulns_xyz::artifact::{BuildDir, Verification};
use apt_vulns_xyz::config::Checksum;
use apt_vulns_xyz::digest::{checksum, format_digest};

const EMPTY: &str = "sha256:e3b0c44298fc1c149afbf4c8996fb92427ae41e4649b934ca495991b7852b855";
const ABC: &str = "sha256:ba7816bf8f01cfea414140de5dae2223b00361a396177a9cb410ff61f20015ad";

fn rule(path: &str, checksum: &str) -> Checksum {
    Checksum { path: path.to_string(), checksum: checksum.to_string() }
}

#[test]
fn checksum_of_empty_input() {
    assert_eq!(checksum(b""), EMPTY);
}

#[test]
fn checksum_of_abc() {
    assert_eq!(checksum(b"abc"), ABC);
}

#[test]
fn format_digest_is_lowercase_hex_high_nibble_first() {
    assert_eq!(format_digest(&[0x00, 0x0f, 0xa0, 0xff, 0x1b]), "sha256:000fa0ff1b");
    assert_eq!(format_digest(&[]), "sha256:");
}

#[test]
fn verify_missing_file() {
    let r = rule("out/foo.deb", ABC);
    assert!(matches!(r.verify(None), Verification::Missing));
}

#[test]
fn verify_matching_file() {
    let r = rule("out/foo.deb", ABC);
    assert!(matches!(r.verify(Some(b"abc")), Verification::Match));
}

#[test]
fn verify_mismatching_file_carries_calculated() {
    let r = rule("out/foo.deb", ABC);
    match r.verify(Some(b"")) {
        Verification::Mismatch(calculated) => assert_eq!(calculated, EMPTY),
        other => panic!("unexpected {:?}", other),
    }
}

#[test]
fn verify_is_case_sensitive() {
    let upper = ABC.to_uppercase().replace("SHA256", "sha256");
    let r = rule("out/foo.deb", &upper);
    match r.verify(Some(b"abc")) {
        Verification::Mismatch(calculated) => assert_eq!(calculated, ABC),
        other => panic!("unexpected {:?}", other),
    }
}

#[test]
fn compare_takes_the_digest_as_it_is() {
    let r = rule("a", "sha256:0102");
    assert!(matches!(r.compare(&[1, 2]), Verification::Match));
    match r.compare(&[1, 3]) {
        Verification::Mismatch(calculated) => assert_eq!(calculated, "sha256:0103"),
        other => panic!("unexpected {:?}", other),
    }
}

#[test]
fn build_dir_lookup() {
    let mut dir = BuildDir::new();
    assert!(dir.get(&"a".to_string()).is_none());
    dir.insert("a".to_string(), vec![1]);
    dir.insert("b".to_string(), vec![2]);
    dir.insert("a".to_string(), vec![3]);
    assert_eq!(dir.get(&"a".to_string()), Some(&[3u8][..]));
    assert_eq!(dir.get(&"b".to_string()), Some(&[2u8][..]));
    assert!(dir.get(&"c".to_string()).is_none());
}

#[test]
fn verify_in_build_dir() {
    let mut dir = BuildDir::new();
    dir.insert("out/foo.deb".to_string(), b"abc".to_vec());
    assert!(matches!(rule("out/foo.deb", ABC).verify_in(&dir), Verification::Match));
    assert!(matches!(rule("out/foo.changes", ABC).verify_in(&dir), Verification::Missing));
    assert!(matches!(rule("out/foo.deb", EMPTY).verify_in(&dir), Verification::Mismatch(_)));
}

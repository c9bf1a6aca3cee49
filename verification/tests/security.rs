use vaelix::kernel::vxfs::VXFS;
use vaelix::vxp_security::{calculate_checksum, verify_checksum};

#[test]
fn sha256_of_empty_input() {
    let checksum = calculate_checksum(&vec![]);
    assert_eq!(checksum, "e3b0c44298fc1c149afbf4c8996fb92427ae41e4649b934ca495991b7852b855");
}

#[test]
fn sha256_of_abc() {
    let data: Vec<u8> = b"abc".to_vec();
    let checksum = calculate_checksum(&data);
    assert_eq!(checksum, "ba7816bf8f01cfea414140de5dae2223b00361a396177a9cb410ff61f20015ad");
}

#[test]
fn verify_checksum_accepts_and_rejects() {
    let data: Vec<u8> = b"abc".to_vec();
    let good = String::from("ba7816bf8f01cfea414140de5dae2223b00361a396177a9cb410ff61f20015ad");
    let bad = String::from("ba7816bf8f01cfea414140de5dae2223b00361a396177a9cb410ff61f20015ae");
    assert!(verify_checksum(&data, &good));
    assert!(!verify_checksum(&data, &bad));
    assert!(!verify_checksum(&vec![], &good));
}

#[test]
fn vxfs_journal_verifies_contents() {
    let mut fs = VXFS::new();
    let path = String::from("/etc/motd");
    let contents: Vec<u8> = b"welcome".to_vec();
    assert!(!fs.verify_contents(&path, &contents));
    fs.record_file(path.clone(), &contents);
    assert!(fs.verify_contents(&path, &contents));
    // Tampered contents no longer verify.
    let tampered: Vec<u8> = b"welcome!".to_vec();
    assert!(!fs.verify_contents(&path, &tampered));
    // A new write replaces the record.
    fs.record_file(path.clone(), &tampered);
    assert!(fs.verify_contents(&path, &tampered));
    assert!(!fs.verify_contents(&path, &contents));
    assert_eq!(fs.journal.len(), 1);
}

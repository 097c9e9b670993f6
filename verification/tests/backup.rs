use soroban_playground::backup::{
    arg_value, backup_file_name, check_sidecar, decrypt, encrypt, is_backup_name, key_from_hex, retention_decision, sha256_hex, sidecar_line,
    BackupError, KeyError, RetentionDecision, SidecarCheck,
};

const KEY_HEX: &str = "000102030405060708090a0b0c0d0e0f101112131415161718191a1b1c1d1e1f";
const STAMP_SECS: i64 = 1_787_745_600; // 2026-08-26T12:00:00Z

fn key() -> [u8; 32] {
    let mut k = [0u8; 32];
    for (i, b) in k.iter_mut().enumerate() {
        *b = i as u8;
    }
    k
}

#[test]
fn sha256_hex_of_abc() {
    assert_eq!(sha256_hex(b"abc"), "ba7816bf8f01cfea414140de5dae2223b00361a396177a9cb410ff61f20015ad");
}

#[test]
fn sha256_hex_of_empty_input() {
    assert_eq!(sha256_hex(b""), "e3b0c44298fc1c149afbf4c8996fb92427ae41e4649b934ca495991b7852b855");
}

#[test]
fn key_from_hex_reads_64_digits() {
    assert_eq!(key_from_hex(KEY_HEX), Ok(key()));
    let padded = format!("  {}\n", KEY_HEX);
    assert_eq!(key_from_hex(&padded), Ok(key()));
}

#[test]
fn key_from_hex_rejects_wrong_length() {
    assert_eq!(key_from_hex("abcd"), Err(KeyError::WrongLength));
    assert_eq!(key_from_hex(""), Err(KeyError::WrongLength));
}

#[test]
fn key_from_hex_rejects_non_hex() {
    let bad = "zz".repeat(32);
    assert_eq!(key_from_hex(&bad), Err(KeyError::InvalidHex));
}

#[test]
fn encrypt_then_decrypt_gives_the_dump_back() {
    let dump = b"CREATE TABLE t (id int);".to_vec();
    let payload = encrypt(&dump, &key(), STAMP_SECS).unwrap();
    assert_eq!(payload.len(), dump.len() + 28);
    assert_ne!(&payload[12..12 + dump.len()], &dump[..]);
    assert_eq!(decrypt(&payload, &key()).unwrap(), dump);
}

#[test]
fn encrypt_empty_dump_round_trips() {
    let payload = encrypt(&[], &key(), 0).unwrap();
    assert_eq!(payload.len(), 28);
    assert_eq!(decrypt(&payload, &key()).unwrap(), Vec::<u8>::new());
}

#[test]
fn decrypt_with_wrong_key_fails() {
    let payload = encrypt(b"secret", &key(), STAMP_SECS).unwrap();
    let mut other = key();
    other[0] ^= 1;
    assert_eq!(decrypt(&payload, &other), Err(BackupError::DecryptionFailed));
}

#[test]
fn decrypt_of_damaged_payload_fails() {
    let mut payload = encrypt(b"secret", &key(), STAMP_SECS).unwrap();
    let last = payload.len() - 1;
    payload[last] ^= 0x80;
    assert_eq!(decrypt(&payload, &key()), Err(BackupError::DecryptionFailed));
}

#[test]
fn decrypt_of_short_payload_fails() {
    assert_eq!(decrypt(&[1, 2, 3], &key()), Err(BackupError::PayloadTooShort));
}

#[test]
fn arg_value_finds_the_following_argument() {
    let args: Vec<String> = ["prog", "--dir", "/tmp/b", "--days", "7"].iter().map(|s| s.to_string()).collect();
    assert_eq!(arg_value(&args, "--days"), Some("7".to_string()));
    assert_eq!(arg_value(&args, "--dir"), Some("/tmp/b".to_string()));
    assert_eq!(arg_value(&args, "--missing"), None);
    let tail: Vec<String> = ["prog", "--days"].iter().map(|s| s.to_string()).collect();
    assert_eq!(arg_value(&tail, "--days"), None);
}

#[test]
fn backup_names_are_recognised() {
    assert!(is_backup_name("backup_20260826T120000Z.enc"));
    assert!(is_backup_name("backup_.enc"));
    assert!(!is_backup_name("backup_20260826T120000Z.sql"));
    assert!(!is_backup_name("notes.enc"));
    assert!(!is_backup_name("backup.enc"));
}

#[test]
fn retention_keeps_young_and_deletes_old_backups() {
    let name = "backup_20260826T120000Z.enc";
    let week = 7 * 86_400;
    assert_eq!(retention_decision(name, STAMP_SECS + 60, 0, 7), RetentionDecision::Keep);
    assert_eq!(retention_decision(name, STAMP_SECS + week, 0, 7), RetentionDecision::Keep);
    assert_eq!(retention_decision(name, STAMP_SECS + week, 1, 7), RetentionDecision::Delete);
    assert_eq!(retention_decision(name, STAMP_SECS + week + 1, 0, 7), RetentionDecision::Delete);
}

#[test]
fn retention_leaves_other_files_alone() {
    assert_eq!(retention_decision("readme.txt", STAMP_SECS, 0, 7), RetentionDecision::NotBackup);
    assert_eq!(retention_decision("backup_yesterday.enc", STAMP_SECS, 0, 7), RetentionDecision::Unparsable);
}

#[test]
fn sidecar_checksum_is_its_first_word() {
    let digest = "ba7816bf8f01cfea414140de5dae2223b00361a396177a9cb410ff61f20015ad";
    let file = format!("{digest}  backup_20260826T120000Z.enc\n");
    assert!(matches!(check_sidecar(&file, digest), SidecarCheck::Matches));
    assert!(matches!(check_sidecar(&format!("\t\n {digest}"), digest), SidecarCheck::Matches));
    match check_sidecar("abc123  backup.enc\n", digest) {
        SidecarCheck::Mismatch(expected) => assert_eq!(expected, b"abc123".to_vec()),
        other => panic!("unexpected {other:?}"),
    }
    assert!(matches!(check_sidecar("  \n", digest), SidecarCheck::Empty));
    assert!(matches!(check_sidecar("", digest), SidecarCheck::Empty));
    assert!(matches!(check_sidecar(&format!("{digest}0"), digest), SidecarCheck::Mismatch(_)));
}

#[test]
fn key_from_hex_trims_unicode_white_space() {
    let padded = format!("\u{00A0}\u{3000}{KEY_HEX}\u{2028}\t");
    assert_eq!(key_from_hex(&padded), Ok(key()));
    let inner = format!("{}\u{00A0}{}", &KEY_HEX[..32], &KEY_HEX[32..]);
    assert_eq!(key_from_hex(&inner), Err(KeyError::WrongLength));
}

#[test]
fn sidecar_line_round_trips_through_check_sidecar() {
    let digest = sha256_hex(b"abc");
    let line = sidecar_line(&digest, "backup_20260826T120000Z.enc");
    assert_eq!(line, format!("{digest}  backup_20260826T120000Z.enc\n"));
    assert!(matches!(check_sidecar(&line, &digest), SidecarCheck::Matches));
}

#[test]
fn backup_file_name_is_recognised_by_retention() {
    let name = backup_file_name("20260826T120000Z");
    assert_eq!(name, "backup_20260826T120000Z.enc");
    assert!(is_backup_name(&name));
    assert_eq!(retention_decision(&name, STAMP_SECS, 0, 7), RetentionDecision::Keep);
}

// 2026-12-31T23:59:59Z; the stamp below names the leap second after it.
const LEAP_BASE: i64 = 1_798_761_599;

#[test]
fn retention_counts_a_leap_second_stamp_as_chrono_does() {
    let name = "backup_20261231T235960Z.enc";
    let week = 7 * 86_400;
    // A week later at the same time of day the leap second has not yet been passed.
    assert_eq!(retention_decision(name, LEAP_BASE + week, 1, 7), RetentionDecision::Keep);
    assert_eq!(retention_decision(name, LEAP_BASE + week + 1, 0, 7), RetentionDecision::Keep);
    assert_eq!(retention_decision(name, LEAP_BASE + week + 1, 1, 7), RetentionDecision::Delete);
}

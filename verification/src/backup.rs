//! The computing core of the database backup tool: command-line flag
//! lookup, the encryption key from its hex form, AES-256-GCM sealing and
//! opening of dump files with a nonce carried in front, SHA-256 checksums
//! in hex, and the retention rule for backup files.
//!
//! Running `pg_dump`, reading and writing files and the clock belong to the
//! program around this library.
#![allow(deprecated)]
use vstd::prelude::*;
use aes_gcm::aead::{Aead, KeyInit};
use aes_gcm::{Aes256Gcm, Key, Nonce};
use crate::hashing::{sha256, sha256_digest};
use vstd::string::StringSliceAdditionalSpecFns;
use vstd::string::StringExecFns;

verus! {

/// Longest plaintext AES-256-GCM accepts: 2^36 bytes.
pub const P_MAX: u64 = 0x10_0000_0000;
/// Bytes of nonce in front of every encrypted backup.
pub const NONCE_LEN: usize = 12;
/// Seconds in a day.
pub const SECS_PER_DAY: i64 = 86_400;
/// Largest number of whole seconds a `chrono::TimeDelta` holds.
pub const MAX_DELTA_SECS: i64 = 9_223_372_036_854_775;

#[derive(Clone, Copy, Debug, PartialEq, Eq, Structural)]
pub enum BackupError {
    /// The encrypted payload cannot even hold a nonce.
    PayloadTooShort,
    /// AES-256-GCM refused to encrypt.
    EncryptionFailed,
    /// AES-256-GCM refused to decrypt: wrong key or damaged data.
    DecryptionFailed,
}

#[derive(Clone, Copy, Debug, PartialEq, Eq, Structural)]
pub enum KeyError {
    /// The trimmed text is not 64 bytes long.
    WrongLength,
    /// The text is 64 bytes long but not hexadecimal.
    InvalidHex,
}

/// What the retention sweep does with a directory entry.
#[derive(Clone, Copy, Debug, PartialEq, Eq, Structural)]
pub enum RetentionDecision {
    /// Not named `backup_*.enc`: left alone.
    NotBackup,
    /// Named like a backup but its timestamp does not parse: left alone.
    Unparsable,
    /// Younger than the retention window (or exactly at it).
    Keep,
    /// Older than the retention window: to be removed.
    Delete,
}

// ── Trusted calls ────────────────────────────────────────────────────────

/// What AES-256-GCM produces for `plaintext` under `key` and `nonce`
/// (ciphertext followed by the 16-byte tag).
pub uninterp spec fn aes256gcm_seal(key: Seq<u8>, nonce: Seq<u8>, plaintext: Seq<u8>) -> Seq<u8>;

/// What AES-256-GCM decryption of `ciphertext` under `key` and `nonce`
/// gives: the plaintext, or nothing when authentication fails.
pub uninterp spec fn aes256gcm_open(key: Seq<u8>, nonce: Seq<u8>, ciphertext: Seq<u8>) -> Option<Seq<u8>>;

/// `Aes256Gcm::encrypt` (via `aead::Aead`) with no associated data.
/// Trusted: it succeeds exactly when the plaintext is at most `P_MAX` bytes
/// (the only check in `encrypt_in_place_detached`; a `Vec` buffer always
/// grows); the result is the sealed text, 16 bytes longer than the
/// plaintext, and opening it under the same key and nonce gives the
/// plaintext back.
#[verifier::external_body]
fn aes_gcm_seal(key: &[u8; 32], nonce: &[u8], plaintext: &[u8]) -> (r: Option<Vec<u8>>)
    requires
        nonce@.len() == NONCE_LEN,
    ensures
        r is Some <==> plaintext@.len() <= P_MAX,
        r is Some ==> r->0@ == aes256gcm_seal(key@, nonce@, plaintext@),
        r is Some ==> r->0@.len() == plaintext@.len() + 16,
        r is Some ==> aes256gcm_open(key@, nonce@, r->0@) == Some(plaintext@),
{
    let cipher = Aes256Gcm::new(Key::<Aes256Gcm>::from_slice(key));
    cipher.encrypt(Nonce::from_slice(nonce), plaintext).ok()
}

/// `Aes256Gcm::decrypt` (via `aead::Aead`) with no associated data.
/// Trusted: the result is the opened plaintext, or nothing when the
/// ciphertext does not authenticate.
#[verifier::external_body]
fn aes_gcm_open(key: &[u8; 32], nonce: &[u8], ciphertext: &[u8]) -> (r: Option<Vec<u8>>)
    requires
        nonce@.len() == NONCE_LEN,
    ensures
        match aes256gcm_open(key@, nonce@, ciphertext@) {
            Some(p) => r is Some && r->0@ == p,
            None => r is None,
        },
{
    let cipher = Aes256Gcm::new(Key::<Aes256Gcm>::from_slice(key));
    cipher.decrypt(Nonce::from_slice(nonce), ciphertext).ok()
}

/// The lowercase hex digit for a value below 16.
pub open spec fn hex_digit_char(v: int) -> char {
    if v < 10 {
        ('0' as int + v) as char
    } else {
        ('a' as int + v - 10) as char
    }
}

/// Lowercase hex text of a byte string: two digits per byte, high first.
pub open spec fn hex_lower(data: Seq<u8>) -> Seq<char> {
    Seq::new(
        2 * data.len(),
        |i: int|
            if i % 2 == 0 {
                hex_digit_char((data[i / 2] / 16) as int)
            } else {
                hex_digit_char((data[i / 2] % 16) as int)
            },
    )
}

/// `hex::encode`.  Trusted: two lowercase digits per byte, the high
/// nibble first (the crate's `HEX_CHARS_LOWER` table).
#[verifier::external_body]
fn hex_encode(data: &[u8]) -> (r: String)
    ensures
        r@ == hex_lower(data@),
{
    hex::encode(data)
}

/// A byte is a hexadecimal digit of either case.
pub open spec fn is_hex_digit(c: u8) -> bool {
    (48 <= c <= 57) || (65 <= c <= 70) || (97 <= c <= 102)
}

/// The value of a hexadecimal digit.
pub open spec fn hex_value(c: u8) -> int {
    if 48 <= c <= 57 {
        c - 48
    } else if 65 <= c <= 70 {
        c - 65 + 10
    } else {
        c - 97 + 10
    }
}

/// `text` is 64 hex digits spelling the 32 bytes of `key`.
pub open spec fn hex_spells(text: Seq<u8>, key: Seq<u8>) -> bool {
    &&& text.len() == 64
    &&& key.len() == 32
    &&& forall|i: int| 0 <= i < 32 ==> #[trigger] key[i] == hex_value(text[2 * i]) * 16 + hex_value(text[2 * i + 1])
}

/// `hex::decode_to_slice` into a 32-byte buffer.  Trusted: it succeeds
/// exactly when the text is 64 bytes of hex digits (odd length, a length
/// other than twice the buffer, or a non-digit are errors), and then each
/// byte is its two digits, high first.
#[verifier::external_body]
fn hex_decode_32(text: &str) -> (r: Option<[u8; 32]>)
    ensures
        r is Some <==> text.spec_bytes().len() == 64 && forall|i: int|
            0 <= i < 64 ==> is_hex_digit(#[trigger] text.spec_bytes()[i]),
        r is Some ==> hex_spells(text.spec_bytes(), r->0@),
{
    let mut key = [0u8; 32];
    match hex::decode_to_slice(text, &mut key) {
        Ok(()) => Some(key),
        Err(_) => None,
    }
}

/// A character with the Unicode `White_Space` property.
pub open spec fn is_white_space(c: char) -> bool {
    let n = c as u32;
    ||| 0x09 <= n <= 0x0D
    ||| n == 0x20 || n == 0x85 || n == 0xA0 || n == 0x1680
    ||| 0x2000 <= n <= 0x200A
    ||| n == 0x2028 || n == 0x2029 || n == 0x202F || n == 0x205F || n == 0x3000
}

/// `text` without its leading white space.
pub open spec fn trimmed_start(text: Seq<char>) -> Seq<char>
    decreases text.len(),
{
    if text.len() > 0 && is_white_space(text[0]) {
        trimmed_start(text.drop_first())
    } else {
        text
    }
}

/// `text` without its trailing white space.
pub open spec fn trimmed_end(text: Seq<char>) -> Seq<char>
    decreases text.len(),
{
    if text.len() > 0 && is_white_space(text.last()) {
        trimmed_end(text.drop_last())
    } else {
        text
    }
}

/// `text` with leading and trailing white space removed.
pub open spec fn trimmed(text: Seq<char>) -> Seq<char> {
    trimmed_end(trimmed_start(text))
}

/// `str::trim`.  Trusted: it removes leading and trailing characters with
/// the Unicode `White_Space` property, as its documentation says.
#[verifier::external_body]
fn trim(text: &str) -> (r: &str)
    ensures
        r@ == trimmed(text@),
{
    text.trim()
}

/// The instant that `text` spells under the chrono format `fmt`, if it
/// parses: Unix seconds and the nanoseconds past them, where a leap second
/// shows as 1_000_000_000 nanoseconds or more.
pub uninterp spec fn parsed_instant(text: Seq<char>, fmt: Seq<char>) -> Option<(i64, u32)>;

/// `chrono::DateTime::parse_from_str`, read back through `timestamp` and
/// `timestamp_subsec_nanos`.  Trusted: the result depends on the text and
/// the format alone.
#[verifier::external_body]
fn parse_from_str(text: &str, fmt: &str) -> (r: Option<(i64, u32)>)
    ensures
        r == parsed_instant(text@, fmt@),
{
    match chrono::DateTime::parse_from_str(text, fmt) {
        Ok(dt) => Some((dt.timestamp(), dt.timestamp_subsec_nanos())),
        Err(_) => None,
    }
}

/// `chrono::Duration::days(days).num_seconds()`.  Trusted: a day is 86 400
/// seconds; `days` panics past `MAX_DELTA_SECS`, which `requires` leaves
/// out.
#[verifier::external_body]
fn days_in_seconds(days: i64) -> (r: i64)
    requires
        -MAX_DELTA_SECS <= days * SECS_PER_DAY <= MAX_DELTA_SECS,
    ensures
        r == days * SECS_PER_DAY,
{
    chrono::Duration::days(days).num_seconds()
}

// ── Verified logic ───────────────────────────────────────────────────────

/// Equality of two strings, by their bytes.
fn str_eq(a: &str, b: &str) -> (r: bool)
    ensures
        r == (a@ == b@),
{
    let x = a.as_bytes();
    let y = b.as_bytes();
    proof {
        vstd::utf8::encode_utf8_decode_utf8(a@);
        vstd::utf8::encode_utf8_decode_utf8(b@);
    }
    if x.len() != y.len() {
        return false;
    }
    let mut i: usize = 0;
    while i < x.len()
        invariant
            x@ == a.spec_bytes(),
            y@ == b.spec_bytes(),
            x@.len() == y@.len(),
            0 <= i <= x@.len(),
            forall|k: int| 0 <= k < i ==> x@[k] == y@[k],
        decreases x@.len() - i,
    {
        if x[i] != y[i] {
            return false;
        }
        i = i + 1;
    }
    proof {
        assert(x@ =~= y@);
    }
    true
}

/// The value following the first occurrence of `flag`, if there is one.
pub open spec fn spec_arg_value(args: Seq<String>, flag: Seq<char>) -> Option<String> {
    match crate::common::first_match(args, |s: String| s@ == flag) {
        Some(i) => if i + 1 < args.len() {
            Some(args[i + 1])
        } else {
            None
        },
        None => None,
    }
}

/// The argument after the first `flag` in `args`, if any.
pub fn arg_value(args: &[String], flag: &str) -> (r: Option<String>)
    ensures
        r == spec_arg_value(args@, flag@),
{
    let ghost p = |s: String| s@ == flag@;
    let mut i: usize = 0;
    while i < args.len()
        invariant
            0 <= i <= args@.len(),
            p == (|s: String| s@ == flag@),
            forall|k: int| 0 <= k < i ==> !p(args@[k]),
        decreases args@.len() - i,
    {
        if str_eq(args[i].as_str(), flag) {
            proof {
                assert(crate::common::is_first_match(args@, p, i as int));
                crate::common::lemma_first_match_is(args@, p, i as int);
            }
            if i + 1 < args.len() {
                return Some(args[i + 1].clone());
            } else {
                return None;
            }
        }
        i = i + 1;
    }
    proof {
        crate::common::lemma_first_match_none(args@, p);
    }
    None
}

/// The nonce of a backup: the timestamp's 8 big-endian bytes, then the
/// plaintext length truncated to 32 bits, big-endian.
pub open spec fn backup_nonce(timestamp: i64, len: usize) -> Seq<u8> {
    let t = timestamp as u64;
    let l = len as u32;
    seq![
        (t >> 56) as u8,
        (t >> 48) as u8,
        (t >> 40) as u8,
        (t >> 32) as u8,
        (t >> 24) as u8,
        (t >> 16) as u8,
        (t >> 8) as u8,
        t as u8,
        (l >> 24) as u8,
        (l >> 16) as u8,
        (l >> 8) as u8,
        l as u8,
    ]
}

fn make_nonce(timestamp: i64, len: usize) -> (n: [u8; 12])
    ensures
        n@ == backup_nonce(timestamp, len),
{
    let t = timestamp as u64;
    let l = len as u32;
    let n = [
        (t >> 56) as u8,
        (t >> 48) as u8,
        (t >> 40) as u8,
        (t >> 32) as u8,
        (t >> 24) as u8,
        (t >> 16) as u8,
        (t >> 8) as u8,
        t as u8,
        (l >> 24) as u8,
        (l >> 16) as u8,
        (l >> 8) as u8,
        l as u8,
    ];
    assert(n@ =~= backup_nonce(timestamp, len));
    n
}

/// What decrypting a backup payload gives.
pub open spec fn decrypt_result(encrypted: Seq<u8>, key: Seq<u8>) -> Result<Seq<u8>, BackupError> {
    if encrypted.len() < NONCE_LEN {
        Err(BackupError::PayloadTooShort)
    } else {
        match aes256gcm_open(key, encrypted.subrange(0, 12), encrypted.subrange(12, encrypted.len() as int)) {
            Some(p) => Ok(p),
            None => Err(BackupError::DecryptionFailed),
        }
    }
}

/// Encrypt a dump with AES-256-GCM under a nonce made from `timestamp`
/// (the current Unix second) and the dump's length.  The payload is the
/// 12-byte nonce followed by the sealed text; decrypting it with the same
/// key gives the dump back.
pub fn encrypt(plaintext: &[u8], key: &[u8; 32], timestamp: i64) -> (r: Result<Vec<u8>, BackupError>)
    ensures
        plaintext@.len() <= P_MAX <==> r is Ok,
        r is Err ==> r == Err::<Vec<u8>, BackupError>(BackupError::EncryptionFailed),
        r is Ok ==> {
            let nonce = backup_nonce(timestamp, plaintext@.len() as usize);
            &&& r->Ok_0@ == nonce + aes256gcm_seal(key@, nonce, plaintext@)
            &&& r->Ok_0@.len() == plaintext@.len() + 28
            &&& decrypt_result(r->Ok_0@, key@) == Ok::<Seq<u8>, BackupError>(plaintext@)
        },
{
    let nonce = make_nonce(timestamp, plaintext.len());
    let sealed = match aes_gcm_seal(key, &nonce, plaintext) {
        Some(c) => c,
        None => return Err(BackupError::EncryptionFailed),
    };
    let mut payload: Vec<u8> = Vec::new();
    let mut i: usize = 0;
    while i < 12
        invariant
            0 <= i <= 12,
            nonce@.len() == 12,
            payload@ == nonce@.subrange(0, i as int),
        decreases 12 - i,
    {
        payload.push(nonce[i]);
        i = i + 1;
    }
    let mut j: usize = 0;
    while j < sealed.len()
        invariant
            0 <= j <= sealed@.len(),
            nonce@.len() == 12,
            payload@ == nonce@ + sealed@.subrange(0, j as int),
        decreases sealed@.len() - j,
    {
        payload.push(sealed[j]);
        j = j + 1;
    }
    proof {
        assert(sealed@.subrange(0, sealed@.len() as int) =~= sealed@);
        assert(payload@.subrange(0, 12) =~= nonce@);
        assert(payload@.subrange(12, payload@.len() as int) =~= sealed@);
    }
    Ok(payload)
}

/// Decrypt a payload made by `encrypt`: split off the 12-byte nonce and
/// open the rest.
pub fn decrypt(encrypted: &[u8], key: &[u8; 32]) -> (r: Result<Vec<u8>, BackupError>)
    ensures
        match decrypt_result(encrypted@, key@) {
            Ok(p) => r is Ok && r->Ok_0@ == p,
            Err(e) => r == Err::<Vec<u8>, BackupError>(e),
        },
{
    if encrypted.len() < NONCE_LEN {
        return Err(BackupError::PayloadTooShort);
    }
    let (nonce, ciphertext) = encrypted.split_at(NONCE_LEN);
    match aes_gcm_open(key, nonce, ciphertext) {
        Some(p) => Ok(p),
        None => Err(BackupError::DecryptionFailed),
    }
}

/// SHA-256 of the data as lowercase hex.
pub fn sha256_hex(data: &[u8]) -> (r: String)
    ensures
        r@ == hex_lower(sha256_digest(data@)),
{
    let d = sha256(data);
    hex_encode(d.as_slice())
}

/// The encryption key spelled by a configured hex string: the text is
/// trimmed of white space and must then be 64 hex digits.
pub fn key_from_hex(text: &str) -> (r: Result<[u8; 32], KeyError>)
    ensures
        encode_len(trimmed(text@)) != 64 ==> r == Err::<[u8; 32], KeyError>(KeyError::WrongLength),
        encode_len(trimmed(text@)) == 64 && !all_hex(trimmed(text@)) ==> r == Err::<[u8; 32], KeyError>(
            KeyError::InvalidHex,
        ),
        encode_len(trimmed(text@)) == 64 && all_hex(trimmed(text@)) ==> r is Ok && hex_spells(
            vstd::utf8::encode_utf8(trimmed(text@)),
            r->Ok_0@,
        ),
{
    let t = trim(text);
    if t.as_bytes().len() != 64 {
        return Err(KeyError::WrongLength);
    }
    match hex_decode_32(t) {
        Some(k) => Ok(k),
        None => Err(KeyError::InvalidHex),
    }
}

/// Length in bytes of the UTF-8 encoding of a text.
pub open spec fn encode_len(text: Seq<char>) -> int {
    vstd::utf8::encode_utf8(text).len() as int
}

/// Every byte of the text's UTF-8 encoding is a hex digit.
pub open spec fn all_hex(text: Seq<char>) -> bool {
    forall|i: int|
        0 <= i < vstd::utf8::encode_utf8(text).len() ==> is_hex_digit(#[trigger] vstd::utf8::encode_utf8(text)[i])
}

/// The bytes of `backup_`.
pub open spec fn backup_prefix() -> Seq<u8> {
    seq![98u8, 97, 99, 107, 117, 112, 95]
}

/// The bytes of `.enc`.
pub open spec fn backup_suffix() -> Seq<u8> {
    seq![46u8, 101, 110, 99]
}

/// The name (as bytes) starts with `backup_` and ends with `.enc`.  The two
/// cannot overlap, so such a name has at least 11 bytes.
pub open spec fn is_backup_bytes(b: Seq<u8>) -> bool {
    &&& b.len() >= 11
    &&& b.subrange(0, 7) == backup_prefix()
    &&& b.subrange(b.len() - 4, b.len() as int) == backup_suffix()
}

/// A byte that separates words in a checksum file: space, tab, line feed,
/// vertical tab, form feed or carriage return.
pub open spec fn is_space_byte(b: u8) -> bool {
    b == 32 || (9 <= b && b <= 13)
}

/// The first position from `i` on that holds no separator.
pub open spec fn skip_spaces(s: Seq<u8>, i: int) -> int
    decreases s.len() - i,
{
    if i >= s.len() || !is_space_byte(s[i]) {
        i
    } else {
        skip_spaces(s, i + 1)
    }
}

/// The first position from `i` on that holds a separator.
pub open spec fn word_end(s: Seq<u8>, i: int) -> int
    decreases s.len() - i,
{
    if i >= s.len() || is_space_byte(s[i]) {
        i
    } else {
        word_end(s, i + 1)
    }
}

/// The first word of a checksum file (empty when it has none).
pub open spec fn first_word(s: Seq<u8>) -> Seq<u8> {
    s.subrange(skip_spaces(s, 0), word_end(s, skip_spaces(s, 0)))
}

/// The bytes of two joined texts are the joined bytes.
proof fn lemma_encode_concat(a: Seq<char>, b: Seq<char>)
    ensures
        vstd::utf8::encode_utf8(a + b) == vstd::utf8::encode_utf8(a) + vstd::utf8::encode_utf8(b),
    decreases a.len(),
{
    if a.len() == 0 {
        assert(a + b =~= b);
        assert(vstd::utf8::encode_utf8(a) + vstd::utf8::encode_utf8(b) =~= vstd::utf8::encode_utf8(b));
    } else {
        lemma_encode_concat(a.drop_first(), b);
        assert((a + b).drop_first() =~= a.drop_first() + b);
        assert((a + b)[0] == a[0]);
        assert(vstd::utf8::encode_utf8(a + b) =~= vstd::utf8::encode_scalar(a[0] as u32) + (vstd::utf8::encode_utf8(
            a.drop_first(),
        ) + vstd::utf8::encode_utf8(b)));
    }
}

/// The text of a checksum sidecar file: the digest, two spaces, the file
/// name and a line feed.
pub open spec fn spec_sidecar_line(digest: Seq<char>, file_name: Seq<char>) -> Seq<char> {
    digest + "  "@ + file_name + "\n"@
}

/// Build the sidecar line for a backup file and its digest.
pub fn sidecar_line(digest: &str, file_name: &str) -> (r: String)
    ensures
        r@ == spec_sidecar_line(digest@, file_name@),
{
    let mut text = String::new();
    text.append(digest);
    text.append("  ");
    text.append(file_name);
    text.append("\n");
    proof {
        assert(text@ =~= spec_sidecar_line(digest@, file_name@));
    }
    text
}

/// From a position inside a run of non-separators that a separator ends at
/// `n`, the word ends at `n`.
proof fn lemma_word_end_at(s: Seq<u8>, i: int, n: int)
    requires
        0 <= i <= n < s.len(),
        is_space_byte(s[n]),
        forall|k: int| i <= k < n ==> !is_space_byte(#[trigger] s[k]),
    ensures
        word_end(s, i) == n,
    decreases n - i,
{
    if i < n {
        lemma_word_end_at(s, i + 1, n);
    }
}

/// A sidecar line written for a digest that is one non-empty word has that
/// digest as its first word, so `check_sidecar` of the line against the
/// digest answers `Matches`.
pub proof fn lemma_sidecar_round_trip(digest: Seq<char>, file_name: Seq<char>)
    requires
        vstd::utf8::encode_utf8(digest).len() > 0,
        forall|i: int|
            0 <= i < vstd::utf8::encode_utf8(digest).len() ==> !is_space_byte(
                #[trigger] vstd::utf8::encode_utf8(digest)[i],
            ),
    ensures
        first_word(vstd::utf8::encode_utf8(spec_sidecar_line(digest, file_name))) == vstd::utf8::encode_utf8(digest),
{
    let d = vstd::utf8::encode_utf8(digest);
    let gap = "  "@;
    reveal_strlit("  ");
    assert(vstd::utf8::is_ascii_chars(gap));
    vstd::utf8::is_ascii_chars_encode_utf8(gap);
    let tail = gap + file_name + "\n"@;
    assert(spec_sidecar_line(digest, file_name) =~= digest + tail);
    lemma_encode_concat(digest, tail);
    assert(tail =~= gap + (file_name + "\n"@));
    lemma_encode_concat(gap, file_name + "\n"@);
    let s = vstd::utf8::encode_utf8(spec_sidecar_line(digest, file_name));
    let n = d.len() as int;
    assert(s[n] == vstd::utf8::encode_utf8(gap)[0]);
    assert(gap[0] as u8 == 32);
    assert(s[0] == d[0]);
    assert(skip_spaces(s, 0) == 0);
    assert forall|k: int| 0 <= k < n implies !is_space_byte(#[trigger] s[k]) by {
        assert(s[k] == d[k]);
    }
    lemma_word_end_at(s, 0, n);
    assert(s.subrange(0, n) =~= d);
}

/// What a checksum sidecar file says of a digest.
#[derive(Clone, Debug)]
pub enum SidecarCheck {
    /// The file holds no checksum word.
    Empty,
    /// Its first word is the digest.
    Matches,
    /// Its first word, another checksum.
    Mismatch(Vec<u8>),
}

/// Compare the first word of a sidecar file (`<sha256>  <file name>`) with
/// the digest just computed.
pub fn check_sidecar(contents: &str, digest: &str) -> (r: SidecarCheck)
    ensures
        ({
            let w = first_word(contents.spec_bytes());
            &&& w.len() == 0 ==> r is Empty
            &&& w.len() > 0 && w == digest.spec_bytes() ==> r is Matches
            &&& w.len() > 0 && w != digest.spec_bytes() ==> (r matches SidecarCheck::Mismatch(e) && e@ == w)
        }),
{
    let b = contents.as_bytes();
    let ghost s = contents.spec_bytes();
    let mut i: usize = 0;
    while i < b.len() && (b[i] == 32 || (9 <= b[i] && b[i] <= 13))
        invariant
            b@ == s,
            0 <= i <= s.len(),
            skip_spaces(s, i as int) == skip_spaces(s, 0),
        decreases s.len() - i,
    {
        i = i + 1;
    }
    let start = i;
    let mut word: Vec<u8> = Vec::new();
    while i < b.len() && !(b[i] == 32 || (9 <= b[i] && b[i] <= 13))
        invariant
            b@ == s,
            start == skip_spaces(s, 0),
            start <= i <= s.len(),
            word_end(s, i as int) == word_end(s, start as int),
            word@ == s.subrange(start as int, i as int),
        decreases s.len() - i,
    {
        word.push(b[i]);
        i = i + 1;
        proof {
            assert(word@ =~= s.subrange(start as int, i as int));
        }
    }
    proof {
        assert(word_end(s, i as int) == i);
        assert(word@ =~= first_word(s));
    }
    if word.len() == 0 {
        return SidecarCheck::Empty;
    }
    let d = digest.as_bytes();
    let mut same = word.len() == d.len();
    let mut k: usize = 0;
    while same && k < word.len()
        invariant
            d@ == digest.spec_bytes(),
            0 <= k <= word@.len(),
            same ==> word@.len() == d@.len() && word@.subrange(0, k as int) == d@.subrange(0, k as int),
            !same ==> word@ != d@,
        decreases (word@.len() - k) * 2 + if same {
            1int
        } else {
            0int
        },
    {
        if word[k] != d[k] {
            same = false;
            proof {
                assert(word@[k as int] != d@[k as int]);
            }
        } else {
            k = k + 1;
            proof {
                assert(word@.subrange(0, k as int) =~= d@.subrange(0, k as int)) by {
                    assert(word@.subrange(0, k - 1) =~= d@.subrange(0, k - 1));
                    assert forall|j: int| 0 <= j < k implies word@.subrange(0, k as int)[j] == d@.subrange(0, k as int)[j] by {
                        if j < k - 1 {
                            assert(word@.subrange(0, k - 1)[j] == d@.subrange(0, k - 1)[j]);
                        }
                    }
                }
            }
        }
    }
    if same {
        proof {
            assert(word@ =~= d@.subrange(0, k as int));
            assert(word@ =~= d@);
        }
        SidecarCheck::Matches
    } else {
        SidecarCheck::Mismatch(word)
    }
}

/// The file name is that of a backup: `backup_<timestamp>.enc`.
pub fn is_backup_name(name: &str) -> (r: bool)
    ensures
        r == is_backup_bytes(name.spec_bytes()),
{
    let b = name.as_bytes();
    let n = b.len();
    if n < 11 {
        return false;
    }
    let ok = b[0] == 98 && b[1] == 97 && b[2] == 99 && b[3] == 107 && b[4] == 117 && b[5] == 112 && b[6] == 95
        && b[n - 4] == 46 && b[n - 3] == 101 && b[n - 2] == 110 && b[n - 1] == 99;
    proof {
        if ok {
            assert(b@.subrange(0, 7) =~= backup_prefix());
            assert(b@.subrange(n - 4, n as int) =~= backup_suffix());
        } else {
            if b@.subrange(0, 7) == backup_prefix() && b@.subrange(n - 4, n as int) == backup_suffix() {
                assert(b@.subrange(0, 7)[0] == b@[0]);
                assert(b@.subrange(0, 7)[6] == b@[6]);
                assert(b@.subrange(n - 4, n as int)[3] == b@[n - 1]);
            }
        }
    }
    ok
}

/// An index behind a run of ASCII bytes at the start of valid UTF-8 is a
/// character boundary.
proof fn lemma_ascii_prefix_boundary(b: Seq<u8>, n: nat)
    requires
        vstd::utf8::valid_utf8(b),
        n <= b.len(),
        forall|i: int| 0 <= i < n ==> b[i] < 0x80,
    ensures
        vstd::utf8::is_char_boundary(b, n as int),
    decreases n,
{
    if n > 0 {
        let p = vstd::utf8::pop_first_scalar(b);
        assert(vstd::utf8::length_of_first_scalar(b) == 1);
        assert(p =~= b.subrange(1, b.len() as int));
        assert(vstd::utf8::valid_utf8(p));
        assert forall|i: int| 0 <= i < n - 1 implies p[i] < 0x80 by {
            assert(p[i] == b[i + 1]);
        }
        lemma_ascii_prefix_boundary(p, (n - 1) as nat);
    }
}

/// A backup stamp as it is parsed: followed by the UTC offset, so that it
/// reads as UTC.
pub open spec fn stamp_text(stamp: Seq<char>) -> Seq<char> {
    stamp + " +0000"@
}

/// The format of `stamp_text`: `20260826T120000Z +0000`.
pub open spec fn stamp_format() -> Seq<char> {
    "%Y%m%dT%H%M%SZ %z"@
}

/// Parse a backup stamp such as `20260826T120000Z` as a UTC instant.
fn parse_backup_stamp(stamp: &str) -> (r: Option<(i64, u32)>)
    ensures
        r == parsed_instant(stamp_text(stamp@), stamp_format()),
{
    let mut text = String::new();
    text.append(stamp);
    text.append(" +0000");
    proof {
        assert(text@ =~= stamp_text(stamp@));
    }
    parse_from_str(text.as_str(), "%Y%m%dT%H%M%SZ %z")
}

pub const NANOS_PER_SEC: i128 = 1_000_000_000;

/// Nanoseconds from the instant `(t_secs, t_nanos)` to `(now_secs,
/// now_nanos)` as chrono subtracts two UTC date-times: the plain difference,
/// except that an instant inside a leap second (nanoseconds of a second or
/// more) counts that second as passed once the other instant's time of day
/// is later than its own.
pub open spec fn nanos_between(now_secs: int, now_nanos: int, t_secs: int, t_nanos: int) -> int {
    let plain = (now_secs - t_secs) * NANOS_PER_SEC + now_nanos - t_nanos;
    let now_tod = now_secs % SECS_PER_DAY as int;
    let t_tod = t_secs % SECS_PER_DAY as int;
    if now_tod > t_tod && t_nanos >= NANOS_PER_SEC {
        plain + NANOS_PER_SEC
    } else if now_tod < t_tod && now_nanos >= NANOS_PER_SEC {
        plain - NANOS_PER_SEC
    } else {
        plain
    }
}

/// The timestamp text of a backup name: between `backup_` and `.enc`.
pub open spec fn stamp_of(b: Seq<u8>) -> Seq<char> {
    vstd::utf8::decode_utf8(b.subrange(7, b.len() - 4))
}

/// The name of the backup file for a stamp: `backup_<stamp>.enc`.
pub open spec fn spec_backup_file_name(stamp: Seq<char>) -> Seq<char> {
    "backup_"@ + stamp + ".enc"@
}

/// Build the name of the backup file for a stamp.
pub fn backup_file_name(stamp: &str) -> (r: String)
    ensures
        r@ == spec_backup_file_name(stamp@),
{
    let mut name = String::new();
    name.append("backup_");
    name.append(stamp);
    name.append(".enc");
    proof {
        assert(name@ =~= spec_backup_file_name(stamp@));
    }
    name
}

/// The name written for a stamp is a backup name, and the retention sweep
/// reads the same stamp back out of it.
pub proof fn lemma_backup_name_round_trip(stamp: Seq<char>)
    ensures
        is_backup_bytes(vstd::utf8::encode_utf8(spec_backup_file_name(stamp))),
        stamp_of(vstd::utf8::encode_utf8(spec_backup_file_name(stamp))) == stamp,
{
    let pre = "backup_"@;
    let suf = ".enc"@;
    reveal_strlit("backup_");
    reveal_strlit(".enc");
    assert(vstd::utf8::is_ascii_chars(pre));
    assert(vstd::utf8::is_ascii_chars(suf));
    vstd::utf8::is_ascii_chars_encode_utf8(pre);
    vstd::utf8::is_ascii_chars_encode_utf8(suf);
    let p = vstd::utf8::encode_utf8(pre);
    let m = vstd::utf8::encode_utf8(stamp);
    let q = vstd::utf8::encode_utf8(suf);
    assert(spec_backup_file_name(stamp) =~= pre + (stamp + suf));
    lemma_encode_concat(pre, stamp + suf);
    lemma_encode_concat(stamp, suf);
    let b = vstd::utf8::encode_utf8(spec_backup_file_name(stamp));
    assert(b =~= p + m + q);
    assert(p =~= backup_prefix());
    assert(q =~= backup_suffix());
    assert(b.subrange(0, 7) =~= backup_prefix());
    assert(b.subrange(b.len() - 4, b.len() as int) =~= backup_suffix());
    assert(b.subrange(7, b.len() - 4) =~= m);
    vstd::utf8::encode_utf8_decode_utf8(stamp);
}

/// What the retention sweep does with a file named `name` (as bytes) at
/// `now` (`now_secs` Unix seconds and `now_nanos` more) with a window of
/// `max_days` days: a backup is removed when strictly more than the window
/// has passed since its timestamp.
pub open spec fn spec_retention(b: Seq<u8>, now_secs: i64, now_nanos: u32, max_days: i64) -> RetentionDecision {
    if !is_backup_bytes(b) {
        RetentionDecision::NotBackup
    } else {
        match parsed_instant(stamp_text(stamp_of(b)), stamp_format()) {
            None => RetentionDecision::Unparsable,
            Some((t_secs, t_nanos)) => {
                if nanos_between(now_secs as int, now_nanos as int, t_secs as int, t_nanos as int) > max_days
                    * SECS_PER_DAY * NANOS_PER_SEC {
                    RetentionDecision::Delete
                } else {
                    RetentionDecision::Keep
                }
            },
        }
    }
}

/// The time of day of Unix second `secs`, in seconds.
fn time_of_day(secs: i64) -> (r: i128)
    ensures
        r == secs as int % SECS_PER_DAY as int,
{
    // A multiple of a day large enough to make every `i64` positive.
    let shift: i128 = 86_400 * 0x4_0000_0000_0000;
    let x: i128 = secs as i128 + shift;
    proof {
        vstd::arithmetic::div_mod::lemma_mod_multiples_vanish(0x4_0000_0000_0000, secs as int, 86_400);
    }
    x % 86_400
}

/// `nanos_between`, computed.
fn age_nanos(now_secs: i64, now_nanos: u32, t_secs: i64, t_nanos: u32) -> (r: i128)
    ensures
        r == nanos_between(now_secs as int, now_nanos as int, t_secs as int, t_nanos as int),
{
    let plain: i128 = (now_secs as i128 - t_secs as i128) * NANOS_PER_SEC + now_nanos as i128 - t_nanos as i128;
    let now_tod = time_of_day(now_secs);
    let t_tod = time_of_day(t_secs);
    if now_tod > t_tod && t_nanos as i128 >= NANOS_PER_SEC {
        plain + NANOS_PER_SEC
    } else if now_tod < t_tod && now_nanos as i128 >= NANOS_PER_SEC {
        plain - NANOS_PER_SEC
    } else {
        plain
    }
}

/// Decide the fate of one directory entry in a retention sweep.
pub fn retention_decision(name: &str, now_secs: i64, now_nanos: u32, max_days: i64) -> (r: RetentionDecision)
    requires
        -MAX_DELTA_SECS <= max_days * SECS_PER_DAY <= MAX_DELTA_SECS,
    ensures
        r == spec_retention(name.spec_bytes(), now_secs, now_nanos, max_days),
{
    let limit = days_in_seconds(max_days);
    if !is_backup_name(name) {
        return RetentionDecision::NotBackup;
    }
    let ghost b = name.spec_bytes();
    proof {
        vstd::utf8::encode_utf8_valid_utf8(name@);
        lemma_ascii_prefix_boundary(b, 7);
    }
    let (_head, rest) = name.split_at(7);
    let ghost rb = rest.spec_bytes();
    proof {
        assert(rb =~= b.subrange(7, b.len() as int));
        vstd::utf8::encode_utf8_valid_utf8(rest@);
        assert(rb[rb.len() - 4] == b[b.len() - 4]);
        assert(b.subrange(b.len() - 4, b.len() as int)[0] == b[b.len() - 4]);
        vstd::utf8::is_char_boundary_iff_not_is_continuation_byte(rb, rb.len() - 4);
    }
    let rest_len = rest.as_bytes().len();
    let (stamp, _tail) = rest.split_at(rest_len - 4);
    proof {
        assert(stamp.spec_bytes() =~= b.subrange(7, b.len() - 4));
        vstd::utf8::encode_utf8_decode_utf8(stamp@);
    }
    match parse_backup_stamp(stamp) {
        None => RetentionDecision::Unparsable,
        Some((t_secs, t_nanos)) => {
            let age = age_nanos(now_secs, now_nanos, t_secs, t_nanos);
            if age > limit as i128 * NANOS_PER_SEC {
                RetentionDecision::Delete
            } else {
                RetentionDecision::Keep
            }
        },
    }
}

} // verus!

//! The v1 `.coffer` container.
//!
//! A container is a 30-byte visible prefix (magic `COFFER\0\x01`, version 1, algorithm 1,
//! a 12-byte nonce, the ciphertext length as a big-endian `u64`) followed by exactly that
//! many bytes of AES-256-GCM ciphertext and tag. The prefix is the associated data. The
//! encrypted payload is the filename length (`u16`), the UTF-8 filename, the file size
//! (`u64`) and the file bytes.
use vstd::prelude::*;
use vstd::slice::{slice_subrange, slice_to_vec};
use vstd::string::*;
use vstd::utf8::*;

use crate::bytes::{
    be_u16, be_u64, get_be_u16, get_be_u64, lemma_be_u16_round_trip, lemma_be_u64_round_trip,
    push_be_u16, push_be_u64, read_be_u16, read_be_u64,
};
use crate::error::KeyTideError;
use crate::key::SecretKey;
use crate::outside::{
    aes256_gcm_decrypt, aes256_gcm_encrypt, aes256_gcm_open, aes256_gcm_seal, aes_gcm_input_max,
    path_components_of,
    fill_random, path_component_count, str_from_utf8, wipe_vec,
};

verus! {

broadcast use {vstd::utf8::encode_utf8_valid_utf8, vstd::utf8::encode_utf8_decode_utf8};

/// Length of the visible container prefix.
pub const PREFIX_LEN: usize = 30;

/// Length of the AES-GCM tag.
pub const TAG_LEN: usize = 16;

/// Largest accepted filename, in UTF-8 bytes.
pub const MAX_FILENAME_LEN: usize = 1024;

/// `COFFER\0\x01`.
pub open spec fn container_magic() -> Seq<u8> {
    seq![0x43u8, 0x4F, 0x46, 0x46, 0x45, 0x52, 0x00, 0x01]
}

/// The visible prefix of a container with this nonce and ciphertext length.
pub open spec fn spec_prefix(nonce: Seq<u8>, ciphertext_len: u64) -> Seq<u8> {
    container_magic() + seq![1u8, 1u8] + nonce + be_u64(ciphertext_len)
}

/// The plaintext payload that carries `name` (UTF-8 bytes) and the file bytes `data`.
pub open spec fn spec_encode_payload(name: Seq<u8>, data: Seq<u8>) -> Seq<u8> {
    be_u16(name.len() as u16) + name + be_u64(data.len() as u64) + data
}

/// The filename rules: 1 to 1024 UTF-8 bytes, not `.` or `..`, and no NUL, `/` or `\`.
pub open spec fn filename_is_safe(name: Seq<u8>) -> bool {
    &&& 0 < name.len() <= MAX_FILENAME_LEN
    &&& name != seq![0x2Eu8]
    &&& name != seq![0x2Eu8, 0x2Eu8]
    &&& forall|i: int|
        0 <= i < name.len() ==> #[trigger] name[i] != 0x00 && name[i] != 0x2F && name[i] != 0x5C
}

/// What the container parser decides: `Ok` when the prefix is well-formed and the
/// container ends exactly after the declared ciphertext, else the first error met.
pub open spec fn spec_check_container(c: Seq<u8>) -> Result<(), KeyTideError> {
    if c.len() < PREFIX_LEN || c.subrange(0, 8) != container_magic() {
        Err(KeyTideError::InvalidContainer)
    } else if c[8] != 1 {
        Err(KeyTideError::UnsupportedVersion(c[8]))
    } else if c[9] != 1 {
        Err(KeyTideError::UnsupportedAlgorithm(c[9]))
    } else if read_be_u64(c.subrange(22, 30)) > usize::MAX {
        Err(KeyTideError::FileTooLarge)
    } else if read_be_u64(c.subrange(22, 30)) < TAG_LEN || c.len() - PREFIX_LEN != read_be_u64(
        c.subrange(22, 30),
    ) {
        Err(KeyTideError::InvalidContainer)
    } else {
        Ok(())
    }
}

/// The name holds a `:`, the one character of a safe name on which platforms' path
/// parsers disagree (on Windows `C:` before a name is a drive prefix).
pub open spec fn has_colon(name: Seq<u8>) -> bool {
    name.contains(0x3Au8)
}

/// The platform's path parser finds a single component in the name whose UTF-8 bytes
/// are `name` (see [`path_components_of`]).
pub open spec fn single_component(name: Seq<u8>) -> bool {
    path_components_of(decode_utf8(name)) == 1
}

/// What the filename rules decide for `name` when the platform's parser finds a single
/// component in it exactly when `single` holds.
pub open spec fn spec_check_filename(name: Seq<u8>, single: bool) -> Result<(), KeyTideError> {
    if filename_is_safe(name) && single {
        Ok(())
    } else {
        Err(KeyTideError::InvalidFilename)
    }
}

/// What the filename check decides for the UTF-8 name `name`: the filename rules, and a
/// single component for the platform's path parser.
pub open spec fn spec_validate_filename(name: Seq<u8>) -> Result<(), KeyTideError> {
    spec_check_filename(name, single_component(name))
}

/// What the payload parser makes of a decrypted payload: the filename bytes and the file
/// bytes, or the first error met.
pub open spec fn spec_parse_payload(p: Seq<u8>) -> Result<(Seq<u8>, Seq<u8>), KeyTideError> {
    if p.len() < 2 {
        Err(KeyTideError::InvalidContainer)
    } else {
        let n = read_be_u16(p.subrange(0, 2)) as int;
        if n == 0 || n > MAX_FILENAME_LEN {
            Err(KeyTideError::InvalidFilename)
        } else if p.len() < 2 + n {
            Err(KeyTideError::InvalidContainer)
        } else {
            let name = p.subrange(2, 2 + n);
            if !valid_utf8(name) || !filename_is_safe(name) || !single_component(name) {
                Err(KeyTideError::InvalidFilename)
            } else if p.len() < 10 + n {
                Err(KeyTideError::InvalidContainer)
            } else if read_be_u64(p.subrange(2 + n, 10 + n)) != p.len() - (10 + n) {
                Err(KeyTideError::InvalidContainer)
            } else {
                Ok((name, p.subrange(10 + n, p.len() as int)))
            }
        }
    }
}

/// What decrypting container `c` with `key` gives: the container checks, then AES-GCM
/// with the prefix as associated data (every failure there is `AuthenticationFailed`),
/// then the payload parser.
pub open spec fn spec_decrypt(c: Seq<u8>, key: Seq<u8>) -> Result<(Seq<u8>, Seq<u8>), KeyTideError> {
    match spec_check_container(c) {
        Err(e) => Err(e),
        Ok(()) => match aes256_gcm_open(
            key,
            c.subrange(10, 22),
            c.subrange(0, PREFIX_LEN as int),
            c.subrange(PREFIX_LEN as int, c.len() as int),
        ) {
            None => Err(KeyTideError::AuthenticationFailed),
            Some(p) => spec_parse_payload(p),
        },
    }
}

/// What encrypting file bytes `data` under the safe filename `name` with `key` and
/// `nonce` gives: `FileTooLarge` when the sizes overflow this machine's `usize`,
/// `AuthenticationFailed` when AES-GCM refuses a payload longer than `1 << 36` bytes,
/// else the prefix followed by the sealed payload.
pub open spec fn spec_seal_container(name: Seq<u8>, data: Seq<u8>, key: Seq<u8>, nonce: Seq<u8>) -> Result<Seq<u8>, KeyTideError> {
    let payload_len = 10 + name.len() + data.len();
    if payload_len > usize::MAX || payload_len + TAG_LEN > usize::MAX {
        Err(KeyTideError::FileTooLarge)
    } else if payload_len > aes_gcm_input_max() {
        Err(KeyTideError::AuthenticationFailed)
    } else {
        let prefix = spec_prefix(nonce, (payload_len + TAG_LEN) as u64);
        Ok(prefix + aes256_gcm_seal(key, nonce, prefix, spec_encode_payload(name, data)))
    }
}

/// A byte-vector result seen through the vector's contents.
pub open spec fn bytes_result(r: Result<Vec<u8>, KeyTideError>) -> Result<Seq<u8>, KeyTideError> {
    match r {
        Ok(v) => Ok(v@),
        Err(e) => Err(e),
    }
}

/// What encrypting under `name` decides: the filename check, then
/// [`spec_seal_container`].
pub open spec fn spec_encrypt(name: Seq<u8>, data: Seq<u8>, key: Seq<u8>, nonce: Seq<u8>) -> Result<Seq<u8>, KeyTideError> {
    match spec_validate_filename(name) {
        Err(e) => Err(e),
        Ok(()) => spec_seal_container(name, data, key, nonce),
    }
}

/// A restored file: its authenticated original filename and its bytes.
pub struct DecryptedPayload {
    pub filename: String,
    pub bytes: Vec<u8>,
}

/// A payload result seen as the filename's UTF-8 bytes and the file bytes.
pub open spec fn payload_result(r: Result<DecryptedPayload, KeyTideError>) -> Result<(Seq<u8>, Seq<u8>), KeyTideError> {
    match r {
        Ok(d) => Ok((encode_utf8(d.filename@), d.bytes@)),
        Err(e) => Err(e),
    }
}

/// Decides the filename rules given the number of path components that the platform's
/// parser finds in the name: `Ok` exactly when the name is safe and is one component.
pub fn check_filename(filename: &str, component_count: usize) -> (r: Result<(), KeyTideError>)
    ensures
        r == spec_check_filename(filename.spec_bytes(), component_count == 1),
        ({
            let b = filename.spec_bytes();
            &&& 0 < b.len() <= 1024
            &&& b != seq![0x2Eu8]
            &&& b != seq![0x2Eu8, 0x2Eu8]
            &&& forall|i: int| 0 <= i < b.len() ==> b[i] != 0x00u8 && b[i] != 0x2Fu8 && b[i] != 0x5Cu8
            &&& component_count == 1
        }) ==> r is Ok,
{
    let bytes = filename.as_bytes();
    let len = bytes.len();
    if len == 0 || len > MAX_FILENAME_LEN {
        return Err(KeyTideError::InvalidFilename);
    }
    if (len == 1 && bytes[0] == 0x2E) || (len == 2 && bytes[0] == 0x2E && bytes[1] == 0x2E) {
        proof {
            assert(len == 1 ==> bytes@ =~= seq![0x2Eu8]);
            assert(len == 2 ==> bytes@ =~= seq![0x2Eu8, 0x2Eu8]);
        }
        return Err(KeyTideError::InvalidFilename);
    }
    let mut i: usize = 0;
    while i < len
        invariant
            len == bytes@.len(),
            bytes@ == filename.spec_bytes(),
            0 <= i <= len,
            forall|j: int| 0 <= j < i ==> #[trigger] bytes@[j] != 0x00 && bytes@[j] != 0x2F && bytes@[j] != 0x5C,
        decreases len - i,
    {
        let b = bytes[i];
        if b == 0x00 || b == 0x2F || b == 0x5C {
            assert(bytes@[i as int] == b);
            return Err(KeyTideError::InvalidFilename);
        }
        i += 1;
    }
    proof {
        if bytes@ == seq![0x2Eu8] {
            assert(bytes@[0] == 0x2E);
        }
        if bytes@ == seq![0x2Eu8, 0x2Eu8] {
            assert(bytes@[0] == 0x2E && bytes@[1] == 0x2E);
        }
    }
    if component_count != 1 {
        return Err(KeyTideError::InvalidFilename);
    }
    Ok(())
}

/// Checks that `filename` is a safe single filename: never a path, never `.` or `..`,
/// with no NUL or separator, at most 1024 UTF-8 bytes, and one component for the
/// platform's path parser (which on Windows splits a drive prefix off a name).
pub fn validate_filename(filename: &str) -> (r: Result<(), KeyTideError>)
    ensures
        r == spec_validate_filename(filename.spec_bytes()),
        r == spec_check_filename(filename.spec_bytes(), path_components_of(filename@) == 1),
        ({
            let b = filename.spec_bytes();
            &&& 0 < b.len() <= 1024
            &&& b != seq![0x2Eu8]
            &&& b != seq![0x2Eu8, 0x2Eu8]
            &&& forall|i: int|
                0 <= i < b.len() ==> b[i] != 0x00u8 && b[i] != 0x2Fu8 && b[i] != 0x5Cu8 && b[i]
                    != 0x3Au8
        }) ==> r is Ok,
{
    let count = path_component_count(filename);
    proof {
        let b = filename.spec_bytes();
        if forall|i: int|
            0 <= i < b.len() ==> b[i] != 0x00u8 && b[i] != 0x2Fu8 && b[i] != 0x5Cu8 && b[i]
                != 0x3Au8 {
            assert(!has_colon(b)) by {
                if b.contains(0x3Au8) {
                    let j = choose|j: int| 0 <= j < b.len() && b[j] == 0x3Au8;
                    assert(b[j] != 0x3Au8);
                }
            }
        }
    }
    check_filename(filename, count)
}

/// The 30-byte visible prefix.
pub fn encode_prefix(nonce: [u8; 12], ciphertext_len: u64) -> (r: [u8; 30])
    ensures
        r@ == spec_prefix(nonce@, ciphertext_len),
{
    let mut prefix = [0u8; 30];
    prefix[0] = 0x43;
    prefix[1] = 0x4F;
    prefix[2] = 0x46;
    prefix[3] = 0x46;
    prefix[4] = 0x45;
    prefix[5] = 0x52;
    prefix[6] = 0x00;
    prefix[7] = 0x01;
    prefix[8] = 1;
    prefix[9] = 1;
    let mut i: usize = 0;
    while i < 12
        invariant
            0 <= i <= 12,
            prefix@.len() == 30,
            forall|j: int| 0 <= j < 10 ==> prefix@[j] == (container_magic() + seq![1u8, 1u8])[j],
            forall|j: int| 0 <= j < i ==> prefix@[10 + j] == nonce@[j],
        decreases 12 - i,
    {
        prefix[10 + i] = nonce[i];
        i += 1;
    }
    prefix[22] = (ciphertext_len >> 56) as u8;
    prefix[23] = (ciphertext_len >> 48) as u8;
    prefix[24] = (ciphertext_len >> 40) as u8;
    prefix[25] = (ciphertext_len >> 32) as u8;
    prefix[26] = (ciphertext_len >> 24) as u8;
    prefix[27] = (ciphertext_len >> 16) as u8;
    prefix[28] = (ciphertext_len >> 8) as u8;
    prefix[29] = ciphertext_len as u8;
    assert(prefix@ =~= spec_prefix(nonce@, ciphertext_len));
    prefix
}

/// The plaintext payload for filename bytes `name` and file bytes `data`.
pub fn encode_payload(name: &[u8], data: &[u8]) -> (r: Vec<u8>)
    requires
        name@.len() <= MAX_FILENAME_LEN,
        10 + name@.len() + data@.len() <= usize::MAX,
    ensures
        r@ == spec_encode_payload(name@, data@),
        r@.len() == 10 + name@.len() + data@.len(),
{
    let mut payload: Vec<u8> = Vec::with_capacity(10 + name.len() + data.len());
    push_be_u16(&mut payload, name.len() as u16);
    payload.extend_from_slice(name);
    push_be_u64(&mut payload, data.len() as u64);
    payload.extend_from_slice(data);
    assert(payload@ =~= spec_encode_payload(name@, data@));
    payload
}

/// A container: the prefix followed by the sealed payload.
pub fn assemble_container(prefix: &[u8; 30], sealed: &[u8]) -> (r: Vec<u8>)
    ensures
        r@ == prefix@ + sealed@,
{
    let mut container: Vec<u8> = Vec::new();
    container.extend_from_slice(prefix.as_slice());
    container.extend_from_slice(sealed);
    assert(container@ =~= prefix@ + sealed@);
    container
}

/// Encrypts `plaintext` under `filename` with `key` and a caller-chosen `nonce`: the
/// filename check, then [`spec_seal_container`]. A container that comes back decrypts
/// with the same key to the same filename and bytes.
pub fn encrypt_with_nonce(filename: &str, plaintext: &[u8], key: &SecretKey, nonce: [u8; 12]) -> (r: Result<Vec<u8>, KeyTideError>)
    ensures
        bytes_result(r) == spec_encrypt(filename.spec_bytes(), plaintext@, key@, nonce@),
        r matches Ok(c) ==> spec_decrypt(c@, key@) == Ok::<(Seq<u8>, Seq<u8>), KeyTideError>(
            (filename.spec_bytes(), plaintext@),
        ),
        r matches Ok(c) ==> c@.len() == 30 + 2 + filename.spec_bytes().len() + 8 + plaintext@.len()
            + 16,
        ({
            let b = filename.spec_bytes();
            &&& 0 < b.len() <= 1024
            &&& b != seq![0x2Eu8]
            &&& b != seq![0x2Eu8, 0x2Eu8]
            &&& forall|i: int|
                0 <= i < b.len() ==> b[i] != 0x00u8 && b[i] != 0x2Fu8 && b[i] != 0x5Cu8 && b[i]
                    != 0x3Au8
            &&& 10 + b.len() + plaintext@.len() + 16 <= usize::MAX
            &&& 10 + b.len() + plaintext@.len() <= 0x10_0000_0000
        }) ==> r is Ok,
{
    match validate_filename(filename) {
        Err(e) => {
            return Err(e);
        },
        Ok(()) => {},
    }
    let name = filename.as_bytes();
    if plaintext.len() > usize::MAX - (10 + name.len()) {
        return Err(KeyTideError::FileTooLarge);
    }
    let payload_len = 10 + name.len() + plaintext.len();
    if payload_len > usize::MAX - TAG_LEN {
        return Err(KeyTideError::FileTooLarge);
    }
    let ciphertext_len = (payload_len + TAG_LEN) as u64;
    let prefix = encode_prefix(nonce, ciphertext_len);
    let mut payload = encode_payload(name, plaintext);
    let sealed = aes256_gcm_encrypt(key.as_bytes(), &nonce, prefix.as_slice(), payload.as_slice());
    wipe_vec(&mut payload);
    match sealed {
        Err(_) => Err(KeyTideError::AuthenticationFailed),
        Ok(ciphertext) => {
            let container = assemble_container(&prefix, ciphertext.as_slice());
            proof {
                lemma_container_round_trip(name@, plaintext@, key@, nonce@, ciphertext@);
            }
            Ok(container)
        },
    }
}

/// Encrypts `plaintext` under `filename` with `key` and a fresh random nonce:
/// `RandomFailed` when the random source fails, otherwise as [`encrypt_with_nonce`]
/// with some 12-byte nonce.
pub fn encrypt(filename: &str, plaintext: &[u8], key: &SecretKey) -> (r: Result<Vec<u8>, KeyTideError>)
    ensures
        (r matches Err(e) && e is RandomFailed) || exists|nonce: Seq<u8>|
            nonce.len() == 12 && bytes_result(r) == spec_encrypt(
                filename.spec_bytes(),
                plaintext@,
                key@,
                nonce,
            ),
        r matches Ok(c) ==> c@.len() >= PREFIX_LEN && bytes_result(r) == spec_encrypt(
            filename.spec_bytes(),
            plaintext@,
            key@,
            c@.subrange(10, 22),
        ),
        r matches Ok(c) ==> spec_decrypt(c@, key@) == Ok::<(Seq<u8>, Seq<u8>), KeyTideError>(
            (filename.spec_bytes(), plaintext@),
        ),
{
    let mut nonce = [0u8; 12];
    if fill_random(&mut nonce).is_err() {
        return Err(KeyTideError::RandomFailed);
    }
    let r = encrypt_with_nonce(filename, plaintext, key, nonce);
    proof {
        assert(nonce@.len() == 12);
        if r is Ok {
            let c = r->Ok_0@;
            let name = filename.spec_bytes();
            let payload_len = 10 + name.len() + plaintext@.len();
            let prefix = spec_prefix(nonce@, (payload_len + TAG_LEN) as u64);
            assert(prefix.len() == PREFIX_LEN);
            assert(c.subrange(0, PREFIX_LEN as int) =~= prefix);
            assert(c.subrange(10, 22) =~= prefix.subrange(10, 22));
            assert(prefix.subrange(10, 22) =~= nonce@);
        }
    }
    r
}

/// Checks the container and splits it into the 30-byte prefix and the ciphertext.
pub fn parse_container(container: &[u8]) -> (r: Result<(&[u8], &[u8]), KeyTideError>)
    ensures
        match spec_check_container(container@) {
            Err(e) => r == Err::<(&[u8], &[u8]), KeyTideError>(e),
            Ok(()) => r matches Ok((prefix, ciphertext)) && prefix@ == container@.subrange(
                0,
                PREFIX_LEN as int,
            ) && ciphertext@ == container@.subrange(PREFIX_LEN as int, container@.len() as int),
        },
{
    let len = container.len();
    if len < PREFIX_LEN || container[0] != 0x43 || container[1] != 0x4F || container[2] != 0x46
        || container[3] != 0x46 || container[4] != 0x45 || container[5] != 0x52 || container[6]
        != 0x00 || container[7] != 0x01 {
        proof {
            if len >= PREFIX_LEN && container@.subrange(0, 8) == container_magic() {
                assert(container@[0] == container@.subrange(0, 8)[0]);
                assert(container@[1] == container@.subrange(0, 8)[1]);
                assert(container@[2] == container@.subrange(0, 8)[2]);
                assert(container@[3] == container@.subrange(0, 8)[3]);
                assert(container@[4] == container@.subrange(0, 8)[4]);
                assert(container@[5] == container@.subrange(0, 8)[5]);
                assert(container@[6] == container@.subrange(0, 8)[6]);
                assert(container@[7] == container@.subrange(0, 8)[7]);
            }
        }
        return Err(KeyTideError::InvalidContainer);
    }
    assert(container@.subrange(0, 8) =~= container_magic());
    if container[8] != 1 {
        return Err(KeyTideError::UnsupportedVersion(container[8]));
    }
    if container[9] != 1 {
        return Err(KeyTideError::UnsupportedAlgorithm(container[9]));
    }
    let declared = get_be_u64(container, 22);
    if declared > usize::MAX as u64 {
        return Err(KeyTideError::FileTooLarge);
    }
    let declared = declared as usize;
    if declared < TAG_LEN || len - PREFIX_LEN != declared {
        return Err(KeyTideError::InvalidContainer);
    }
    let prefix = slice_subrange(container, 0, PREFIX_LEN);
    let ciphertext = slice_subrange(container, PREFIX_LEN, len);
    Ok((prefix, ciphertext))
}

/// Reads a decrypted payload: the filename and the file bytes, or the first error met
/// (`InvalidContainer` for truncation or a size mismatch, `InvalidFilename` for a bad
/// length, invalid UTF-8 or a name the filename check refuses).
pub fn parse_payload(payload: &[u8]) -> (r: Result<DecryptedPayload, KeyTideError>)
    ensures
        payload_result(r) == spec_parse_payload(payload@),
{
    let len = payload.len();
    if len < 2 {
        return Err(KeyTideError::InvalidContainer);
    }
    let filename_len = get_be_u16(payload, 0) as usize;
    if filename_len == 0 || filename_len > MAX_FILENAME_LEN {
        return Err(KeyTideError::InvalidFilename);
    }
    let name_end = 2 + filename_len;
    let size_end = name_end + 8;
    if len < name_end {
        return Err(KeyTideError::InvalidContainer);
    }
    let name_bytes = slice_subrange(payload, 2, name_end);
    let name_str = match str_from_utf8(name_bytes) {
        Some(s) => s,
        None => {
            return Err(KeyTideError::InvalidFilename);
        },
    };
    let filename: String = name_str.to_owned();
    match validate_filename(filename.as_str()) {
        Err(e) => {
            return Err(e);
        },
        Ok(()) => {},
    }
    if len < size_end {
        return Err(KeyTideError::InvalidContainer);
    }
    let declared_size = get_be_u64(payload, name_end);
    let rest = slice_subrange(payload, size_end, len);
    if rest.len() as u64 != declared_size {
        return Err(KeyTideError::InvalidContainer);
    }
    let bytes = slice_to_vec(rest);
    Ok(DecryptedPayload { filename, bytes })
}

/// Decrypts `container` with `key`: the container checks, then AES-GCM authentication of
/// prefix and ciphertext (any failure is `AuthenticationFailed`), then the payload
/// parser. The decrypted working buffer is wiped before returning.
pub fn decrypt(container: &[u8], key: &SecretKey) -> (r: Result<DecryptedPayload, KeyTideError>)
    ensures
        payload_result(r) == spec_decrypt(container@, key@),
{
    let (prefix, ciphertext) = match parse_container(container) {
        Err(e) => {
            return Err(e);
        },
        Ok(parts) => parts,
    };
    let mut nonce = [0u8; 12];
    let mut i: usize = 0;
    while i < 12
        invariant
            0 <= i <= 12,
            prefix@.len() == PREFIX_LEN,
            nonce@.len() == 12,
            forall|j: int| 0 <= j < i ==> nonce@[j] == prefix@[10 + j],
        decreases 12 - i,
    {
        nonce[i] = prefix[10 + i];
        i += 1;
    }
    assert(nonce@ =~= container@.subrange(10, 22));
    let opened = aes256_gcm_decrypt(key.as_bytes(), &nonce, prefix, ciphertext);
    match opened {
        Err(_) => Err(KeyTideError::AuthenticationFailed),
        Ok(plaintext) => {
            let mut plaintext = plaintext;
            let r = parse_payload(plaintext.as_slice());
            wipe_vec(&mut plaintext);
            r
        },
    }
}

/// Law: the payload parser gives back the filename and bytes that the payload was
/// written with, for every UTF-8 filename that the filename check accepts.
pub proof fn lemma_payload_round_trip(name: Seq<u8>, data: Seq<u8>)
    requires
        filename_is_safe(name),
        valid_utf8(name),
        single_component(name),
        data.len() <= u64::MAX,
    ensures
        spec_parse_payload(spec_encode_payload(name, data)) == Ok::<(Seq<u8>, Seq<u8>), KeyTideError>(
            (name, data),
        ),
{
    let p = spec_encode_payload(name, data);
    let n = name.len() as int;
    lemma_be_u16_round_trip(name.len() as u16);
    lemma_be_u64_round_trip(data.len() as u64);
    assert(p.subrange(0, 2) =~= be_u16(name.len() as u16));
    assert(p.subrange(2, 2 + n) =~= name);
    assert(p.subrange(2 + n, 10 + n) =~= be_u64(data.len() as u64));
    assert(p.subrange(10 + n, p.len() as int) =~= data);
}

/// Law: a container made of the prefix for `nonce` and a ciphertext that AES-GCM opens
/// (with the prefix as associated data) to the payload of a safe filename and some file
/// bytes decrypts to exactly that filename and those bytes.
pub proof fn lemma_container_round_trip(name: Seq<u8>, data: Seq<u8>, key: Seq<u8>, nonce: Seq<u8>, ciphertext: Seq<u8>)
    requires
        filename_is_safe(name),
        valid_utf8(name),
        single_component(name),
        nonce.len() == 12,
        ciphertext.len() == 10 + name.len() + data.len() + TAG_LEN,
        ciphertext.len() <= usize::MAX,
        aes256_gcm_open(
            key,
            nonce,
            spec_prefix(nonce, ciphertext.len() as u64),
            ciphertext,
        ) == Some(spec_encode_payload(name, data)),
    ensures
        spec_decrypt(spec_prefix(nonce, ciphertext.len() as u64) + ciphertext, key) == Ok::<
            (Seq<u8>, Seq<u8>),
            KeyTideError,
        >((name, data)),
{
    let prefix = spec_prefix(nonce, ciphertext.len() as u64);
    let c = prefix + ciphertext;
    lemma_be_u64_round_trip(ciphertext.len() as u64);
    assert(c.subrange(0, 8) =~= container_magic());
    assert(c.subrange(22, 30) =~= be_u64(ciphertext.len() as u64));
    assert(c.subrange(10, 22) =~= nonce);
    assert(c.subrange(0, PREFIX_LEN as int) =~= prefix);
    assert(c.subrange(PREFIX_LEN as int, c.len() as int) =~= ciphertext);
    assert(spec_check_container(c) == Ok::<(), KeyTideError>(()));
    lemma_payload_round_trip(name, data);
}

/// Law: an accepted container ends exactly after the ciphertext it declares, and the
/// declared length covers at least the tag; truncated input and trailing bytes are
/// refused.
pub proof fn law_accepted_container_has_exact_length(c: Seq<u8>)
    requires
        spec_check_container(c) is Ok,
    ensures
        c.len() == PREFIX_LEN + read_be_u64(c.subrange(22, 30)),
        read_be_u64(c.subrange(22, 30)) >= TAG_LEN,
        c.subrange(0, 8) == container_magic(),
        c[8] == 1 && c[9] == 1,
{
}

/// Law: an unknown version or algorithm is refused before any decryption, whatever the
/// key, with an error that names the field's value.
pub proof fn law_unknown_fields_refused_before_decryption(c: Seq<u8>, key: Seq<u8>)
    requires
        c.len() >= PREFIX_LEN,
        c.subrange(0, 8) == container_magic(),
    ensures
        c[8] != 1 ==> spec_decrypt(c, key) == Err::<(Seq<u8>, Seq<u8>), KeyTideError>(
            KeyTideError::UnsupportedVersion(c[8]),
        ),
        c[8] == 1 && c[9] != 1 ==> spec_decrypt(c, key) == Err::<
            (Seq<u8>, Seq<u8>),
            KeyTideError,
        >(KeyTideError::UnsupportedAlgorithm(c[9])),
{
}

/// Law: every authentication failure is reported as the one error
/// `AuthenticationFailed`, whether the key is wrong or the prefix or ciphertext changed.
pub proof fn law_authentication_failures_share_one_error(c: Seq<u8>, key: Seq<u8>)
    requires
        spec_check_container(c) is Ok,
        aes256_gcm_open(
            key,
            c.subrange(10, 22),
            c.subrange(0, PREFIX_LEN as int),
            c.subrange(PREFIX_LEN as int, c.len() as int),
        ) is None,
    ensures
        spec_decrypt(c, key) == Err::<(Seq<u8>, Seq<u8>), KeyTideError>(
            KeyTideError::AuthenticationFailed,
        ),
{
}

/// Law: the filename that a payload yields is safe (1 to 1024 UTF-8 bytes, not `.` or
/// `..`, no NUL or separator) even though it came out of the authenticated payload, and
/// the file bytes are exactly as many as the payload declared.
pub proof fn law_restored_name_is_safe_and_size_exact(p: Seq<u8>)
    requires
        spec_parse_payload(p) is Ok,
    ensures
        filename_is_safe(spec_parse_payload(p)->Ok_0.0),
        valid_utf8(spec_parse_payload(p)->Ok_0.0),
        single_component(spec_parse_payload(p)->Ok_0.0),
        spec_parse_payload(p)->Ok_0.1.len() == read_be_u64(
            p.subrange(
                2 + read_be_u16(p.subrange(0, 2)) as int,
                10 + read_be_u16(p.subrange(0, 2)) as int,
            ),
        ),
{
}

/// Law: the filename check accepts every name of 1 to 1024 bytes that is not `.` or
/// `..` and holds no NUL, `/` or `\\`, whenever the platform's path parser finds a single
/// component in it; no other character is refused.
pub proof fn law_filename_check_accepts_plain_names(name: Seq<u8>)
    requires
        0 < name.len() <= 1024,
        name != seq![0x2Eu8],
        name != seq![0x2Eu8, 0x2Eu8],
        forall|i: int| 0 <= i < name.len() ==> name[i] != 0x00u8 && name[i] != 0x2Fu8 && name[i] != 0x5Cu8,
        valid_utf8(name),
        path_components_of(decode_utf8(name)) == 1,
    ensures
        spec_validate_filename(name) == Ok::<(), KeyTideError>(()),
{
}

/// Law: encryption succeeds for every accepted filename and every file whose payload
/// (2 + name + 8 + file bytes) fits this machine's `usize` with the tag and stays within
/// the AES-GCM input limit of `1 << 36` bytes; the size of the file is no other limit.
/// The container then begins with the prefix for this nonce and the ciphertext length.
pub proof fn law_encryption_succeeds_within_limits(name: Seq<u8>, data: Seq<u8>, key: Seq<u8>, nonce: Seq<u8>)
    requires
        0 < name.len() <= 1024,
        name != seq![0x2Eu8],
        name != seq![0x2Eu8, 0x2Eu8],
        forall|i: int| 0 <= i < name.len() ==> name[i] != 0x00u8 && name[i] != 0x2Fu8 && name[i] != 0x5Cu8,
        valid_utf8(name),
        path_components_of(decode_utf8(name)) == 1,
        nonce.len() == 12,
        10 + name.len() + data.len() + 16 <= usize::MAX,
        10 + name.len() + data.len() <= 0x10_0000_0000,
    ensures
        spec_encrypt(name, data, key, nonce) is Ok,
        spec_encrypt(name, data, key, nonce)->Ok_0.len() >= 30,
        spec_encrypt(name, data, key, nonce)->Ok_0.subrange(0, 30) == spec_prefix(
            nonce,
            (10 + name.len() + data.len() + 16) as u64,
        ),
{
    law_filename_check_accepts_plain_names(name);
    let c = spec_encrypt(name, data, key, nonce)->Ok_0;
    let prefix = spec_prefix(nonce, (10 + name.len() + data.len() + 16) as u64);
    assert(prefix.len() == 30);
    assert(c.subrange(0, 30) =~= prefix);
}

/// Law: decryption opens every container made of the prefix for `nonce` and a
/// ciphertext that AES-GCM opens, under `key` and with that prefix as associated data,
/// to the v1 payload (name length, name, file size, file bytes) of an accepted UTF-8
/// filename and any file bytes: it gives back exactly that name and those bytes,
/// whoever made the container and however large the file, up to this machine's `usize`.
pub proof fn law_decryption_opens_every_sealed_payload(name: Seq<u8>, data: Seq<u8>, key: Seq<u8>, nonce: Seq<u8>, ciphertext: Seq<u8>)
    requires
        0 < name.len() <= 1024,
        name != seq![0x2Eu8],
        name != seq![0x2Eu8, 0x2Eu8],
        forall|i: int| 0 <= i < name.len() ==> name[i] != 0x00u8 && name[i] != 0x2Fu8 && name[i] != 0x5Cu8,
        valid_utf8(name),
        path_components_of(decode_utf8(name)) == 1,
        nonce.len() == 12,
        ciphertext.len() == 2 + name.len() + 8 + data.len() + 16,
        ciphertext.len() <= usize::MAX,
        aes256_gcm_open(key, nonce, spec_prefix(nonce, ciphertext.len() as u64), ciphertext) == Some(
            be_u16(name.len() as u16) + name + be_u64(data.len() as u64) + data,
        ),
    ensures
        spec_decrypt(spec_prefix(nonce, ciphertext.len() as u64) + ciphertext, key) == Ok::<
            (Seq<u8>, Seq<u8>),
            KeyTideError,
        >((name, data)),
{
    lemma_container_round_trip(name, data, key, nonce, ciphertext);
}

} // verus!

//! The `.cofferkey` file: a 44-byte record of magic `COFKEY\0\x01`, version 1,
//! algorithm 1 (AES-256-GCM), two reserved zero bytes and 32 bytes of key material.
use vstd::prelude::*;

use crate::error::KeyTideError;
use crate::outside::{fill_random, wipe_array};

verus! {

/// Length of an encoded key file.
pub const KEY_FILE_LEN: usize = 44;

/// The twelve bytes that begin every key file: magic `COFKEY\0\x01`, version 1,
/// algorithm 1, reserved `0, 0`.
pub open spec fn key_header() -> Seq<u8> {
    seq![0x43u8, 0x4F, 0x46, 0x4B, 0x45, 0x59, 0x00, 0x01, 1, 1, 0, 0]
}

/// The key file that holds `material`.
pub open spec fn spec_encode_key(material: Seq<u8>) -> Seq<u8> {
    key_header() + material
}

/// `bytes` is a well-formed key file: 44 bytes that begin with the key header.
pub open spec fn is_key_file(bytes: Seq<u8>) -> bool {
    bytes.len() == KEY_FILE_LEN && bytes.subrange(0, 12) == key_header()
}

/// A 256-bit AES key.
pub struct SecretKey(pub [u8; 32]);

impl View for SecretKey {
    type V = Seq<u8>;

    open spec fn view(&self) -> Seq<u8> {
        self.0@
    }
}

impl SecretKey {
    /// A fresh key from the operating system's random source; `RandomFailed` when the
    /// source fails. The key bytes are random and whether the source fails is up to the
    /// operating system, so the contract states only what holds of every outcome.
    pub fn generate() -> (r: Result<SecretKey, KeyTideError>)
        ensures
            r matches Ok(k) ==> k@.len() == 32,
            r matches Err(e) ==> e is RandomFailed,
    {
        let mut bytes = [0u8; 32];
        match fill_random(&mut bytes) {
            Ok(()) => Ok(SecretKey(bytes)),
            Err(_) => {
                wipe_array(&mut bytes);
                Err(KeyTideError::RandomFailed)
            },
        }
    }

    /// The key material.
    pub fn as_bytes(&self) -> (r: &[u8; 32])
        ensures
            r@ == self@,
    {
        &self.0
    }

    /// Overwrites the key material with zeros.
    pub fn wipe(&mut self)
        ensures
            final(self)@ == Seq::new(32, |i: int| 0u8),
    {
        wipe_array(&mut self.0);
    }
}

/// The key file of `key`.
pub fn encode(key: &SecretKey) -> (r: Vec<u8>)
    ensures
        r@ == spec_encode_key(key@),
        r@.len() == KEY_FILE_LEN,
{
    let mut encoded: Vec<u8> = Vec::with_capacity(KEY_FILE_LEN);
    encoded.push(0x43);
    encoded.push(0x4F);
    encoded.push(0x46);
    encoded.push(0x4B);
    encoded.push(0x45);
    encoded.push(0x59);
    encoded.push(0x00);
    encoded.push(0x01);
    encoded.push(1);
    encoded.push(1);
    encoded.push(0);
    encoded.push(0);
    encoded.extend_from_slice(key.as_bytes().as_slice());
    assert(encoded@ =~= spec_encode_key(key@));
    encoded
}

/// Reads a key file: the key when `bytes` is a well-formed key file, `InvalidKey`
/// otherwise.
pub fn parse(bytes: &[u8]) -> (r: Result<SecretKey, KeyTideError>)
    ensures
        match r {
            Ok(k) => is_key_file(bytes@) && k@ == bytes@.subrange(12, 44),
            Err(e) => !is_key_file(bytes@) && e is InvalidKey,
        },
{
    if bytes.len() != KEY_FILE_LEN || bytes[0] != 0x43 || bytes[1] != 0x4F || bytes[2] != 0x46
        || bytes[3] != 0x4B || bytes[4] != 0x45 || bytes[5] != 0x59 || bytes[6] != 0x00
        || bytes[7] != 0x01 || bytes[10] != 0 || bytes[11] != 0 {
        proof {
            if bytes@.len() == KEY_FILE_LEN && bytes@.subrange(0, 12) == key_header() {
                assert(bytes@[0] == bytes@.subrange(0, 12)[0]);
                assert(bytes@[1] == bytes@.subrange(0, 12)[1]);
                assert(bytes@[2] == bytes@.subrange(0, 12)[2]);
                assert(bytes@[3] == bytes@.subrange(0, 12)[3]);
                assert(bytes@[4] == bytes@.subrange(0, 12)[4]);
                assert(bytes@[5] == bytes@.subrange(0, 12)[5]);
                assert(bytes@[6] == bytes@.subrange(0, 12)[6]);
                assert(bytes@[7] == bytes@.subrange(0, 12)[7]);
                assert(bytes@[10] == bytes@.subrange(0, 12)[10]);
                assert(bytes@[11] == bytes@.subrange(0, 12)[11]);
            }
        }
        return Err(KeyTideError::InvalidKey);
    }
    if bytes[8] != 1 || bytes[9] != 1 {
        proof {
            if bytes@.subrange(0, 12) == key_header() {
                assert(bytes@[8] == bytes@.subrange(0, 12)[8]);
                assert(bytes@[9] == bytes@.subrange(0, 12)[9]);
            }
        }
        return Err(KeyTideError::InvalidKey);
    }
    let mut material = [0u8; 32];
    let mut i: usize = 0;
    while i < 32
        invariant
            bytes@.len() == KEY_FILE_LEN,
            0 <= i <= 32,
            forall|j: int| 0 <= j < i ==> material@[j] == bytes@[12 + j],
        decreases 32 - i,
    {
        material[i] = bytes[12 + i];
        i += 1;
    }
    assert(bytes@.subrange(0, 12) =~= key_header());
    assert(material@ =~= bytes@.subrange(12, 44));
    Ok(SecretKey(material))
}

/// Law: a key file written for any 32-byte key is well-formed, and reading it gives the
/// same key back.
pub proof fn lemma_key_file_round_trip(material: Seq<u8>)
    requires
        material.len() == 32,
    ensures
        is_key_file(spec_encode_key(material)),
        spec_encode_key(material).subrange(12, 44) == material,
{
    assert(spec_encode_key(material).subrange(0, 12) =~= key_header());
    assert(spec_encode_key(material).subrange(12, 44) =~= material);
}

/// Law: the only bytes the key parser accepts are key files written by [`encode`]:
/// writing the key that was read gives the same bytes back.
pub proof fn lemma_accepted_key_file_is_canonical(bytes: Seq<u8>)
    requires
        is_key_file(bytes),
    ensures
        spec_encode_key(bytes.subrange(12, 44)) == bytes,
{
    assert(spec_encode_key(bytes.subrange(12, 44)) =~= bytes.subrange(0, 12) + bytes.subrange(12, 44));
    assert(bytes.subrange(0, 12) + bytes.subrange(12, 44) =~= bytes);
}

} // verus!

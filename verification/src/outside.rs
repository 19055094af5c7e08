//! The boundary between the verified library and the code it relies on but does not
//! prove: the AES-256-GCM cipher of `aes-gcm`, the operating system's random source
//! through `getrandom`, buffer wiping through `zeroize`, and a few calls into std.
//! Every item here is trusted: Verus believes its contract and does not read its body.
use aes_gcm::aead::{Aead, KeyInit};
use vstd::prelude::*;
use vstd::string::*;

use crate::format::{filename_is_safe, has_colon};

verus! {

/// `std::path::PathBuf`, carried through the library as an opaque value.
#[verifier::external_type_specification]
#[verifier::external_body]
pub struct ExPathBuf(std::path::PathBuf);

/// `std::io::Error`, carried inside the read and write errors as an opaque value.
#[verifier::external_type_specification]
#[verifier::external_body]
pub struct ExIoError(std::io::Error);

/// The error type of `aes-gcm` (`aead::Error`), opaque.
#[verifier::external_type_specification]
#[verifier::external_body]
pub struct ExAeadError(aes_gcm::Error);

/// The error type of `getrandom`, opaque.
#[verifier::external_type_specification]
#[verifier::external_body]
pub struct ExRandomError(getrandom::Error);

/// The largest plaintext, and the largest associated data, that `aes-gcm` 0.10 accepts:
/// its constants `P_MAX` and `A_MAX`, both `1 << 36` bytes.
pub open spec fn aes_gcm_input_max() -> int {
    0x10_0000_0000
}

/// The AES-GCM authentication tag length in bytes.
pub open spec fn aes_gcm_tag_len() -> int {
    16
}

/// What AES-256-GCM encryption under `key` and `nonce`, authenticating `aad`, makes of
/// `msg`: the ciphertext followed by the tag.
pub uninterp spec fn aes256_gcm_seal(key: Seq<u8>, nonce: Seq<u8>, aad: Seq<u8>, msg: Seq<u8>) -> Seq<u8>;

/// What AES-256-GCM decryption under `key` and `nonce`, authenticating `aad`, makes of
/// `ciphertext` (ciphertext followed by tag): the plaintext, or `None` when the input is
/// refused or does not authenticate.
pub uninterp spec fn aes256_gcm_open(key: Seq<u8>, nonce: Seq<u8>, aad: Seq<u8>, ciphertext: Seq<u8>) -> Option<Seq<u8>>;

/// Encrypts with `aes_gcm::Aes256Gcm` through `aead::Aead::encrypt`.
///
/// Claimed of the outside code: it fails exactly when the message or the associated
/// data is longer than `1 << 36` bytes (the `P_MAX` / `A_MAX` test in
/// `encrypt_in_place_detached`); otherwise the result is the named ciphertext, 16 bytes
/// longer than the message, and AES-GCM decryption with the same key, nonce and
/// associated data gives the message back.
#[verifier::external_body]
pub(crate) fn aes256_gcm_encrypt(key: &[u8; 32], nonce: &[u8; 12], aad: &[u8], msg: &[u8]) -> (r: Result<Vec<u8>, aes_gcm::Error>)
    requires
        msg@.len() + aes_gcm_tag_len() <= usize::MAX,
    ensures
        r is Err <==> (msg@.len() > aes_gcm_input_max() || aad@.len() > aes_gcm_input_max()),
        r matches Ok(c) ==> {
            &&& c@ == aes256_gcm_seal(key@, nonce@, aad@, msg@)
            &&& c@.len() == msg@.len() + aes_gcm_tag_len()
            &&& aes256_gcm_open(key@, nonce@, aad@, c@) == Some(msg@)
        },
{
    let cipher = aes_gcm::Aes256Gcm::new(key.into());
    cipher.encrypt(aes_gcm::Nonce::from_slice(nonce), aes_gcm::aead::Payload { msg, aad })
}

/// Decrypts with `aes_gcm::Aes256Gcm` through `aead::Aead::decrypt`.
///
/// Claimed of the outside code: the result is the named plaintext when there is one and
/// an error otherwise; input shorter than the 16-byte tag is always refused, and a
/// plaintext that comes back is 16 bytes shorter than the input.
#[verifier::external_body]
pub(crate) fn aes256_gcm_decrypt(key: &[u8; 32], nonce: &[u8; 12], aad: &[u8], ciphertext: &[u8]) -> (r: Result<Vec<u8>, aes_gcm::Error>)
    ensures
        match r {
            Ok(p) => aes256_gcm_open(key@, nonce@, aad@, ciphertext@) == Some(p@),
            Err(_) => aes256_gcm_open(key@, nonce@, aad@, ciphertext@) is None,
        },
        ciphertext@.len() < aes_gcm_tag_len() ==> r is Err,
        r matches Ok(p) ==> p@.len() + aes_gcm_tag_len() == ciphertext@.len(),
{
    let cipher = aes_gcm::Aes256Gcm::new(key.into());
    cipher.decrypt(aes_gcm::Nonce::from_slice(nonce), aes_gcm::aead::Payload { msg: ciphertext, aad })
}

/// Fills `dest` from the operating system's random source through `getrandom::fill`.
///
/// Claimed: the buffer keeps its length. Nothing is claimed of the bytes, which are
/// random, nor of when the call fails.
#[verifier::external_body]
pub(crate) fn fill_random<const N: usize>(dest: &mut [u8; N]) -> (r: Result<(), getrandom::Error>)
    ensures
        final(dest)@.len() == old(dest)@.len(),
{
    getrandom::fill(dest)
}

/// Wipes a byte buffer with `zeroize::Zeroize::zeroize` for `Vec<u8>`, which overwrites
/// the elements and the spare capacity with zeros and then clears the vector.
///
/// Claimed: the vector is empty afterwards.
#[verifier::external_body]
pub(crate) fn wipe_vec(buf: &mut Vec<u8>)
    ensures
        final(buf)@.len() == 0,
{
    zeroize::Zeroize::zeroize(buf)
}

/// Wipes a byte array with `zeroize::Zeroize::zeroize` for `[u8; N]`.
///
/// Claimed: every byte is zero afterwards.
#[verifier::external_body]
pub(crate) fn wipe_array<const N: usize>(buf: &mut [u8; N])
    ensures
        final(buf)@ == Seq::new(old(buf)@.len(), |i: int| 0u8),
{
    zeroize::Zeroize::zeroize(buf)
}

/// `std::str::from_utf8`: the bytes read as a string slice when they are valid UTF-8.
///
/// Claimed, as std documents it: the slice comes back exactly when the bytes are UTF-8,
/// and then it holds those bytes.
#[verifier::external_body]
pub(crate) fn str_from_utf8(bytes: &[u8]) -> (r: Option<&str>)
    ensures
        match r {
            Some(s) => s.spec_bytes() == bytes@,
            None => !vstd::utf8::valid_utf8(bytes@),
        },
{
    match std::str::from_utf8(bytes) {
        Ok(s) => Some(s),
        Err(_) => None,
    }
}

/// How many components `std::path::Path::components` finds in the name `name`. It is a
/// function of the name alone: parsing reads no file and no setting, only the
/// platform's separator and prefix rules, which are fixed for a build.
pub uninterp spec fn path_components_of(name: Seq<char>) -> nat;

/// `std::path::Path::components` counted: how many components the platform's path
/// parser finds in `name`.
///
/// Claimed: the count is the named one; and a name that the filename rules accept and
/// that holds no `:` is one component. Such a name is relative, not `.` or `..`, and has
/// no `/` or `\`; the documentation of `Path::components` gives one normal component
/// for it, since only a root, a separator, `.`/`..` or a Windows prefix (a drive `X:` or
/// a UNC or verbatim prefix, which needs `\` or `:`) would add or change components.
#[verifier::external_body]
pub(crate) fn path_component_count(name: &str) -> (r: usize)
    ensures
        r == path_components_of(name@),
        filename_is_safe(name.spec_bytes()) && !has_colon(name.spec_bytes()) ==> r == 1,
{
    std::path::Path::new(name).components().count()
}

/// The text that `std::path::Path::display` renders for `path`. It is a function of the
/// path alone: the rendering converts the path's encoding (lossily where it is not
/// Unicode) and reads nothing else.
pub uninterp spec fn path_shown(path: std::path::PathBuf) -> Seq<char>;

/// `std::path::Path::display` of a path, rendered as a `String`.
///
/// Claimed: the text is the named rendering of `path`.
#[verifier::external_body]
pub(crate) fn path_display(path: &std::path::PathBuf) -> (r: String)
    ensures
        r@ == path_shown(*path),
{
    path.display().to_string()
}

/// `<PathBuf as Clone>::clone`.
///
/// Claimed: the copy is the same path.
pub assume_specification[ <std::path::PathBuf as core::clone::Clone>::clone ](path: &std::path::PathBuf) -> (r: std::path::PathBuf)
    ensures
        r == *path,
;

/// Whether `PartialEq` for `std::path::PathBuf` finds two paths equal, which it decides
/// by comparing their components. It is a function of the two values alone.
pub uninterp spec fn same_path(a: std::path::PathBuf, b: std::path::PathBuf) -> bool;

/// `<PathBuf as PartialEq>::eq`.
///
/// Claimed: the answer is the named comparison, and a path is equal to itself (the
/// comparison is an equivalence, as `Eq` for `PathBuf` documents).
#[verifier::external_body]
pub(crate) fn paths_equal(a: &std::path::PathBuf, b: &std::path::PathBuf) -> (r: bool)
    ensures
        r == same_path(*a, *b),
        *a == *b ==> r,
{
    a == b
}

/// The path that `std::path::Path::join` makes of `base` and `name`. It is a function of
/// the two values alone: joining reads no file and no setting, only the platform's
/// separator and root rules, which are fixed for a build.
pub uninterp spec fn path_joined(base: std::path::PathBuf, name: Seq<char>) -> std::path::PathBuf;

/// `std::path::Path::join`.
///
/// Claimed: the result is the named join of `base` and `name`.
#[verifier::external_body]
pub(crate) fn path_join(base: &std::path::PathBuf, name: &str) -> (r: std::path::PathBuf)
    ensures
        r == path_joined(*base, name@),
{
    base.join(name)
}

/// The folder that `std::path::Path::parent` gives for `path` (`None` for a root or an
/// empty path), as an owned path. It is a function of the path alone: taking the parent
/// is a lexical operation and reads no file.
pub uninterp spec fn path_parent_of(path: std::path::PathBuf) -> Option<std::path::PathBuf>;

/// `std::path::Path::parent`, as an owned path.
///
/// Claimed: the result is the named parent of `path`.
#[verifier::external_body]
pub(crate) fn path_parent(path: &std::path::PathBuf) -> (r: Option<std::path::PathBuf>)
    ensures
        r == path_parent_of(*path),
{
    path.parent().map(std::path::PathBuf::from)
}

/// The Unicode lowercase mapping of a string, as `str::to_lowercase` computes it.
pub uninterp spec fn unicode_lowercase(s: Seq<char>) -> Seq<char>;

/// `str::to_lowercase`.
///
/// Claimed: the result is the named lowercase mapping of `s`.
#[verifier::external_body]
pub(crate) fn to_lowercase(s: &str) -> (r: String)
    ensures
        r@ == unicode_lowercase(s@),
{
    s.to_lowercase()
}

} // verus!

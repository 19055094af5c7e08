//! Protecting and restoring a file.
//!
//! The byte work of both operations is here: [`seal_file`] turns a filename and file bytes
//! into a container and a key file, and [`open_sealed`] turns them back. The order of the
//! outside steps (checking that outputs are absent, reading, staging temporary files,
//! committing them) is decided here too, step by step, by [`protect_next`] and
//! [`restore_next`]; the application performs each step and reports its outcome.
use std::path::PathBuf;
use std::sync::atomic::AtomicBool;
use vstd::prelude::*;
use vstd::string::*;

use crate::error::KeyTideError;
use crate::format::{
    decrypt, encrypt_with_nonce, spec_validate_filename, validate_filename,
    payload_result, spec_decrypt, spec_encrypt, DecryptedPayload,
};
use crate::key::{self, is_key_file, spec_encode_key, SecretKey, KEY_FILE_LEN};
use crate::bytes::{be_u16, be_u64};
use crate::format::{law_decryption_opens_every_sealed_payload, spec_prefix};
use crate::outside::{aes256_gcm_open, fill_random, path_components_of, paths_equal, same_path};
use vstd::utf8::*;

verus! {

/// Where a protection put its two outputs.
pub struct ProtectResult {
    pub container: PathBuf,
    pub key: PathBuf,
}

/// Where a restoration put the file, and the original filename it carried.
pub struct RestoreResult {
    pub output: PathBuf,
    pub original_filename: String,
}

/// The two files that protecting a file produces: the container and its key file.
pub struct SealedFile {
    pub container: Vec<u8>,
    pub key_file: Vec<u8>,
}

/// What restoring from container `c` with key file `k` gives: `InvalidKey` for a
/// malformed key file, otherwise the container decryption with the key it holds.
pub open spec fn spec_open_sealed(c: Seq<u8>, k: Seq<u8>) -> Result<(Seq<u8>, Seq<u8>), KeyTideError> {
    if !is_key_file(k) {
        Err(KeyTideError::InvalidKey)
    } else {
        spec_decrypt(c, k.subrange(12, 44))
    }
}

/// A sealing result seen as the container's bytes.
pub open spec fn container_result(r: Result<SealedFile, KeyTideError>) -> Result<Seq<u8>, KeyTideError> {
    match r {
        Ok(s) => Ok(s.container@),
        Err(e) => Err(e),
    }
}

/// Protects `plaintext` under `source_name` with a key and a nonce already drawn: the
/// container that [`encrypt_with_nonce`](crate::format::encrypt_with_nonce) makes with
/// them, and the key file of the key.
pub fn seal_with_key_and_nonce(source_name: &str, plaintext: &[u8], key: &SecretKey, nonce: [u8; 12]) -> (r: Result<SealedFile, KeyTideError>)
    ensures
        container_result(r) == spec_encrypt(source_name.spec_bytes(), plaintext@, key@, nonce@),
        r matches Ok(s) ==> s.key_file@ == spec_encode_key(key@),
        r matches Ok(s) ==> spec_open_sealed(s.container@, s.key_file@) == Ok::<
            (Seq<u8>, Seq<u8>),
            KeyTideError,
        >((source_name.spec_bytes(), plaintext@)),
{
    let container = match encrypt_with_nonce(source_name, plaintext, key, nonce) {
        Ok(c) => c,
        Err(e) => {
            return Err(e);
        },
    };
    let key_file = key::encode(key);
    proof {
        key::lemma_key_file_round_trip(key@);
    }
    Ok(SealedFile { container, key_file })
}

/// Protects `plaintext` under `source_name`: a fresh random key, then a fresh random
/// nonce, then [`seal_with_key_and_nonce`]. The key material is wiped from the working
/// key before returning.
///
/// The container and key file that come back restore to exactly `source_name` and
/// `plaintext`.
pub fn seal_file(source_name: &str, plaintext: &[u8]) -> (r: Result<SealedFile, KeyTideError>)
    ensures
        r matches Ok(s) ==> is_key_file(s.key_file@) && s.key_file@.len() == KEY_FILE_LEN,
        r matches Ok(s) ==> exists|key: Seq<u8>, nonce: Seq<u8>|
            key.len() == 32 && nonce.len() == 12 && s.key_file@ == spec_encode_key(key) && Ok::<
                Seq<u8>,
                KeyTideError,
            >(s.container@) == spec_encrypt(source_name.spec_bytes(), plaintext@, key, nonce),
        r matches Ok(s) ==> spec_open_sealed(s.container@, s.key_file@) == Ok::<
            (Seq<u8>, Seq<u8>),
            KeyTideError,
        >((source_name.spec_bytes(), plaintext@)),
        r matches Ok(_) ==> spec_validate_filename(source_name.spec_bytes()) is Ok,
        r matches Err(e) ==> (e is RandomFailed || e is InvalidFilename || e is FileTooLarge
            || e is AuthenticationFailed),
        r matches Err(e) ==> (e is RandomFailed || exists|key: Seq<u8>, nonce: Seq<u8>|
            spec_encrypt(source_name.spec_bytes(), plaintext@, key, nonce) == Err::<
                Seq<u8>,
                KeyTideError,
            >(e)),
        spec_validate_filename(source_name.spec_bytes()) is Err ==> r is Err,
{
    let mut secret = match SecretKey::generate() {
        Ok(k) => k,
        Err(e) => {
            return Err(e);
        },
    };
    let mut nonce = [0u8; 12];
    if fill_random(&mut nonce).is_err() {
        secret.wipe();
        return Err(KeyTideError::RandomFailed);
    }
    let r = seal_with_key_and_nonce(source_name, plaintext, &secret, nonce);
    proof {
        if r is Ok {
            assert(secret@.len() == 32 && nonce@.len() == 12);
            assert(r->Ok_0.key_file@ == spec_encode_key(secret@));
        } else {
            let e = r->Err_0;
            assert(spec_encrypt(source_name.spec_bytes(), plaintext@, secret@, nonce@)
                == Err::<Seq<u8>, KeyTideError>(e));
        }
    }
    secret.wipe();
    r
}

/// Restores from a container and a key file: the key file is parsed first (any defect is
/// `InvalidKey`), then the container is decrypted with it.
pub fn open_sealed(container: &[u8], key_file: &[u8]) -> (r: Result<DecryptedPayload, KeyTideError>)
    ensures
        payload_result(r) == spec_open_sealed(container@, key_file@),
{
    let mut secret = match key::parse(key_file) {
        Ok(k) => k,
        Err(e) => {
            return Err(e);
        },
    };
    let r = decrypt(container, &secret);
    secret.wipe();
    r
}

/// The answer of the cancellation check for a flag read as `flag` (`None` when no flag
/// is given): `Cancelled` exactly when a flag was given and read as set.
pub fn cancellation_result(flag: Option<bool>) -> (r: Result<(), KeyTideError>)
    ensures
        r == (if flag == Some(true) {
            Err::<(), KeyTideError>(KeyTideError::Cancelled)
        } else {
            Ok::<(), KeyTideError>(())
        }),
{
    match flag {
        Some(true) => Err(KeyTideError::Cancelled),
        _ => Ok(()),
    }
}

/// `Cancelled` when a cancellation flag is given and set, `Ok` otherwise.
///
/// The flag is shared with the thread that may request cancellation, so its value at
/// the moment of the read is not known here: the contract says what holds whichever
/// value was read, and [`cancellation_result`] says what each value gives.
pub fn check_cancelled(cancelled: Option<&AtomicBool>) -> (r: Result<(), KeyTideError>)
    ensures
        cancelled is None ==> r is Ok,
        r matches Err(e) ==> e is Cancelled,
{
    let flag = match cancelled {
        Some(flag) => Some(flag.load(std::sync::atomic::Ordering::Relaxed)),
        None => None,
    };
    cancellation_result(flag)
}

/// Checks the source file's name, as the platform gives it (`None` when the path has no
/// file name or the name is not valid Unicode): `InvalidFilename` without a name,
/// otherwise the filename check.
pub fn check_source_name(name: Option<&str>) -> (r: Result<(), KeyTideError>)
    ensures
        r == match name {
            None => Err::<(), KeyTideError>(KeyTideError::InvalidFilename),
            Some(n) => spec_validate_filename(n.spec_bytes()),
        },
{
    match name {
        None => Err(KeyTideError::InvalidFilename),
        Some(n) => validate_filename(n),
    }
}

/// Refuses a key output path equal to the container output path: `OutputExists` with the
/// container path when the two paths compare equal, `Ok` otherwise.
pub fn check_distinct_outputs(container_output: &PathBuf, key_output: &PathBuf) -> (r: Result<(), KeyTideError>)
    ensures
        r == if same_path(*key_output, *container_output) {
            Err::<(), KeyTideError>(KeyTideError::OutputExists(*container_output))
        } else {
            Ok::<(), KeyTideError>(())
        },
        *container_output == *key_output ==> r is Err,
{
    if paths_equal(key_output, container_output) {
        Err(KeyTideError::OutputExists(container_output.clone()))
    } else {
        Ok(())
    }
}

/// The outside steps of protecting a file, in the order the protocol runs them.
pub enum ProtectStep {
    /// Refuse a key output path equal to the container output path, with
    /// [`check_distinct_outputs`].
    CheckDistinctOutputs,
    /// Refuse an existing file at the container output path.
    EnsureContainerAbsent,
    /// Refuse an existing file at the key output path.
    EnsureKeyAbsent,
    /// Take the source's filename and check it with [`check_source_name`].
    CheckSourceName,
    /// Read the source file.
    ReadSource,
    /// Produce the container and key file with [`seal_file`].
    Seal,
    /// Write the container to a fresh temporary file next to its destination.
    StageContainer,
    /// Write the key file to a fresh owner-only temporary file next to its destination.
    StageKey,
    /// Move the staged key to its destination without replacing anything.
    CommitKey,
    /// Move the staged container to its destination without replacing anything.
    CommitContainer,
    /// Remove the committed key again, then report the error carried here.
    RemoveCommittedKey(KeyTideError),
}

/// The outside steps of restoring a file, in the order the protocol runs them.
pub enum RestoreStep {
    /// Refuse an existing file at the output path.
    EnsureOutputAbsent,
    /// Read the container file.
    ReadContainer,
    /// Read the key file.
    ReadKey,
    /// Authenticate and decrypt with [`open_sealed`].
    Decrypt,
    /// Write the restored bytes to a fresh temporary file next to the destination.
    StageOutput,
    /// Move the staged output to its destination without replacing anything.
    CommitOutput,
}

/// What to do next: run a step, or finish with a result.
pub enum FlowNext<S> {
    Run(S),
    Finish(Result<(), KeyTideError>),
}

/// After which protection steps the cancellation flag is consulted (once the step has
/// succeeded).
pub open spec fn protect_checkpoint(step: ProtectStep) -> bool {
    step is ReadSource || step is Seal || step is StageKey || step is CommitKey
}

/// The protection protocol: given the step just run, its outcome and whether
/// cancellation has been requested, what comes next.
pub open spec fn spec_protect_next(done: ProtectStep, outcome: Result<(), KeyTideError>, cancelled: bool) -> FlowNext<ProtectStep> {
    match done {
        ProtectStep::RemoveCommittedKey(e) => FlowNext::Finish(Err(e)),
        ProtectStep::CommitContainer => match outcome {
            Err(e) => FlowNext::Run(ProtectStep::RemoveCommittedKey(e)),
            Ok(()) => FlowNext::Finish(Ok(())),
        },
        _ => match outcome {
            Err(e) => FlowNext::Finish(Err(e)),
            Ok(()) => if cancelled && protect_checkpoint(done) {
                if done is CommitKey {
                    FlowNext::Run(ProtectStep::RemoveCommittedKey(KeyTideError::Cancelled))
                } else {
                    FlowNext::Finish(Err(KeyTideError::Cancelled))
                }
            } else {
                FlowNext::Run(
                    match done {
                        ProtectStep::CheckDistinctOutputs => ProtectStep::EnsureContainerAbsent,
                        ProtectStep::EnsureContainerAbsent => ProtectStep::EnsureKeyAbsent,
                        ProtectStep::EnsureKeyAbsent => ProtectStep::CheckSourceName,
                        ProtectStep::CheckSourceName => ProtectStep::ReadSource,
                        ProtectStep::ReadSource => ProtectStep::Seal,
                        ProtectStep::Seal => ProtectStep::StageContainer,
                        ProtectStep::StageContainer => ProtectStep::StageKey,
                        ProtectStep::StageKey => ProtectStep::CommitKey,
                        _ => ProtectStep::CommitContainer,
                    },
                )
            },
        },
    }
}

/// After which restoration steps the cancellation flag is consulted.
pub open spec fn restore_checkpoint(step: RestoreStep) -> bool {
    step is Decrypt || step is StageOutput
}

/// The restoration protocol: given the step just run, its outcome and whether
/// cancellation has been requested, what comes next.
pub open spec fn spec_restore_next(done: RestoreStep, outcome: Result<(), KeyTideError>, cancelled: bool) -> FlowNext<RestoreStep> {
    match outcome {
        Err(e) => FlowNext::Finish(Err(e)),
        Ok(()) => if cancelled && restore_checkpoint(done) {
            FlowNext::Finish(Err(KeyTideError::Cancelled))
        } else {
            match done {
                RestoreStep::EnsureOutputAbsent => FlowNext::Run(RestoreStep::ReadContainer),
                RestoreStep::ReadContainer => FlowNext::Run(RestoreStep::ReadKey),
                RestoreStep::ReadKey => FlowNext::Run(RestoreStep::Decrypt),
                RestoreStep::Decrypt => FlowNext::Run(RestoreStep::StageOutput),
                RestoreStep::StageOutput => FlowNext::Run(RestoreStep::CommitOutput),
                RestoreStep::CommitOutput => FlowNext::Finish(Ok(())),
            }
        },
    }
}

/// The first step of protecting a file.
pub fn protect_start() -> (r: ProtectStep)
    ensures
        r is CheckDistinctOutputs,
{
    ProtectStep::CheckDistinctOutputs
}

/// The first step of restoring a file.
pub fn restore_start() -> (r: RestoreStep)
    ensures
        r is EnsureOutputAbsent,
{
    RestoreStep::EnsureOutputAbsent
}

/// Decides what follows a protection step (see [`spec_protect_next`]).
pub fn protect_next(done: ProtectStep, outcome: Result<(), KeyTideError>, cancelled: bool) -> (r: FlowNext<ProtectStep>)
    ensures
        r == spec_protect_next(done, outcome, cancelled),
{
    match done {
        ProtectStep::RemoveCommittedKey(e) => FlowNext::Finish(Err(e)),
        ProtectStep::CommitContainer => match outcome {
            Err(e) => FlowNext::Run(ProtectStep::RemoveCommittedKey(e)),
            Ok(()) => FlowNext::Finish(Ok(())),
        },
        _ => match outcome {
            Err(e) => FlowNext::Finish(Err(e)),
            Ok(()) => {
                let checkpoint = match done {
                    ProtectStep::ReadSource | ProtectStep::Seal | ProtectStep::StageKey
                    | ProtectStep::CommitKey => true,
                    _ => false,
                };
                if cancelled && checkpoint {
                    match done {
                        ProtectStep::CommitKey => FlowNext::Run(
                            ProtectStep::RemoveCommittedKey(KeyTideError::Cancelled),
                        ),
                        _ => FlowNext::Finish(Err(KeyTideError::Cancelled)),
                    }
                } else {
                    FlowNext::Run(
                        match done {
                            ProtectStep::CheckDistinctOutputs => ProtectStep::EnsureContainerAbsent,
                            ProtectStep::EnsureContainerAbsent => ProtectStep::EnsureKeyAbsent,
                            ProtectStep::EnsureKeyAbsent => ProtectStep::CheckSourceName,
                            ProtectStep::CheckSourceName => ProtectStep::ReadSource,
                            ProtectStep::ReadSource => ProtectStep::Seal,
                            ProtectStep::Seal => ProtectStep::StageContainer,
                            ProtectStep::StageContainer => ProtectStep::StageKey,
                            ProtectStep::StageKey => ProtectStep::CommitKey,
                            _ => ProtectStep::CommitContainer,
                        },
                    )
                }
            },
        },
    }
}

/// Decides what follows a restoration step (see [`spec_restore_next`]).
pub fn restore_next(done: RestoreStep, outcome: Result<(), KeyTideError>, cancelled: bool) -> (r: FlowNext<RestoreStep>)
    ensures
        r == spec_restore_next(done, outcome, cancelled),
{
    match outcome {
        Err(e) => FlowNext::Finish(Err(e)),
        Ok(()) => {
            let checkpoint = match done {
                RestoreStep::Decrypt | RestoreStep::StageOutput => true,
                _ => false,
            };
            if cancelled && checkpoint {
                FlowNext::Finish(Err(KeyTideError::Cancelled))
            } else {
                match done {
                    RestoreStep::EnsureOutputAbsent => FlowNext::Run(RestoreStep::ReadContainer),
                    RestoreStep::ReadContainer => FlowNext::Run(RestoreStep::ReadKey),
                    RestoreStep::ReadKey => FlowNext::Run(RestoreStep::Decrypt),
                    RestoreStep::Decrypt => FlowNext::Run(RestoreStep::StageOutput),
                    RestoreStep::StageOutput => FlowNext::Run(RestoreStep::CommitOutput),
                    RestoreStep::CommitOutput => FlowNext::Finish(Ok(())),
                }
            }
        },
    }
}

/// Law: a protection commits its outputs only at the end of the full sequence. The key
/// is committed only right after both temporary files were written; the container
/// only right after the key was committed; and the protection succeeds only when the
/// container commit succeeded.
pub proof fn law_protect_commits_in_order(done: ProtectStep, outcome: Result<(), KeyTideError>, cancelled: bool)
    ensures
        spec_protect_next(done, outcome, cancelled) matches FlowNext::Run(ProtectStep::CommitKey)
            ==> done is StageKey && outcome is Ok && !cancelled,
        spec_protect_next(done, outcome, cancelled) matches FlowNext::Run(
            ProtectStep::CommitContainer,
        ) ==> done is CommitKey && outcome is Ok && !cancelled,
        spec_protect_next(done, outcome, cancelled) matches FlowNext::Run(ProtectStep::Seal)
            ==> done is ReadSource && outcome is Ok && !cancelled,
        spec_protect_next(done, outcome, cancelled) matches FlowNext::Finish(Ok(()))
            ==> done is CommitContainer && outcome is Ok,
{
}

/// Law: a protection checks before it reads: the source is read only right after its
/// name was checked, which comes right after the key output was found absent, which comes
/// right after the container output was found absent, which comes right after the two
/// output paths were found distinct.
pub proof fn law_protect_checks_before_reading(done: ProtectStep, outcome: Result<(), KeyTideError>, cancelled: bool)
    ensures
        spec_protect_next(done, outcome, cancelled) matches FlowNext::Run(ProtectStep::ReadSource)
            ==> done is CheckSourceName && outcome is Ok,
        spec_protect_next(done, outcome, cancelled) matches FlowNext::Run(
            ProtectStep::CheckSourceName,
        ) ==> done is EnsureKeyAbsent && outcome is Ok,
        spec_protect_next(done, outcome, cancelled) matches FlowNext::Run(
            ProtectStep::EnsureKeyAbsent,
        ) ==> done is EnsureContainerAbsent && outcome is Ok,
        spec_protect_next(done, outcome, cancelled) matches FlowNext::Run(
            ProtectStep::EnsureContainerAbsent,
        ) ==> done is CheckDistinctOutputs && outcome is Ok,
        spec_protect_next(done, outcome, cancelled) matches FlowNext::Run(
            ProtectStep::StageContainer,
        ) ==> done is Seal && outcome is Ok && !cancelled,
{
}

/// Law: once the key has been committed, a protection never ends in failure without
/// removing it again: a cancellation seen after the key commit, or a failed container
/// commit, leads to removing the committed key, and the removal then reports the error
/// that caused it.
pub proof fn law_protect_rolls_back_committed_key(done: ProtectStep, outcome: Result<(), KeyTideError>, cancelled: bool)
    ensures
        done is CommitKey && outcome is Ok && cancelled ==> spec_protect_next(
            done,
            outcome,
            cancelled,
        ) == FlowNext::Run(ProtectStep::RemoveCommittedKey(KeyTideError::Cancelled)),
        done is CommitContainer && outcome is Err ==> spec_protect_next(done, outcome, cancelled)
            == FlowNext::Run(ProtectStep::RemoveCommittedKey(outcome->Err_0)),
        done matches ProtectStep::RemoveCommittedKey(e) ==> spec_protect_next(
            done,
            outcome,
            cancelled,
        ) == FlowNext::<ProtectStep>::Finish(Err(e)),
{
}

/// Law: a cancellation seen before any output is committed ends the protection with
/// `Cancelled` and nothing committed; a failing step before the commits ends it with that
/// step's error.
pub proof fn law_protect_stops_before_commit(done: ProtectStep, outcome: Result<(), KeyTideError>, cancelled: bool)
    requires
        !(done is CommitKey),
        !(done is CommitContainer),
        !(done is RemoveCommittedKey),
    ensures
        outcome is Ok && cancelled && protect_checkpoint(done) ==> spec_protect_next(
            done,
            outcome,
            cancelled,
        ) == FlowNext::<ProtectStep>::Finish(Err(KeyTideError::Cancelled)),
        outcome is Err ==> spec_protect_next(done, outcome, cancelled)
            == FlowNext::<ProtectStep>::Finish(Err(outcome->Err_0)),
{
}

/// Law: restoration writes no plaintext before authentication. The output is staged only
/// right after decryption succeeded (and no cancellation was seen), and committed only
/// right after staging succeeded.
pub proof fn law_restore_authenticates_before_writing(done: RestoreStep, outcome: Result<(), KeyTideError>, cancelled: bool)
    ensures
        spec_restore_next(done, outcome, cancelled) matches FlowNext::Run(RestoreStep::StageOutput)
            ==> done is Decrypt && outcome is Ok && !cancelled,
        spec_restore_next(done, outcome, cancelled) matches FlowNext::Run(RestoreStep::CommitOutput)
            ==> done is StageOutput && outcome is Ok && !cancelled,
        spec_restore_next(done, outcome, cancelled) matches FlowNext::Finish(Ok(()))
            ==> done is CommitOutput && outcome is Ok,
        outcome is Err ==> spec_restore_next(done, outcome, cancelled)
            == FlowNext::<RestoreStep>::Finish(Err(outcome->Err_0)),
{
}

/// Law: restoring opens every container made of the prefix for `nonce` and a ciphertext
/// that AES-GCM opens, under the 32 key bytes of a well-formed key file (magic
/// `COFKEY\0\x01`, version 1, algorithm 1, two zero bytes, then the key) and with that
/// prefix as associated data, to the v1 payload of an accepted UTF-8 filename and any
/// file bytes: it gives back exactly that name and those bytes, whoever made the
/// container and however large the file, up to this machine's `usize`.
pub proof fn law_restoring_opens_every_sealed_payload(key_file: Seq<u8>, name: Seq<u8>, data: Seq<u8>, nonce: Seq<u8>, ciphertext: Seq<u8>)
    requires
        key_file.len() == 44,
        key_file.subrange(0, 12) == seq![0x43u8, 0x4F, 0x46, 0x4B, 0x45, 0x59, 0x00, 0x01, 1, 1, 0, 0],
        0 < name.len() <= 1024,
        name != seq![0x2Eu8],
        name != seq![0x2Eu8, 0x2Eu8],
        forall|i: int| 0 <= i < name.len() ==> name[i] != 0x00u8 && name[i] != 0x2Fu8 && name[i] != 0x5Cu8,
        valid_utf8(name),
        path_components_of(decode_utf8(name)) == 1,
        nonce.len() == 12,
        ciphertext.len() == 2 + name.len() + 8 + data.len() + 16,
        ciphertext.len() <= usize::MAX,
        aes256_gcm_open(
            key_file.subrange(12, 44),
            nonce,
            spec_prefix(nonce, ciphertext.len() as u64),
            ciphertext,
        ) == Some(be_u16(name.len() as u16) + name + be_u64(data.len() as u64) + data),
    ensures
        spec_open_sealed(spec_prefix(nonce, ciphertext.len() as u64) + ciphertext, key_file) == Ok::<
            (Seq<u8>, Seq<u8>),
            KeyTideError,
        >((name, data)),
{
    law_decryption_opens_every_sealed_payload(name, data, key_file.subrange(12, 44), nonce, ciphertext);
}

/// Law: once the key and the nonce are drawn, sealing never reports a failure of the
/// random source: what [`seal_with_key_and_nonce`] returns is the container or a
/// filename or size refusal, so in [`seal_file`] `RandomFailed` can come only from the
/// two draws.
pub proof fn law_sealing_drawn_values_never_reports_random_failure(name: Seq<u8>, data: Seq<u8>, key: Seq<u8>, nonce: Seq<u8>)
    ensures
        spec_encrypt(name, data, key, nonce) is Ok || spec_encrypt(name, data, key, nonce)->Err_0 is InvalidFilename
            || spec_encrypt(name, data, key, nonce)->Err_0 is FileTooLarge || spec_encrypt(
            name,
            data,
            key,
            nonce,
        )->Err_0 is AuthenticationFailed,
{
}

} // verus!

//! The one error type of the library, with its user-facing messages and its stable
//! logging codes.
use std::path::PathBuf;
use vstd::prelude::*;
use vstd::string::*;

use crate::outside::{path_display, path_shown};
use crate::text::{decimal, push_decimal};

verus! {

/// Everything that can go wrong while protecting or restoring a file.
#[derive(Debug)]
pub enum KeyTideError {
    /// The bytes are not a KeyTide container (wrong magic, truncated, trailing data,
    /// inconsistent lengths).
    InvalidContainer,
    /// The container declares a format version other than 1.
    UnsupportedVersion(u8),
    /// The container declares an algorithm other than AES-256-GCM.
    UnsupportedAlgorithm(u8),
    /// The key file is not a valid KeyTide key.
    InvalidKey,
    /// AES-GCM authentication failed: wrong key, or a changed prefix or ciphertext.
    AuthenticationFailed,
    /// The filename is not one safe path component.
    InvalidFilename,
    /// An output already exists at this path.
    OutputExists(PathBuf),
    /// The file is too large to process on this machine.
    FileTooLarge,
    /// The operating system's random source failed.
    RandomFailed,
    /// The user cancelled the operation.
    Cancelled,
    /// Reading an input failed.
    ReadFailed(std::io::Error),
    /// Writing an output failed.
    WriteFailed(std::io::Error),
}

/// The user-facing message of every error but `OutputExists`, whose message embeds the
/// platform's rendering of the path (see [`KeyTideError::user_message`]).
pub open spec fn spec_message(e: KeyTideError) -> Seq<char> {
    match e {
        KeyTideError::InvalidContainer => "This file is not a valid KeyTide container."@,
        KeyTideError::UnsupportedVersion(v) => "This KeyTide file uses an unsupported format version ("@
            + decimal(v as nat) + ")."@,
        KeyTideError::UnsupportedAlgorithm(a) => "This KeyTide file uses an unsupported encryption algorithm ("@
            + decimal(a as nat) + ")."@,
        KeyTideError::InvalidKey => "The selected key file is not a valid KeyTide key."@,
        KeyTideError::AuthenticationFailed => "The file could not be authenticated. The key may not match, or a file may have changed."@,
        KeyTideError::InvalidFilename => "The protected filename is not safe to restore."@,
        KeyTideError::OutputExists(_) => "A file already exists at "@,
        KeyTideError::FileTooLarge => "KeyTide cannot process a file this large on this computer."@,
        KeyTideError::RandomFailed => "The operating system could not provide secure random data."@,
        KeyTideError::Cancelled => "The operation was cancelled. No incomplete output was kept."@,
        KeyTideError::ReadFailed(_) => "KeyTide could not read the selected file."@,
        KeyTideError::WriteFailed(_) => "KeyTide could not write the selected destination."@,
    }
}

/// The stable code of each error, the only detail of a failure that is ever logged.
pub open spec fn spec_code(e: KeyTideError) -> Seq<char> {
    match e {
        KeyTideError::InvalidContainer => "invalid_container"@,
        KeyTideError::UnsupportedVersion(_) => "unsupported_version"@,
        KeyTideError::UnsupportedAlgorithm(_) => "unsupported_algorithm"@,
        KeyTideError::InvalidKey => "invalid_key"@,
        KeyTideError::AuthenticationFailed => "authentication_failed"@,
        KeyTideError::InvalidFilename => "invalid_filename"@,
        KeyTideError::OutputExists(_) => "output_exists"@,
        KeyTideError::FileTooLarge => "file_too_large"@,
        KeyTideError::RandomFailed => "random_failed"@,
        KeyTideError::Cancelled => "cancelled"@,
        KeyTideError::ReadFailed(_) => "read_failed"@,
        KeyTideError::WriteFailed(_) => "write_failed"@,
    }
}

/// `message` is what the user is shown for `e`: [`spec_message`], or for `OutputExists`
/// "A file already exists at ", the path as the platform renders it (see
/// [`path_shown`]), and ".".
pub open spec fn is_user_message(e: KeyTideError, message: Seq<char>) -> bool {
    match e {
        KeyTideError::OutputExists(path) => message == "A file already exists at "@ + path_shown(
            path,
        ) + "."@,
        _ => message == spec_message(e),
    }
}

impl KeyTideError {
    /// The message shown to the user. For `OutputExists` it is "A file already exists
    /// at ", the path as the platform renders it, and ".".
    pub fn user_message(&self) -> (r: String)
        ensures
            is_user_message(*self, r@),
    {
        match self {
            KeyTideError::InvalidContainer => String::from_str("This file is not a valid KeyTide container."),
            KeyTideError::UnsupportedVersion(v) => {
                let mut s = String::from_str("This KeyTide file uses an unsupported format version (");
                push_decimal(&mut s, *v as u64);
                s.append(").");
                s
            },
            KeyTideError::UnsupportedAlgorithm(a) => {
                let mut s = String::from_str("This KeyTide file uses an unsupported encryption algorithm (");
                push_decimal(&mut s, *a as u64);
                s.append(").");
                s
            },
            KeyTideError::InvalidKey => String::from_str("The selected key file is not a valid KeyTide key."),
            KeyTideError::AuthenticationFailed => String::from_str(
                "The file could not be authenticated. The key may not match, or a file may have changed.",
            ),
            KeyTideError::InvalidFilename => String::from_str("The protected filename is not safe to restore."),
            KeyTideError::OutputExists(path) => {
                let shown = path_display(path);
                let mut s = String::from_str("A file already exists at ");
                s.append(shown.as_str());
                s.append(".");
                assert(s@ == "A file already exists at "@ + shown@ + "."@);
                s
            },
            KeyTideError::FileTooLarge => String::from_str("KeyTide cannot process a file this large on this computer."),
            KeyTideError::RandomFailed => String::from_str("The operating system could not provide secure random data."),
            KeyTideError::Cancelled => String::from_str("The operation was cancelled. No incomplete output was kept."),
            KeyTideError::ReadFailed(_) => String::from_str("KeyTide could not read the selected file."),
            KeyTideError::WriteFailed(_) => String::from_str("KeyTide could not write the selected destination."),
        }
    }

    /// The stable code of this error, safe to log.
    pub fn code(&self) -> (r: &'static str)
        ensures
            r@ == spec_code(*self),
    {
        match self {
            KeyTideError::InvalidContainer => "invalid_container",
            KeyTideError::UnsupportedVersion(_) => "unsupported_version",
            KeyTideError::UnsupportedAlgorithm(_) => "unsupported_algorithm",
            KeyTideError::InvalidKey => "invalid_key",
            KeyTideError::AuthenticationFailed => "authentication_failed",
            KeyTideError::InvalidFilename => "invalid_filename",
            KeyTideError::OutputExists(_) => "output_exists",
            KeyTideError::FileTooLarge => "file_too_large",
            KeyTideError::RandomFailed => "random_failed",
            KeyTideError::Cancelled => "cancelled",
            KeyTideError::ReadFailed(_) => "read_failed",
            KeyTideError::WriteFailed(_) => "write_failed",
        }
    }
}

} // verus!

//! The desktop workflow: which area is shown, how far each of the Protect and Open
//! flows has come, which files and destinations are selected, and the notice and error
//! shown to the user. Every decision the interface takes on these is here; drawing,
//! dialogs, timing and background work stay with the application.
use std::path::PathBuf;
use vstd::prelude::*;
use vstd::string::*;
use vstd::utf8::*;

use crate::error::{is_user_message, KeyTideError};
use crate::names::{
    key_file_name, spec_key_file_name, spec_strip_suffix, spec_valid_output_name, strip_suffix, valid_output_name,
};
use crate::ops::{ProtectResult, RestoreResult};
use crate::outside::{
    path_join, path_joined, path_parent, path_parent_of, str_from_utf8, to_lowercase,
    unicode_lowercase,
};
use crate::size::{format_file_size, spec_format_file_size};

verus! {

/// The areas of the application.
#[derive(Clone, Copy, Debug, PartialEq, Eq, Structural, Default)]
pub enum Workflow {
    Protect,
    #[default]
    Open,
    Security,
    Settings,
}

/// The colour theme.
#[derive(Clone, Copy, Debug, PartialEq, Eq, Structural, Default)]
pub enum ThemeMode {
    #[default]
    Light,
    Dark,
}

/// How far the Protect flow has come.
#[derive(Clone, Copy, Debug, PartialEq, Eq, Structural, Default)]
pub enum ProtectStage {
    #[default]
    SelectFile,
    Review,
    Processing,
    Complete,
}

/// How far the Open (restore) flow has come.
#[derive(Clone, Copy, Debug, PartialEq, Eq, Structural, Default)]
pub enum OpenStage {
    #[default]
    SelectContainer,
    SelectKey,
    Review,
    Processing,
    Complete,
}

/// The severity of a notice.
#[derive(Clone, Copy, Debug, PartialEq, Eq, Structural)]
pub enum NoticeKind {
    Info,
    Success,
    Warning,
    Error,
}

/// The status line shown to the user.
#[derive(Clone, Debug)]
pub struct Notice {
    pub kind: NoticeKind,
    pub message: String,
}

impl Notice {
    /// A notice of the given severity.
    pub fn new(kind: NoticeKind, message: &str) -> (r: Notice)
        ensures
            r.kind == kind,
            r.message@ == message@,
    {
        Notice { kind, message: String::from_str(message) }
    }
}

/// A file the user selected, with the details shown about it: its path, its file name
/// (or "Unknown file"), its extension as Unicode text (or "No extension" when it has
/// none or it is not valid Unicode), and its size.
#[derive(Clone, Debug)]
pub struct SelectedFile {
    pub path: PathBuf,
    pub name: String,
    pub extension: String,
    pub size_bytes: u64,
}

impl SelectedFile {
    /// The file's size for display (see [`crate::size::format_file_size`]).
    pub fn readable_size(&self) -> (r: String)
        ensures
            r@ == spec_format_file_size(self.size_bytes),
    {
        format_file_size(self.size_bytes)
    }
}

/// The position of a Protect stage on the progress rail.
pub fn protect_stage_index(stage: ProtectStage) -> (r: usize)
    ensures
        r == match stage {
            ProtectStage::SelectFile => 0usize,
            ProtectStage::Review => 1,
            ProtectStage::Processing => 2,
            ProtectStage::Complete => 3,
        },
{
    match stage {
        ProtectStage::SelectFile => 0,
        ProtectStage::Review => 1,
        ProtectStage::Processing => 2,
        ProtectStage::Complete => 3,
    }
}

/// The position of an Open stage on the progress rail.
pub fn open_stage_index(stage: OpenStage) -> (r: usize)
    ensures
        r == match stage {
            OpenStage::SelectContainer => 0usize,
            OpenStage::SelectKey => 1,
            OpenStage::Review => 2,
            OpenStage::Processing => 3,
            OpenStage::Complete => 4,
        },
{
    match stage {
        OpenStage::SelectContainer => 0,
        OpenStage::SelectKey => 1,
        OpenStage::Review => 2,
        OpenStage::Processing => 3,
        OpenStage::Complete => 4,
    }
}

/// The largest restored file, in bytes, whose text is offered for preview.
pub const PREVIEW_LIMIT: u64 = 1048576;

/// Whether a restored file of `size` bytes is small enough to be previewed.
pub fn preview_fits(size: u64) -> (r: bool)
    ensures
        r == (size <= PREVIEW_LIMIT),
{
    size <= PREVIEW_LIMIT
}

/// The text preview of a restored file's bytes: their text exactly when they are valid
/// UTF-8, nothing otherwise.
pub fn text_preview(bytes: &[u8]) -> (r: Option<String>)
    ensures
        r is Some <==> valid_utf8(bytes@),
        r matches Some(t) ==> encode_utf8(t@) == bytes@,
{
    proof {
        broadcast use vstd::utf8::encode_utf8_valid_utf8;

    }
    match str_from_utf8(bytes) {
        Some(text) => Some(String::from_str(text)),
        None => None,
    }
}

/// The outcome of a background operation, as the worker reports it.
pub enum OperationOutcome {
    Protected(Result<ProtectResult, KeyTideError>),
    Restored(Result<RestoreResult, KeyTideError>),
}

/// The state of the desktop application that its decisions read and change.
pub struct KeyTideApp {
    pub theme_mode: ThemeMode,
    pub show_splash: bool,
    pub workflow: Workflow,
    pub protect_stage: ProtectStage,
    pub open_stage: OpenStage,
    pub source_file: Option<SelectedFile>,
    pub encrypted_file: Option<SelectedFile>,
    pub key_file: Option<SelectedFile>,
    pub notice: Notice,
    pub show_error: bool,
    pub error_message: String,
    pub show_viewer: bool,
    pub decrypted_text: Option<String>,
    pub viewer_was_open: bool,
    pub encryption_output: Option<PathBuf>,
    pub key_output: Option<PathBuf>,
    pub decryption_output: Option<PathBuf>,
    pub protect_destination: Option<PathBuf>,
    pub restore_destination: Option<PathBuf>,
    pub protected_filename: String,
    pub restored_filename: String,
    pub offer_text_preview: bool,
    /// A background operation is running.
    pub busy: bool,
}

/// The notice `n` has this severity and text.
pub open spec fn notice_is(n: Notice, kind: NoticeKind, message: Seq<char>) -> bool {
    n.kind == kind && n.message@ == message
}

/// The notice shown after switching the theme.
pub open spec fn theme_message(mode: ThemeMode) -> Seq<char> {
    match mode {
        ThemeMode::Light => "Light appearance enabled"@,
        ThemeMode::Dark => "Dark appearance enabled"@,
    }
}

/// The severity of the notice shown after navigating to an area.
pub open spec fn navigate_kind(workflow: Workflow) -> NoticeKind {
    if workflow is Security || workflow is Settings {
        NoticeKind::Success
    } else {
        NoticeKind::Info
    }
}

/// The notice shown after navigating to an area.
pub open spec fn navigate_message(workflow: Workflow) -> Seq<char> {
    match workflow {
        Workflow::Protect => "Choose a file to protect"@,
        Workflow::Open => "Choose a protected file"@,
        _ => "Local | Offline | Private"@,
    }
}

/// The Open stage that goes with the current selection: choosing the key once a
/// container is selected, choosing the container before.
pub open spec fn open_selection_stage(encrypted_file: Option<SelectedFile>) -> OpenStage {
    if encrypted_file is Some {
        OpenStage::SelectKey
    } else {
        OpenStage::SelectContainer
    }
}

/// The name proposed for the container of a source file.
pub open spec fn proposed_container_name(source_name: Seq<char>) -> Seq<char> {
    source_name + ".coffer"@
}

/// The name proposed for the restored file of a container.
pub open spec fn proposed_restored_name(container_name: Seq<char>) -> Seq<char> {
    match spec_strip_suffix(container_name, ".coffer"@) {
        Some(stem) => stem,
        None => "Restored file"@,
    }
}

/// The output planned in `destination` (when one is chosen) under `name`: the
/// destination joined with the name.
pub open spec fn planned_in(destination: Option<PathBuf>, name: Seq<char>) -> Option<PathBuf> {
    match destination {
        Some(folder) => Some(path_joined(folder, name)),
        None => None,
    }
}

/// The planned outputs follow the destinations and the reviewed names: the container
/// is the Protect destination joined with the container name, the key the same
/// destination joined with [`key_file_name`] of it, and the restored file the restore
/// destination joined with the restored name; nothing is planned without a destination.
pub open spec fn outputs_follow_destinations(a: KeyTideApp) -> bool {
    &&& a.encryption_output == planned_in(a.protect_destination, a.protected_filename@)
    &&& a.key_output == planned_in(a.protect_destination, spec_key_file_name(a.protected_filename@))
    &&& a.decryption_output == planned_in(a.restore_destination, a.restored_filename@)
}

/// The Protect selection after preparing its outputs: the destination defaults to the
/// source's folder and the container name to the source name with `.coffer`, both only
/// when still unset; the planned outputs follow.
pub open spec fn protect_output_prepared(before: KeyTideApp, after: KeyTideApp) -> bool {
    &&& (before.source_file is None ==> after == before)
    &&& (before.source_file is Some ==> {
        &&& after == KeyTideApp {
            protect_destination: after.protect_destination,
            protected_filename: after.protected_filename,
            encryption_output: after.encryption_output,
            key_output: after.key_output,
            decryption_output: after.decryption_output,
            ..before
        }
        &&& after.protect_destination == if before.protect_destination is Some {
            before.protect_destination
        } else {
            path_parent_of(before.source_file->0.path)
        }
        &&& after.protected_filename@ == if before.protected_filename@.len() == 0 {
            proposed_container_name(before.source_file->0.name@)
        } else {
            before.protected_filename@
        }
        &&& outputs_follow_destinations(after)
    })
}

/// The Open selection after preparing its output: the destination defaults to the
/// container's folder and the restored name to the container name without `.coffer`
/// (or "Restored file"), both only when still unset; the planned outputs follow.
pub open spec fn restore_output_prepared(before: KeyTideApp, after: KeyTideApp) -> bool {
    &&& (before.encrypted_file is None ==> after == before)
    &&& (before.encrypted_file is Some ==> {
        &&& after == KeyTideApp {
            restore_destination: after.restore_destination,
            restored_filename: after.restored_filename,
            encryption_output: after.encryption_output,
            key_output: after.key_output,
            decryption_output: after.decryption_output,
            ..before
        }
        &&& after.restore_destination == if before.restore_destination is Some {
            before.restore_destination
        } else {
            path_parent_of(before.encrypted_file->0.path)
        }
        &&& after.restored_filename@ == if before.restored_filename@.len() == 0 {
            proposed_restored_name(before.encrypted_file->0.name@)
        } else {
            before.restored_filename@
        }
        &&& outputs_follow_destinations(after)
    })
}

/// Protection may start from this state (see [`KeyTideApp::can_run_protect`]).
pub open spec fn protect_ready(a: KeyTideApp) -> bool {
    a.source_file is Some && a.protect_destination is Some && spec_valid_output_name(
        a.protected_filename@,
        "coffer"@,
    )
}

/// Restoration may start from this state (see [`KeyTideApp::can_run_open`]).
pub open spec fn open_ready(a: KeyTideApp) -> bool {
    a.encrypted_file is Some && a.key_file is Some && a.restore_destination is Some
        && spec_valid_output_name(a.restored_filename@, ""@)
}

/// `after` is `before` with an error dialog showing `message`.
pub open spec fn error_shown(before: KeyTideApp, after: KeyTideApp, message: Seq<char>) -> bool {
    &&& after == (KeyTideApp {
        error_message: after.error_message,
        show_error: true,
        notice: after.notice,
        ..before
    })
    &&& after.error_message@ == message
    &&& notice_is(after.notice, NoticeKind::Error, "Action required"@)
}

/// A stage that was processing goes back to its review.
pub open spec fn protect_unwound(stage: ProtectStage) -> ProtectStage {
    if stage is Processing {
        ProtectStage::Review
    } else {
        stage
    }
}

/// A stage that was processing goes back to its review.
pub open spec fn open_unwound(stage: OpenStage) -> OpenStage {
    if stage is Processing {
        OpenStage::Review
    } else {
        stage
    }
}

/// The outcome of dropping `file` in the Open area, when its extension lowercases to
/// `lowered`: a `.coffer` file becomes the container, a `.cofferkey` file the key, and
/// anything else is refused with an error.
pub open spec fn open_drop_done(before: KeyTideApp, after: KeyTideApp, file: SelectedFile, lowered: Seq<char>) -> bool {
    &&& lowered == "coffer"@ ==> {
        &&& after.encrypted_file == Some(file)
        &&& after.open_stage == OpenStage::SelectKey
        &&& notice_is(after.notice, NoticeKind::Info, "Protected file selected"@)
        &&& exists|prepared: KeyTideApp|
            restore_output_prepared(
                (KeyTideApp { encrypted_file: Some(file), ..before }),
                prepared,
            ) && after == (KeyTideApp {
                open_stage: OpenStage::SelectKey,
                notice: after.notice,
                ..prepared
            })
    }
    &&& lowered == "cofferkey"@ ==> {
        &&& after == (KeyTideApp {
            key_file: Some(file),
            open_stage: open_selection_stage(before.encrypted_file),
            notice: after.notice,
            ..before
        })
        &&& notice_is(after.notice, NoticeKind::Info, "Key selected"@)
    }
    &&& (lowered != "coffer"@ && lowered != "cofferkey"@) ==> error_shown(
        before,
        after,
        "Drop a .coffer file or a supported .cofferkey file."@,
    )
}

/// How [`KeyTideApp::begin_protect`] ends when nothing was running: the selection is
/// prepared (into `prepared`); if it is not ready an error is shown and nothing starts;
/// otherwise the state becomes busy and processing and the source, container and key
/// paths are handed out.
pub open spec fn begin_protect_done(before: KeyTideApp, prepared: KeyTideApp, after: KeyTideApp, r: Option<(PathBuf, PathBuf, PathBuf)>) -> bool {
    &&& protect_output_prepared(before, prepared)
    &&& !protect_ready(prepared) ==> r is None && error_shown(
        prepared,
        after,
        "Choose a destination and a valid .coffer filename before continuing."@,
    )
    &&& protect_ready(prepared) ==> {
        &&& r == Some(
            (prepared.source_file->0.path, prepared.encryption_output->0, prepared.key_output->0),
        )
        &&& after == (KeyTideApp {
            busy: true,
            protect_stage: ProtectStage::Processing,
            encryption_output: after.encryption_output,
            key_output: after.key_output,
            decryption_output: after.decryption_output,
            notice: after.notice,
            ..prepared
        })
        &&& outputs_follow_destinations(after)
        &&& notice_is(after.notice, NoticeKind::Info, "Protecting file locally"@)
    }
}

/// How [`KeyTideApp::begin_open`] ends when nothing was running: the selection is
/// prepared (into `prepared`); if it is not ready an error is shown and nothing starts;
/// otherwise the state becomes busy and processing and the container, key and output
/// paths are handed out.
pub open spec fn begin_open_done(before: KeyTideApp, prepared: KeyTideApp, after: KeyTideApp, r: Option<(PathBuf, PathBuf, PathBuf)>) -> bool {
    &&& restore_output_prepared(before, prepared)
    &&& !open_ready(prepared) ==> r is None && error_shown(
        prepared,
        after,
        "Choose both files, a destination, and a valid restored filename."@,
    )
    &&& open_ready(prepared) ==> {
        &&& r == Some(
            (
                prepared.encrypted_file->0.path,
                prepared.key_file->0.path,
                prepared.decryption_output->0,
            ),
        )
        &&& after == (KeyTideApp {
            busy: true,
            open_stage: OpenStage::Processing,
            encryption_output: after.encryption_output,
            key_output: after.key_output,
            decryption_output: after.decryption_output,
            notice: after.notice,
            ..prepared
        })
        &&& outputs_follow_destinations(after)
        &&& notice_is(after.notice, NoticeKind::Info, "Authenticating before restoration"@)
    }
}

impl Default for KeyTideApp {
    fn default() -> (r: KeyTideApp)
        ensures
            r.theme_mode == ThemeMode::Light,
            r.show_splash,
            r.workflow == Workflow::Open,
            r.protect_stage == ProtectStage::SelectFile,
            r.open_stage == OpenStage::SelectContainer,
            r.source_file is None && r.encrypted_file is None && r.key_file is None,
            notice_is(r.notice, NoticeKind::Info, "Ready"@),
            !r.show_error && r.error_message@.len() == 0,
            !r.show_viewer && r.decrypted_text is None && !r.viewer_was_open,
            r.encryption_output is None && r.key_output is None && r.decryption_output is None,
            r.protect_destination is None && r.restore_destination is None,
            r.protected_filename@.len() == 0 && r.restored_filename@.len() == 0,
            r.offer_text_preview,
            !r.busy,
    {
        KeyTideApp {
            theme_mode: ThemeMode::Light,
            show_splash: true,
            workflow: Workflow::Open,
            protect_stage: ProtectStage::SelectFile,
            open_stage: OpenStage::SelectContainer,
            source_file: None,
            encrypted_file: None,
            key_file: None,
            notice: Notice::new(NoticeKind::Info, "Ready"),
            show_error: false,
            error_message: String::new(),
            show_viewer: false,
            decrypted_text: None,
            viewer_was_open: false,
            encryption_output: None,
            key_output: None,
            decryption_output: None,
            protect_destination: None,
            restore_destination: None,
            protected_filename: String::new(),
            restored_filename: String::new(),
            offer_text_preview: true,
            busy: false,
        }
    }
}

impl KeyTideApp {
    /// Replaces the notice.
    pub fn set_notice(&mut self, kind: NoticeKind, message: &str)
        ensures
            *final(self) == (KeyTideApp { notice: final(self).notice, ..*old(self) }),
            notice_is(final(self).notice, kind, message@),
    {
        self.notice = Notice::new(kind, message);
    }

    /// Leaves the splash screen.
    pub fn dismiss_splash(&mut self)
        ensures
            *final(self) == (KeyTideApp { show_splash: false, ..*old(self) }),
    {
        self.show_splash = false;
    }

    /// Switches the theme and says so.
    pub fn set_theme_mode(&mut self, mode: ThemeMode)
        ensures
            *final(self) == (KeyTideApp { theme_mode: mode, notice: final(self).notice, ..*old(self) }),
            notice_is(final(self).notice, NoticeKind::Success, theme_message(mode)),
    {
        self.theme_mode = mode;
        match mode {
            ThemeMode::Light => self.set_notice(NoticeKind::Success, "Light appearance enabled"),
            ThemeMode::Dark => self.set_notice(NoticeKind::Success, "Dark appearance enabled"),
        }
    }

    /// Shows another area. Selections, stages and outputs are kept.
    pub fn navigate(&mut self, workflow: Workflow)
        ensures
            *final(self) == (KeyTideApp { workflow, notice: final(self).notice, ..*old(self) }),
            notice_is(final(self).notice, navigate_kind(workflow), navigate_message(workflow)),
    {
        self.workflow = workflow;
        let kind = match workflow {
            Workflow::Security | Workflow::Settings => NoticeKind::Success,
            Workflow::Protect | Workflow::Open => NoticeKind::Info,
        };
        match workflow {
            Workflow::Protect => self.set_notice(kind, "Choose a file to protect"),
            Workflow::Open => self.set_notice(kind, "Choose a protected file"),
            Workflow::Security | Workflow::Settings => self.set_notice(kind, "Local | Offline | Private"),
        }
    }

    /// Starts the Protect flow over.
    pub fn reset_protect(&mut self)
        ensures
            *final(self) == (KeyTideApp {
                protect_stage: ProtectStage::SelectFile,
                source_file: None,
                encryption_output: None,
                key_output: None,
                protect_destination: None,
                protected_filename: final(self).protected_filename,
                notice: final(self).notice,
                ..*old(self)
            }),
            final(self).protected_filename@.len() == 0,
            notice_is(final(self).notice, NoticeKind::Info, "Choose a file to protect"@),
    {
        self.protect_stage = ProtectStage::SelectFile;
        self.source_file = None;
        self.encryption_output = None;
        self.key_output = None;
        self.protect_destination = None;
        self.protected_filename = String::new();
        self.set_notice(NoticeKind::Info, "Choose a file to protect");
    }

    /// Starts the Open flow over, clearing any preview.
    pub fn reset_open(&mut self)
        ensures
            *final(self) == (KeyTideApp {
                open_stage: OpenStage::SelectContainer,
                encrypted_file: None,
                key_file: None,
                decryption_output: None,
                decrypted_text: None,
                restore_destination: None,
                restored_filename: final(self).restored_filename,
                notice: final(self).notice,
                ..*old(self)
            }),
            final(self).restored_filename@.len() == 0,
            notice_is(final(self).notice, NoticeKind::Info, "Choose a protected file"@),
    {
        self.open_stage = OpenStage::SelectContainer;
        self.encrypted_file = None;
        self.key_file = None;
        self.decryption_output = None;
        self.decrypted_text = None;
        self.restore_destination = None;
        self.restored_filename = String::new();
        self.set_notice(NoticeKind::Info, "Choose a protected file");
    }

    /// Recomputes the planned output paths from the destinations and the reviewed names;
    /// the key is planned beside the container under [`key_file_name`].
    pub fn refresh_planned_outputs(&mut self)
        ensures
            *final(self) == (KeyTideApp {
                encryption_output: final(self).encryption_output,
                key_output: final(self).key_output,
                decryption_output: final(self).decryption_output,
                ..*old(self)
            }),
            outputs_follow_destinations(*final(self)),
    {
        self.encryption_output = match &self.protect_destination {
            Some(path) => Some(path_join(path, self.protected_filename.as_str())),
            None => None,
        };
        self.key_output = match &self.protect_destination {
            Some(path) => {
                let key_name = key_file_name(self.protected_filename.as_str());
                Some(path_join(path, key_name.as_str()))
            },
            None => None,
        };
        self.decryption_output = match &self.restore_destination {
            Some(path) => Some(path_join(path, self.restored_filename.as_str())),
            None => None,
        };
    }

    /// Fills in the Protect destination and container name from the source file when
    /// they are unset, then refreshes the planned outputs.
    pub fn prepare_protect_output(&mut self)
        ensures
            protect_output_prepared(*old(self), *final(self)),
    {
        let (parent, name) = match &self.source_file {
            None => {
                return;
            },
            Some(file) => (path_parent(&file.path), String::from_str(file.name.as_str())),
        };
        if self.protect_destination.is_none() {
            self.protect_destination = parent;
        }
        if self.protected_filename.unicode_len() == 0 {
            let mut proposed = name;
            proposed.append(".coffer");
            self.protected_filename = proposed;
        }
        self.refresh_planned_outputs();
    }

    /// Fills in the restore destination and restored name from the container when they
    /// are unset, then refreshes the planned outputs.
    pub fn prepare_restore_output(&mut self)
        ensures
            restore_output_prepared(*old(self), *final(self)),
    {
        let (parent, name) = match &self.encrypted_file {
            None => {
                return;
            },
            Some(file) => (path_parent(&file.path), String::from_str(file.name.as_str())),
        };
        if self.restore_destination.is_none() {
            self.restore_destination = parent;
        }
        if self.restored_filename.unicode_len() == 0 {
            self.restored_filename = match strip_suffix(name.as_str(), ".coffer") {
                Some(stem) => stem,
                None => String::from_str("Restored file"),
            };
        }
        self.refresh_planned_outputs();
    }

    /// Shows an error dialog with `message`.
    pub fn show_error(&mut self, message: &str)
        ensures
            *final(self) == (KeyTideApp {
                error_message: final(self).error_message,
                show_error: true,
                notice: final(self).notice,
                ..*old(self)
            }),
            final(self).error_message@ == message@,
            notice_is(final(self).notice, NoticeKind::Error, "Action required"@),
    {
        self.error_message = String::from_str(message);
        self.show_error = true;
        self.set_notice(NoticeKind::Error, "Action required");
    }

    /// Takes `file` as the file to protect.
    pub fn choose_source_file(&mut self, file: SelectedFile)
        ensures
            final(self).source_file == Some(file),
            final(self).protect_stage == ProtectStage::SelectFile,
            notice_is(final(self).notice, NoticeKind::Info, "File selected - continue to review"@),
            exists|prepared: KeyTideApp|
                protect_output_prepared(
                    (KeyTideApp { source_file: Some(file), ..*old(self) }),
                    prepared,
                ) && *final(self) == (KeyTideApp {
                    protect_stage: ProtectStage::SelectFile,
                    notice: final(self).notice,
                    ..prepared
                }),
    {
        self.source_file = Some(file);
        let ghost with_file = *self;
        self.prepare_protect_output();
        let ghost prepared = *self;
        self.protect_stage = ProtectStage::SelectFile;
        self.set_notice(NoticeKind::Info, "File selected - continue to review");
        assert(protect_output_prepared(with_file, prepared));
    }

    /// Takes `file` as the container to restore from; the key comes next.
    pub fn choose_encrypted_file(&mut self, file: SelectedFile)
        ensures
            final(self).encrypted_file == Some(file),
            final(self).open_stage == OpenStage::SelectKey,
            notice_is(final(self).notice, NoticeKind::Info, "Now choose the matching key"@),
            exists|prepared: KeyTideApp|
                restore_output_prepared(
                    (KeyTideApp { encrypted_file: Some(file), ..*old(self) }),
                    prepared,
                ) && *final(self) == (KeyTideApp {
                    open_stage: OpenStage::SelectKey,
                    notice: final(self).notice,
                    ..prepared
                }),
    {
        self.encrypted_file = Some(file);
        let ghost with_file = *self;
        self.prepare_restore_output();
        let ghost prepared = *self;
        self.open_stage = OpenStage::SelectKey;
        self.set_notice(NoticeKind::Info, "Now choose the matching key");
        assert(restore_output_prepared(with_file, prepared));
    }

    /// Takes `file` as the key to restore with.
    pub fn choose_key_file(&mut self, file: SelectedFile)
        ensures
            *final(self) == (KeyTideApp {
                key_file: Some(file),
                open_stage: OpenStage::SelectKey,
                notice: final(self).notice,
                ..*old(self)
            }),
            notice_is(final(self).notice, NoticeKind::Info, "Key selected - continue to review"@),
    {
        self.key_file = Some(file);
        self.open_stage = OpenStage::SelectKey;
        self.set_notice(NoticeKind::Info, "Key selected - continue to review");
    }

    /// Drops the file to protect and everything planned from it.
    pub fn clear_source_file(&mut self)
        ensures
            *final(self) == (KeyTideApp {
                source_file: None,
                encryption_output: None,
                key_output: None,
                protect_destination: None,
                protected_filename: final(self).protected_filename,
                protect_stage: ProtectStage::SelectFile,
                notice: final(self).notice,
                ..*old(self)
            }),
            final(self).protected_filename@.len() == 0,
            notice_is(final(self).notice, NoticeKind::Info, "Choose a file to protect"@),
    {
        self.source_file = None;
        self.encryption_output = None;
        self.key_output = None;
        self.protect_destination = None;
        self.protected_filename = String::new();
        self.protect_stage = ProtectStage::SelectFile;
        self.set_notice(NoticeKind::Info, "Choose a file to protect");
    }

    /// Drops the container and everything planned from it.
    pub fn clear_encrypted_file(&mut self)
        ensures
            *final(self) == (KeyTideApp {
                encrypted_file: None,
                decryption_output: None,
                restore_destination: None,
                restored_filename: final(self).restored_filename,
                open_stage: OpenStage::SelectContainer,
                notice: final(self).notice,
                ..*old(self)
            }),
            final(self).restored_filename@.len() == 0,
            notice_is(final(self).notice, NoticeKind::Info, "Choose a protected file"@),
    {
        self.encrypted_file = None;
        self.decryption_output = None;
        self.restore_destination = None;
        self.restored_filename = String::new();
        self.open_stage = OpenStage::SelectContainer;
        self.set_notice(NoticeKind::Info, "Choose a protected file");
    }

    /// Drops the key; the Open flow goes back to choosing the key, or the container when
    /// there is none.
    pub fn clear_key_file(&mut self)
        ensures
            *final(self) == (KeyTideApp {
                key_file: None,
                decryption_output: None,
                open_stage: open_selection_stage(old(self).encrypted_file),
                notice: final(self).notice,
                ..*old(self)
            }),
            notice_is(final(self).notice, NoticeKind::Info, "Choose the matching key"@),
    {
        self.key_file = None;
        self.decryption_output = None;
        self.open_stage = if self.encrypted_file.is_some() {
            OpenStage::SelectKey
        } else {
            OpenStage::SelectContainer
        };
        self.set_notice(NoticeKind::Info, "Choose the matching key");
    }

    /// A file to protect is selected.
    pub fn can_protect(&self) -> (r: bool)
        ensures
            r == self.source_file is Some,
    {
        self.source_file.is_some()
    }

    /// A container and a key are both selected.
    pub fn can_open(&self) -> (r: bool)
        ensures
            r == (self.encrypted_file is Some && self.key_file is Some),
    {
        self.encrypted_file.is_some() && self.key_file.is_some()
    }

    /// Protection may start: a source, a destination, and a safe container name ending
    /// in `.coffer`.
    pub fn can_run_protect(&self) -> (r: bool)
        ensures
            r == (self.source_file is Some && self.protect_destination is Some
                && spec_valid_output_name(self.protected_filename@, "coffer"@)),
    {
        self.can_protect() && self.protect_destination.is_some() && valid_output_name(
            self.protected_filename.as_str(),
            "coffer",
        )
    }

    /// Restoration may start: both files, a destination, and a safe restored name.
    pub fn can_run_open(&self) -> (r: bool)
        ensures
            r == (self.encrypted_file is Some && self.key_file is Some
                && self.restore_destination is Some && spec_valid_output_name(
                self.restored_filename@,
                ""@,
            )),
    {
        self.can_open() && self.restore_destination.is_some() && valid_output_name(
            self.restored_filename.as_str(),
            "",
        )
    }

    /// Moves the Protect flow to its review, which needs a selected file; without one
    /// nothing changes.
    pub fn review_protect(&mut self)
        ensures
            old(self).source_file is None ==> *final(self) == *old(self),
            old(self).source_file is Some ==> exists|prepared: KeyTideApp|
                protect_output_prepared(*old(self), prepared) && *final(self) == (KeyTideApp {
                    protect_stage: ProtectStage::Review,
                    notice: final(self).notice,
                    ..prepared
                }),
            old(self).source_file is Some ==> notice_is(
                final(self).notice,
                NoticeKind::Info,
                "Review where your protected files will be saved"@,
            ),
    {
        if self.can_protect() {
            self.prepare_protect_output();
            let ghost prepared = *self;
            self.protect_stage = ProtectStage::Review;
            self.set_notice(NoticeKind::Info, "Review where your protected files will be saved");
            assert(protect_output_prepared(*old(self), prepared));
        }
    }

    /// Moves the Open flow to its review, which needs both the container and the key;
    /// without them nothing changes.
    pub fn review_open(&mut self)
        ensures
            !(old(self).encrypted_file is Some && old(self).key_file is Some) ==> *final(self)
                == *old(self),
            old(self).encrypted_file is Some && old(self).key_file is Some ==> exists|
                prepared: KeyTideApp,
            |
                restore_output_prepared(*old(self), prepared) && *final(self) == (KeyTideApp {
                    open_stage: OpenStage::Review,
                    notice: final(self).notice,
                    ..prepared
                }),
            old(self).encrypted_file is Some && old(self).key_file is Some ==> notice_is(
                final(self).notice,
                NoticeKind::Info,
                "Review before restoring the file"@,
            ),
    {
        if self.can_open() {
            self.prepare_restore_output();
            let ghost prepared = *self;
            self.open_stage = OpenStage::Review;
            self.set_notice(NoticeKind::Info, "Review before restoring the file");
            assert(restore_output_prepared(*old(self), prepared));
        }
    }

    /// Steps back from a review to the selection of the current area; selections are
    /// kept.
    pub fn back(&mut self)
        ensures
            *final(self) == (KeyTideApp {
                protect_stage: if old(self).workflow is Protect {
                    ProtectStage::SelectFile
                } else {
                    old(self).protect_stage
                },
                open_stage: if old(self).workflow is Open {
                    open_selection_stage(old(self).encrypted_file)
                } else {
                    old(self).open_stage
                },
                notice: final(self).notice,
                ..*old(self)
            }),
            notice_is(final(self).notice, NoticeKind::Info, "Selections preserved"@),
    {
        match self.workflow {
            Workflow::Protect => self.protect_stage = ProtectStage::SelectFile,
            Workflow::Open => {
                self.open_stage = if self.encrypted_file.is_some() {
                    OpenStage::SelectKey
                } else {
                    OpenStage::SelectContainer
                }
            },
            Workflow::Security | Workflow::Settings => {},
        }
        self.set_notice(NoticeKind::Info, "Selections preserved");
    }

    /// Uses `destination` as the folder for the protected outputs.
    pub fn choose_protect_destination(&mut self, destination: PathBuf)
        ensures
            final(self).protect_destination == Some(destination),
            *final(self) == (KeyTideApp {
                protect_destination: Some(destination),
                encryption_output: final(self).encryption_output,
                key_output: final(self).key_output,
                decryption_output: final(self).decryption_output,
                notice: final(self).notice,
                ..*old(self)
            }),
            outputs_follow_destinations(*final(self)),
            notice_is(final(self).notice, NoticeKind::Info, "Protected output destination updated"@),
    {
        self.protect_destination = Some(destination);
        self.refresh_planned_outputs();
        self.set_notice(NoticeKind::Info, "Protected output destination updated");
    }

    /// Uses `destination` as the folder for the restored file.
    pub fn choose_restore_destination(&mut self, destination: PathBuf)
        ensures
            *final(self) == (KeyTideApp {
                restore_destination: Some(destination),
                encryption_output: final(self).encryption_output,
                key_output: final(self).key_output,
                decryption_output: final(self).decryption_output,
                notice: final(self).notice,
                ..*old(self)
            }),
            outputs_follow_destinations(*final(self)),
            notice_is(final(self).notice, NoticeKind::Info, "Restore destination updated"@),
    {
        self.restore_destination = Some(destination);
        self.refresh_planned_outputs();
        self.set_notice(NoticeKind::Info, "Restore destination updated");
    }

    /// Opens the preview window when there is decrypted text to show.
    pub fn open_secure_viewer(&mut self)
        ensures
            *final(self) == (KeyTideApp {
                show_viewer: old(self).show_viewer || old(self).decrypted_text is Some,
                ..*old(self)
            }),
    {
        if self.decrypted_text.is_some() {
            self.show_viewer = true;
        }
    }

    /// Closes the preview window and forgets the decrypted text.
    pub fn close_secure_viewer(&mut self)
        ensures
            *final(self) == (KeyTideApp {
                show_viewer: false,
                viewer_was_open: false,
                decrypted_text: None,
                ..*old(self)
            }),
    {
        self.show_viewer = false;
        self.viewer_was_open = false;
        self.decrypted_text = None;
    }

    /// Decides whether protection starts. While another operation runs, or when the
    /// prepared selection is not ready, an error is shown and nothing starts. Otherwise
    /// the state becomes busy and processing, and the source, container and key paths
    /// to work on are returned.
    pub fn begin_protect(&mut self) -> (r: Option<(PathBuf, PathBuf, PathBuf)>)
        ensures
            old(self).busy ==> r is None && error_shown(
                *old(self),
                *final(self),
                "Wait for the current file operation to finish or cancel it first."@,
            ),
            !old(self).busy ==> exists|prepared: KeyTideApp| #[trigger]
                begin_protect_done(*old(self), prepared, *final(self), r),
    {
        if self.busy {
            self.show_error("Wait for the current file operation to finish or cancel it first.");
            return None;
        }
        self.prepare_protect_output();
        let ghost prepared = *self;
        assert(protect_output_prepared(*old(self), prepared));
        if !self.can_run_protect() {
            self.show_error("Choose a destination and a valid .coffer filename before continuing.");
            assert(begin_protect_done(*old(self), prepared, *self, None));
            return None;
        }
        let source = match &self.source_file {
            Some(file) => file.path.clone(),
            None => {
                return None;
            },
        };
        let container_output = match &self.encryption_output {
            Some(path) => path.clone(),
            None => {
                return None;
            },
        };
        let key_output = match &self.key_output {
            Some(path) => path.clone(),
            None => {
                return None;
            },
        };
        self.busy = true;
        self.protect_stage = ProtectStage::Processing;
        self.refresh_planned_outputs();
        self.set_notice(NoticeKind::Info, "Protecting file locally");
        let r = Some((source, container_output, key_output));
        assert(begin_protect_done(*old(self), prepared, *self, r));
        r
    }

    /// Decides whether restoration starts. While another operation runs, or when the
    /// prepared selection is not ready, an error is shown and nothing starts. Otherwise
    /// the state becomes busy and processing, and the container, key and output paths to
    /// work on are returned.
    pub fn begin_open(&mut self) -> (r: Option<(PathBuf, PathBuf, PathBuf)>)
        ensures
            old(self).busy ==> r is None && error_shown(
                *old(self),
                *final(self),
                "Wait for the current file operation to finish or cancel it first."@,
            ),
            !old(self).busy ==> exists|prepared: KeyTideApp| #[trigger]
                begin_open_done(*old(self), prepared, *final(self), r),
    {
        if self.busy {
            self.show_error("Wait for the current file operation to finish or cancel it first.");
            return None;
        }
        self.prepare_restore_output();
        let ghost prepared = *self;
        assert(restore_output_prepared(*old(self), prepared));
        if !self.can_run_open() {
            self.show_error("Choose both files, a destination, and a valid restored filename.");
            assert(begin_open_done(*old(self), prepared, *self, None));
            return None;
        }
        let container = match &self.encrypted_file {
            Some(file) => file.path.clone(),
            None => {
                return None;
            },
        };
        let key = match &self.key_file {
            Some(file) => file.path.clone(),
            None => {
                return None;
            },
        };
        let output = match &self.decryption_output {
            Some(path) => path.clone(),
            None => {
                return None;
            },
        };
        self.busy = true;
        self.open_stage = OpenStage::Processing;
        self.refresh_planned_outputs();
        self.set_notice(NoticeKind::Info, "Authenticating before restoration");
        let r = Some((container, key, output));
        assert(begin_open_done(*old(self), prepared, *self, r));
        r
    }

    /// Cancels the running operation: nothing is busy any more and a processing flow
    /// returns to its review.
    pub fn cancel_processing(&mut self)
        ensures
            *final(self) == (KeyTideApp {
                busy: false,
                protect_stage: protect_unwound(old(self).protect_stage),
                open_stage: open_unwound(old(self).open_stage),
                notice: final(self).notice,
                ..*old(self)
            }),
            notice_is(
                final(self).notice,
                NoticeKind::Warning,
                "Cancelling and removing incomplete output"@,
            ),
    {
        self.busy = false;
        if self.protect_stage == ProtectStage::Processing {
            self.protect_stage = ProtectStage::Review;
        }
        if self.open_stage == OpenStage::Processing {
            self.open_stage = OpenStage::Review;
        }
        self.set_notice(NoticeKind::Warning, "Cancelling and removing incomplete output");
    }

    /// The background operation ended without reporting: nothing is busy any more, a
    /// processing flow returns to its review, and the user is told.
    pub fn operation_vanished(&mut self)
        ensures
            error_shown(
                (KeyTideApp {
                    busy: false,
                    protect_stage: protect_unwound(old(self).protect_stage),
                    open_stage: open_unwound(old(self).open_stage),
                    ..*old(self)
                }),
                *final(self),
                "The background operation stopped unexpectedly. No incomplete output was kept."@,
            ),
    {
        self.busy = false;
        if self.protect_stage == ProtectStage::Processing {
            self.protect_stage = ProtectStage::Review;
        }
        if self.open_stage == OpenStage::Processing {
            self.open_stage = OpenStage::Review;
        }
        self.show_error(
            "The background operation stopped unexpectedly. No incomplete output was kept.",
        );
    }

    /// Takes in the outcome of the background operation. A protection shows its two
    /// outputs; a restoration shows its output and, when previews are offered, keeps
    /// `preview` (the restored file's text, if it could be read) for the viewer; a
    /// failure returns the flow to its review and shows the error's message.
    pub fn finish_operation(&mut self, outcome: OperationOutcome, preview: Option<String>)
        ensures
            !final(self).busy,
            match outcome {
                OperationOutcome::Protected(Ok(result)) => {
                    &&& *final(self) == (KeyTideApp {
                        busy: false,
                        encryption_output: Some(result.container),
                        key_output: Some(result.key),
                        protect_stage: ProtectStage::Complete,
                        notice: final(self).notice,
                        ..*old(self)
                    })
                    &&& notice_is(final(self).notice, NoticeKind::Success, "File protected successfully"@)
                },
                OperationOutcome::Restored(Ok(result)) => {
                    &&& *final(self) == (KeyTideApp {
                        busy: false,
                        decryption_output: Some(result.output),
                        decrypted_text: if old(self).offer_text_preview {
                            preview
                        } else {
                            None
                        },
                        open_stage: OpenStage::Complete,
                        notice: final(self).notice,
                        ..*old(self)
                    })
                    &&& notice_is(
                        final(self).notice,
                        NoticeKind::Success,
                        "Restored "@ + result.original_filename@ + " successfully"@,
                    )
                },
                OperationOutcome::Protected(Err(e)) => exists|message: Seq<char>|
                    is_user_message(e, message) && error_shown(
                        (KeyTideApp {
                            busy: false,
                            protect_stage: ProtectStage::Review,
                            ..*old(self)
                        }),
                        *final(self),
                        message,
                    ),
                OperationOutcome::Restored(Err(e)) => exists|message: Seq<char>|
                    is_user_message(e, message) && error_shown(
                        (KeyTideApp { busy: false, open_stage: OpenStage::Review, ..*old(self) }),
                        *final(self),
                        message,
                    ),
            },
    {
        self.busy = false;
        match outcome {
            OperationOutcome::Protected(Ok(result)) => {
                self.encryption_output = Some(result.container);
                self.key_output = Some(result.key);
                self.protect_stage = ProtectStage::Complete;
                self.set_notice(NoticeKind::Success, "File protected successfully");
            },
            OperationOutcome::Restored(Ok(result)) => {
                self.decryption_output = Some(result.output);
                self.decrypted_text = if self.offer_text_preview {
                    preview
                } else {
                    None
                };
                self.open_stage = OpenStage::Complete;
                let mut message = String::from_str("Restored ");
                message.append(result.original_filename.as_str());
                message.append(" successfully");
                self.set_notice(NoticeKind::Success, message.as_str());
            },
            OperationOutcome::Protected(Err(error)) => {
                self.protect_stage = ProtectStage::Review;
                let message = error.user_message();
                self.show_error(message.as_str());
            },
            OperationOutcome::Restored(Err(error)) => {
                self.open_stage = OpenStage::Review;
                let message = error.user_message();
                self.show_error(message.as_str());
            },
        }
    }

    /// Takes a file dropped on the window. In the Protect area it becomes the file to
    /// protect; in the Open area a `.coffer` file becomes the container and a
    /// `.cofferkey` file the key (extension compared after Unicode lowercasing), and any
    /// other file is refused with an error; elsewhere it is ignored.
    pub fn handle_dropped_file(&mut self, file: SelectedFile)
        ensures
            (old(self).workflow is Security || old(self).workflow is Settings) ==> *final(self)
                == *old(self),
            old(self).workflow is Protect ==> {
                &&& final(self).source_file == Some(file)
                &&& final(self).protect_stage == ProtectStage::SelectFile
                &&& notice_is(
                    final(self).notice,
                    NoticeKind::Info,
                    "File selected - continue to review"@,
                )
                &&& exists|prepared: KeyTideApp|
                    protect_output_prepared(
                        (KeyTideApp { source_file: Some(file), ..*old(self) }),
                        prepared,
                    ) && *final(self) == (KeyTideApp {
                        protect_stage: ProtectStage::SelectFile,
                        notice: final(self).notice,
                        ..prepared
                    })
            },
            old(self).workflow is Open ==> open_drop_done(
                *old(self),
                *final(self),
                file,
                unicode_lowercase(file.extension@),
            ),
    {
        match self.workflow {
            Workflow::Protect => {
                self.choose_source_file(file);
            },
            Workflow::Open => {
                self.assign_open_drop(file);
            },
            Workflow::Security | Workflow::Settings => {},
        }
    }

    /// A file dropped in the Open area: container, key, or refused by its extension
    /// after Unicode lowercasing. A file without a Unicode extension carries
    /// "No extension", which is refused like any other extension.
    fn assign_open_drop(&mut self, file: SelectedFile)
        ensures
            open_drop_done(*old(self), *final(self), file, unicode_lowercase(file.extension@)),
    {
        let lowered = to_lowercase(file.extension.as_str());
        let ghost dropped = file;
        proof {
            reveal_strlit("coffer");
            reveal_strlit("cofferkey");
        }
        let coffer = String::from_str("coffer");
        let coffer_key = String::from_str("cofferkey");
        if lowered.eq(&coffer) {
            self.encrypted_file = Some(file);
            let ghost with_file = *self;
            self.prepare_restore_output();
            let ghost prepared = *self;
            assert(restore_output_prepared(with_file, prepared));
            self.open_stage = OpenStage::SelectKey;
            self.set_notice(NoticeKind::Info, "Protected file selected");
            assert(lowered@ == "coffer"@);
            assert("coffer"@.len() == 6 && "cofferkey"@.len() == 9);
            assert(lowered@ != "cofferkey"@);
            assert(open_drop_done(*old(self), *self, dropped, lowered@));
        } else if lowered.eq(&coffer_key) {
            self.key_file = Some(file);
            self.open_stage = if self.encrypted_file.is_some() {
                OpenStage::SelectKey
            } else {
                OpenStage::SelectContainer
            };
            self.set_notice(NoticeKind::Info, "Key selected");
            assert(lowered@ == "cofferkey"@);
            assert(lowered@ != "coffer"@);
            assert(open_drop_done(*old(self), *self, dropped, lowered@));
        } else {
            self.show_error("Drop a .coffer file or a supported .cofferkey file.");
            assert(open_drop_done(*old(self), *self, dropped, lowered@));
        }
        assert(open_drop_done(*old(self), *self, dropped, lowered@));
    }
}

} // verus!

use keytide::ops::{open_sealed, seal_file, ProtectResult, RestoreResult};
use keytide::workflow::{
    open_stage_index, preview_fits, protect_stage_index, text_preview, KeyTideApp, Notice, NoticeKind, OpenStage,
    OperationOutcome, ProtectStage, SelectedFile, ThemeMode, Workflow,
};
use keytide::KeyTideError;
use std::path::PathBuf;

fn selected(name: &str) -> SelectedFile {
    SelectedFile {
        path: PathBuf::from(name),
        name: name.to_string(),
        extension: name
            .rsplit_once('.')
            .map(|(_, ext)| ext)
            .unwrap_or("")
            .to_string(),
        size_bytes: 42,
    }
}

#[test]
fn navigation_preserves_selected_files() {
    let mut app = KeyTideApp {
        source_file: Some(selected("notes.txt")),
        ..Default::default()
    };
    app.navigate(Workflow::Settings);
    app.navigate(Workflow::Protect);
    assert!(app.source_file.is_some());
}

#[test]
fn protect_requires_explicit_review_transition() {
    let mut app = KeyTideApp {
        source_file: Some(selected("notes.txt")),
        ..Default::default()
    };
    assert_eq!(app.protect_stage, ProtectStage::SelectFile);
    app.review_protect();
    assert_eq!(app.protect_stage, ProtectStage::Review);
}

#[test]
fn open_requires_both_files_before_review() {
    let mut app = KeyTideApp {
        encrypted_file: Some(selected("notes.coffer")),
        ..Default::default()
    };
    app.review_open();
    assert_ne!(app.open_stage, OpenStage::Review);
    app.key_file = Some(selected("notes.cofferkey"));
    app.review_open();
    assert_eq!(app.open_stage, OpenStage::Review);
}

#[test]
fn notices_have_explicit_severity() {
    let notice = Notice::new(NoticeKind::Success, "Complete");
    assert_eq!(notice.kind, NoticeKind::Success);
}

#[test]
fn protect_output_requires_safe_coffer_filename() {
    let mut app = KeyTideApp {
        source_file: Some(selected("notes.txt")),
        ..Default::default()
    };
    app.review_protect();
    assert!(app.can_run_protect());

    app.protected_filename = "../notes.coffer".to_string();
    assert!(!app.can_run_protect());
    app.protected_filename = "notes.txt".to_string();
    assert!(!app.can_run_protect());
}

#[test]
fn cancelling_processing_returns_to_review() {
    let mut app = KeyTideApp {
        workflow: Workflow::Protect,
        source_file: Some(selected("notes.txt")),
        ..Default::default()
    };
    assert!(app.begin_protect().is_some());
    assert_eq!(app.protect_stage, ProtectStage::Processing);
    app.cancel_processing();
    assert_eq!(app.protect_stage, ProtectStage::Review);
    assert!(!app.busy);
}

#[test]
fn interface_workflow_runs_protection_and_restoration_decisions() {
    let directory = PathBuf::from("keytide-outputs");
    let mut app = KeyTideApp {
        workflow: Workflow::Protect,
        source_file: Some(selected("notes.txt")),
        protect_destination: Some(directory.clone()),
        protected_filename: "notes.coffer".to_string(),
        ..Default::default()
    };
    let (source, container_output, key_output) = app.begin_protect().unwrap();
    assert_eq!(source, PathBuf::from("notes.txt"));
    assert_eq!(container_output, directory.join("notes.coffer"));
    assert_eq!(key_output.file_name().unwrap(), "notes.cofferkey");
    assert!(app.begin_protect().is_none());
    assert!(app.show_error);

    let sealed = seal_file("notes.txt", b"private notes").unwrap();
    app.finish_operation(
        OperationOutcome::Protected(Ok(ProtectResult {
            container: container_output.clone(),
            key: key_output.clone(),
        })),
        None,
    );
    assert_eq!(app.protect_stage, ProtectStage::Complete);
    assert_eq!(app.encryption_output, Some(container_output.clone()));
    assert!(!app.busy);

    app.workflow = Workflow::Open;
    app.encrypted_file = Some(SelectedFile {
        path: container_output.clone(),
        ..selected("notes.coffer")
    });
    app.key_file = Some(selected("notes.cofferkey"));
    app.restore_destination = Some(directory.clone());
    app.restored_filename = "restored.txt".to_string();
    let (container, _key, output) = app.begin_open().unwrap();
    assert_eq!(container, container_output);
    assert_eq!(output, directory.join("restored.txt"));
    let restored = open_sealed(&sealed.container, &sealed.key_file).unwrap();
    let text = String::from_utf8(restored.bytes.clone()).unwrap();
    app.finish_operation(
        OperationOutcome::Restored(Ok(RestoreResult {
            output: output.clone(),
            original_filename: restored.filename.clone(),
        })),
        Some(text),
    );
    assert_eq!(app.open_stage, OpenStage::Complete);
    assert_eq!(app.decrypted_text.as_deref(), Some("private notes"));
    assert_eq!(app.notice.message, "Restored notes.txt successfully");
    app.open_secure_viewer();
    assert!(app.show_viewer);
    app.close_secure_viewer();
    assert!(!app.show_viewer);
    assert!(app.decrypted_text.is_none());
}

#[test]
fn failed_operation_returns_to_review_with_message() {
    let mut app = KeyTideApp {
        source_file: Some(selected("notes.txt")),
        ..Default::default()
    };
    app.begin_protect().unwrap();
    app.finish_operation(
        OperationOutcome::Protected(Err(KeyTideError::Cancelled)),
        None,
    );
    assert_eq!(app.protect_stage, ProtectStage::Review);
    assert!(app.show_error);
    assert_eq!(
        app.error_message,
        "The operation was cancelled. No incomplete output was kept."
    );
    assert_eq!(app.notice.kind, NoticeKind::Error);
    assert_eq!(app.notice.message, "Action required");
}

#[test]
fn vanished_operation_is_reported() {
    let mut app = KeyTideApp {
        encrypted_file: Some(selected("a.coffer")),
        key_file: Some(selected("a.cofferkey")),
        ..Default::default()
    };
    app.begin_open().unwrap();
    assert_eq!(app.open_stage, OpenStage::Processing);
    app.operation_vanished();
    assert_eq!(app.open_stage, OpenStage::Review);
    assert!(!app.busy);
    assert!(app.show_error);
}

#[test]
fn preview_is_kept_only_when_offered() {
    let mut app = KeyTideApp {
        offer_text_preview: false,
        ..Default::default()
    };
    app.finish_operation(
        OperationOutcome::Restored(Ok(RestoreResult {
            output: PathBuf::from("out.txt"),
            original_filename: "out.txt".to_string(),
        })),
        Some("text".to_string()),
    );
    assert!(app.decrypted_text.is_none());
    app.open_secure_viewer();
    assert!(!app.show_viewer);
}

#[test]
fn restored_name_defaults_from_container_name() {
    let mut app = KeyTideApp::default();
    app.choose_encrypted_file(selected("report.pdf.coffer"));
    assert_eq!(app.restored_filename, "report.pdf");
    assert_eq!(app.open_stage, OpenStage::SelectKey);
    let mut other = KeyTideApp::default();
    other.choose_encrypted_file(selected("mystery.bin"));
    assert_eq!(other.restored_filename, "Restored file");
}

#[test]
fn clearing_the_key_returns_to_the_right_selection() {
    let mut app = KeyTideApp {
        key_file: Some(selected("a.cofferkey")),
        ..Default::default()
    };
    app.clear_key_file();
    assert_eq!(app.open_stage, OpenStage::SelectContainer);
    app.encrypted_file = Some(selected("a.coffer"));
    app.key_file = Some(selected("a.cofferkey"));
    app.clear_key_file();
    assert_eq!(app.open_stage, OpenStage::SelectKey);
    assert!(app.key_file.is_none());
    app.clear_encrypted_file();
    assert_eq!(app.open_stage, OpenStage::SelectContainer);
}

#[test]
fn back_keeps_selections() {
    let mut app = KeyTideApp {
        workflow: Workflow::Protect,
        source_file: Some(selected("a.txt")),
        ..Default::default()
    };
    app.review_protect();
    app.back();
    assert_eq!(app.protect_stage, ProtectStage::SelectFile);
    assert!(app.source_file.is_some());
    assert_eq!(app.notice.message, "Selections preserved");
}

#[test]
fn dropped_files_are_sorted_by_extension() {
    let mut app = KeyTideApp::default();
    app.handle_dropped_file(selected("notes.COFFERKEY"));
    assert!(app.key_file.is_some());
    assert_eq!(app.open_stage, OpenStage::SelectContainer);
    app.handle_dropped_file(selected("notes.Coffer"));
    assert!(app.encrypted_file.is_some());
    assert_eq!(app.open_stage, OpenStage::SelectKey);
    app.handle_dropped_file(selected("notes.txt"));
    assert!(app.show_error);
    assert_eq!(
        app.error_message,
        "Drop a .coffer file or a supported .cofferkey file."
    );

    let mut protect = KeyTideApp {
        workflow: Workflow::Protect,
        ..Default::default()
    };
    protect.handle_dropped_file(selected("photo.jpg"));
    assert_eq!(protect.protected_filename, "photo.jpg.coffer");

    let mut settings = KeyTideApp {
        workflow: Workflow::Settings,
        ..Default::default()
    };
    settings.handle_dropped_file(selected("photo.jpg"));
    assert!(settings.source_file.is_none() && settings.encrypted_file.is_none());
}

#[test]
fn theme_and_splash_changes() {
    let mut app = KeyTideApp::default();
    assert!(app.show_splash);
    app.dismiss_splash();
    assert!(!app.show_splash);
    app.set_theme_mode(ThemeMode::Dark);
    assert_eq!(app.theme_mode, ThemeMode::Dark);
    assert_eq!(app.notice.message, "Dark appearance enabled");
    app.reset_protect();
    assert_eq!(app.notice.message, "Choose a file to protect");
    app.reset_open();
    assert_eq!(app.notice.message, "Choose a protected file");
}

#[test]
fn stage_indices_follow_the_rails() {
    assert_eq!(protect_stage_index(ProtectStage::SelectFile), 0);
    assert_eq!(protect_stage_index(ProtectStage::Complete), 3);
    assert_eq!(open_stage_index(OpenStage::SelectKey), 1);
    assert_eq!(open_stage_index(OpenStage::Complete), 4);
}

#[test]
fn readable_size_of_a_selected_file() {
    let file = SelectedFile {
        size_bytes: 1536,
        ..selected("a.bin")
    };
    assert_eq!(file.readable_size(), "1.5 KB");
}

#[test]
fn planned_outputs_join_destination_and_names() {
    let mut app = KeyTideApp {
        protect_destination: Some(PathBuf::from("/d")),
        protected_filename: "notes.coffer".to_string(),
        restore_destination: Some(PathBuf::from("/r")),
        restored_filename: "restored.txt".to_string(),
        ..Default::default()
    };
    app.refresh_planned_outputs();
    assert_eq!(app.encryption_output, Some(PathBuf::from("/d/notes.coffer")));
    assert_eq!(app.key_output, Some(PathBuf::from("/d/notes.cofferkey")));
    assert_eq!(app.decryption_output, Some(PathBuf::from("/r/restored.txt")));

    let mut unset = KeyTideApp {
        protected_filename: "notes.coffer".to_string(),
        encryption_output: Some(PathBuf::from("/stale")),
        ..Default::default()
    };
    unset.refresh_planned_outputs();
    assert_eq!(unset.encryption_output, None);
    assert_eq!(unset.key_output, None);
    assert_eq!(unset.decryption_output, None);
}

fn in_folder(folder: &str, name: &str) -> SelectedFile {
    SelectedFile {
        path: PathBuf::from(folder).join(name),
        ..selected(name)
    }
}

#[test]
fn review_defaults_the_destination_to_the_source_folder() {
    let mut app = KeyTideApp {
        workflow: Workflow::Protect,
        source_file: Some(in_folder("dir", "notes.txt")),
        ..Default::default()
    };
    app.review_protect();
    assert_eq!(app.protect_destination, Some(PathBuf::from("dir")));
    assert_eq!(app.encryption_output, Some(PathBuf::from("dir/notes.txt.coffer")));
    assert_eq!(app.key_output, Some(PathBuf::from("dir/notes.txt.cofferkey")));
    assert!(app.can_run_protect());

    let mut bare = KeyTideApp {
        source_file: Some(selected("notes.txt")),
        ..Default::default()
    };
    bare.review_protect();
    assert_eq!(bare.protect_destination, Some(PathBuf::from("")));
    assert_eq!(bare.encryption_output, Some(PathBuf::from("notes.txt.coffer")));

    let mut open = KeyTideApp {
        encrypted_file: Some(in_folder("vault", "notes.txt.coffer")),
        key_file: Some(in_folder("vault", "notes.txt.cofferkey")),
        ..Default::default()
    };
    open.review_open();
    assert_eq!(open.restore_destination, Some(PathBuf::from("vault")));
    assert_eq!(open.decryption_output, Some(PathBuf::from("vault/notes.txt")));
}

#[test]
fn a_drop_without_a_known_extension_is_refused() {
    let mut app = KeyTideApp::default();
    let mut file = selected("README");
    file.extension = "No extension".to_string();
    app.handle_dropped_file(file);
    assert!(app.show_error);
    assert!(app.encrypted_file.is_none() && app.key_file.is_none());
}

#[test]
fn preview_offers_small_utf8_text_only() {
    assert!(preview_fits(0));
    assert!(preview_fits(1_048_576));
    assert!(!preview_fits(1_048_577));
    assert_eq!(text_preview("héllo".as_bytes()), Some("héllo".to_string()));
    assert_eq!(text_preview(&[0x66, 0xff]), None);
    assert_eq!(text_preview(&[]), Some(String::new()));
}

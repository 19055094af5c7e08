use keytide::key;
use keytide::ops::{
    cancellation_result, check_cancelled, check_distinct_outputs, check_source_name, open_sealed, protect_next, protect_start, restore_next, restore_start,
    seal_file, seal_with_key_and_nonce, FlowNext, ProtectStep, RestoreStep,
};
use keytide::KeyTideError;
use std::sync::atomic::AtomicBool;

fn protect_sequence(cancel_after: Option<usize>) -> (Vec<&'static str>, Result<(), KeyTideError>) {
    let mut names = Vec::new();
    let mut step = protect_start();
    let mut count = 0;
    loop {
        let name = match &step {
            ProtectStep::CheckDistinctOutputs => "distinct",
            ProtectStep::EnsureContainerAbsent => "container_absent",
            ProtectStep::EnsureKeyAbsent => "key_absent",
            ProtectStep::CheckSourceName => "source_name",
            ProtectStep::ReadSource => "read",
            ProtectStep::Seal => "seal",
            ProtectStep::StageContainer => "stage_container",
            ProtectStep::StageKey => "stage_key",
            ProtectStep::CommitKey => "commit_key",
            ProtectStep::CommitContainer => "commit_container",
            ProtectStep::RemoveCommittedKey(_) => "remove_key",
        };
        names.push(name);
        count += 1;
        let cancelled = cancel_after.is_some_and(|after| count >= after);
        match protect_next(step, Ok(()), cancelled) {
            FlowNext::Run(next) => step = next,
            FlowNext::Finish(result) => return (names, result),
        }
    }
}

#[test]
fn file_bytes_round_trip_through_container_and_key() {
    let sealed = seal_file("source.bin", &[0, 1, 2, 0xff]).unwrap();
    assert_eq!(sealed.key_file.len(), 44);
    let restored = open_sealed(&sealed.container, &sealed.key_file).unwrap();
    assert_eq!(restored.filename, "source.bin");
    assert_eq!(restored.bytes, [0, 1, 2, 0xff]);
}

#[test]
fn every_sealing_uses_a_distinct_random_key() {
    let first = seal_file("source.txt", b"same source").unwrap();
    let second = seal_file("source.txt", b"same source").unwrap();
    assert_ne!(first.key_file, second.key_file);
    assert!(matches!(
        open_sealed(&second.container, &first.key_file),
        Err(KeyTideError::AuthenticationFailed)
    ));
}

#[test]
fn restoring_checks_the_key_file_first() {
    let sealed = seal_file("source.txt", b"secret").unwrap();
    let mut bad_key = sealed.key_file.clone();
    bad_key[9] = 2;
    assert!(matches!(
        open_sealed(b"not a container", &bad_key),
        Err(KeyTideError::InvalidKey)
    ));
    assert!(matches!(
        open_sealed(b"not a container", &sealed.key_file),
        Err(KeyTideError::InvalidContainer)
    ));
    let parsed = key::parse(&sealed.key_file).unwrap();
    assert_eq!(key::encode(&parsed), sealed.key_file);
}

#[test]
fn sealing_refuses_unsafe_source_names() {
    assert!(matches!(
        seal_file("../escape", b"x"),
        Err(KeyTideError::InvalidFilename)
    ));
}

#[test]
fn cancellation_flag_is_read_only_when_given() {
    assert!(check_cancelled(None).is_ok());
    let flag = AtomicBool::new(false);
    assert!(check_cancelled(Some(&flag)).is_ok());
    let set = AtomicBool::new(true);
    assert!(matches!(
        check_cancelled(Some(&set)),
        Err(KeyTideError::Cancelled)
    ));
}

#[test]
fn protection_runs_every_step_in_order() {
    let (names, result) = protect_sequence(None);
    assert!(result.is_ok());
    assert_eq!(
        names,
        [
            "distinct",
            "container_absent",
            "key_absent",
            "source_name",
            "read",
            "seal",
            "stage_container",
            "stage_key",
            "commit_key",
            "commit_container"
        ]
    );
}

#[test]
fn pre_cancelled_protection_commits_nothing() {
    let (names, result) = protect_sequence(Some(0));
    assert!(matches!(result, Err(KeyTideError::Cancelled)));
    assert_eq!(names.last(), Some(&"read"));
    assert!(!names.contains(&"commit_key"));
    assert!(!names.contains(&"commit_container"));
}

#[test]
fn cancellation_after_key_commit_removes_the_key() {
    let (names, result) = protect_sequence(Some(9));
    assert!(matches!(result, Err(KeyTideError::Cancelled)));
    assert_eq!(&names[names.len() - 2..], ["commit_key", "remove_key"]);
}

#[test]
fn failed_container_commit_rolls_back_the_key() {
    let next = protect_next(
        ProtectStep::CommitContainer,
        Err(KeyTideError::OutputExists("out.coffer".into())),
        false,
    );
    let FlowNext::Run(step) = next else {
        panic!("a failed container commit must remove the committed key");
    };
    assert!(matches!(step, ProtectStep::RemoveCommittedKey(_)));
    assert!(matches!(
        protect_next(step, Ok(()), false),
        FlowNext::Finish(Err(KeyTideError::OutputExists(_)))
    ));
}

#[test]
fn failing_step_ends_protection_with_its_error() {
    assert!(matches!(
        protect_next(
            ProtectStep::EnsureKeyAbsent,
            Err(KeyTideError::OutputExists("k".into())),
            false
        ),
        FlowNext::Finish(Err(KeyTideError::OutputExists(_)))
    ));
    assert!(matches!(
        protect_next(ProtectStep::Seal, Err(KeyTideError::RandomFailed), true),
        FlowNext::Finish(Err(KeyTideError::RandomFailed))
    ));
}

#[test]
fn restoration_authenticates_before_writing() {
    let mut step = restore_start();
    let mut order = Vec::new();
    loop {
        order.push(match step {
            RestoreStep::EnsureOutputAbsent => "absent",
            RestoreStep::ReadContainer => "read_container",
            RestoreStep::ReadKey => "read_key",
            RestoreStep::Decrypt => "decrypt",
            RestoreStep::StageOutput => "stage",
            RestoreStep::CommitOutput => "commit",
        });
        match restore_next(step, Ok(()), false) {
            FlowNext::Run(next) => step = next,
            FlowNext::Finish(result) => {
                assert!(result.is_ok());
                break;
            }
        }
    }
    assert_eq!(
        order,
        ["absent", "read_container", "read_key", "decrypt", "stage", "commit"]
    );
    assert!(matches!(
        restore_next(RestoreStep::Decrypt, Err(KeyTideError::AuthenticationFailed), false),
        FlowNext::Finish(Err(KeyTideError::AuthenticationFailed))
    ));
    assert!(matches!(
        restore_next(RestoreStep::Decrypt, Ok(()), true),
        FlowNext::Finish(Err(KeyTideError::Cancelled))
    ));
}

#[test]
fn cancellation_answer_follows_the_flag_read() {
    assert!(cancellation_result(None).is_ok());
    assert!(cancellation_result(Some(false)).is_ok());
    assert!(matches!(cancellation_result(Some(true)), Err(KeyTideError::Cancelled)));
}

#[test]
fn sealing_with_a_drawn_key_and_nonce_is_exact() {
    let secret = key::SecretKey([0x33; 32]);
    let sealed = seal_with_key_and_nonce("source.bin", &[0, 1, 2, 0xff], &secret, [0x44; 12]).unwrap();
    let expected =
        keytide::format::encrypt_with_nonce("source.bin", &[0, 1, 2, 0xff], &secret, [0x44; 12])
            .unwrap();
    assert_eq!(sealed.container, expected);
    assert_eq!(sealed.key_file, key::encode(&secret));
    assert_eq!(&sealed.key_file[12..], &[0x33; 32]);
    let restored = open_sealed(&sealed.container, &sealed.key_file).unwrap();
    assert_eq!(restored.filename, "source.bin");
    assert_eq!(restored.bytes, [0, 1, 2, 0xff]);
    assert!(matches!(
        seal_with_key_and_nonce("a/b", b"x", &secret, [0x44; 12]),
        Err(KeyTideError::InvalidFilename)
    ));
}

#[test]
fn key_and_container_outputs_must_differ() {
    let container = std::path::PathBuf::from("/d/notes.coffer");
    let key = std::path::PathBuf::from("/d/notes.cofferkey");
    assert!(check_distinct_outputs(&container, &key).is_ok());
    match check_distinct_outputs(&container, &container.clone()) {
        Err(KeyTideError::OutputExists(path)) => assert_eq!(path, container),
        other => panic!("unexpected {:?}", other.is_ok()),
    }
    let same = std::path::PathBuf::from("/d/./notes.coffer");
    assert!(check_distinct_outputs(&container, &same).is_err());
}

#[test]
fn source_name_must_exist_and_be_safe() {
    assert!(matches!(check_source_name(None), Err(KeyTideError::InvalidFilename)));
    assert!(matches!(check_source_name(Some("..")), Err(KeyTideError::InvalidFilename)));
    assert!(check_source_name(Some("notes.txt")).is_ok());
}

#[test]
fn names_with_a_colon_round_trip_where_the_platform_accepts_them() {
    let name = "notes:v2.txt";
    match seal_file(name, b"v2") {
        Ok(sealed) => {
            let restored = open_sealed(&sealed.container, &sealed.key_file).unwrap();
            assert_eq!(restored.filename, name);
            assert_eq!(restored.bytes, b"v2");
        }
        Err(e) => assert!(matches!(e, KeyTideError::InvalidFilename)),
    }
}

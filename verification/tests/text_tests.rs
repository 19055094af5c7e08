use keytide::names::{key_file_name, strip_suffix, trim, valid_output_name};
use keytide::size::format_file_size;
use keytide::KeyTideError;

fn float_formatted(size: u64) -> String {
    const KB: f64 = 1024.0;
    const MB: f64 = KB * 1024.0;
    const GB: f64 = MB * 1024.0;
    let size = size as f64;
    if size >= GB {
        format!("{:.2} GB", size / GB)
    } else if size >= MB {
        format!("{:.2} MB", size / MB)
    } else if size >= KB {
        format!("{:.1} KB", size / KB)
    } else {
        format!("{} bytes", size as u64)
    }
}

#[test]
fn file_sizes_read_like_float_formatting() {
    let mut samples = vec![
        0,
        1,
        1023,
        1024,
        1075,
        1126,
        1127,
        1536,
        1_048_575,
        1_048_576,
        1_053_818,
        1_059_061,
        5_000_000,
        1_073_741_823,
        1_073_741_824,
        1_084_479_242,
        1_078_984_704,
        u64::MAX,
        u64::MAX - 1,
        (1 << 53) + 1,
        (1 << 60) + (1 << 7),
        (1 << 60) + (3 << 7),
        1280,
        1792,
        3328,
        (1 << 20) + (1 << 17),
        (1 << 20) + 5 * (1 << 17),
        3 * (1 << 20) + 3 * (1 << 17),
        (1 << 30) + (1 << 27),
        (1 << 30) + 5 * (1 << 27),
    ];
    for unit in [1_u64 << 10, 1 << 20, 1 << 30] {
        for step in 0..200_u64 {
            samples.push(unit + step * (unit / 200) + step);
            samples.push(unit * (step + 1) + unit / 8 * 5 + unit / 400);
            samples.push(unit * (step + 1) + unit / 200 * step);
            samples.push(unit / 2 * (2 * step + 3));
        }
    }
    for tie in 0..2000_u64 {
        samples.push(tie * 512 + 1024 * 3);
        samples.push((tie * 1024 + 512) * 1024 / 100 * 100);
    }
    for size in samples {
        assert_eq!(format_file_size(size), float_formatted(size), "size {size}");
    }
}

#[test]
fn file_size_examples() {
    assert_eq!(format_file_size(0), "0 bytes");
    assert_eq!(format_file_size(1023), "1023 bytes");
    assert_eq!(format_file_size(1024), "1.0 KB");
    assert_eq!(format_file_size(1_048_576), "1.00 MB");
    assert_eq!(format_file_size(3 * 1_073_741_824), "3.00 GB");
    assert_eq!(format_file_size(1280), "1.2 KB");
    assert_eq!(format_file_size(1792), "1.8 KB");
    assert_eq!(format_file_size((1 << 20) + (1 << 17)), "1.12 MB");
}

#[test]
fn output_names_are_checked_after_trimming() {
    assert!(valid_output_name("notes.coffer", "coffer"));
    assert!(valid_output_name("  notes.COFFER \t", "coffer"));
    assert!(!valid_output_name("notes.txt", "coffer"));
    assert!(!valid_output_name("../notes.coffer", "coffer"));
    assert!(!valid_output_name("a\\b.coffer", "coffer"));
    assert!(!valid_output_name("nul\0.coffer", "coffer"));
    assert!(!valid_output_name("   ", ""));
    assert!(!valid_output_name(" . ", ""));
    assert!(!valid_output_name("..", ""));
    assert!(valid_output_name("restored.txt", ""));
    assert!(!valid_output_name("coffer", "coffer"));
    assert!(valid_output_name(".coffer", "coffer"));
    assert!(valid_output_name("\u{3000}résumé.coffer\u{2029}", "coffer"));
}

#[test]
fn trimming_uses_unicode_white_space() {
    assert_eq!(trim("  a b \n"), "a b");
    assert_eq!(trim("\u{00A0}x\u{2003}"), "x");
    assert_eq!(trim(""), "");
    assert_eq!(trim(" \t "), "");
}

#[test]
fn key_names_follow_container_names() {
    assert_eq!(key_file_name("notes.coffer"), "notes.cofferkey");
    assert_eq!(key_file_name("notes"), "notes.cofferkey");
    assert_eq!(key_file_name("notes.COFFER"), "notes.COFFER.cofferkey");
    assert_eq!(strip_suffix("ééé.coffer", ".coffer"), Some("ééé".to_string()));
    assert_eq!(strip_suffix("x", ".coffer"), None);
}

#[test]
fn error_messages_and_codes() {
    assert_eq!(
        KeyTideError::UnsupportedVersion(2).user_message(),
        "This KeyTide file uses an unsupported format version (2)."
    );
    assert_eq!(
        KeyTideError::UnsupportedAlgorithm(255).user_message(),
        "This KeyTide file uses an unsupported encryption algorithm (255)."
    );
    assert_eq!(
        KeyTideError::AuthenticationFailed.user_message(),
        "The file could not be authenticated. The key may not match, or a file may have changed."
    );
    let path = std::path::PathBuf::from("out.txt");
    assert_eq!(
        KeyTideError::OutputExists(path).user_message(),
        "A file already exists at out.txt."
    );
    assert_eq!(KeyTideError::InvalidKey.code(), "invalid_key");
    assert_eq!(
        KeyTideError::ReadFailed(std::io::Error::other("x")).code(),
        "read_failed"
    );
    assert_eq!(KeyTideError::Cancelled.code(), "cancelled");
}

#[test]
fn white_space_agrees_with_std_on_every_char() {
    for code in 0..=0x10FFFFu32 {
        if let Some(c) = char::from_u32(code) {
            assert_eq!(keytide::names::char_is_whitespace(c), c.is_whitespace(), "{code:#x}");
        }
    }
}

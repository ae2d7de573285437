use klip_core::error::{CapError, IoErrorKind};
use klip_core::files::{
    CopyAction, CopyOutcome, WallpaperNameError, classify_transfer, copy_retry_decision,
    save_dialog_filter, strip_cap_suffix, transfer_needs_mp4_validation,
    validate_wallpaper_file_name,
};
use klip_core::strings::{str_contains, str_ends_with, str_ends_with_ignore_ascii_case, str_eq,
    str_starts_with};

#[test]
fn test_valid_wallpaper_names() {
    let valid_files = vec![
        "wallpaper-macOS-123.jpg",
        "wallpaper-dark-456.png",
        "wallpaper-custom-789.jpeg",
        "wallpaper-blue-abc.webp",
        "wallpaper-custom-1234567890123.jpg",
        "wallpaper-test-..123.jpg",
        "wallpaper-dark-456...jpg",
        "wallpaper-custom-78 9.jpg",
        "wallpaper-blue-abc_def.jpg",
    ];
    for name in valid_files {
        assert!(
            validate_wallpaper_file_name(name).is_ok(),
            "Valid path rejected: {}",
            name
        );
    }
}

#[test]
fn test_invalid_wallpaper_names() {
    let invalid_files = vec![
        ("background.jpg", WallpaperNameError::NotWallpaper),
        ("image.png", WallpaperNameError::NotWallpaper),
        ("wallpaper.jpg", WallpaperNameError::NotWallpaper),
        ("wallpaper-.jpg", WallpaperNameError::BadFormat),
        ("wallpaper-test.gif", WallpaperNameError::BadFormat),
        ("wallpaper-test-1.gif", WallpaperNameError::BadExtension),
        ("wallpaper-test-1.bmp", WallpaperNameError::BadExtension),
        ("..wallpaper-test.jpg", WallpaperNameError::NotWallpaper),
        ("../wallpaper-test.jpg", WallpaperNameError::NotWallpaper),
        ("wallpaper-../../etc.jpg", WallpaperNameError::BadFormat),
    ];
    for (name, expected) in invalid_files {
        assert_eq!(
            validate_wallpaper_file_name(name),
            Err(expected),
            "Invalid file accepted or misclassified: {}",
            name
        );
    }
}

#[test]
fn test_wallpaper_traversal_names_rejected() {
    let malicious_paths = vec![
        "../sensitive.txt",
        "../../sensitive.txt",
        "../../../sensitive.txt",
        "assets/../../../sensitive.txt",
        "./../../sensitive.txt",
    ];
    for path in malicious_paths {
        let result = validate_wallpaper_file_name(path);
        assert!(result.is_err(), "Path traversal not prevented for: {}", path);
        assert!(
            result.unwrap_err().message().contains("Invalid wallpaper file"),
            "Wrong error for path: {}",
            path
        );
    }
}

#[test]
fn test_wallpaper_extension_case_insensitive() {
    assert!(validate_wallpaper_file_name("wallpaper-dark-456.JPG").is_ok());
    assert!(validate_wallpaper_file_name("wallpaper-dark-456.WebP").is_ok());
}

#[test]
fn test_classify_transfer() {
    let shot = classify_transfer("recordings/abc/screenshots/display.png", "out.png");
    assert!(shot.is_screenshot && !shot.is_gif && !shot.is_srt);
    assert!(!transfer_needs_mp4_validation(&shot));

    let gif = classify_transfer("render.mp4", "share.gif");
    assert!(gif.is_gif && !gif.is_screenshot);
    assert!(!transfer_needs_mp4_validation(&gif));

    let srt = classify_transfer("captions.srt", "out.srt");
    assert!(srt.is_srt);
    assert!(!transfer_needs_mp4_validation(&srt));

    let video = classify_transfer("recordings/abc/output.mp4", "final.mp4");
    assert!(!video.is_screenshot && !video.is_gif && !video.is_srt);
    assert!(transfer_needs_mp4_validation(&video));
}

#[test]
fn test_copy_retry_decision() {
    // A verified copy succeeds whatever the attempt count.
    assert_eq!(copy_retry_decision(CopyOutcome::Verified, 0, 3), CopyAction::Succeed);
    assert_eq!(copy_retry_decision(CopyOutcome::Verified, 2, 3), CopyAction::Succeed);
    // Failures retry until the attempt that reaches the limit.
    assert_eq!(copy_retry_decision(CopyOutcome::CopyFailed, 0, 3), CopyAction::Retry);
    assert_eq!(copy_retry_decision(CopyOutcome::SizeMismatch, 1, 3), CopyAction::Retry);
    assert_eq!(copy_retry_decision(CopyOutcome::InvalidTarget, 2, 3), CopyAction::Fail);
    assert_eq!(copy_retry_decision(CopyOutcome::MetadataUnavailable, 5, 3), CopyAction::Fail);
}

#[test]
fn test_save_dialog_filter() {
    assert_eq!(save_dialog_filter("recording"), Ok(("MP4 Video", "mp4")));
    assert_eq!(save_dialog_filter("screenshot"), Ok(("PNG Image", "png")));
    assert_eq!(save_dialog_filter("document"), Err("Invalid file type"));
}

#[test]
fn test_strip_cap_suffix() {
    assert_eq!(strip_cap_suffix("My Recording.cap"), "My Recording");
    assert_eq!(strip_cap_suffix("My Recording"), "My Recording");
    assert_eq!(strip_cap_suffix(".cap"), "");
    assert_eq!(strip_cap_suffix("nested.cap.cap"), "nested.cap");
}

#[test]
fn test_string_utilities() {
    assert!(str_eq("abc", "abc"));
    assert!(!str_eq("abc", "abd"));
    assert!(!str_eq("abc", "ab"));

    assert!(str_starts_with("wallpaper-x", "wallpaper-"));
    assert!(!str_starts_with("wall", "wallpaper-"));

    assert!(str_ends_with("movie.gif", ".gif"));
    assert!(!str_ends_with("movie.gifx", ".gif"));
    assert!(str_ends_with("anything", ""));

    assert!(str_contains("a/screenshots/b", "screenshots/"));
    assert!(!str_contains("a/screens/b", "screenshots/"));
    assert!(str_contains("abc", ""));
    assert!(!str_contains("ab", "abc"));

    assert!(str_ends_with_ignore_ascii_case("photo.JPeG", ".jpeg"));
    assert!(!str_ends_with_ignore_ascii_case("photo.jpg", ".jpeg"));
}

#[test]
fn test_cap_error_from_io() {
    assert!(matches!(
        CapError::from_io(IoErrorKind::NotFound, String::from("gone")),
        CapError::FileNotFound(m) if m == "gone"
    ));
    assert!(matches!(
        CapError::from_io(IoErrorKind::PermissionDenied, String::from("locked")),
        CapError::PermissionDenied(m) if m == "locked"
    ));
    assert!(matches!(
        CapError::from_io(IoErrorKind::Other, String::from("broken pipe")),
        CapError::IoError(m) if m == "broken pipe"
    ));
}

#[test]
fn test_cap_error_messages() {
    assert_eq!(CapError::NoActiveRecording.message(), "No active recording");
    assert_eq!(CapError::RecordingAlreadyActive.message(), "Recording is already active");
    assert_eq!(
        CapError::RecordingFailed(String::from("device lost")).message(),
        "Recording failed: device lost"
    );
    assert_eq!(
        CapError::FileNotFound(String::from("a.mp4")).message(),
        "File not found: a.mp4"
    );
    assert_eq!(CapError::PathTraversalAttempt.message(), "Path traversal attempt detected");
    assert_eq!(
        CapError::InvalidPath(String::from("..")).message(),
        "Invalid path: .."
    );
    assert_eq!(
        CapError::PermissionDenied(String::from("mic")).message(),
        "Permission denied: mic"
    );
    assert_eq!(CapError::IoError(String::from("broken pipe")).message(), "IO error: broken pipe");
    assert_eq!(
        CapError::HotkeyRegistrationFailed(String::from("taken")).message(),
        "Failed to register hotkey: taken"
    );
    assert_eq!(CapError::HotkeyNotFound.message(), "Hotkey not found");
    assert_eq!(
        CapError::InvalidHotkeyConfiguration.message(),
        "Invalid hotkey configuration"
    );
    assert_eq!(
        CapError::ConfigurationError(String::from("bad")).message(),
        "Configuration error: bad"
    );
    assert_eq!(
        CapError::InvalidConfiguration(String::from("bad")).message(),
        "Invalid configuration: bad"
    );
    assert_eq!(
        CapError::InternalError(String::from("oops")).message(),
        "Internal error: oops"
    );
    assert_eq!(
        CapError::InvalidInput(String::from("x")).message(),
        "Invalid input: x"
    );
    assert_eq!(
        CapError::NotImplemented(String::from("y")).message(),
        "Not implemented: y"
    );
    assert_eq!(CapError::RecordingNotPaused.message(), "Recording is not paused");
    assert_eq!(CapError::RecordingAlreadyPaused.message(), "Recording is already paused");
}

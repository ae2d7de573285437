//! File-operation policies: wallpaper file-name validation, transfer
//! classification for the copy-with-verification loop, and save-dialog
//! parameters.  The file system work itself stays with the caller; every
//! decision on names and retry counts is verified here.

use vstd::prelude::*;

use crate::strings::contains_spec;
use crate::strings::ends_with_ignore_ascii_case_spec;
use crate::strings::ends_with_spec;
use crate::strings::starts_with_spec;
use crate::strings::str_contains;
use crate::strings::str_ends_with;
use crate::strings::str_ends_with_ignore_ascii_case;
use crate::strings::str_starts_with;

verus! {

/// Why a wallpaper file name was rejected.
#[derive(Clone, Copy, Debug, PartialEq, Eq, Structural)]
pub enum WallpaperNameError {
    /// The name does not begin with the wallpaper prefix.
    NotWallpaper,
    /// The stem has fewer than three dash-separated parts.
    BadFormat,
    /// The extension is not a supported image format.
    BadExtension,
}

impl WallpaperNameError {
    /// The user-facing description of the rejection.
    pub fn message(&self) -> (r: &'static str)
        ensures
            *self == WallpaperNameError::NotWallpaper ==> r@ == "Invalid wallpaper file"@,
            *self == WallpaperNameError::BadFormat ==> r@ == "Invalid wallpaper file format"@,
            *self == WallpaperNameError::BadExtension ==> r@ == "Invalid wallpaper file extension"@,
    {
        match self {
            WallpaperNameError::NotWallpaper => "Invalid wallpaper file",
            WallpaperNameError::BadFormat => "Invalid wallpaper file format",
            WallpaperNameError::BadExtension => "Invalid wallpaper file extension",
        }
    }
}

/// Number of dashes in `s` at or after position `i` and before the first
/// dot at or after `i`.
pub open spec fn dashes_before_dot(s: Seq<char>, i: int) -> int
    decreases s.len() - i,
{
    if i < 0 || i >= s.len() {
        0
    } else if s[i] == '.' {
        0
    } else if s[i] == '-' {
        1 + dashes_before_dot(s, i + 1)
    } else {
        dashes_before_dot(s, i + 1)
    }
}

/// A wallpaper stem `wallpaper-{theme}-{timestamp}` splits into at least
/// three dash-separated parts: at least two dashes before the first dot.
pub open spec fn wallpaper_format_ok(s: Seq<char>) -> bool {
    dashes_before_dot(s, 0) >= 2
}

/// Whether the name carries one of the supported wallpaper image
/// extensions, compared without regard to ASCII letter case.
pub open spec fn wallpaper_extension_ok(s: Seq<char>) -> bool {
    ||| ends_with_ignore_ascii_case_spec(s, ".jpg"@)
    ||| ends_with_ignore_ascii_case_spec(s, ".jpeg"@)
    ||| ends_with_ignore_ascii_case_spec(s, ".png"@)
    ||| ends_with_ignore_ascii_case_spec(s, ".webp"@)
}

/// The validation verdict on a wallpaper file name: it must begin with
/// `wallpaper-`, its stem must have at least three dash-separated parts,
/// and it must carry a supported image extension.  The checks apply in that
/// order, so the first violation names the error.
pub open spec fn wallpaper_name_check(s: Seq<char>) -> Result<(), WallpaperNameError> {
    if !starts_with_spec(s, "wallpaper-"@) {
        Err(WallpaperNameError::NotWallpaper)
    } else if !wallpaper_format_ok(s) {
        Err(WallpaperNameError::BadFormat)
    } else if !wallpaper_extension_ok(s) {
        Err(WallpaperNameError::BadExtension)
    } else {
        Ok(())
    }
}

fn count_dashes_before_dot(name: &str) -> (r: usize)
    ensures
        r as int == dashes_before_dot(name@, 0),
{
    let n = name.unicode_len();
    let mut val: usize = 0;
    let mut i: usize = n;
    while i > 0
        invariant
            0 <= i <= n,
            n == name@.len(),
            val as int == dashes_before_dot(name@, i as int),
            val <= n - i,
        decreases i,
    {
        i = i - 1;
        let c = name.get_char(i);
        if c == '.' {
            val = 0;
        } else if c == '-' {
            val = val + 1;
        }
    }
    val
}

/// Validate a wallpaper file name against the naming policy
/// `wallpaper-{theme}-{timestamp}.{ext}`; callers resolve the name inside
/// their own directory, so this check alone already rules out traversal
/// names, which never begin with the prefix.
pub fn validate_wallpaper_file_name(name: &str) -> (r: Result<(), WallpaperNameError>)
    ensures
        r == wallpaper_name_check(name@),
{
    if !str_starts_with(name, "wallpaper-") {
        return Err(WallpaperNameError::NotWallpaper);
    }
    if count_dashes_before_dot(name) < 2 {
        return Err(WallpaperNameError::BadFormat);
    }
    if !(str_ends_with_ignore_ascii_case(name, ".jpg") || str_ends_with_ignore_ascii_case(
        name,
        ".jpeg",
    ) || str_ends_with_ignore_ascii_case(name, ".png") || str_ends_with_ignore_ascii_case(
        name,
        ".webp",
    )) {
        return Err(WallpaperNameError::BadExtension);
    }
    Ok(())
}

/// What a file transfer carries, read off the source and target paths.
#[derive(Clone, Copy, Debug, PartialEq, Eq, Structural)]
pub struct TransferClass {
    pub is_screenshot: bool,
    pub is_gif: bool,
    pub is_srt: bool,
}

/// The class a transfer of `src` to `dst` falls in: screenshots live under
/// a screenshots directory; GIF and subtitle transfers are named by either
/// path's extension.
pub open spec fn transfer_class_spec(src: Seq<char>, dst: Seq<char>) -> TransferClass {
    TransferClass {
        is_screenshot: contains_spec(src, "screenshots/"@),
        is_gif: ends_with_spec(src, ".gif"@) || ends_with_spec(dst, ".gif"@),
        is_srt: ends_with_spec(src, ".srt"@) || ends_with_spec(dst, ".srt"@),
    }
}

/// Classify a transfer by its source and target paths.
pub fn classify_transfer(src: &str, dst: &str) -> (r: TransferClass)
    ensures
        r == transfer_class_spec(src@, dst@),
{
    TransferClass {
        is_screenshot: str_contains(src, "screenshots/"),
        is_gif: str_ends_with(src, ".gif") || str_ends_with(dst, ".gif"),
        is_srt: str_ends_with(src, ".srt") || str_ends_with(dst, ".srt"),
    }
}

/// Only plain video transfers are held to MP4 validation; screenshots,
/// GIFs and subtitles are copied as they are.
pub open spec fn requires_mp4_validation(c: TransferClass) -> bool {
    !c.is_screenshot && !c.is_gif && !c.is_srt
}

/// Whether a transfer must pass MP4 validation before and after the copy.
pub fn transfer_needs_mp4_validation(c: &TransferClass) -> (r: bool)
    ensures
        r == requires_mp4_validation(*c),
{
    !c.is_screenshot && !c.is_gif && !c.is_srt
}

/// How one copy attempt ended.
#[derive(Clone, Copy, Debug, PartialEq, Eq, Structural)]
pub enum CopyOutcome {
    /// The copy succeeded and the target checked out.
    Verified,
    /// The copy call itself failed.
    CopyFailed,
    /// The source's size could not be read for verification.
    MetadataUnavailable,
    /// The byte counts of source and copy differ.
    SizeMismatch,
    /// The copied file is not a valid MP4.
    InvalidTarget,
}

/// What the copy loop does next.
#[derive(Clone, Copy, Debug, PartialEq, Eq, Structural)]
pub enum CopyAction {
    Succeed,
    Retry,
    Fail,
}

/// The next step of the copy-with-verification loop: a verified copy
/// succeeds; any failure is retried until the attempt that would reach
/// `max_attempts`, then reported.
pub open spec fn copy_retry_spec(
    outcome: CopyOutcome,
    attempts_before: u32,
    max_attempts: u32,
) -> CopyAction {
    if outcome == CopyOutcome::Verified {
        CopyAction::Succeed
    } else if attempts_before + 1 < max_attempts {
        CopyAction::Retry
    } else {
        CopyAction::Fail
    }
}

/// Decide the copy loop's next step after an attempt.
pub fn copy_retry_decision(outcome: CopyOutcome, attempts_before: u32, max_attempts: u32) -> (r:
    CopyAction)
    ensures
        r == copy_retry_spec(outcome, attempts_before, max_attempts),
{
    if matches!(outcome, CopyOutcome::Verified) {
        CopyAction::Succeed
    } else if attempts_before < u32::MAX && attempts_before + 1 < max_attempts {
        CopyAction::Retry
    } else {
        CopyAction::Fail
    }
}

/// The save-dialog filter for a file type: recordings save as MP4 video,
/// screenshots as PNG images; any other type is rejected.
pub fn save_dialog_filter(file_type: &str) -> (r: Result<(&'static str, &'static str), &'static str
>)
    ensures
        file_type@ == "recording"@ ==> (r matches Ok(p) && p.0@ == "MP4 Video"@ && p.1@ == "mp4"@),
        file_type@ == "screenshot"@ ==> (r matches Ok(p) && p.0@ == "PNG Image"@ && p.1@
            == "png"@),
        file_type@ != "recording"@ && file_type@ != "screenshot"@ ==> (r matches Err(m) && m@
            == "Invalid file type"@),
{
    proof {
        reveal_strlit("recording");
        reveal_strlit("screenshot");
        assert("recording"@.len() == 9);
        assert("screenshot"@.len() == 10);
    }
    if crate::strings::str_eq(file_type, "recording") {
        Ok(("MP4 Video", "mp4"))
    } else if crate::strings::str_eq(file_type, "screenshot") {
        Ok(("PNG Image", "png"))
    } else {
        Err("Invalid file type")
    }
}

/// A suggested save name with any project-bundle extension removed.
pub open spec fn stripped_cap_suffix(s: Seq<char>) -> Seq<char> {
    if ends_with_spec(s, ".cap"@) {
        s.take(s.len() - 4)
    } else {
        s
    }
}

/// Remove a trailing project-bundle extension from a suggested file name.
pub fn strip_cap_suffix(name: &str) -> (r: String)
    ensures
        r@ == stripped_cap_suffix(name@),
{
    if str_ends_with(name, ".cap") {
        let n = name.unicode_len();
        proof {
            reveal_strlit(".cap");
        }
        let stem = name.substring_char(0, n - 4);
        proof {
            assert(stem@ =~= name@.take(name@.len() - 4));
        }
        stem.to_owned()
    } else {
        name.to_owned()
    }
}

} // verus!

//! Event payloads and recording/upload data types that the application
//! shell emits and consumes.  They carry plain values; emission itself is
//! the caller's concern.

use vstd::prelude::*;

verus! {

/// The editor's observable state changed.
#[derive(Clone, Copy, Debug, PartialEq, Eq, Structural)]
pub struct EditorStateChanged {
    pub playhead_position: u32,
}

impl EditorStateChanged {
    /// Snapshot the playhead position of the editor state.
    pub fn new(playhead_position: u32) -> (r: Self)
        ensures
            r.playhead_position == playhead_position,
    {
        EditorStateChanged { playhead_position }
    }
}

/// The recording options changed.
#[derive(Clone, Copy, Debug, PartialEq, Eq, Structural)]
pub struct RecordingOptionsChanged;

/// A studio recording finished and was added at a path.
#[derive(Clone, Debug)]
pub struct NewStudioRecordingAdded {
    pub path: String,
}

/// A screenshot was captured and written at a path.
#[derive(Clone, Debug)]
pub struct NewScreenshotAdded {
    pub path: String,
}

/// Recording started.
#[derive(Clone, Copy, Debug, PartialEq, Eq, Structural)]
pub struct RecordingStarted;

/// Recording stopped.
#[derive(Clone, Copy, Debug, PartialEq, Eq, Structural)]
pub struct RecordingStopped;

/// A request to start recording.
#[derive(Clone, Copy, Debug, PartialEq, Eq, Structural)]
pub struct RequestStartRecording;

/// A request to take a screenshot.
#[derive(Clone, Copy, Debug, PartialEq, Eq, Structural)]
pub struct RequestNewScreenshot;

/// A request to open a settings page.
#[derive(Clone, Debug)]
pub struct RequestOpenSettings {
    pub page: String,
}

/// A user-visible notification.
#[derive(Clone, Debug)]
pub struct NewNotification {
    pub title: String,
    pub body: String,
    pub is_error: bool,
}

/// The current recording changed.
#[derive(Clone, Copy, Debug, PartialEq, Eq, Structural)]
pub struct CurrentRecordingChanged;

/// Export progress: how many frames have been rendered so far.
#[derive(Clone, Copy, Debug, PartialEq, Eq, Structural)]
pub struct FramesRendered {
    pub rendered_count: u32,
    pub total_frames: u32,
}

/// The kind of video a file holds.
#[derive(Clone, Copy, Debug, PartialEq, Eq, Structural)]
pub enum VideoType {
    Screen,
    Output,
    Camera,
}

/// How a recording was produced.
#[derive(Clone, Copy, Debug, PartialEq, Eq, Structural)]
pub enum RecordingType {
    Studio,
    Instant,
}

/// The storage target a pre-created upload points at.
#[derive(Clone, Debug)]
pub struct S3UploadMeta {
    pub id: String,
}

impl S3UploadMeta {
    /// The upload's identifier.
    pub fn id(&self) -> (r: &String)
        ensures
            r == &self.id,
    {
        &self.id
    }
}

/// A video known to the sharing service.
#[derive(Clone, Debug)]
pub struct VideoUploadInfo {
    pub id: String,
    pub link: String,
    pub config: S3UploadMeta,
}

/// How an upload request ended.
#[derive(Clone, Debug)]
pub enum UploadResult {
    Success(String),
    NotAuthenticated,
    PlanCheckFailed,
    UpgradeRequired,
}

/// What kind of upload is requested.
#[derive(Clone, Debug)]
pub enum UploadMode {
    Initial { pre_created_video: Option<VideoUploadInfo> },
    Reupload,
}

} // verus!

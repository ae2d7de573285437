//! Operating-system permission states and the rules that read them.  The
//! platform calls that query or request a permission stay with the caller;
//! the classification of their answers is verified here.

use vstd::prelude::*;

verus! {

/// A permission the recorder may need from the operating system.
#[derive(Clone, Copy, Debug, PartialEq, Eq, Structural)]
pub enum OSPermission {
    ScreenRecording,
    Camera,
    Microphone,
    Accessibility,
}

/// The state of one permission.
#[derive(Clone, Copy, Debug, PartialEq, Eq, Structural)]
pub enum OSPermissionStatus {
    /// This platform does not require this permission.
    NotNeeded,
    /// The user has neither granted nor denied permission.
    Empty,
    /// The user has explicitly granted permission.
    Granted,
    /// The user has denied permission, or granted it without restarting.
    Denied,
}

/// A permission counts as permitted when the platform does not require it
/// or the user granted it.
pub open spec fn permitted_spec(s: OSPermissionStatus) -> bool {
    s == OSPermissionStatus::NotNeeded || s == OSPermissionStatus::Granted
}

impl OSPermissionStatus {
    /// Whether this state allows recording to proceed.
    pub fn permitted(&self) -> (r: bool)
        ensures
            r == permitted_spec(*self),
    {
        match self {
            OSPermissionStatus::NotNeeded | OSPermissionStatus::Granted => true,
            _ => false,
        }
    }
}

/// The screen-recording state read off the platform's answer: a positive
/// answer is granted; a negative one is still undetermined on the first
/// check and denied afterwards.
pub fn screen_recording_status(has_permission: bool, initial_check: bool) -> (r: OSPermissionStatus)
    ensures
        has_permission ==> r == OSPermissionStatus::Granted,
        !has_permission && initial_check ==> r == OSPermissionStatus::Empty,
        !has_permission && !initial_check ==> r == OSPermissionStatus::Denied,
{
    match (has_permission, initial_check) {
        (true, _) => OSPermissionStatus::Granted,
        (false, true) => OSPermissionStatus::Empty,
        (false, false) => OSPermissionStatus::Denied,
    }
}

/// The settings page that lets the user grant a permission; the caller
/// hands this URL to the system opener.
pub fn permission_settings_url(permission: OSPermission) -> (r: &'static str)
    ensures
        permission == OSPermission::ScreenRecording ==> r@
            == "x-apple.systempreferences:com.apple.preference.security?Privacy_ScreenCapture"@,
        permission == OSPermission::Camera ==> r@
            == "x-apple.systempreferences:com.apple.preference.security?Privacy_Camera"@,
        permission == OSPermission::Microphone ==> r@
            == "x-apple.systempreferences:com.apple.preference.security?Privacy_Microphone"@,
        permission == OSPermission::Accessibility ==> r@
            == "x-apple.systempreferences:com.apple.preference.security?Privacy_Accessibility"@,
{
    match permission {
        OSPermission::ScreenRecording => {
            "x-apple.systempreferences:com.apple.preference.security?Privacy_ScreenCapture"
        },
        OSPermission::Camera => {
            "x-apple.systempreferences:com.apple.preference.security?Privacy_Camera"
        },
        OSPermission::Microphone => {
            "x-apple.systempreferences:com.apple.preference.security?Privacy_Microphone"
        },
        OSPermission::Accessibility => {
            "x-apple.systempreferences:com.apple.preference.security?Privacy_Accessibility"
        },
    }
}

/// The accessibility state read off the platform's trust answer.
pub fn accessibility_status(is_trusted: bool) -> (r: OSPermissionStatus)
    ensures
        is_trusted ==> r == OSPermissionStatus::Granted,
        !is_trusted ==> r == OSPermissionStatus::Denied,
{
    if is_trusted {
        OSPermissionStatus::Granted
    } else {
        OSPermissionStatus::Denied
    }
}

/// The state of every permission the recorder can use.
#[derive(Clone, Copy, Debug, PartialEq, Eq, Structural)]
pub struct OSPermissionsCheck {
    pub screen_recording: OSPermissionStatus,
    pub microphone: OSPermissionStatus,
    pub camera: OSPermissionStatus,
    pub accessibility: OSPermissionStatus,
}

impl OSPermissionsCheck {
    /// Whether recording can start at all: only screen recording is truly
    /// necessary; accessibility, microphone and camera are optional.
    pub fn necessary_granted(&self) -> (r: bool)
        ensures
            r == permitted_spec(self.screen_recording),
    {
        self.screen_recording.permitted()
    }

    /// Whether every permission is permitted.
    pub fn all_granted(&self) -> (r: bool)
        ensures
            r == (permitted_spec(self.screen_recording) && permitted_spec(self.accessibility)
                && permitted_spec(self.microphone) && permitted_spec(self.camera)),
    {
        self.screen_recording.permitted() && self.accessibility.permitted()
            && self.microphone.permitted() && self.camera.permitted()
    }
}

} // verus!

//! The Windows toast backend: mapping from the unified notification model
//! into the request shape the native toast subsystem expects.
//!
//! This platform has no native scheduling primitive, so only immediate
//! delivery exists here; callers wanting a delay wait before showing.

use crate::error::{Error, ErrorKind};
use crate::notification::{clone_opt_string, Notification};
use crate::timeout::Timeout;
use vstd::prelude::*;
use vstd::string::StringExecFns;

verus! {

/// The native sound descriptor of the toast subsystem, carried opaquely once
/// a sound name has been resolved.
#[verifier::external_type_specification]
#[verifier::external_body]
pub struct ExSound(winrt_notification::Sound);

/// How an icon image is masked when the toast renders it; purely a rendering
/// hint passed through to the native layer.
#[derive(Clone, Copy, PartialEq, Eq, Structural, Debug)]
pub enum IconCrop {
    /// The image is shown as-is.
    Square,
    /// The image is masked to a circle.
    Circular,
}

impl Default for IconCrop {
    fn default() -> (r: Self)
        ensures
            r == IconCrop::Square,
    {
        IconCrop::Square
    }
}

/// The icon descriptor on platforms with a crop concept: a path to the image
/// together with the crop shape.
#[derive(Debug, PartialEq)]
pub struct IconType(pub String, pub IconCrop);

impl IconType {
    /// Builds an icon descriptor from a plain path; the crop shape defaults to
    /// [`IconCrop::Square`].
    pub fn from_path(path: &str) -> (r: Self)
        ensures
            r.0@ == path@,
            r.1 == IconCrop::Square,
    {
        IconType(String::from_str(path), IconCrop::Square)
    }

    /// Builds an icon descriptor from an owned path; the crop shape defaults to
    /// [`IconCrop::Square`].
    pub fn from_path_string(path: String) -> (r: Self)
        ensures
            r.0 == path,
            r.1 == IconCrop::Square,
    {
        IconType(path, IconCrop::Square)
    }

    /// Builds an icon descriptor from a path and an explicit crop shape.
    pub fn with_crop(path: &str, crop: IconCrop) -> (r: Self)
        ensures
            r.0@ == path@,
            r.1 == crop,
    {
        IconType(String::from_str(path), crop)
    }
}

impl Clone for IconType {
    fn clone(&self) -> (r: Self)
        ensures
            r == *self,
    {
        IconType(self.0.clone(), self.1)
    }
}

impl Default for IconType {
    fn default() -> (r: Self)
        ensures
            r.0@ == Seq::<char>::empty(),
            r.1 == IconCrop::Square,
    {
        IconType(String::new(), IconCrop::Square)
    }
}

/// The smallest requested duration, in milliseconds, that is still mapped to
/// the long native duration class.
pub const TOAST_LONG_THRESHOLD_MS: u32 = 25000;

/// The coarse visibility classes the native toast subsystem offers.
#[derive(Clone, Copy, PartialEq, Eq, Structural, Debug)]
pub enum ToastDuration {
    /// The short native duration (also the platform default).
    Short,
    /// The long native duration, the nearest notion to "never dismiss".
    Long,
}

/// The duration class a visibility policy is mapped to: `Default` to the short
/// (platform default) class, `Never` to the long class, and an explicit
/// duration to the long class exactly when it reaches
/// [`TOAST_LONG_THRESHOLD_MS`].
pub open spec fn duration_class(timeout: Timeout) -> ToastDuration {
    match timeout {
        Timeout::Default => ToastDuration::Short,
        Timeout::Never => ToastDuration::Long,
        Timeout::Milliseconds(ms) => if ms >= TOAST_LONG_THRESHOLD_MS {
            ToastDuration::Long
        } else {
            ToastDuration::Short
        },
    }
}

/// Maps a visibility policy to the native duration class.
pub fn duration_for_timeout(timeout: Timeout) -> (r: ToastDuration)
    ensures
        r == duration_class(timeout),
{
    match timeout {
        Timeout::Default => ToastDuration::Short,
        Timeout::Never => ToastDuration::Long,
        Timeout::Milliseconds(ms) => if ms >= TOAST_LONG_THRESHOLD_MS {
            ToastDuration::Long
        } else {
            ToastDuration::Short
        },
    }
}

/// Law: the timeout-to-duration mapping is total and lands exactly as stated —
/// `Default` on the short class, `Never` on the long class, and an explicit
/// duration on the long class if and only if it reaches the fixed threshold.
pub proof fn lemma_duration_class_mapping(ms: u32)
    ensures
        duration_class(Timeout::Default) == ToastDuration::Short,
        duration_class(Timeout::Never) == ToastDuration::Long,
        ms >= TOAST_LONG_THRESHOLD_MS ==> duration_class(Timeout::Milliseconds(ms))
            == ToastDuration::Long,
        ms < TOAST_LONG_THRESHOLD_MS ==> duration_class(Timeout::Milliseconds(ms))
            == ToastDuration::Short,
{
}

/// The identity the toast is registered under when the notification names
/// none: the well-known PowerShell application identity.
pub open spec fn fallback_app_id_chars() -> Seq<char> {
    "{1AC14E77-02E7-4E5D-B744-2EB1AE5198B7}\\WindowsPowerShell\\v1.0\\powershell.exe"@
}

/// The fallback registration identity as an owned string.
pub fn fallback_app_id() -> (r: String)
    ensures
        r@ == fallback_app_id_chars(),
{
    String::from_str("{1AC14E77-02E7-4E5D-B744-2EB1AE5198B7}\\WindowsPowerShell\\v1.0\\powershell.exe")
}

/// The sound names the native registry resolves: exactly the five single-play
/// system sounds, matched verbatim.
pub open spec fn resolvable_sound(name: Seq<char>) -> bool {
    ||| name == "Default"@
    ||| name == "IM"@
    ||| name == "Mail"@
    ||| name == "Reminder"@
    ||| name == "SMS"@
}

/// Relies on `winrt_notification::Sound::from_str`: the parse accepts exactly
/// the names of the five non-looping variants, and an unresolvable name is an
/// `Err`, which degrades to no sound here rather than to an error.
#[verifier::external_body]
fn resolve_sound(name: &str) -> (r: Option<winrt_notification::Sound>)
    ensures
        r is Some <==> resolvable_sound(name@),
{
    <winrt_notification::Sound as std::str::FromStr>::from_str(name).ok()
}

/// The request shape the native toast subsystem takes.
#[derive(Debug)]
pub struct ToastRequest {
    /// Identity the toast is registered under.
    pub app_id: String,
    /// Native title, taken verbatim from the summary.
    pub title: String,
    /// First native text line; the subtitle's home on this platform.
    pub text1: String,
    /// Second native text line, taken verbatim from the body.
    pub text2: String,
    /// Path handed to the native icon-loading primitive.
    pub icon_path: String,
    /// Crop hint handed along with the icon path.
    pub icon_crop: IconCrop,
    /// The resolved native sound; a name the registry does not know degrades
    /// to silence, never to an error.
    pub sound: Option<winrt_notification::Sound>,
    /// Native duration class.
    pub duration: ToastDuration,
    /// Secondary image attachment, when the notification carries one.
    pub image_path: Option<String>,
}

/// The field-mapping rule of this backend: texts are carried over verbatim, a
/// missing subtitle degrades to an empty first text line, the timeout is
/// coarse-mapped through [`duration_class`], and a missing identity falls back
/// to the PowerShell identity.
pub open spec fn toast_matches(r: ToastRequest, n: Notification) -> bool {
    &&& match n.app_id {
        Some(id) => r.app_id == id,
        None => r.app_id@ == fallback_app_id_chars(),
    }
    &&& r.title == n.summary
    &&& match n.subtitle {
        Some(s) => r.text1 == s,
        None => r.text1@ == Seq::<char>::empty(),
    }
    &&& r.text2 == n.body
    &&& r.icon_path == n.icon.0
    &&& r.icon_crop == n.icon.1
    &&& match n.sound_name {
        Some(s) => r.sound is Some <==> resolvable_sound(s@),
        None => r.sound is None,
    }
    &&& r.duration == duration_class(n.timeout)
    &&& r.image_path == n.path_to_image
}

/// Builds the native toast request, applying the whole field-mapping rule.
/// Every notification value is accepted; nothing is rejected locally.
pub fn build_toast_request(notification: &Notification) -> (r: ToastRequest)
    ensures
        toast_matches(r, *notification),
{
    let app_id: String = match &notification.app_id {
        Some(id) => id.clone(),
        None => fallback_app_id(),
    };
    let text1: String = match &notification.subtitle {
        Some(s) => s.clone(),
        None => String::new(),
    };
    let sound: Option<winrt_notification::Sound> = match &notification.sound_name {
        Some(name) => resolve_sound(name.as_str()),
        None => None,
    };
    let image_path: Option<String> = clone_opt_string(&notification.path_to_image);
    ToastRequest {
        app_id,
        title: notification.summary.clone(),
        text1,
        text2: notification.body.clone(),
        icon_path: notification.icon.0.clone(),
        icon_crop: notification.icon.1,
        sound,
        duration: duration_for_timeout(notification.timeout),
        image_path,
    }
}

/// Law: when the notification has no subtitle, the first native text line is
/// the empty string — never a placeholder standing in for the missing value.
pub proof fn lemma_missing_subtitle_degrades_to_empty(r: ToastRequest, n: Notification)
    requires
        toast_matches(r, n),
        n.subtitle is None,
    ensures
        r.text1@ == Seq::<char>::empty(),
        r.text1@.len() == 0,
{
}

/// Turns the native toast subsystem's verdict into the unified result: the
/// request is accepted exactly when the native call succeeded, and a native
/// rejection becomes the typed error carrying the native diagnostic.
pub fn finish_toast(outcome: Result<(), String>) -> (r: Result<(), Error>)
    ensures
        outcome is Ok <==> r is Ok,
        outcome matches Err(m) ==> (r matches Err(e) && e.kind == ErrorKind::Msg(m)),
{
    match outcome {
        Ok(()) => Ok(()),
        Err(message) => Err(Error::from_kind(ErrorKind::Msg(message))),
    }
}

} // verus!

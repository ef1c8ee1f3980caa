//! The OS-agnostic notification payload and its builder-style construction.

use crate::timeout::Timeout;
use crate::windows::{IconCrop, IconType};
use vstd::prelude::*;
use vstd::string::StringExecFns;

verus! {

/// The semantic content of one notification, with no platform knowledge.
///
/// The icon descriptor carries the richest platform shape (a path plus a crop
/// hint); backends without a crop concept read the path alone.
#[derive(Debug, PartialEq)]
pub struct Notification {
    /// Primary title text; an empty string is valid input, not an error.
    pub summary: String,
    /// Secondary line; a platform may render it as a second text line or
    /// ignore it.
    pub subtitle: Option<String>,
    /// Main message text.
    pub body: String,
    /// Icon descriptor; defaults to a no-icon value.
    pub icon: IconType,
    /// Logical sound identifier; a name the platform cannot resolve means no
    /// sound, not an error.
    pub sound_name: Option<String>,
    /// Visibility duration policy.
    pub timeout: Timeout,
    /// Identity under which the notification is registered; absent means the
    /// platform's fallback identity.
    pub app_id: Option<String>,
    /// Large image attachment; platforms without the concept ignore it.
    pub path_to_image: Option<String>,
}

impl Notification {
    /// A notification with every field at its default: empty texts, no icon,
    /// no sound, the default duration, and no identity or image.
    pub fn new() -> (r: Notification)
        ensures
            r.summary@ == Seq::<char>::empty(),
            r.subtitle is None,
            r.body@ == Seq::<char>::empty(),
            r.icon.0@ == Seq::<char>::empty(),
            r.icon.1 == IconCrop::Square,
            r.sound_name is None,
            r.timeout == Timeout::Default,
            r.app_id is None,
            r.path_to_image is None,
    {
        Notification {
            summary: String::new(),
            subtitle: None,
            body: String::new(),
            icon: IconType(String::new(), IconCrop::Square),
            sound_name: None,
            timeout: Timeout::Default,
            app_id: None,
            path_to_image: None,
        }
    }

    /// Replaces the primary title text.
    pub fn summary(self, text: &str) -> (r: Notification)
        ensures
            r.summary@ == text@,
            r.subtitle == self.subtitle,
            r.body == self.body,
            r.icon == self.icon,
            r.sound_name == self.sound_name,
            r.timeout == self.timeout,
            r.app_id == self.app_id,
            r.path_to_image == self.path_to_image,
    {
        Notification { summary: String::from_str(text), ..self }
    }

    /// Sets the secondary text line.
    pub fn subtitle(self, text: &str) -> (r: Notification)
        ensures
            r.subtitle matches Some(s) && s@ == text@,
            r.summary == self.summary,
            r.body == self.body,
            r.icon == self.icon,
            r.sound_name == self.sound_name,
            r.timeout == self.timeout,
            r.app_id == self.app_id,
            r.path_to_image == self.path_to_image,
    {
        Notification { subtitle: Some(String::from_str(text)), ..self }
    }

    /// Replaces the main message text.
    pub fn body(self, text: &str) -> (r: Notification)
        ensures
            r.body@ == text@,
            r.summary == self.summary,
            r.subtitle == self.subtitle,
            r.icon == self.icon,
            r.sound_name == self.sound_name,
            r.timeout == self.timeout,
            r.app_id == self.app_id,
            r.path_to_image == self.path_to_image,
    {
        Notification { body: String::from_str(text), ..self }
    }

    /// Replaces the icon descriptor.
    pub fn icon(self, icon: IconType) -> (r: Notification)
        ensures
            r.icon == icon,
            r.summary == self.summary,
            r.subtitle == self.subtitle,
            r.body == self.body,
            r.sound_name == self.sound_name,
            r.timeout == self.timeout,
            r.app_id == self.app_id,
            r.path_to_image == self.path_to_image,
    {
        Notification { icon, ..self }
    }

    /// Sets the logical sound identifier.
    pub fn sound_name(self, name: &str) -> (r: Notification)
        ensures
            r.sound_name matches Some(s) && s@ == name@,
            r.summary == self.summary,
            r.subtitle == self.subtitle,
            r.body == self.body,
            r.icon == self.icon,
            r.timeout == self.timeout,
            r.app_id == self.app_id,
            r.path_to_image == self.path_to_image,
    {
        Notification { sound_name: Some(String::from_str(name)), ..self }
    }

    /// Replaces the visibility duration policy.
    pub fn timeout(self, timeout: Timeout) -> (r: Notification)
        ensures
            r.timeout == timeout,
            r.summary == self.summary,
            r.subtitle == self.subtitle,
            r.body == self.body,
            r.icon == self.icon,
            r.sound_name == self.sound_name,
            r.app_id == self.app_id,
            r.path_to_image == self.path_to_image,
    {
        Notification { timeout, ..self }
    }

    /// Sets the identity under which the notification is registered.
    pub fn app_id(self, id: &str) -> (r: Notification)
        ensures
            r.app_id matches Some(s) && s@ == id@,
            r.summary == self.summary,
            r.subtitle == self.subtitle,
            r.body == self.body,
            r.icon == self.icon,
            r.sound_name == self.sound_name,
            r.timeout == self.timeout,
            r.path_to_image == self.path_to_image,
    {
        Notification { app_id: Some(String::from_str(id)), ..self }
    }

    /// Attaches a large image by path.
    pub fn image_path(self, path: &str) -> (r: Notification)
        ensures
            r.path_to_image matches Some(s) && s@ == path@,
            r.summary == self.summary,
            r.subtitle == self.subtitle,
            r.body == self.body,
            r.icon == self.icon,
            r.sound_name == self.sound_name,
            r.timeout == self.timeout,
            r.app_id == self.app_id,
    {
        Notification { path_to_image: Some(String::from_str(path)), ..self }
    }
}

impl Clone for Notification {
    fn clone(&self) -> (r: Self)
        ensures
            r == *self,
    {
        Notification {
            summary: self.summary.clone(),
            subtitle: clone_opt_string(&self.subtitle),
            body: self.body.clone(),
            icon: self.icon.clone(),
            sound_name: clone_opt_string(&self.sound_name),
            timeout: self.timeout,
            app_id: clone_opt_string(&self.app_id),
            path_to_image: clone_opt_string(&self.path_to_image),
        }
    }
}

/// Clones an optional string, preserving the value exactly.
pub(crate) fn clone_opt_string(text: &Option<String>) -> (r: Option<String>)
    ensures
        r == *text,
{
    match text {
        Some(s) => Some(s.clone()),
        None => None,
    }
}

} // verus!

//! The desktop notification shown when the theme changes.

use vstd::prelude::*;

use crate::theme::Theme;

verus! {

/// Freedesktop notification service (libnotify-compatible); the program delivers the
/// [`Notice`] that [`LibnotifyService::theme_changed_notice`] composes.
#[derive(Debug, Default, Clone, Copy)]
pub struct LibnotifyService;

/// The text and icon of a desktop notification.
#[derive(Debug, Clone)]
pub struct Notice {
    pub summary: String,
    pub body: String,
    pub icon: String,
}

/// The body announcing a switch to `theme`, such as "Switched to Dark mode".
pub open spec fn spec_theme_changed_body(theme: Theme) -> Seq<char> {
    "Switched to "@ + theme.spec_name() + " mode"@
}

impl LibnotifyService {
    /// The notification announcing that the desktop switched to `theme`.
    pub fn theme_changed_notice(&self, theme: Theme) -> (r: Notice)
        ensures
            r.summary@ == "Lumina"@,
            r.body@ == spec_theme_changed_body(theme),
            r.icon@ == "preferences-desktop-theme"@,
    {
        let mut body = String::from_str("Switched to ");
        body.append(theme.name());
        body.append(" mode");
        Notice {
            summary: String::from_str("Lumina"),
            body,
            icon: String::from_str("preferences-desktop-theme"),
        }
    }
}

} // verus!

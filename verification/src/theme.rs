//! The desktop-neutral colour theme and the port that desktop backends implement.

use vstd::prelude::*;

use crate::backends::BackendError;

verus! {

/// A desktop color theme supported by Lumina.
#[derive(Debug, Clone, Copy, PartialEq, Eq, Structural)]
pub enum Theme {
    Light,
    Dark,
}

impl Theme {
    /// The theme on the other side of a toggle.
    pub open spec fn spec_opposite(self) -> Theme {
        match self {
            Theme::Light => Theme::Dark,
            Theme::Dark => Theme::Light,
        }
    }

    /// The human-readable name shown to users ("Light" or "Dark").
    pub open spec fn spec_name(self) -> Seq<char> {
        match self {
            Theme::Light => "Light"@,
            Theme::Dark => "Dark"@,
        }
    }

    /// Returns the opposite theme.
    pub fn opposite(self) -> (r: Theme)
        ensures
            r == self.spec_opposite(),
    {
        match self {
            Theme::Light => Theme::Dark,
            Theme::Dark => Theme::Light,
        }
    }

    /// Returns the display name of the theme.
    pub fn name(self) -> (r: &'static str)
        ensures
            r@ == self.spec_name(),
    {
        match self {
            Theme::Light => "Light",
            Theme::Dark => "Dark",
        }
    }
}

/// Toggling twice gives back the theme one started from, and a toggle always changes the theme.
pub proof fn lemma_opposite_involution(t: Theme)
    ensures
        t.spec_opposite().spec_opposite() == t,
        t.spec_opposite() != t,
{
}

} // verus!

verus! {

/// Desktop-independent theme operations, implemented once per desktop environment.
///
/// What the desktop reports and whether it accepts a change is up to each
/// implementation; the provided methods only decide which operation to ask for.
pub trait ThemeBackend: Send + Sync {
    /// Switches the desktop to dark mode.
    fn set_dark(&self) -> Result<(), BackendError>;

    /// Switches the desktop to light mode.
    fn set_light(&self) -> Result<(), BackendError>;

    /// Returns the currently active color theme.
    fn current_theme(&self) -> Result<Theme, BackendError>;

    /// Switches to the opposite of the current theme: reads the current theme once and, if that
    /// succeeds, asks for the opposite one through `set_theme` and reports it.
    fn toggle(&self) -> (r: Result<Theme, BackendError>)
        ensures
            exists|read: Result<Theme, BackendError>|
                call_ensures(Self::current_theme, (self,), read) && match read {
                    Err(e) => r == Err::<Theme, BackendError>(e),
                    Ok(c) => exists|applied: Result<(), BackendError>|
                        call_ensures(Self::set_theme, (self, c.spec_opposite()), applied)
                            && match applied {
                            Ok(_) => r == Ok::<Theme, BackendError>(c.spec_opposite()),
                            Err(e) => r == Err::<Theme, BackendError>(e),
                        },
                },
    {
        let read = self.current_theme();
        let current = match read {
            Ok(c) => c,
            Err(e) => return Err(e),
        };
        self.switch_from(current)
    }

    /// Switches to the opposite of `current` through `set_theme` and reports the theme asked for.
    fn switch_from(&self, current: Theme) -> (r: Result<Theme, BackendError>)
        ensures
            exists|applied: Result<(), BackendError>|
                call_ensures(Self::set_theme, (self, current.spec_opposite()), applied)
                    && match applied {
                    Ok(_) => r == Ok::<Theme, BackendError>(current.spec_opposite()),
                    Err(e) => r == Err::<Theme, BackendError>(e),
                },
            r matches Ok(t) ==> t == current.spec_opposite(),
    {
        let target = current.opposite();
        let applied = self.set_theme(target);
        match applied {
            Ok(()) => Ok(target),
            Err(e) => Err(e),
        }
    }

    /// Applies a specific theme: its result is that of `set_light` for light and of
    /// `set_dark` for dark.
    fn set_theme(&self, theme: Theme) -> (r: Result<(), BackendError>)
        ensures
            theme == Theme::Light ==> call_ensures(Self::set_light, (self,), r),
            theme == Theme::Dark ==> call_ensures(Self::set_dark, (self,), r),
    {
        match theme {
            Theme::Light => self.set_light(),
            Theme::Dark => self.set_dark(),
        }
    }
}

} // verus!

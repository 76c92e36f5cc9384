//! How renderer windows are mounted on the desktop.

use vstd::prelude::*;

use crate::text::str_eq;

verus! {

/// The window-system integration a renderer window is launched with.
#[derive(Debug, Clone, Copy, PartialEq, Eq, Structural)]
pub enum LaunchMode {
    X11Desktop,
    WaylandLayerShell,
    GnomeExtHanabi,
    Windowed,
}

/// A launch-mode label that names no variant.
#[derive(Debug, Clone, Copy, PartialEq, Eq, Structural)]
pub enum LaunchModeError {
    UnknownLaunchMode,
}

impl LaunchMode {
    /// The kebab-case label of the variant, as used on the command line
    /// and in persisted state.
    pub open spec fn spec_label(self) -> Seq<char> {
        match self {
            LaunchMode::X11Desktop => "x11-desktop"@,
            LaunchMode::WaylandLayerShell => "wayland-layer-shell"@,
            LaunchMode::GnomeExtHanabi => "gnome-ext-hanabi"@,
            LaunchMode::Windowed => "windowed"@,
        }
    }

    /// The variant a label names; anything else is rejected.
    pub open spec fn spec_from_label(s: Seq<char>) -> Result<LaunchMode, LaunchModeError> {
        if s == "x11-desktop"@ {
            Ok(LaunchMode::X11Desktop)
        } else if s == "wayland-layer-shell"@ {
            Ok(LaunchMode::WaylandLayerShell)
        } else if s == "gnome-ext-hanabi"@ {
            Ok(LaunchMode::GnomeExtHanabi)
        } else if s == "windowed"@ {
            Ok(LaunchMode::Windowed)
        } else {
            Err(LaunchModeError::UnknownLaunchMode)
        }
    }

    pub fn from_str(s: &str) -> (r: Result<LaunchMode, LaunchModeError>)
        ensures
            r == LaunchMode::spec_from_label(s@),
    {
        if str_eq(s, "x11-desktop") {
            Ok(LaunchMode::X11Desktop)
        } else if str_eq(s, "wayland-layer-shell") {
            Ok(LaunchMode::WaylandLayerShell)
        } else if str_eq(s, "gnome-ext-hanabi") {
            Ok(LaunchMode::GnomeExtHanabi)
        } else if str_eq(s, "windowed") {
            Ok(LaunchMode::Windowed)
        } else {
            Err(LaunchModeError::UnknownLaunchMode)
        }
    }

    /// The label, as an owned string.
    pub fn to_string(&self) -> (r: String)
        ensures
            r@ == self.spec_label(),
    {
        match self {
            LaunchMode::X11Desktop => "x11-desktop".to_owned(),
            LaunchMode::WaylandLayerShell => "wayland-layer-shell".to_owned(),
            LaunchMode::GnomeExtHanabi => "gnome-ext-hanabi".to_owned(),
            LaunchMode::Windowed => "windowed".to_owned(),
        }
    }
}

impl Default for LaunchMode {
    /// `Windowed`: the mode that needs no window-system cooperation.
    fn default() -> (r: Self)
        ensures
            r == LaunchMode::Windowed,
    {
        LaunchMode::Windowed
    }
}

/// The labels are distinct: parsing a variant's own label yields that
/// variant back.
pub proof fn lemma_label_round_trip(m: LaunchMode)
    ensures
        LaunchMode::spec_from_label(m.spec_label()) == Ok::<LaunchMode, LaunchModeError>(m),
{
    reveal_strlit("x11-desktop");
    reveal_strlit("wayland-layer-shell");
    reveal_strlit("gnome-ext-hanabi");
    reveal_strlit("windowed");
    // The four labels all have different lengths.
    assert("x11-desktop"@.len() == 11);
    assert("wayland-layer-shell"@.len() == 19);
    assert("gnome-ext-hanabi"@.len() == 16);
    assert("windowed"@.len() == 8);
    match m {
        LaunchMode::X11Desktop => {
            assert(m.spec_label() == "x11-desktop"@);
        },
        LaunchMode::WaylandLayerShell => {
            assert(m.spec_label() == "wayland-layer-shell"@);
        },
        LaunchMode::GnomeExtHanabi => {
            assert(m.spec_label() == "gnome-ext-hanabi"@);
        },
        LaunchMode::Windowed => {
            assert(m.spec_label() == "windowed"@);
        },
    }
}

} // verus!

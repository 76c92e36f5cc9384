//! The declarative wallpaper configuration: which source plays on which
//! monitor, and in what arrangement mode.

use vstd::prelude::*;

verus! {

/// How the configured sources are arranged over the monitors.
#[derive(Debug, Clone, Copy, PartialEq, Eq, Structural)]
pub enum WallpaperMode {
    WallpaperPerMonitor,
    CloneSingleWallpaper,
    StretchSingleWallpaper,
}

/// Which render backend family a source needs.
#[derive(Debug, Clone, Copy, PartialEq, Eq, Structural)]
pub enum WallpaperType {
    Video,
    Web,
}

/// Where a wallpaper's content comes from.
#[derive(Debug, PartialEq, Eq)]
pub enum WallpaperSource {
    Filepath { filepath: String },
    Uri { uri: String },
}

impl Clone for WallpaperSource {
    fn clone(&self) -> (r: Self)
        ensures
            r@ == self@,
    {
        match self {
            WallpaperSource::Filepath { filepath } => WallpaperSource::Filepath {
                filepath: filepath.clone(),
            },
            WallpaperSource::Uri { uri } => WallpaperSource::Uri { uri: uri.clone() },
        }
    }
}

/// Spec-level model of [`WallpaperSource`].
pub enum WallpaperSourceV {
    Filepath { filepath: Seq<char> },
    Uri { uri: Seq<char> },
}

impl View for WallpaperSource {
    type V = WallpaperSourceV;

    open spec fn view(&self) -> WallpaperSourceV {
        match self {
            WallpaperSource::Filepath { filepath } => WallpaperSourceV::Filepath {
                filepath: filepath@,
            },
            WallpaperSource::Uri { uri } => WallpaperSourceV::Uri { uri: uri@ },
        }
    }
}

/// One entry of the configuration: either a monitor with its own source,
/// or a monitor that mirrors another one.
#[derive(Debug, Clone, PartialEq, Eq)]
pub enum MonitorConfig {
    Primary {
        monitor: String,
        wallpaper_type: WallpaperType,
        wallpaper_source: WallpaperSource,
    },
    Clone {
        monitor: String,
        clone_source: Option<String>,
    },
}

/// Spec-level model of [`MonitorConfig`].
pub enum MonitorConfigV {
    Primary {
        monitor: Seq<char>,
        wallpaper_type: WallpaperType,
        wallpaper_source: WallpaperSourceV,
    },
    Clone {
        monitor: Seq<char>,
        clone_source: Option<Seq<char>>,
    },
}

impl View for MonitorConfig {
    type V = MonitorConfigV;

    open spec fn view(&self) -> MonitorConfigV {
        match self {
            MonitorConfig::Primary { monitor, wallpaper_type, wallpaper_source } => {
                MonitorConfigV::Primary {
                    monitor: monitor@,
                    wallpaper_type: *wallpaper_type,
                    wallpaper_source: wallpaper_source@,
                }
            },
            MonitorConfig::Clone { monitor, clone_source } => MonitorConfigV::Clone {
                monitor: monitor@,
                clone_source: match clone_source {
                    Some(s) => Some(s@),
                    None => None,
                },
            },
        }
    }
}

/// A whole wallpaper configuration.
#[derive(Debug, Clone, PartialEq, Eq)]
pub struct WallpaperConfig {
    pub mode: WallpaperMode,
    pub monitors: Vec<MonitorConfig>,
}

/// Spec-level model of [`WallpaperConfig`].
pub struct WallpaperConfigV {
    pub mode: WallpaperMode,
    pub monitors: Seq<MonitorConfigV>,
}

impl View for WallpaperConfig {
    type V = WallpaperConfigV;

    open spec fn view(&self) -> WallpaperConfigV {
        WallpaperConfigV {
            mode: self.mode,
            monitors: self.monitors@.map_values(|m: MonitorConfig| m@),
        }
    }
}

/// A longer name for the same shape, kept for callers that use it.
pub type LiveWallpaperConfig = WallpaperConfig;

/// How a rendered source is fitted into its window.
#[derive(Debug, Clone, Copy, PartialEq, Eq, Structural)]
pub enum ContentFit {
    Fill,
    Contain,
    Cover,
    ScaleDown,
}

impl ContentFit {
    /// The meaning of the integer-valued settings key: out-of-range
    /// values fall back to `Contain`.
    pub open spec fn spec_from_int(v: int) -> ContentFit {
        if v == 0 {
            ContentFit::Fill
        } else if v == 1 {
            ContentFit::Contain
        } else if v == 2 {
            ContentFit::Cover
        } else if v == 3 {
            ContentFit::ScaleDown
        } else {
            ContentFit::Contain
        }
    }

    pub fn from_int(v: i32) -> (r: ContentFit)
        ensures
            r == ContentFit::spec_from_int(v as int),
    {
        match v {
            0 => ContentFit::Fill,
            1 => ContentFit::Contain,
            2 => ContentFit::Cover,
            3 => ContentFit::ScaleDown,
            _ => ContentFit::Contain,
        }
    }
}

/// Per-source playback settings. The audio volume is the 0-100 percent
/// integer the settings store keeps; render backends map it to their own
/// scale.
#[derive(Debug, Clone, Copy, PartialEq, Eq, Structural)]
pub struct SourceConfig {
    pub is_mute: bool,
    pub audio_volume: i32,
    pub content_fit: ContentFit,
}

} // verus!

//! The layout compiler: a pure function from a wallpaper configuration
//! and a monitor topology to a list of window placement directives.

use vstd::prelude::*;

use crate::config::{
    LiveWallpaperConfig, MonitorConfig, MonitorConfigV, WallpaperConfig, WallpaperConfigV,
    WallpaperMode, WallpaperSource, WallpaperSourceV, WallpaperType,
};
use crate::monitor::{spec_get_from, MonitorEntryV, MonitorInfo, MonitorMap};

verus! {

/// How a window crops the oversized shared canvas of the stretch
/// arrangement: the canvas is the bounding box of the whole topology and
/// the offset is the monitor's own position inside it.
#[derive(Debug, Clone, Copy, PartialEq, Eq, Structural)]
pub struct Viewport {
    pub offset_x: i32,
    pub offset_y: i32,
    pub canvas_width: i32,
    pub canvas_height: i32,
}

/// One window placement directive.
#[derive(Debug, Clone, PartialEq, Eq)]
pub enum WindowInfo {
    Primary {
        monitor: String,
        window_x: i32,
        window_y: i32,
        window_width: i32,
        window_height: i32,
        window_title: String,
        wallpaper_type: WallpaperType,
        wallpaper_source: WallpaperSource,
        viewport: Option<Viewport>,
    },
    Clone {
        monitor: String,
        window_x: i32,
        window_y: i32,
        window_width: i32,
        window_height: i32,
        window_title: String,
        clone_source: String,
        viewport: Option<Viewport>,
    },
}

/// Spec-level model of [`WindowInfo`].
pub enum WindowInfoV {
    Primary {
        monitor: Seq<char>,
        window_x: i32,
        window_y: i32,
        window_width: i32,
        window_height: i32,
        window_title: Seq<char>,
        wallpaper_type: WallpaperType,
        wallpaper_source: WallpaperSourceV,
        viewport: Option<Viewport>,
    },
    Clone {
        monitor: Seq<char>,
        window_x: i32,
        window_y: i32,
        window_width: i32,
        window_height: i32,
        window_title: Seq<char>,
        clone_source: Seq<char>,
        viewport: Option<Viewport>,
    },
}

impl WindowInfoV {
    /// The monitor this window is placed on.
    pub open spec fn monitor(self) -> Seq<char> {
        match self {
            WindowInfoV::Primary { monitor, .. } => monitor,
            WindowInfoV::Clone { monitor, .. } => monitor,
        }
    }
}

impl View for WindowInfo {
    type V = WindowInfoV;

    open spec fn view(&self) -> WindowInfoV {
        match self {
            WindowInfo::Primary {
                monitor,
                window_x,
                window_y,
                window_width,
                window_height,
                window_title,
                wallpaper_type,
                wallpaper_source,
                viewport,
            } => WindowInfoV::Primary {
                monitor: monitor@,
                window_x: *window_x,
                window_y: *window_y,
                window_width: *window_width,
                window_height: *window_height,
                window_title: window_title@,
                wallpaper_type: *wallpaper_type,
                wallpaper_source: wallpaper_source@,
                viewport: *viewport,
            },
            WindowInfo::Clone {
                monitor,
                window_x,
                window_y,
                window_width,
                window_height,
                window_title,
                clone_source,
                viewport,
            } => WindowInfoV::Clone {
                monitor: monitor@,
                window_x: *window_x,
                window_y: *window_y,
                window_width: *window_width,
                window_height: *window_height,
                window_title: window_title@,
                clone_source: clone_source@,
                viewport: *viewport,
            },
        }
    }
}

/// The compiled placement directives, in emission order.
#[derive(Debug, Clone, PartialEq, Eq)]
pub struct WindowLayout {
    pub windows: Vec<WindowInfo>,
}

impl View for WindowLayout {
    type V = Seq<WindowInfoV>;

    open spec fn view(&self) -> Seq<WindowInfoV> {
        self.windows@.map_values(|w: WindowInfo| w@)
    }
}

/// Title of a window that plays its own source.
pub open spec fn spec_primary_title(monitor: Seq<char>) -> Seq<char> {
    "Live Wallpaper - "@ + monitor
}

/// Title of a window that mirrors another monitor's renderer.
pub open spec fn spec_clone_title(monitor: Seq<char>, source: Seq<char>) -> Seq<char> {
    "Live Wallpaper - "@ + monitor + " (Clone of "@ + source + ")"@
}

fn primary_title(monitor: &str) -> (r: String)
    ensures
        r@ == spec_primary_title(monitor@),
{
    let mut s = "Live Wallpaper - ".to_owned();
    s.append(monitor);
    s
}

fn clone_title(monitor: &str, source: &str) -> (r: String)
    ensures
        r@ == spec_clone_title(monitor@, source@),
{
    let mut s = "Live Wallpaper - ".to_owned();
    s.append(monitor);
    s.append(" (Clone of ");
    s.append(source);
    s.append(")");
    proof {
        assert(s@ =~= spec_clone_title(monitor@, source@));
    }
    s
}

/// The `Primary` directive for `monitor` at its own geometry.
pub open spec fn spec_primary_window(
    monitor: Seq<char>,
    info: MonitorInfo,
    wallpaper_type: WallpaperType,
    wallpaper_source: WallpaperSourceV,
    viewport: Option<Viewport>,
) -> WindowInfoV {
    WindowInfoV::Primary {
        monitor,
        window_x: info.x,
        window_y: info.y,
        window_width: info.width,
        window_height: info.height,
        window_title: spec_primary_title(monitor),
        wallpaper_type,
        wallpaper_source,
        viewport,
    }
}

/// The `Clone` directive for `monitor` at its own geometry, mirroring
/// `source`.
pub open spec fn spec_clone_window(
    monitor: Seq<char>,
    info: MonitorInfo,
    source: Seq<char>,
    viewport: Option<Viewport>,
) -> WindowInfoV {
    WindowInfoV::Clone {
        monitor,
        window_x: info.x,
        window_y: info.y,
        window_width: info.width,
        window_height: info.height,
        window_title: spec_clone_title(monitor, source),
        clone_source: source,
        viewport,
    }
}

/// Per-monitor arrangement: one `Primary` directive for every `Primary`
/// config entry whose monitor is present in the topology; `Clone`
/// entries and unknown monitors are dropped.
pub open spec fn spec_per_monitor(
    monitors: Seq<MonitorConfigV>,
    topo: Seq<MonitorEntryV>,
) -> Seq<WindowInfoV>
    decreases monitors.len(),
{
    if monitors.len() == 0 {
        Seq::empty()
    } else {
        let head = match monitors[0] {
            MonitorConfigV::Primary { monitor, wallpaper_type, wallpaper_source } => {
                match spec_get_from(topo, monitor) {
                    Some(info) => seq![
                        spec_primary_window(monitor, info, wallpaper_type, wallpaper_source, None),
                    ],
                    None => Seq::empty(),
                }
            },
            MonitorConfigV::Clone { .. } => Seq::empty(),
        };
        head + spec_per_monitor(monitors.skip(1), topo)
    }
}

/// The first `Primary` entry of the configuration, if any.
pub open spec fn spec_first_primary(monitors: Seq<MonitorConfigV>) -> Option<MonitorConfigV>
    decreases monitors.len(),
{
    if monitors.len() == 0 {
        None
    } else if monitors[0] is Primary {
        Some(monitors[0])
    } else {
        spec_first_primary(monitors.skip(1))
    }
}

/// One `Clone` directive per `Clone` config entry present in the
/// topology, all mirroring `source`.
pub open spec fn spec_clone_windows(
    monitors: Seq<MonitorConfigV>,
    topo: Seq<MonitorEntryV>,
    source: Seq<char>,
) -> Seq<WindowInfoV>
    decreases monitors.len(),
{
    if monitors.len() == 0 {
        Seq::empty()
    } else {
        let head = match monitors[0] {
            MonitorConfigV::Clone { monitor, .. } => match spec_get_from(topo, monitor) {
                Some(info) => seq![spec_clone_window(monitor, info, source, None)],
                None => Seq::empty(),
            },
            MonitorConfigV::Primary { .. } => Seq::empty(),
        };
        head + spec_clone_windows(monitors.skip(1), topo, source)
    }
}

/// Clone-single arrangement: the first `Primary` entry plays on its own
/// monitor and every `Clone` entry mirrors it; if the primary's monitor
/// is absent from the topology the layout is empty.
pub open spec fn spec_clone_single(
    monitors: Seq<MonitorConfigV>,
    topo: Seq<MonitorEntryV>,
) -> Seq<WindowInfoV> {
    match spec_first_primary(monitors) {
        Some(MonitorConfigV::Primary { monitor, wallpaper_type, wallpaper_source }) => {
            match spec_get_from(topo, monitor) {
                Some(info) => seq![
                    spec_primary_window(monitor, info, wallpaper_type, wallpaper_source, None),
                ] + spec_clone_windows(monitors, topo, monitor),
                None => Seq::empty(),
            }
        },
        _ => Seq::empty(),
    }
}

/// The larger of two integers.
pub open spec fn imax(a: int, b: int) -> int {
    if a >= b {
        a
    } else {
        b
    }
}

/// The bounding box of the topology, assuming the provider anchors the
/// leftmost and topmost monitors at the origin: the maxima of `x +
/// width` and `y + height`, zero when the topology is empty.
pub open spec fn spec_bbox(topo: Seq<MonitorEntryV>) -> (int, int)
    decreases topo.len(),
{
    if topo.len() == 0 {
        (0, 0)
    } else {
        let rest = spec_bbox(topo.skip(1));
        (
            imax(rest.0, topo[0].info.x + topo[0].info.width),
            imax(rest.1, topo[0].info.y + topo[0].info.height),
        )
    }
}

pub proof fn lemma_bbox_nonneg(topo: Seq<MonitorEntryV>)
    ensures
        spec_bbox(topo).0 >= 0,
        spec_bbox(topo).1 >= 0,
    decreases topo.len(),
{
    if topo.len() > 0 {
        lemma_bbox_nonneg(topo.skip(1));
    }
}

/// The `Clone` directives of the stretch arrangement: one per topology
/// entry, each cropping the shared canvas at its own offset.
pub open spec fn spec_stretch_clone_windows(
    topo: Seq<MonitorEntryV>,
    source: Seq<char>,
    canvas_width: i32,
    canvas_height: i32,
) -> Seq<WindowInfoV>
    decreases topo.len(),
{
    if topo.len() == 0 {
        Seq::empty()
    } else {
        seq![
            spec_clone_window(
                topo[0].name,
                topo[0].info,
                source,
                Some(
                    Viewport {
                        offset_x: topo[0].info.x,
                        offset_y: topo[0].info.y,
                        canvas_width,
                        canvas_height,
                    },
                ),
            ),
        ] + spec_stretch_clone_windows(topo.skip(1), source, canvas_width, canvas_height)
    }
}

/// Stretch arrangement: the first monitor in name order plays the shared
/// source at its own geometry and every other monitor mirrors it; each
/// directive carries a viewport whose canvas is the topology's bounding
/// box and whose offset is the monitor's own origin. Without a `Primary`
/// config entry, or with an empty topology, the layout is empty.
pub open spec fn spec_stretch(
    monitors: Seq<MonitorConfigV>,
    topo: Seq<MonitorEntryV>,
) -> Seq<WindowInfoV> {
    match spec_first_primary(monitors) {
        Some(MonitorConfigV::Primary { wallpaper_type, wallpaper_source, .. }) => {
            if topo.len() == 0 {
                Seq::empty()
            } else {
                let canvas_width = spec_bbox(topo).0 as i32;
                let canvas_height = spec_bbox(topo).1 as i32;
                let first = topo[0];
                seq![
                    spec_primary_window(
                        first.name,
                        first.info,
                        wallpaper_type,
                        wallpaper_source,
                        Some(
                            Viewport {
                                offset_x: first.info.x,
                                offset_y: first.info.y,
                                canvas_width,
                                canvas_height,
                            },
                        ),
                    ),
                ] + spec_stretch_clone_windows(topo.skip(1), first.name, canvas_width, canvas_height)
            }
        },
        _ => Seq::empty(),
    }
}

/// What the layout compiler emits for any configuration and topology.
pub open spec fn spec_layout(c: WallpaperConfigV, topo: Seq<MonitorEntryV>) -> Seq<WindowInfoV> {
    match c.mode {
        WallpaperMode::WallpaperPerMonitor => spec_per_monitor(c.monitors, topo),
        WallpaperMode::CloneSingleWallpaper => spec_clone_single(c.monitors, topo),
        WallpaperMode::StretchSingleWallpaper => spec_stretch(c.monitors, topo),
    }
}

impl WindowLayout {
    /// Compiles `config` against `monitor_map`. Pure and deterministic:
    /// the result is exactly `spec_layout` of the two views.
    pub fn new(config: &WallpaperConfig, monitor_map: &MonitorMap) -> (r: Self)
        requires
            monitor_map.wf(),
        ensures
            r@ == spec_layout(config@, monitor_map@),
    {
        match config.mode {
            WallpaperMode::WallpaperPerMonitor => Self::handle_per_monitor(config, monitor_map),
            WallpaperMode::CloneSingleWallpaper => Self::handle_clone_single(config, monitor_map),
            WallpaperMode::StretchSingleWallpaper => {
                Self::handle_stretch_single(config, monitor_map)
            },
        }
    }

    fn handle_per_monitor(config: &WallpaperConfig, monitor_map: &MonitorMap) -> (r: Self)
        ensures
            r@ == spec_per_monitor(config@.monitors, monitor_map@),
    {
        let mut windows: Vec<WindowInfo> = Vec::new();
        let n = config.monitors.len();
        let mut i: usize = 0;
        proof {
            assert(config@.monitors.skip(0) =~= config@.monitors);
            assert(windows@.map_values(|w: WindowInfo| w@) =~= Seq::<WindowInfoV>::empty());
        }
        while i < n
            invariant
                n == config.monitors.len(),
                i <= n,
                windows@.map_values(|w: WindowInfo| w@) + spec_per_monitor(
                    config@.monitors.skip(i as int),
                    monitor_map@,
                ) == spec_per_monitor(config@.monitors, monitor_map@),
            decreases n - i,
        {
            match &config.monitors[i] {
                MonitorConfig::Primary { monitor, wallpaper_type, wallpaper_source } => {
                    match monitor_map.get(monitor.as_str()) {
                        Some(info) => {
                            let title = primary_title(monitor.as_str());
                            windows.push(
                                WindowInfo::Primary {
                                    monitor: monitor.clone(),
                                    window_x: info.x,
                                    window_y: info.y,
                                    window_width: info.width,
                                    window_height: info.height,
                                    window_title: title,
                                    wallpaper_type: *wallpaper_type,
                                    wallpaper_source: wallpaper_source.clone(),
                                    viewport: None,
                                },
                            );
                        },
                        None => {},
                    }
                },
                MonitorConfig::Clone { .. } => {},
            }
            proof {
                let m = config@.monitors;
                assert(m.skip(i as int).skip(1) =~= m.skip(i + 1));
                assert(windows@.map_values(|w: WindowInfo| w@) + spec_per_monitor(
                    m.skip(i + 1),
                    monitor_map@,
                ) =~= spec_per_monitor(m, monitor_map@));
            }
            i = i + 1;
        }
        proof {
            assert(config@.monitors.skip(n as int) =~= Seq::<MonitorConfigV>::empty());
            assert(windows@.map_values(|w: WindowInfo| w@) =~= spec_per_monitor(
                config@.monitors,
                monitor_map@,
            ));
        }
        WindowLayout { windows }
    }

    fn handle_clone_single(config: &WallpaperConfig, monitor_map: &MonitorMap) -> (r: Self)
        ensures
            r@ == spec_clone_single(config@.monitors, monitor_map@),
    {
        let mut windows: Vec<WindowInfo> = Vec::new();

        // Find the first Primary entry.
        let n = config.monitors.len();
        let mut p: usize = 0;
        proof {
            assert(config@.monitors.skip(0) =~= config@.monitors);
        }
        while p < n && !matches!(&config.monitors[p], MonitorConfig::Primary { .. })
            invariant
                n == config.monitors.len(),
                p <= n,
                spec_first_primary(config@.monitors.skip(p as int)) == spec_first_primary(
                    config@.monitors,
                ),
                forall|j: int| 0 <= j < p ==> !(config@.monitors[j] is Primary),
            decreases n - p,
        {
            proof {
                assert(config@.monitors.skip(p as int).skip(1) =~= config@.monitors.skip(p + 1));
            }
            p = p + 1;
        }
        if p == n {
            proof {
                assert(config@.monitors.skip(n as int) =~= Seq::<MonitorConfigV>::empty());
                assert(windows@.map_values(|w: WindowInfo| w@) =~= Seq::<WindowInfoV>::empty());
            }
            return WindowLayout { windows };
        }
        match &config.monitors[p] {
            MonitorConfig::Primary { monitor, wallpaper_type, wallpaper_source } => {
                proof {
                    assert(config@.monitors.skip(p as int)[0] == config@.monitors[p as int]);
                    assert(spec_first_primary(config@.monitors) == Some(
                        config@.monitors[p as int],
                    ));
                }
                match monitor_map.get(monitor.as_str()) {
                    Some(info) => {
                        let title = primary_title(monitor.as_str());
                        windows.push(
                            WindowInfo::Primary {
                                monitor: monitor.clone(),
                                window_x: info.x,
                                window_y: info.y,
                                window_width: info.width,
                                window_height: info.height,
                                window_title: title,
                                wallpaper_type: *wallpaper_type,
                                wallpaper_source: wallpaper_source.clone(),
                                viewport: None,
                            },
                        );
                    },
                    None => {
                        proof {
                            assert(windows@.map_values(|w: WindowInfo| w@)
                                =~= Seq::<WindowInfoV>::empty());
                        }
                        return WindowLayout { windows };
                    },
                }
                // Add the clones, mirroring the primary monitor.
                let source: &String = monitor;
                let m = config.monitors.len();
                let mut i: usize = 0;
                proof {
                    assert(config@.monitors.skip(0) =~= config@.monitors);
                    assert(windows@.map_values(|w: WindowInfo| w@) =~= seq![
                        spec_layout_head(config@.monitors, monitor_map@),
                    ]);
                }
                while i < m
                    invariant
                        m == config.monitors.len(),
                        i <= m,
                        windows@.map_values(|w: WindowInfo| w@) + spec_clone_windows(
                            config@.monitors.skip(i as int),
                            monitor_map@,
                            source@,
                        ) == seq![spec_layout_head(config@.monitors, monitor_map@)]
                            + spec_clone_windows(config@.monitors, monitor_map@, source@),
                    decreases m - i,
                {
                    match &config.monitors[i] {
                        MonitorConfig::Clone { monitor, .. } => {
                            match monitor_map.get(monitor.as_str()) {
                                Some(info) => {
                                    let title = clone_title(monitor.as_str(), source.as_str());
                                    windows.push(
                                        WindowInfo::Clone {
                                            monitor: monitor.clone(),
                                            window_x: info.x,
                                            window_y: info.y,
                                            window_width: info.width,
                                            window_height: info.height,
                                            window_title: title,
                                            clone_source: source.clone(),
                                            viewport: None,
                                        },
                                    );
                                },
                                None => {},
                            }
                        },
                        MonitorConfig::Primary { .. } => {},
                    }
                    proof {
                        let ms = config@.monitors;
                        assert(ms.skip(i as int).skip(1) =~= ms.skip(i + 1));
                        assert(windows@.map_values(|w: WindowInfo| w@) + spec_clone_windows(
                            ms.skip(i + 1),
                            monitor_map@,
                            source@,
                        ) =~= seq![spec_layout_head(ms, monitor_map@)] + spec_clone_windows(
                            ms,
                            monitor_map@,
                            source@,
                        ));
                    }
                    i = i + 1;
                }
                proof {
                    assert(config@.monitors.skip(m as int) =~= Seq::<MonitorConfigV>::empty());
                    assert(windows@.map_values(|w: WindowInfo| w@) =~= spec_clone_single(
                        config@.monitors,
                        monitor_map@,
                    ));
                }
                WindowLayout { windows }
            },
            MonitorConfig::Clone { .. } => {
                // Unreachable: the scan stopped on a Primary entry.
                proof {
                    assert(false);
                }
                WindowLayout { windows }
            },
        }
    }

    fn handle_stretch_single(config: &WallpaperConfig, monitor_map: &MonitorMap) -> (r: Self)
        requires
            monitor_map.wf(),
        ensures
            r@ == spec_stretch(config@.monitors, monitor_map@),
    {
        let mut windows: Vec<WindowInfo> = Vec::new();

        // Find the first Primary entry; without one the layout is empty.
        let n = config.monitors.len();
        let mut p: usize = 0;
        proof {
            assert(config@.monitors.skip(0) =~= config@.monitors);
        }
        while p < n && !matches!(&config.monitors[p], MonitorConfig::Primary { .. })
            invariant
                n == config.monitors.len(),
                p <= n,
                spec_first_primary(config@.monitors.skip(p as int)) == spec_first_primary(
                    config@.monitors,
                ),
            decreases n - p,
        {
            proof {
                assert(config@.monitors.skip(p as int).skip(1) =~= config@.monitors.skip(p + 1));
            }
            p = p + 1;
        }
        if p == n {
            proof {
                assert(config@.monitors.skip(n as int) =~= Seq::<MonitorConfigV>::empty());
                assert(windows@.map_values(|w: WindowInfo| w@) =~= Seq::<WindowInfoV>::empty());
            }
            return WindowLayout { windows };
        }
        let topo_len = monitor_map.len();
        if topo_len == 0 {
            proof {
                assert(windows@.map_values(|w: WindowInfo| w@) =~= Seq::<WindowInfoV>::empty());
            }
            return WindowLayout { windows };
        }

        // Bounding box of the whole topology.
        let mut canvas_width: i32 = 0;
        let mut canvas_height: i32 = 0;
        let mut i: usize = 0;
        proof {
            assert(monitor_map@.skip(0) =~= monitor_map@);
            lemma_bbox_nonneg(monitor_map@);
        }
        while i < topo_len
            invariant
                monitor_map.wf(),
                topo_len == monitor_map@.len(),
                i <= topo_len,
                0 <= canvas_width,
                0 <= canvas_height,
                spec_bbox(monitor_map@).0 == imax(
                    canvas_width as int,
                    spec_bbox(monitor_map@.skip(i as int)).0,
                ),
                spec_bbox(monitor_map@).1 == imax(
                    canvas_height as int,
                    spec_bbox(monitor_map@.skip(i as int)).1,
                ),
            decreases topo_len - i,
        {
            let e = monitor_map.entry_at(i);
            proof {
                lemma_bbox_nonneg(monitor_map@.skip(i + 1));
                assert(monitor_map@.skip(i as int).skip(1) =~= monitor_map@.skip(i + 1));
            }
            let far_x = e.info.x + e.info.width;
            let far_y = e.info.y + e.info.height;
            if far_x > canvas_width {
                canvas_width = far_x;
            }
            if far_y > canvas_height {
                canvas_height = far_y;
            }
            i = i + 1;
        }
        proof {
            assert(monitor_map@.skip(topo_len as int) =~= Seq::<MonitorEntryV>::empty());
            assert(canvas_width as int == spec_bbox(monitor_map@).0);
            assert(canvas_height as int == spec_bbox(monitor_map@).1);
        }

        match &config.monitors[p] {
            MonitorConfig::Primary { monitor: _, wallpaper_type, wallpaper_source } => {
                proof {
                    assert(config@.monitors.skip(p as int)[0] == config@.monitors[p as int]);
                    assert(spec_first_primary(config@.monitors) == Some(
                        config@.monitors[p as int],
                    ));
                }
                let first = monitor_map.entry_at(0);
                let source: String = first.name.clone();
                let title = primary_title(source.as_str());
                windows.push(
                    WindowInfo::Primary {
                        monitor: source.clone(),
                        window_x: first.info.x,
                        window_y: first.info.y,
                        window_width: first.info.width,
                        window_height: first.info.height,
                        window_title: title,
                        wallpaper_type: *wallpaper_type,
                        wallpaper_source: wallpaper_source.clone(),
                        viewport: Some(
                            Viewport {
                                offset_x: first.info.x,
                                offset_y: first.info.y,
                                canvas_width,
                                canvas_height,
                            },
                        ),
                    },
                );
                let mut k: usize = 1;
                proof {
                    assert(windows@.map_values(|w: WindowInfo| w@) + spec_stretch_clone_windows(
                        monitor_map@.skip(1),
                        source@,
                        canvas_width,
                        canvas_height,
                    ) =~= spec_stretch(config@.monitors, monitor_map@));
                }
                while k < topo_len
                    invariant
                        monitor_map.wf(),
                        topo_len == monitor_map@.len(),
                        1 <= k <= topo_len,
                        source@ == monitor_map@[0].name,
                        windows@.map_values(|w: WindowInfo| w@) + spec_stretch_clone_windows(
                            monitor_map@.skip(k as int),
                            source@,
                            canvas_width,
                            canvas_height,
                        ) == spec_stretch(config@.monitors, monitor_map@),
                    decreases topo_len - k,
                {
                    let e = monitor_map.entry_at(k);
                    let title = clone_title(e.name.as_str(), source.as_str());
                    windows.push(
                        WindowInfo::Clone {
                            monitor: e.name.clone(),
                            window_x: e.info.x,
                            window_y: e.info.y,
                            window_width: e.info.width,
                            window_height: e.info.height,
                            window_title: title,
                            clone_source: source.clone(),
                            viewport: Some(
                                Viewport {
                                    offset_x: e.info.x,
                                    offset_y: e.info.y,
                                    canvas_width,
                                    canvas_height,
                                },
                            ),
                        },
                    );
                    proof {
                        assert(monitor_map@.skip(k as int).skip(1) =~= monitor_map@.skip(k + 1));
                        assert(windows@.map_values(|w: WindowInfo| w@)
                            + spec_stretch_clone_windows(
                            monitor_map@.skip(k + 1),
                            source@,
                            canvas_width,
                            canvas_height,
                        ) =~= spec_stretch(config@.monitors, monitor_map@));
                    }
                    k = k + 1;
                }
                proof {
                    assert(monitor_map@.skip(topo_len as int) =~= Seq::<MonitorEntryV>::empty());
                    assert(windows@.map_values(|w: WindowInfo| w@) =~= spec_stretch(
                        config@.monitors,
                        monitor_map@,
                    ));
                }
                WindowLayout { windows }
            },
            MonitorConfig::Clone { .. } => {
                // Unreachable: the scan stopped on a Primary entry.
                proof {
                    assert(false);
                }
                WindowLayout { windows }
            },
        }
    }
}

/// The primary directive of the clone-single arrangement, used to state
/// the loop invariant of its compiler.
pub open spec fn spec_layout_head(
    monitors: Seq<MonitorConfigV>,
    topo: Seq<MonitorEntryV>,
) -> WindowInfoV {
    match spec_first_primary(monitors) {
        Some(MonitorConfigV::Primary { monitor, wallpaper_type, wallpaper_source }) => {
            match spec_get_from(topo, monitor) {
                Some(info) => spec_primary_window(
                    monitor,
                    info,
                    wallpaper_type,
                    wallpaper_source,
                    None,
                ),
                None => WindowInfoV::Clone {
                    monitor: Seq::empty(),
                    window_x: 0,
                    window_y: 0,
                    window_width: 0,
                    window_height: 0,
                    window_title: Seq::empty(),
                    clone_source: Seq::empty(),
                    viewport: None,
                },
            }
        },
        _ => WindowInfoV::Clone {
            monitor: Seq::empty(),
            window_x: 0,
            window_y: 0,
            window_width: 0,
            window_height: 0,
            window_title: Seq::empty(),
            clone_source: Seq::empty(),
            viewport: None,
        },
    }
}

impl WindowInfoV {
    /// The viewport the directive carries, if any.
    pub open spec fn viewport(self) -> Option<Viewport> {
        match self {
            WindowInfoV::Primary { viewport, .. } => viewport,
            WindowInfoV::Clone { viewport, .. } => viewport,
        }
    }
}

/// The layout compiler is pure: equal configuration and topology views
/// compile to equal layouts. Together with the compiler's postcondition,
/// two calls on the same inputs return identical results.
pub proof fn lemma_layout_deterministic(
    c1: WallpaperConfigV,
    c2: WallpaperConfigV,
    t1: Seq<MonitorEntryV>,
    t2: Seq<MonitorEntryV>,
)
    requires
        c1 == c2,
        t1 == t2,
    ensures
        spec_layout(c1, t1) == spec_layout(c2, t2),
{
}

/// Every name of the topology can be looked up in it.
proof fn lemma_topo_names_present(topo: Seq<MonitorEntryV>, i: int)
    requires
        0 <= i < topo.len(),
    ensures
        spec_get_from(topo, topo[i].name) is Some,
    decreases topo.len(),
{
    if topo[0].name != topo[i].name {
        lemma_topo_names_present(topo.skip(1), i - 1);
    }
}

proof fn lemma_per_monitor_present(monitors: Seq<MonitorConfigV>, topo: Seq<MonitorEntryV>, i: int)
    requires
        0 <= i < spec_per_monitor(monitors, topo).len(),
    ensures
        spec_get_from(topo, spec_per_monitor(monitors, topo)[i].monitor()) is Some,
    decreases monitors.len(),
{
    let rest = spec_per_monitor(monitors.skip(1), topo);
    match monitors[0] {
        MonitorConfigV::Primary { monitor, wallpaper_type, wallpaper_source } => {
            match spec_get_from(topo, monitor) {
                Some(info) => {
                    if i > 0 {
                        lemma_per_monitor_present(monitors.skip(1), topo, i - 1);
                    }
                },
                None => {
                    lemma_per_monitor_present(monitors.skip(1), topo, i);
                },
            }
        },
        MonitorConfigV::Clone { .. } => {
            lemma_per_monitor_present(monitors.skip(1), topo, i);
        },
    }
}

proof fn lemma_clone_windows_present(
    monitors: Seq<MonitorConfigV>,
    topo: Seq<MonitorEntryV>,
    source: Seq<char>,
    i: int,
)
    requires
        0 <= i < spec_clone_windows(monitors, topo, source).len(),
    ensures
        spec_get_from(topo, spec_clone_windows(monitors, topo, source)[i].monitor()) is Some,
    decreases monitors.len(),
{
    match monitors[0] {
        MonitorConfigV::Clone { monitor, .. } => {
            match spec_get_from(topo, monitor) {
                Some(info) => {
                    if i > 0 {
                        lemma_clone_windows_present(monitors.skip(1), topo, source, i - 1);
                    }
                },
                None => {
                    lemma_clone_windows_present(monitors.skip(1), topo, source, i);
                },
            }
        },
        MonitorConfigV::Primary { .. } => {
            lemma_clone_windows_present(monitors.skip(1), topo, source, i);
        },
    }
}

/// The stretch clone directives correspond one to one to the topology
/// entries they are built from.
proof fn lemma_stretch_clones_shape(
    topo: Seq<MonitorEntryV>,
    source: Seq<char>,
    canvas_width: i32,
    canvas_height: i32,
)
    ensures
        spec_stretch_clone_windows(topo, source, canvas_width, canvas_height).len() == topo.len(),
        forall|i: int| 0 <= i < topo.len() ==> spec_stretch_clone_windows(
            topo,
            source,
            canvas_width,
            canvas_height,
        )[i] == spec_clone_window(
            topo[i].name,
            topo[i].info,
            source,
            Some(
                Viewport {
                    offset_x: topo[i].info.x,
                    offset_y: topo[i].info.y,
                    canvas_width,
                    canvas_height,
                },
            ),
        ),
    decreases topo.len(),
{
    if topo.len() > 0 {
        lemma_stretch_clones_shape(topo.skip(1), source, canvas_width, canvas_height);
    }
}

/// A configuration entry naming a monitor absent from the topology never
/// appears in the compiled layout: every directive's monitor can be
/// looked up in the topology. (And the compiler is total: dropping such
/// entries is never an error.)
pub proof fn lemma_unknown_monitors_dropped(c: WallpaperConfigV, topo: Seq<MonitorEntryV>, i: int)
    requires
        0 <= i < spec_layout(c, topo).len(),
    ensures
        spec_get_from(topo, spec_layout(c, topo)[i].monitor()) is Some,
{
    match c.mode {
        WallpaperMode::WallpaperPerMonitor => {
            lemma_per_monitor_present(c.monitors, topo, i);
        },
        WallpaperMode::CloneSingleWallpaper => {
            match spec_first_primary(c.monitors) {
                Some(MonitorConfigV::Primary { monitor, .. }) => {
                    if spec_get_from(topo, monitor) is Some && i > 0 {
                        lemma_clone_windows_present(c.monitors, topo, monitor, i - 1);
                    }
                },
                _ => {},
            }
        },
        WallpaperMode::StretchSingleWallpaper => {
            match spec_first_primary(c.monitors) {
                Some(MonitorConfigV::Primary { .. }) => {
                    if topo.len() > 0 {
                        if i == 0 {
                            lemma_topo_names_present(topo, 0);
                        } else {
                            let canvas_width = spec_bbox(topo).0 as i32;
                            let canvas_height = spec_bbox(topo).1 as i32;
                            lemma_stretch_clones_shape(
                                topo.skip(1),
                                topo[0].name,
                                canvas_width,
                                canvas_height,
                            );
                            lemma_topo_names_present(topo, i);
                        }
                    }
                },
                _ => {},
            }
        },
    }
}

/// What `spec_first_primary` finds is always a `Primary` entry.
pub proof fn lemma_first_primary_is_primary(monitors: Seq<MonitorConfigV>)
    ensures
        spec_first_primary(monitors) matches Some(p) ==> p is Primary,
    decreases monitors.len(),
{
    if monitors.len() > 0 && !(monitors[0] is Primary) {
        lemma_first_primary_is_primary(monitors.skip(1));
    }
}

/// Shape of the stretch arrangement: with a `Primary` entry in the
/// configuration and a non-empty topology, the layout has exactly one
/// directive per monitor, the first one (in name order) is the only
/// `Primary`, and every directive's viewport puts the topology's
/// bounding box behind the monitor's own offset.
pub proof fn lemma_stretch_shape(monitors: Seq<MonitorConfigV>, topo: Seq<MonitorEntryV>)
    requires
        spec_first_primary(monitors) is Some,
        topo.len() > 0,
    ensures
        spec_stretch(monitors, topo).len() == topo.len(),
        spec_stretch(monitors, topo)[0] is Primary,
        forall|i: int| 1 <= i < topo.len() ==> spec_stretch(monitors, topo)[i] is Clone,
        forall|i: int| 0 <= i < topo.len() ==> spec_stretch(monitors, topo)[i].viewport() == Some(
            Viewport {
                offset_x: topo[i].info.x,
                offset_y: topo[i].info.y,
                canvas_width: spec_bbox(topo).0 as i32,
                canvas_height: spec_bbox(topo).1 as i32,
            },
        ),
{
    lemma_first_primary_is_primary(monitors);
    match spec_first_primary(monitors) {
        Some(MonitorConfigV::Primary { wallpaper_type, wallpaper_source, .. }) => {
            let canvas_width = spec_bbox(topo).0 as i32;
            let canvas_height = spec_bbox(topo).1 as i32;
            lemma_stretch_clones_shape(topo.skip(1), topo[0].name, canvas_width, canvas_height);
        },
        _ => {},
    }
}

/// Free-function entry point to the compiler, for callers that do not
/// go through [`WindowLayout::new`]; it decides exactly the same way.
pub fn convert_to_window_layout(
    config: &LiveWallpaperConfig,
    monitor_map: &MonitorMap,
) -> (r: WindowLayout)
    requires
        monitor_map.wf(),
    ensures
        r@ == spec_layout(config@, monitor_map@),
{
    WindowLayout::new(config, monitor_map)
}

} // verus!

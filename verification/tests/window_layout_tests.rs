use hotaru::config::{
    MonitorConfig, WallpaperConfig, WallpaperMode, WallpaperSource, WallpaperType,
};
use hotaru::layout::{WindowInfo, WindowLayout};
use hotaru::monitor::{MonitorInfo, MonitorMap};

fn topo(entries: &[(&str, i32, i32, i32, i32)]) -> MonitorMap {
    let mut m = MonitorMap::new();
    for (name, x, y, width, height) in entries {
        m.insert(name.to_string(), MonitorInfo { x: *x, y: *y, width: *width, height: *height });
    }
    m
}

#[test]
fn window_layout_test_wallpaper_per_monitor() {
    let config = WallpaperConfig {
        mode: WallpaperMode::WallpaperPerMonitor,
        monitors: vec![
            MonitorConfig::Primary {
                monitor: "DP-1".into(),
                wallpaper_type: WallpaperType::Video,
                wallpaper_source: WallpaperSource::Filepath {
                    filepath: "/videos/test.mp4".into(),
                },
            },
            MonitorConfig::Primary {
                monitor: "DP-2".into(),
                wallpaper_type: WallpaperType::Web,
                wallpaper_source: WallpaperSource::Uri {
                    uri: "https://example.com".into(),
                },
            },
        ],
    };

    let monitor_map = topo(&[("DP-1", 0, 0, 1920, 1080), ("DP-2", 1920, 0, 2560, 1440)]);

    let layout = WindowLayout::new(&config, &monitor_map);

    assert_eq!(layout.windows.len(), 2);

    let mut dp1_found = false;
    let mut dp2_found = false;

    for window in &layout.windows {
        match window {
            WindowInfo::Primary {
                monitor,
                window_x,
                window_y,
                window_width,
                window_height,
                ..
            } => {
                if monitor == "DP-1" {
                    assert_eq!(*window_x, 0);
                    assert_eq!(*window_y, 0);
                    assert_eq!(*window_width, 1920);
                    assert_eq!(*window_height, 1080);
                    dp1_found = true;
                }
                if monitor == "DP-2" {
                    assert_eq!(*window_x, 1920);
                    assert_eq!(*window_y, 0);
                    assert_eq!(*window_width, 2560);
                    assert_eq!(*window_height, 1440);
                    dp2_found = true;
                }
            }
            _ => panic!("Unexpected clone window in per-monitor mode"),
        }
    }

    assert!(dp1_found && dp2_found);
}

#[test]
fn window_layout_test_clone_single_wallpaper() {
    let config = WallpaperConfig {
        mode: WallpaperMode::CloneSingleWallpaper,
        monitors: vec![
            MonitorConfig::Primary {
                monitor: "DP-1".into(),
                wallpaper_type: WallpaperType::Video,
                wallpaper_source: WallpaperSource::Filepath {
                    filepath: "/videos/main.mp4".into(),
                },
            },
            MonitorConfig::Clone {
                monitor: "DP-2".into(),
                clone_source: None,
            },
        ],
    };

    let monitor_map = topo(&[("DP-1", 0, 0, 1920, 1080), ("DP-2", 1920, 0, 1920, 1080)]);

    let layout = WindowLayout::new(&config, &monitor_map);

    assert_eq!(layout.windows.len(), 2);

    let mut primary_found = false;
    let mut clone_found = false;

    for window in &layout.windows {
        match window {
            WindowInfo::Primary { monitor, .. } => {
                assert_eq!(monitor, "DP-1");
                primary_found = true;
            }
            WindowInfo::Clone {
                monitor,
                clone_source,
                ..
            } => {
                assert_eq!(monitor, "DP-2");
                assert_eq!(clone_source, "DP-1");
                clone_found = true;
            }
        }
    }

    assert!(primary_found && clone_found);
}

#[test]
fn window_layout_test_stretch_single_wallpaper() {
    let config = WallpaperConfig {
        mode: WallpaperMode::StretchSingleWallpaper,
        monitors: vec![MonitorConfig::Primary {
            monitor: "STRETCH".into(),
            wallpaper_type: WallpaperType::Video,
            wallpaper_source: WallpaperSource::Filepath {
                filepath: "/videos/wide.mp4".into(),
            },
        }],
    };

    let monitor_map = topo(&[
        ("eDP-1", 0, 1600, 1920, 1080),
        ("DP-1", 1920, 600, 2560, 1440),
        ("DP-2", 4480, 0, 1440, 2560),
    ]);

    let layout = WindowLayout::new(&config, &monitor_map);

    assert_eq!(layout.windows.len(), 3);

    if let WindowInfo::Primary { monitor, viewport, .. } = &layout.windows[0] {
        assert_eq!(monitor, "DP-1");
        let vp = viewport.expect("stretch windows carry a viewport");
        assert_eq!(vp.canvas_width, 5920);
        assert_eq!(vp.canvas_height, 2680);
    } else {
        panic!("Expected primary window for stretch mode");
    }

    // The other two monitors mirror the primary, at their own offsets.
    match &layout.windows[1] {
        WindowInfo::Clone {
            monitor,
            clone_source,
            viewport,
            ..
        } => {
            assert_eq!(monitor, "DP-2");
            assert_eq!(clone_source, "DP-1");
            let vp = viewport.expect("stretch windows carry a viewport");
            assert_eq!(vp.offset_x, 4480);
            assert_eq!(vp.offset_y, 0);
            assert_eq!(vp.canvas_width, 5920);
            assert_eq!(vp.canvas_height, 2680);
        }
        _ => panic!("expected a clone window"),
    }
    match &layout.windows[2] {
        WindowInfo::Clone {
            monitor, viewport, ..
        } => {
            assert_eq!(monitor, "eDP-1");
            let vp = viewport.expect("stretch windows carry a viewport");
            assert_eq!(vp.offset_x, 0);
            assert_eq!(vp.offset_y, 1600);
        }
        _ => panic!("expected a clone window"),
    }
}

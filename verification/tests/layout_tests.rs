use hotaru::config::{
    LiveWallpaperConfig, MonitorConfig, WallpaperMode, WallpaperSource, WallpaperType,
};
use hotaru::layout::{convert_to_window_layout, WindowInfo};
use hotaru::monitor::{MonitorInfo, MonitorMap};

fn topo(entries: &[(&str, i32, i32, i32, i32)]) -> MonitorMap {
    let mut m = MonitorMap::new();
    for (name, x, y, width, height) in entries {
        m.insert(name.to_string(), MonitorInfo { x: *x, y: *y, width: *width, height: *height });
    }
    m
}

#[test]
fn layout_test_wallpaper_per_monitor() {
    let config = LiveWallpaperConfig {
        mode: WallpaperMode::WallpaperPerMonitor,
        monitors: vec![
            MonitorConfig::Primary {
                monitor: "DP-1".into(),
                wallpaper_type: WallpaperType::Video,
                wallpaper_source: WallpaperSource::Filepath {
                    filepath: "/videos/test.mp4".into(),
                },
            },
            MonitorConfig::Primary {
                monitor: "DP-2".into(),
                wallpaper_type: WallpaperType::Web,
                wallpaper_source: WallpaperSource::Uri {
                    uri: "https://example.com".into(),
                },
            },
        ],
    };

    let monitor_map = topo(&[("DP-1", 0, 0, 1920, 1080), ("DP-2", 1920, 0, 2560, 1440)]);

    let layout = convert_to_window_layout(&config, &monitor_map);

    assert_eq!(layout.windows.len(), 2);

    let mut dp1_found = false;
    let mut dp2_found = false;

    for window in &layout.windows {
        match window {
            WindowInfo::Primary {
                monitor,
                window_x,
                window_y,
                window_width,
                window_height,
                ..
            } => {
                if monitor == "DP-1" {
                    assert_eq!(*window_x, 0);
                    assert_eq!(*window_y, 0);
                    assert_eq!(*window_width, 1920);
                    assert_eq!(*window_height, 1080);
                    dp1_found = true;
                }
                if monitor == "DP-2" {
                    assert_eq!(*window_x, 1920);
                    assert_eq!(*window_y, 0);
                    assert_eq!(*window_width, 2560);
                    assert_eq!(*window_height, 1440);
                    dp2_found = true;
                }
            }
            _ => panic!("Unexpected clone window in per-monitor mode"),
        }
    }

    assert!(dp1_found && dp2_found);
}

#[test]
fn layout_test_clone_single_wallpaper() {
    let config = LiveWallpaperConfig {
        mode: WallpaperMode::CloneSingleWallpaper,
        monitors: vec![
            MonitorConfig::Primary {
                monitor: "DP-1".into(),
                wallpaper_type: WallpaperType::Video,
                wallpaper_source: WallpaperSource::Filepath {
                    filepath: "/videos/main.mp4".into(),
                },
            },
            MonitorConfig::Clone {
                monitor: "DP-2".into(),
                clone_source: None,
            },
        ],
    };

    let monitor_map = topo(&[("DP-1", 0, 0, 1920, 1080), ("DP-2", 1920, 0, 1920, 1080)]);

    let layout = convert_to_window_layout(&config, &monitor_map);

    assert_eq!(layout.windows.len(), 2);

    let mut primary_found = false;
    let mut clone_found = false;

    for window in &layout.windows {
        match window {
            WindowInfo::Primary { monitor, .. } => {
                assert_eq!(monitor, "DP-1");
                primary_found = true;
            }
            WindowInfo::Clone {
                monitor,
                clone_source,
                ..
            } => {
                assert_eq!(monitor, "DP-2");
                assert_eq!(clone_source, "DP-1");
                clone_found = true;
            }
        }
    }

    assert!(primary_found && clone_found);
}

#[test]
fn layout_test_stretch_single_wallpaper() {
    let config = LiveWallpaperConfig {
        mode: WallpaperMode::StretchSingleWallpaper,
        monitors: vec![MonitorConfig::Primary {
            monitor: "STRETCH".into(),
            wallpaper_type: WallpaperType::Video,
            wallpaper_source: WallpaperSource::Filepath {
                filepath: "/videos/wide.mp4".into(),
            },
        }],
    };

    let monitor_map = topo(&[
        ("eDP-1", 0, 1600, 1920, 1080),
        ("DP-1", 1920, 600, 2560, 1440),
        ("DP-2", 4480, 0, 1440, 2560),
    ]);

    let layout = convert_to_window_layout(&config, &monitor_map);

    // One window per monitor, each cropping a shared 5920x2680 canvas.
    assert_eq!(layout.windows.len(), 3);

    if let WindowInfo::Primary {
        monitor,
        window_x,
        window_y,
        window_width,
        window_height,
        viewport,
        ..
    } = &layout.windows[0]
    {
        // The first monitor in name order carries the source.
        assert_eq!(monitor, "DP-1");
        assert_eq!(*window_x, 1920);
        assert_eq!(*window_y, 600);
        assert_eq!(*window_width, 2560);
        assert_eq!(*window_height, 1440);
        let vp = viewport.expect("stretch windows carry a viewport");
        assert_eq!(vp.offset_x, 1920);
        assert_eq!(vp.offset_y, 600);
        assert_eq!(vp.canvas_width, 5920);
        assert_eq!(vp.canvas_height, 2680);
    } else {
        panic!("Expected primary window for stretch mode");
    }

    let mut primaries = 0;
    for window in &layout.windows {
        match window {
            WindowInfo::Primary { viewport, .. } => {
                primaries += 1;
                let vp = viewport.expect("stretch windows carry a viewport");
                assert_eq!(vp.canvas_width, 5920);
                assert_eq!(vp.canvas_height, 2680);
            }
            WindowInfo::Clone {
                clone_source,
                viewport,
                ..
            } => {
                assert_eq!(clone_source, "DP-1");
                let vp = viewport.expect("stretch windows carry a viewport");
                assert_eq!(vp.canvas_width, 5920);
                assert_eq!(vp.canvas_height, 2680);
            }
        }
    }
    assert_eq!(primaries, 1);
}

#[test]
fn layout_is_deterministic() {
    let config = LiveWallpaperConfig {
        mode: WallpaperMode::WallpaperPerMonitor,
        monitors: vec![MonitorConfig::Primary {
            monitor: "DP-1".into(),
            wallpaper_type: WallpaperType::Video,
            wallpaper_source: WallpaperSource::Filepath {
                filepath: "/videos/test.mp4".into(),
            },
        }],
    };
    let monitor_map = topo(&[("DP-1", 0, 0, 1920, 1080)]);

    let first = convert_to_window_layout(&config, &monitor_map);
    let second = convert_to_window_layout(&config, &monitor_map);
    assert_eq!(first, second);
}

#[test]
fn layout_drops_unknown_monitors() {
    let config = LiveWallpaperConfig {
        mode: WallpaperMode::WallpaperPerMonitor,
        monitors: vec![
            MonitorConfig::Primary {
                monitor: "DP-1".into(),
                wallpaper_type: WallpaperType::Video,
                wallpaper_source: WallpaperSource::Filepath {
                    filepath: "/videos/test.mp4".into(),
                },
            },
            MonitorConfig::Primary {
                monitor: "HDMI-9".into(),
                wallpaper_type: WallpaperType::Web,
                wallpaper_source: WallpaperSource::Uri {
                    uri: "https://example.com".into(),
                },
            },
        ],
    };
    let monitor_map = topo(&[("DP-1", 0, 0, 1920, 1080)]);

    let layout = convert_to_window_layout(&config, &monitor_map);
    assert_eq!(layout.windows.len(), 1);
    match &layout.windows[0] {
        WindowInfo::Primary { monitor, .. } => assert_eq!(monitor, "DP-1"),
        _ => panic!("expected a primary window"),
    }

    // A clone naming an unknown monitor is dropped the same way.
    let config = LiveWallpaperConfig {
        mode: WallpaperMode::CloneSingleWallpaper,
        monitors: vec![
            MonitorConfig::Primary {
                monitor: "DP-1".into(),
                wallpaper_type: WallpaperType::Video,
                wallpaper_source: WallpaperSource::Filepath {
                    filepath: "/videos/main.mp4".into(),
                },
            },
            MonitorConfig::Clone {
                monitor: "HDMI-9".into(),
                clone_source: None,
            },
        ],
    };
    let layout = convert_to_window_layout(&config, &monitor_map);
    assert_eq!(layout.windows.len(), 1);
}

#[test]
fn layout_titles_follow_the_monitor() {
    let config = LiveWallpaperConfig {
        mode: WallpaperMode::CloneSingleWallpaper,
        monitors: vec![
            MonitorConfig::Primary {
                monitor: "DP-1".into(),
                wallpaper_type: WallpaperType::Video,
                wallpaper_source: WallpaperSource::Filepath {
                    filepath: "/videos/main.mp4".into(),
                },
            },
            MonitorConfig::Clone {
                monitor: "DP-2".into(),
                clone_source: None,
            },
        ],
    };
    let monitor_map = topo(&[("DP-1", 0, 0, 1920, 1080), ("DP-2", 1920, 0, 1920, 1080)]);
    let layout = convert_to_window_layout(&config, &monitor_map);
    match &layout.windows[0] {
        WindowInfo::Primary { window_title, .. } => {
            assert_eq!(window_title, "Live Wallpaper - DP-1");
        }
        _ => panic!("expected a primary window"),
    }
    match &layout.windows[1] {
        WindowInfo::Clone { window_title, .. } => {
            assert_eq!(window_title, "Live Wallpaper - DP-2 (Clone of DP-1)");
        }
        _ => panic!("expected a clone window"),
    }
}

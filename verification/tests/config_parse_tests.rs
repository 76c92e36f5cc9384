use hotaru::config::{MonitorConfig, WallpaperMode, WallpaperSource, WallpaperType};
use hotaru::config_parse::{parse_wallpaper_config, ConfigError};

#[test]
fn parses_a_per_monitor_config() {
    let json = r#"{
        "mode": "wallpaper_per_monitor",
        "monitors": [
            { "monitor": "DP-1", "wallpaper_type": "video", "filepath": "/videos/test.mp4" },
            { "monitor": "DP-2", "wallpaper_type": "web", "uri": "https://example.com" }
        ]
    }"#;
    let config = parse_wallpaper_config(json).unwrap();
    assert_eq!(config.mode, WallpaperMode::WallpaperPerMonitor);
    assert_eq!(config.monitors.len(), 2);
    assert_eq!(
        config.monitors[0],
        MonitorConfig::Primary {
            monitor: "DP-1".into(),
            wallpaper_type: WallpaperType::Video,
            wallpaper_source: WallpaperSource::Filepath {
                filepath: "/videos/test.mp4".into()
            },
        }
    );
    assert_eq!(
        config.monitors[1],
        MonitorConfig::Primary {
            monitor: "DP-2".into(),
            wallpaper_type: WallpaperType::Web,
            wallpaper_source: WallpaperSource::Uri {
                uri: "https://example.com".into()
            },
        }
    );
}

#[test]
fn parses_clone_entries() {
    let json = r#"{
        "mode": "clone_single_wallpaper",
        "monitors": [
            { "monitor": "DP-1", "wallpaper_type": "video", "filepath": "/v.mp4" },
            { "monitor": "DP-2" },
            { "monitor": "DP-3", "clone_source": "DP-1" },
            { "monitor": "DP-4", "clone_source": null }
        ]
    }"#;
    let config = parse_wallpaper_config(json).unwrap();
    assert_eq!(config.mode, WallpaperMode::CloneSingleWallpaper);
    assert_eq!(
        config.monitors[1],
        MonitorConfig::Clone { monitor: "DP-2".into(), clone_source: None }
    );
    assert_eq!(
        config.monitors[2],
        MonitorConfig::Clone {
            monitor: "DP-3".into(),
            clone_source: Some("DP-1".into())
        }
    );
    assert_eq!(
        config.monitors[3],
        MonitorConfig::Clone { monitor: "DP-4".into(), clone_source: None }
    );
}

#[test]
fn entry_with_bad_type_falls_back_to_clone() {
    // An entry that fails the primary reading still reads as a clone,
    // as long as it has a monitor and no ill-typed clone_source.
    let json = r#"{
        "mode": "stretch_single_wallpaper",
        "monitors": [ { "monitor": "DP-1", "wallpaper_type": "gif", "filepath": "/a.gif" } ]
    }"#;
    let config = parse_wallpaper_config(json).unwrap();
    assert_eq!(
        config.monitors[0],
        MonitorConfig::Clone { monitor: "DP-1".into(), clone_source: None }
    );
}

#[test]
fn unknown_keys_are_ignored() {
    let json = r#"{
        "mode": "wallpaper_per_monitor",
        "monitors": [
            { "monitor": "DP-1", "wallpaper_type": "video", "filepath": "/v.mp4",
              "extra": [1, 2.5, {"nested": true}], "another": -3e2 }
        ],
        "comment": "ignored"
    }"#;
    let config = parse_wallpaper_config(json).unwrap();
    assert_eq!(config.monitors.len(), 1);
    assert!(matches!(
        config.monitors[0],
        MonitorConfig::Primary { .. }
    ));
}

#[test]
fn malformed_json_is_its_own_error() {
    assert_eq!(
        parse_wallpaper_config("{ not json"),
        Err(ConfigError::MalformedJson)
    );
    assert_eq!(
        parse_wallpaper_config(""),
        Err(ConfigError::MalformedJson)
    );
    assert_eq!(
        parse_wallpaper_config("{\"mode\": \"wallpaper_per_monitor\",}"),
        Err(ConfigError::MalformedJson)
    );
}

#[test]
fn wrong_shapes_are_rejected() {
    // Valid JSON, but not a configuration.
    assert_eq!(
        parse_wallpaper_config("[1, 2, 3]"),
        Err(ConfigError::InvalidShape)
    );
    // Unknown mode label.
    assert_eq!(
        parse_wallpaper_config(r#"{"mode": "tiled", "monitors": []}"#),
        Err(ConfigError::InvalidShape)
    );
    // Missing monitors array.
    assert_eq!(
        parse_wallpaper_config(r#"{"mode": "wallpaper_per_monitor"}"#),
        Err(ConfigError::InvalidShape)
    );
    // An entry without a monitor name.
    assert_eq!(
        parse_wallpaper_config(
            r#"{"mode": "wallpaper_per_monitor", "monitors": [ {"wallpaper_type": "video"} ]}"#
        ),
        Err(ConfigError::InvalidShape)
    );
    // An ill-typed clone_source.
    assert_eq!(
        parse_wallpaper_config(
            r#"{"mode": "wallpaper_per_monitor", "monitors": [ {"monitor": "DP-1", "clone_source": 5} ]}"#
        ),
        Err(ConfigError::InvalidShape)
    );
}

#[test]
fn empty_monitor_list_is_legal() {
    let config =
        parse_wallpaper_config(r#"{"mode": "clone_single_wallpaper", "monitors": []}"#).unwrap();
    assert_eq!(config.mode, WallpaperMode::CloneSingleWallpaper);
    assert!(config.monitors.is_empty());
}

#[test]
fn string_escapes_are_decoded() {
    let json = "{\"mode\": \"wallpaper_per_monitor\", \"monitors\": [ {\"monitor\": \"DP\\u002d1\", \"wallpaper_type\": \"video\", \"filepath\": \"/tab\\t/caf\\u00e9.mp4\"} ]}";
    let config = parse_wallpaper_config(json).unwrap();
    assert_eq!(
        config.monitors[0],
        MonitorConfig::Primary {
            monitor: "DP-1".into(),
            wallpaper_type: WallpaperType::Video,
            wallpaper_source: WallpaperSource::Filepath {
                filepath: "/tab\t/café.mp4".into()
            },
        }
    );
}

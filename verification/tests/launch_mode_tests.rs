use hotaru::launch_mode::LaunchMode;

#[test]
fn test_launch_mode_default() {
    let default_mode = LaunchMode::default();
    assert_eq!(default_mode, LaunchMode::Windowed);
}

#[test]
fn test_window_type_from_str() {
    assert_eq!(
        LaunchMode::from_str("x11-desktop").unwrap(),
        LaunchMode::X11Desktop
    );
    assert_eq!(
        LaunchMode::from_str("wayland-layer-shell").unwrap(),
        LaunchMode::WaylandLayerShell
    );
    assert_eq!(
        LaunchMode::from_str("gnome-ext-hanabi").unwrap(),
        LaunchMode::GnomeExtHanabi
    );
    assert_eq!(LaunchMode::from_str("windowed").unwrap(), LaunchMode::Windowed);
}

#[test]
fn test_launch_mode_to_string() {
    assert_eq!(LaunchMode::X11Desktop.to_string(), "x11-desktop");
    assert_eq!(LaunchMode::WaylandLayerShell.to_string(), "wayland-layer-shell");
    assert_eq!(LaunchMode::GnomeExtHanabi.to_string(), "gnome-ext-hanabi");
    assert_eq!(LaunchMode::Windowed.to_string(), "windowed");
}

#[test]
fn launch_mode_rejects_unknown_labels() {
    assert!(LaunchMode::from_str("x11").is_err());
    assert!(LaunchMode::from_str("").is_err());
    assert!(LaunchMode::from_str("Windowed").is_err());
}

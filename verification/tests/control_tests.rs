use hotaru::config::ContentFit;
use hotaru::control::{Action, Command, RendererState, Reply};
use hotaru::monitor::{MonitorInfo, MonitorMap};
use hotaru::playback::PlaybackState;

fn topo() -> MonitorMap {
    let mut m = MonitorMap::new();
    m.insert("DP-1".to_string(), MonitorInfo { x: 0, y: 0, width: 1920, height: 1080 });
    m.insert("DP-2".to_string(), MonitorInfo { x: 1920, y: 0, width: 1920, height: 1080 });
    m
}

fn valid_config() -> String {
    r#"{"mode": "wallpaper_per_monitor", "monitors": [
        {"monitor": "DP-1", "wallpaper_type": "video", "filepath": "/videos/a.mp4"}
    ]}"#
    .to_string()
}

#[test]
fn pause_and_resume_need_the_right_state() {
    let t = topo();
    let mut state = RendererState::new();
    assert_eq!(state.playback_state, PlaybackState::Idle);

    // Pause while Idle: rejected, state unchanged, nothing to do.
    let (ok, actions) = state.pause();
    assert!(!ok);
    assert_eq!(state.playback_state, PlaybackState::Idle);
    assert!(actions.is_empty());

    // Resume while Playing: rejected as well.
    let (res, _) = state.apply_wallpaper(&valid_config(), "windowed", &t);
    assert_eq!(res, Ok(true));
    assert_eq!(state.playback_state, PlaybackState::Playing);
    let (ok, actions) = state.resume();
    assert!(!ok);
    assert_eq!(state.playback_state, PlaybackState::Playing);
    assert!(actions.is_empty());
}

#[test]
fn apply_pause_resume_ends_playing() {
    let t = topo();
    let mut state = RendererState::new();

    let (res, _) = state.apply_wallpaper(&valid_config(), "windowed", &t);
    assert_eq!(res, Ok(true));
    assert_eq!(state.playback_state, PlaybackState::Playing);

    let (ok, _) = state.pause();
    assert!(ok);
    assert_eq!(state.playback_state, PlaybackState::Paused);

    let (ok, _) = state.resume();
    assert!(ok);
    assert_eq!(state.playback_state, PlaybackState::Playing);
}

#[test]
fn apply_rejects_bad_input_without_mutation() {
    let t = topo();
    let mut state = RendererState::new();

    let (res, actions) = state.apply_wallpaper("{ not json", "windowed", &t);
    assert_eq!(res, Err("Invalid config JSON".to_string()));
    assert!(actions.is_empty());
    assert_eq!(state.playback_state, PlaybackState::Idle);
    assert!(state.config.is_none());

    let (res, actions) = state.apply_wallpaper(&valid_config(), "upside-down", &t);
    assert_eq!(res, Err("Invalid launch mode".to_string()));
    assert!(actions.is_empty());
    assert_eq!(state.playback_state, PlaybackState::Idle);
    assert!(state.config.is_none());
}

#[test]
fn apply_emits_the_rebuild_sequence() {
    let t = topo();
    let mut state = RendererState::new();
    let (res, actions) = state.apply_wallpaper(&valid_config(), "windowed", &t);
    assert_eq!(res, Ok(true));
    assert_eq!(actions.len(), 4);
    assert_eq!(actions[0], Action::CloseAllWindows);
    match &actions[1] {
        Action::BuildWindows(layout) => assert_eq!(layout.windows.len(), 1),
        other => panic!("expected a build action, got {:?}", other),
    }
    assert_eq!(actions[2], Action::DeferSettingsReapply);
    match &actions[3] {
        Action::PersistConfig { config_json, launch_mode } => {
            assert_eq!(config_json, &valid_config());
            assert_eq!(launch_mode, "windowed");
        }
        other => panic!("expected a persist action, got {:?}", other),
    }
}

#[test]
fn disable_always_succeeds_and_clears() {
    let t = topo();
    let mut state = RendererState::new();

    // With nothing active.
    let (ok, actions) = state.disable_wallpaper();
    assert!(ok);
    assert_eq!(state.playback_state, PlaybackState::Idle);
    assert!(actions.contains(&Action::ClearPersistedConfig));

    // With a wallpaper active.
    let (res, _) = state.apply_wallpaper(&valid_config(), "windowed", &t);
    assert_eq!(res, Ok(true));
    let (ok, actions) = state.disable_wallpaper();
    assert!(ok);
    assert!(state.config.is_none());
    assert_eq!(state.playback_state, PlaybackState::Idle);
    assert_eq!(
        actions,
        vec![
            Action::StopAllRenderers,
            Action::CloseAllWindows,
            Action::ClearRenderers,
            Action::ClearPersistedConfig,
        ]
    );
}

#[test]
fn get_state_reports_the_label() {
    let t = topo();
    let mut state = RendererState::new();
    assert_eq!(state.get_state(), "idle");
    let (_, _) = state.apply_wallpaper(&valid_config(), "windowed", &t);
    assert_eq!(state.get_state(), "playing");
    let (_, _) = state.pause();
    assert_eq!(state.get_state(), "paused");
}

#[test]
fn batch_gets_one_reply_per_command_in_order() {
    let t = topo();
    let mut state = RendererState::new();
    let cmds = vec![
        Command::GetState,
        Command::ApplyWallpaper {
            config_json: valid_config(),
            launch_mode: "windowed".to_string(),
        },
        Command::Pause,
        Command::GetState,
        Command::Resume,
        Command::DisableWallpaper,
        Command::Quit,
    ];
    let (replies, _) = state.handle_commands(&cmds, &t);
    assert_eq!(replies.len(), cmds.len());
    assert_eq!(replies[0], Some(Reply::StateLabel("idle".to_string())));
    assert_eq!(replies[1], Some(Reply::Applied(Ok(true))));
    assert_eq!(replies[2], Some(Reply::Flag(true)));
    assert_eq!(replies[3], Some(Reply::StateLabel("paused".to_string())));
    assert_eq!(replies[4], Some(Reply::Flag(true)));
    assert_eq!(replies[5], Some(Reply::Flag(true)));
    assert_eq!(replies[6], None);
    assert_eq!(state.playback_state, PlaybackState::Idle);
}

#[test]
fn topology_change_rebuilds_only_when_active() {
    let t = topo();
    let mut state = RendererState::new();

    // No configuration: a change passes without effects.
    assert!(state.handle_monitors_changed(&t).is_empty());

    let (res, _) = state.apply_wallpaper(&valid_config(), "windowed", &t);
    assert_eq!(res, Ok(true));

    // With a configuration, the rebuild runs against the new topology.
    let mut bigger = MonitorMap::new();
    bigger.insert("DP-1".to_string(), MonitorInfo { x: 0, y: 0, width: 2560, height: 1440 });
    let actions = state.handle_monitors_changed(&bigger);
    assert_eq!(actions.len(), 3);
    assert_eq!(actions[0], Action::CloseAllWindows);
    match &actions[1] {
        Action::BuildWindows(layout) => match &layout.windows[0] {
            hotaru::layout::WindowInfo::Primary { window_width, .. } => {
                assert_eq!(*window_width, 2560);
            }
            other => panic!("expected a primary window, got {:?}", other),
        },
        other => panic!("expected a build action, got {:?}", other),
    }
    assert_eq!(actions[2], Action::DeferSettingsReapply);
    // The playback state is untouched.
    assert_eq!(state.playback_state, PlaybackState::Playing);
}

#[test]
fn content_fit_from_int_maps_the_settings_key() {
    assert_eq!(ContentFit::from_int(0), ContentFit::Fill);
    assert_eq!(ContentFit::from_int(1), ContentFit::Contain);
    assert_eq!(ContentFit::from_int(2), ContentFit::Cover);
    assert_eq!(ContentFit::from_int(3), ContentFit::ScaleDown);
    assert_eq!(ContentFit::from_int(-1), ContentFit::Contain);
    assert_eq!(ContentFit::from_int(99), ContentFit::Contain);
}

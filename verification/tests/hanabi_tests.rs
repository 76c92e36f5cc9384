use hotaru::hanabi::HanabiWindowParams;

#[test]
fn test_hanabi_window_params_default() {
    let default_params = HanabiWindowParams::default();
    assert_eq!(default_params.position, [0, 0]);
    assert!(!default_params.keep_at_bottom);
    assert!(!default_params.keep_minimized);
    assert!(!default_params.keep_position);
}

#[test]
fn test_hanabi_window_title() {
    let params = HanabiWindowParams {
        position: [100, 200],
        keep_at_bottom: true,
        keep_minimized: false,
        keep_position: true,
    };
    let title = params.hanabi_window_title();
    let expected_title = "@io.github.jeffshee.HanabiRenderer!{\"position\":[100,200],\"keepAtBottom\":true,\"keepMinimized\":false,\"keepPosition\":true}";
    assert_eq!(title, expected_title);
}

#[test]
fn hanabi_window_title_negative_position() {
    let params = HanabiWindowParams {
        position: [-1920, 0],
        keep_at_bottom: false,
        keep_minimized: true,
        keep_position: false,
    };
    let title = params.hanabi_window_title();
    let expected_title = "@io.github.jeffshee.HanabiRenderer!{\"position\":[-1920,0],\"keepAtBottom\":false,\"keepMinimized\":true,\"keepPosition\":false}";
    assert_eq!(title, expected_title);
}

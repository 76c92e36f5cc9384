use hotaru::monitor::{MonitorInfo, MonitorMap};

#[test]
fn lookup_finds_what_was_inserted() {
    let mut m = MonitorMap::new();
    assert_eq!(m.len(), 0);
    assert_eq!(m.get("DP-1"), None);

    let a = MonitorInfo { x: 0, y: 0, width: 1920, height: 1080 };
    let b = MonitorInfo { x: 1920, y: 0, width: 2560, height: 1440 };
    m.insert("DP-1".to_string(), a);
    m.insert("HDMI-1".to_string(), b);
    assert_eq!(m.len(), 2);
    assert_eq!(m.get("DP-1"), Some(a));
    assert_eq!(m.get("HDMI-1"), Some(b));
    assert_eq!(m.get("DP-2"), None);
}

#[test]
fn inserting_an_existing_name_replaces_it() {
    let mut m = MonitorMap::new();
    m.insert("DP-1".to_string(), MonitorInfo { x: 0, y: 0, width: 1920, height: 1080 });
    m.insert("DP-1".to_string(), MonitorInfo { x: 0, y: 0, width: 2560, height: 1440 });
    assert_eq!(m.len(), 1);
    assert_eq!(m.get("DP-1").unwrap().width, 2560);
}

#[test]
fn entries_are_kept_in_name_order() {
    let mut m = MonitorMap::new();
    m.insert("eDP-1".to_string(), MonitorInfo { x: 0, y: 0, width: 1, height: 1 });
    m.insert("DP-2".to_string(), MonitorInfo { x: 0, y: 0, width: 2, height: 2 });
    m.insert("DP-1".to_string(), MonitorInfo { x: 0, y: 0, width: 3, height: 3 });
    m.insert("DP-10".to_string(), MonitorInfo { x: 0, y: 0, width: 4, height: 4 });
    let names: Vec<String> = (0..m.len()).map(|i| m.entry_at(i).name.clone()).collect();
    // Lexicographic by code point: digits before letters, short prefixes first.
    assert_eq!(names, vec!["DP-1", "DP-10", "DP-2", "eDP-1"]);
}

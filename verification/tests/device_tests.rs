use autoclicker::engine::devices::{
    event_node_paths, opened_device_name, scan_devices, virtual_device_axes, virtual_device_keys,
    virtual_device_name, FoundDevice, BTN_MIDDLE, BTN_RIGHT, REL_X, REL_Y,
};

fn found(name: Option<&str>, path: &str) -> FoundDevice {
    FoundDevice { name: name.map(|n| n.to_string()), path: path.to_string() }
}

#[test]
fn scan_lists_devices_in_order_with_placeholder_names() {
    let listed = scan_devices(vec![
        found(Some("Logitech Mouse"), "/dev/input/event3"),
        found(None, "/dev/input/event4"),
        found(Some("AT Keyboard"), "/dev/input/event0"),
    ]);
    let pairs: Vec<(String, String)> = listed.into_iter().map(|d| (d.name, d.path)).collect();
    assert_eq!(
        pairs,
        vec![
            ("Logitech Mouse".to_string(), "/dev/input/event3".to_string()),
            ("Dispositivo Desconhecido".to_string(), "/dev/input/event4".to_string()),
            ("AT Keyboard".to_string(), "/dev/input/event0".to_string()),
        ]
    );
}

#[test]
fn scan_leaves_out_the_virtual_device() {
    let listed = scan_devices(vec![
        found(Some(virtual_device_name()), "/dev/input/event20"),
        found(Some("Mouse"), "/dev/input/event2"),
        found(Some("Old Humanized AutoClicker Thing"), "/dev/input/event21"),
    ]);
    assert_eq!(listed.len(), 1);
    assert_eq!(listed[0].name, "Mouse");
    assert_eq!(listed[0].path, "/dev/input/event2");
}

#[test]
fn scan_of_nothing_is_empty() {
    assert!(scan_devices(Vec::new()).is_empty());
}

#[test]
fn event_nodes_are_filtered_in_order() {
    let nodes = event_node_paths(vec![
        "/dev/input/mouse0".to_string(),
        "/dev/input/event1".to_string(),
        "/dev/input/by-id".to_string(),
        "/dev/input/event0".to_string(),
    ]);
    assert_eq!(nodes, vec!["/dev/input/event1".to_string(), "/dev/input/event0".to_string()]);
}

#[test]
fn opened_device_names() {
    assert_eq!(opened_device_name(Some("Pad".to_string())), "Pad");
    assert_eq!(opened_device_name(None), "Dispositivo");
}

#[test]
fn virtual_device_declares_mouse_buttons_and_action() {
    assert_eq!(virtual_device_keys(30), vec![272, 273, 274, 30]);
    assert_eq!(virtual_device_axes(), vec![0, 1]);
    assert_eq!(virtual_device_name(), "Humanized AutoClicker Virtual Device");
}

#[test]
fn device_codes_match_evdev() {
    assert_eq!(BTN_RIGHT, evdev::Key::BTN_RIGHT.code());
    assert_eq!(BTN_MIDDLE, evdev::Key::BTN_MIDDLE.code());
    assert_eq!(REL_X, evdev::RelativeAxisType::REL_X.0);
    assert_eq!(REL_Y, evdev::RelativeAxisType::REL_Y.0);
}

#[test]
fn scan_never_lists_the_virtual_device_node() {
    let listed = scan_devices(vec![
        found(Some("Mouse"), "/dev/input/event2"),
        found(Some(virtual_device_name()), "/dev/input/event9"),
        found(None, "/dev/input/event4"),
    ]);
    assert!(listed.iter().all(|d| d.path != "/dev/input/event9"));
    assert_eq!(listed.len(), 2);
}

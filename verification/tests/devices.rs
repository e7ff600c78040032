use scf_next::devices::{connection_candidates, devices_to_try, GamepadDeviceInfo};
use scf_next::gamepad::{
    button_count_from_mapping, effective_button_count, fill_kbm, kbm_state, GamepadReading, GamepadState,
    JoystickReading, TouchpadFinger,
};
use scf_next::scan::{dedup_sort_by_name, sort_by_name, ControllerEntry, GroupEntry};
use scf_next::state::{SafeJoystickPtr, SafePtr};

fn dev(id: i32, vendor: u16, product: u16, is_gamepad: bool) -> GamepadDeviceInfo {
    GamepadDeviceInfo { instance_id: id, name: format!("dev{}", id), vendor, product, is_gamepad }
}

fn pair(v: &str, p: &str) -> (String, String) {
    (v.to_string(), p.to_string())
}

#[test]
fn candidates_follow_pair_order_then_device_order() {
    let devices = vec![
        dev(1, 0x045e, 0x02e0, true),
        dev(2, 0x057e, 0x2009, true),
        dev(3, 0x045e, 0x02e0, false),
        dev(4, 0x28de, 0x1304, true),
    ];
    let pairs = vec![pair("057e", "2009"), pair("045e", "02e0")];
    assert_eq!(connection_candidates(&devices, &pairs, true), vec![2, 1]);
    assert_eq!(connection_candidates(&devices, &pairs, false), vec![2, 1, 3]);
    assert!(connection_candidates(&devices, &vec![pair("dead", "beef")], false).is_empty());
    assert!(connection_candidates(&devices, &vec![], false).is_empty());
}

fn centry(name: &str, path: &str) -> ControllerEntry {
    ControllerEntry { name: name.to_string(), path: path.to_string(), icon_data_url: None, is_controller: true }
}

#[test]
fn dedup_sort_keeps_first_per_path_and_orders_by_name_then_path() {
    let mut dup = centry("Zeta", "/a");
    dup.is_controller = false;
    let out = dedup_sort_by_name(vec![
        centry("Beta", "/b"),
        centry("Alpha", "/a"),
        dup,
        centry("Beta", "/a2"),
        centry("Alpha", "/c"),
    ]);
    let got: Vec<(&str, &str, bool)> = out.iter().map(|e| (e.name.as_str(), e.path.as_str(), e.is_controller)).collect();
    assert_eq!(got, vec![("Alpha", "/a", true), ("Alpha", "/c", true), ("Beta", "/a2", true), ("Beta", "/b", true)]);
}

#[test]
fn dedup_sort_groups() {
    let g = |n: &str, p: &str| GroupEntry { name: n.to_string(), path: p.to_string(), icon_data_url: None };
    let out = dedup_sort_by_name(vec![g("Valve", "/c/Valve"), g("Sony", "/c/Sony"), g("Valve", "/d/Valve")]);
    let got: Vec<&str> = out.iter().map(|e| e.path.as_str()).collect();
    assert_eq!(got, vec!["/c/Sony", "/c/Valve", "/d/Valve"]);
    assert!(dedup_sort_by_name::<GroupEntry>(vec![]).is_empty());
}

#[test]
fn sort_by_name_is_stable() {
    let out = sort_by_name(vec![centry("b", "1"), centry("a", "2"), centry("b", "0"), centry("a", "1")]);
    let got: Vec<(&str, &str)> = out.iter().map(|e| (e.name.as_str(), e.path.as_str())).collect();
    assert_eq!(got, vec![("a", "2"), ("a", "1"), ("b", "1"), ("b", "0")]);
}

#[test]
fn sort_uses_code_point_order() {
    let out = sort_by_name(vec![centry("b", ""), centry("B", ""), centry("ab", ""), centry("a", ""), centry("é", "")]);
    let got: Vec<&str> = out.iter().map(|e| e.name.as_str()).collect();
    assert_eq!(got, vec!["B", "a", "ab", "b", "é"]);
}

#[test]
fn default_state_is_blank() {
    let s = GamepadState::default();
    assert!(!s.connected);
    assert_eq!(s.num_buttons, 0);
    assert!(s.buttons.iter().all(|b| !b));
    assert!(s.axes.iter().all(|a| *a == 0));
    assert!(s.keyboard.is_empty() && s.mouse_buttons.is_empty());
    assert!(s.scroll.is_none() && s.mouse.is_none() && s.cap_sense.is_none());
}

#[test]
fn fill_kbm_lists_pressed_keys_and_buttons() {
    let mut s = GamepadState::default();
    let mut kb = vec![false; 768];
    kb[30] = true;
    kb[57] = true;
    let ms = vec![true, false, true];
    fill_kbm(&mut s, &kb, &ms, 0, 0);
    assert_eq!(s.keyboard, vec![30, 57]);
    assert_eq!(s.mouse_buttons, vec![0, 2]);
    assert_eq!(s.scroll, None);
    fill_kbm(&mut s, &[], &[], 2, 0);
    assert!(s.keyboard.is_empty());
    assert_eq!(s.scroll, Some([2, 0]));
    fill_kbm(&mut s, &[], &[], 0, 0);
    assert_eq!(s.scroll, Some([2, 0]));
}

#[test]
fn kbm_state_is_a_connected_keyboard_and_mouse() {
    let mut kb = vec![false; 768];
    kb[16] = true;
    let ms = vec![false, true, false];
    let s = kbm_state(&kb, &ms, [0.5f32.to_bits(), (-0.25f32).to_bits()], 0, 3);
    assert!(s.connected);
    assert!(!s.is_gamepad);
    assert_eq!(s.name, "Keyboard & Mouse");
    assert_eq!(s.keyboard, vec![16]);
    assert_eq!(s.mouse_buttons, vec![1]);
    assert_eq!(s.scroll, Some([0, 3]));
    assert_eq!(s.mouse, Some([0.5f32.to_bits(), (-0.25f32).to_bits()]));
    let quiet = kbm_state(&[], &[], [0, 0], 0, 0);
    assert_eq!(quiet.scroll, None);
    assert!(quiet.keyboard.is_empty() && quiet.mouse_buttons.is_empty());
}

#[test]
fn effective_button_count_grows_to_highest_pressed() {
    let mut b = [false; 32];
    assert_eq!(effective_button_count(15, &b), 15);
    b[20] = true;
    b[3] = true;
    assert_eq!(effective_button_count(15, &b), 21);
    assert_eq!(effective_button_count(25, &b), 25);
    b[31] = true;
    assert_eq!(effective_button_count(0, &b), 32);
}

#[test]
fn gamepad_state_from_reading() {
    let mut buttons = [false; 32];
    buttons[22] = true;
    let s = GamepadState::from_gamepad(GamepadReading {
        vendor: 0x28de,
        product: 0x1304,
        name: "Steam Controller".to_string(),
        reported_buttons: 21,
        reported_axes: 6,
        buttons,
        axes: [0.5f32.to_bits(); 8],
        hats: vec![],
        touchpads: vec![TouchpadFinger { down: true, x: 0.25f32.to_bits(), y: 0.75f32.to_bits(), pressure: 0 }],
        cap_sense: [0; 4],
    });
    assert!(s.connected && s.is_gamepad);
    assert_eq!(s.num_buttons, 23);
    assert_eq!(s.num_axes, 6);
    assert_eq!(s.touchpads.len(), 1);
    assert_eq!(s.cap_sense, Some([0; 4]));
}

#[test]
fn joystick_state_keeps_only_reported_slots() {
    let s = GamepadState::from_joystick(JoystickReading {
        vendor: 1,
        product: 2,
        name: "js".to_string(),
        reported_buttons: 2,
        reported_axes: 1,
        buttons: [true; 32],
        axes: [1.0f32.to_bits(); 8],
        hats: vec![1],
    });
    assert!(s.connected && !s.is_gamepad);
    assert_eq!(s.buttons.iter().filter(|b| **b).count(), 2);
    assert_eq!(f32::from_bits(s.axes[0]), 1.0);
    assert_eq!(s.axes[1], 0);
    assert_eq!(s.hats, vec![1]);
    let none = GamepadState::from_joystick(JoystickReading {
        vendor: 1,
        product: 2,
        name: String::new(),
        reported_buttons: -1,
        reported_axes: -1,
        buttons: [true; 32],
        axes: [7; 8],
        hats: vec![],
    });
    assert_eq!(none.num_buttons, u32::MAX);
    assert!(none.buttons.iter().all(|b| *b));
}

#[test]
fn mapping_button_count() {
    let m = "03000000de280000ff11000001000000,Steam Virtual Gamepad,a:b0,b:b1,back:b6,dpdown:h0.4,leftshoulder:b4,";
    assert_eq!(button_count_from_mapping(m), 13);
    assert_eq!(button_count_from_mapping("guid,name,a:b0,"), 0);
    assert_eq!(button_count_from_mapping("guid,name,a:b0,misc6:b20,"), 26);
    assert_eq!(button_count_from_mapping(""), 0);
    assert_eq!(button_count_from_mapping("guid,name,paddle1:b1"), 17);
}

#[test]
fn handles_keep_their_address() {
    assert_eq!(SafePtr(0x1000).as_ptr(), 0x1000);
    assert_eq!(SafeJoystickPtr(0).as_ptr(), 0);
}

#[test]
fn without_declared_ids_only_the_first_device_of_the_kind_is_tried() {
    let devices = vec![dev(5, 1, 1, false), dev(6, 2, 2, true), dev(7, 3, 3, true)];
    assert_eq!(devices_to_try(&devices, &vec![], true), vec![6]);
    assert_eq!(devices_to_try(&devices, &vec![], false), vec![5]);
    assert!(devices_to_try(&vec![], &vec![], false).is_empty());
    assert_eq!(devices_to_try(&devices, &vec![pair("0003", "0003")], true), vec![7]);
    assert!(devices_to_try(&devices, &vec![pair("0001", "0001")], true).is_empty());
}

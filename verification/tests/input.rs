use scf_next::input::{button_to_idx, key_to_evdev, Key, MouseButton, BTN_CNT, KEY_CNT};
use scf_next::kbm::{
    has_relative_axes, is_kbm_device, select_input_devices, DeviceKeyStates, InputDeviceInfo,
    ListenerKeyState,
};

#[test]
fn key_codes_match_the_wiki_table() {
    assert_eq!(key_to_evdev(&Key::KeyA), Some(30));
    assert_eq!(key_to_evdev(&Key::KeyQ), Some(16));
    assert_eq!(key_to_evdev(&Key::Space), Some(57));
    assert_eq!(key_to_evdev(&Key::ShiftLeft), Some(42));
    assert_eq!(key_to_evdev(&Key::Return), Some(28));
    assert_eq!(key_to_evdev(&Key::Escape), Some(1));
    assert_eq!(key_to_evdev(&Key::KpDelete), Some(83));
    assert_eq!(key_to_evdev(&Key::Function), None);
    assert_eq!(key_to_evdev(&Key::Unknown(7)), None);
}

#[test]
fn print_screen_is_sysrq_and_the_editing_keys_keep_their_codes() {
    assert_eq!(key_to_evdev(&Key::PrintScreen), Some(99));
    assert_eq!(key_to_evdev(&Key::Pause), Some(119));
    assert_eq!(key_to_evdev(&Key::Insert), Some(110));
    assert_eq!(key_to_evdev(&Key::Delete), Some(111));
}

#[test]
fn mouse_button_slots() {
    assert_eq!(button_to_idx(&MouseButton::Left), Some(0));
    assert_eq!(button_to_idx(&MouseButton::Middle), Some(1));
    assert_eq!(button_to_idx(&MouseButton::Right), Some(2));
    assert_eq!(button_to_idx(&MouseButton::Unknown(9)), None);
}

#[test]
fn key_codes_of_the_wiki_letter_table() {
    let table = [
        (Key::KeyA, 30), (Key::KeyB, 48), (Key::KeyC, 46), (Key::KeyD, 32), (Key::KeyE, 18),
        (Key::KeyF, 33), (Key::KeyG, 34), (Key::KeyH, 35), (Key::KeyI, 23), (Key::KeyJ, 36),
        (Key::KeyK, 37), (Key::KeyL, 38), (Key::KeyM, 50), (Key::KeyN, 49), (Key::KeyO, 24),
        (Key::KeyP, 25), (Key::KeyQ, 16), (Key::KeyR, 19), (Key::KeyS, 31), (Key::KeyT, 20),
        (Key::KeyU, 22), (Key::KeyV, 47), (Key::KeyW, 17), (Key::KeyX, 45), (Key::KeyY, 21),
        (Key::KeyZ, 44), (Key::Space, 57), (Key::ShiftLeft, 42), (Key::Return, 28), (Key::Escape, 1),
    ];
    for (key, code) in table {
        assert_eq!(key_to_evdev(&key), Some(code));
    }
}

#[test]
fn listener_state_holds_keys_until_release() {
    let mut s = ListenerKeyState::new();
    assert_eq!(s.keyboard_state.len(), KEY_CNT);
    assert_eq!(s.mouse_state.len(), BTN_CNT);
    s.key_event(&Key::KeyW, true);
    s.button_event(&MouseButton::Right, true);
    s.wheel(3);
    s.wheel(-2);
    assert!(s.keyboard_state[17]);
    assert!(s.mouse_state[2]);
    assert_eq!((s.scroll_up, s.scroll_down), (3, 2));
    s.begin_poll();
    assert!(s.keyboard_state[17]);
    assert_eq!((s.scroll_up, s.scroll_down), (0, 0));
    s.key_event(&Key::KeyW, false);
    s.key_event(&Key::Function, true);
    assert!(s.keyboard_state.iter().all(|k| !k));
}

#[test]
fn device_states_merge_keys_and_mouse_buttons() {
    let mut s = DeviceKeyStates::new(2);
    s.begin_poll();
    s.key_event(0, 30, 1);
    s.key_event(0, 0x110, 1);
    s.key_event(1, 57, 2);
    s.key_event(1, 58, 0);
    s.key_event(1, 5000, 1);
    s.wheel(1);
    s.wheel(-4);
    s.merge_device(0, &[]);
    s.merge_device(1, &[0x112, 40]);
    assert!(s.keyboard_state[30]);
    assert!(s.keyboard_state[57]);
    assert!(!s.keyboard_state[58]);
    assert!(!s.keyboard_state[0x110]);
    assert!(!s.keyboard_state[40]);
    assert!(s.mouse_state[0]);
    assert!(s.mouse_state[1]);
    assert!(!s.mouse_state[2]);
    assert_eq!((s.scroll_up, s.scroll_down), (1, 4));
    s.key_event(0, 30, 0);
    s.begin_poll();
    s.merge_device(0, &[]);
    assert!(!s.keyboard_state[30]);
    assert!(s.mouse_state[0]);
}

fn device(name: &str, keys: Option<Vec<u16>>, rel: Option<Vec<u16>>) -> InputDeviceInfo {
    InputDeviceInfo { name: name.to_string(), keys, relative_axes: rel }
}

#[test]
fn device_kinds() {
    assert!(is_kbm_device(&device("kb", Some(vec![1, 30]), None)));
    assert!(is_kbm_device(&device("mouse", Some(vec![0x111]), None)));
    assert!(!is_kbm_device(&device("power", Some(vec![116]), None)));
    assert!(!is_kbm_device(&device("none", None, None)));
    assert!(has_relative_axes(&device("m", None, Some(vec![0, 1]))));
    assert!(!has_relative_axes(&device("w", None, Some(vec![8]))));
}

#[test]
fn device_selection_keeps_first_of_each_name() {
    let devices = vec![
        device("Power Button", Some(vec![116]), None),
        device("Keyboard", Some(vec![30]), None),
        device("Power Button", Some(vec![30]), None),
        device("Keyboard", Some(vec![30]), None),
        device("Touchpad", None, Some(vec![0])),
        device("", Some(vec![0x110]), None),
    ];
    assert_eq!(select_input_devices(&devices), vec![1, 4, 5]);
}

#[test]
fn key_table_follows_the_last_event_on_each_key() {
    let mut s = ListenerKeyState::new();
    s.key_event(&Key::PrintScreen, true);
    s.key_event(&Key::KeyA, true);
    s.begin_poll();
    s.key_event(&Key::PrintScreen, false);
    s.begin_poll();
    s.key_event(&Key::PrintScreen, true);
    s.key_event(&Key::KeyA, false);
    s.begin_poll();
    assert!(s.keyboard_state[99]);
    assert!(!s.keyboard_state[30]);
    assert_eq!(s.keyboard_state.iter().filter(|k| **k).count(), 1);
}

#[test]
fn device_key_rows_follow_the_last_reported_value_across_polls() {
    let mut s = DeviceKeyStates::new(2);
    s.begin_poll();
    s.key_event(0, 30, 1);
    s.merge_device(0, &[]);
    s.key_event(1, 30, 0);
    s.key_event(1, 31, 2);
    s.merge_device(1, &[]);
    assert!(s.keyboard_state[30] && s.keyboard_state[31]);
    s.begin_poll();
    s.key_event(0, 30, 0);
    s.merge_device(0, &[]);
    s.merge_device(1, &[]);
    assert!(!s.keyboard_state[30]);
    assert!(s.keyboard_state[31]);
    s.begin_poll();
    s.key_event(1, 0x111, 1);
    s.merge_device(0, &[]);
    s.merge_device(1, &[]);
    assert!(!s.keyboard_state[0x111]);
    assert!(s.mouse_state[2]);
    assert_eq!(s.keyboard_state.iter().filter(|k| **k).count(), 1);
}

use scf_next::devices::{GamepadDeviceInfo, OpenAttempts};
use scf_next::slots::{DeviceSlots, PollSource};
use scf_next::state::{SafeJoystickPtr, SafePtr};

fn gp(slots: &DeviceSlots) -> usize {
    slots.gamepad.0
}

fn js(slots: &DeviceSlots) -> usize {
    slots.joystick.0
}

#[test]
fn empty_slots_read_the_blank_joystick() {
    let slots = DeviceSlots::empty();
    assert!(!slots.has_gamepad());
    assert!(!slots.has_joystick());
    match slots.source() {
        PollSource::Joystick(p) => assert_eq!(p.0, 0),
        PollSource::Gamepad(_) => panic!("no gamepad is open"),
    }
}

#[test]
fn opening_a_gamepad_closes_the_joystick() {
    let mut slots = DeviceSlots::empty();
    slots.joystick_opened(SafeJoystickPtr(0x20));
    assert!(slots.has_joystick());
    let closed = slots.gamepad_opened(SafePtr(0x10));
    assert_eq!(closed.map(|p| p.0), Some(0x20));
    assert_eq!(gp(&slots), 0x10);
    assert_eq!(js(&slots), 0);
    match slots.source() {
        PollSource::Gamepad(p) => assert_eq!(p.0, 0x10),
        PollSource::Joystick(_) => panic!("the gamepad is open"),
    }
}

#[test]
fn failed_gamepad_open_keeps_the_joystick() {
    let mut slots = DeviceSlots::empty();
    slots.joystick_opened(SafeJoystickPtr(0x20));
    let closed = slots.gamepad_opened(SafePtr(0));
    assert!(closed.is_none());
    assert_eq!(js(&slots), 0x20);
    match slots.source() {
        PollSource::Joystick(p) => assert_eq!(p.0, 0x20),
        PollSource::Gamepad(_) => panic!("no gamepad is open"),
    }
}

#[test]
fn lost_devices_are_given_back_once() {
    let mut slots = DeviceSlots::empty();
    slots.gamepad_opened(SafePtr(0x10));
    assert!(slots.drop_lost_gamepad(true).is_none());
    assert_eq!(gp(&slots), 0x10);
    assert_eq!(slots.drop_lost_gamepad(false).map(|p| p.0), Some(0x10));
    assert_eq!(gp(&slots), 0);
    assert!(slots.drop_lost_gamepad(false).is_none());

    slots.joystick_opened(SafeJoystickPtr(0x30));
    assert_eq!(slots.drop_lost_joystick(false).map(|p| p.0), Some(0x30));
    assert_eq!(js(&slots), 0);
}

#[test]
fn take_all_empties_both_slots() {
    let mut slots = DeviceSlots::empty();
    slots.joystick_opened(SafeJoystickPtr(0x30));
    let (g, j) = slots.take_all();
    assert!(g.is_none());
    assert_eq!(j.map(|p| p.0), Some(0x30));
    assert!(!slots.has_gamepad() && !slots.has_joystick());
}

fn dev(id: i32, vendor: u16, product: u16, is_gamepad: bool) -> GamepadDeviceInfo {
    GamepadDeviceInfo { instance_id: id, name: format!("dev{}", id), vendor, product, is_gamepad }
}

#[test]
fn attempts_hand_out_only_declared_devices_in_order() {
    let devices = vec![dev(1, 0x28de, 0x1304, true), dev(2, 0x045e, 0x02e0, true), dev(3, 0x045e, 0x02e0, false)];
    let pairs = vec![("045e".to_string(), "02e0".to_string())];
    let mut a = OpenAttempts::new(&devices, &pairs, false);
    assert!(a.last_device_ids().is_none());
    assert_eq!(a.next(), Some(2));
    assert_eq!(a.last_device_ids(), Some((0x045e, 0x02e0)));
    assert_eq!(a.next(), Some(3));
    assert_eq!(a.next(), None);
    let mut g = OpenAttempts::new(&devices, &pairs, true);
    assert_eq!(g.next(), Some(2));
    assert_eq!(g.next(), None);
    let mut first = OpenAttempts::new(&devices, &vec![], true);
    assert_eq!(first.next(), Some(1));
    assert_eq!(first.next(), None);
}

#[test]
fn devices_opened_from_attempts_keep_their_ids() {
    let devices = vec![dev(7, 0x057e, 0x2009, true)];
    let pairs = vec![("057e".to_string(), "2009".to_string())];
    let mut slots = DeviceSlots::empty();
    let mut js_attempts = OpenAttempts::new(&devices, &pairs, false);
    assert_eq!(js_attempts.next(), Some(7));
    slots.joystick_opened_from(SafeJoystickPtr(0x40), &js_attempts);
    assert_eq!(slots.joystick_ids, Some((0x057e, 0x2009)));
    let mut gp_attempts = OpenAttempts::new(&devices, &pairs, true);
    assert_eq!(gp_attempts.next(), Some(7));
    let closed = slots.gamepad_opened_from(SafePtr(0x50), &gp_attempts);
    assert_eq!(closed.map(|p| p.0), Some(0x40));
    assert_eq!(slots.gamepad_ids, Some((0x057e, 0x2009)));
    assert_eq!(slots.joystick_ids, None);
    assert!(slots.drop_lost_gamepad(false).is_some());
    assert_eq!(slots.gamepad_ids, None);
}

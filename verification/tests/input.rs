use luminous::remotedesktop::dispatch::{KeyEntry, Keymap, KeymapFormat};
use luminous::remotedesktop::remote_thread::{remote_loop, InputRequest};
use luminous::remotedesktop::state::{AppData, Axis, ButtonState, DeviceCall, Modifiers};
use luminous::utils::{signed, unsigned, Real};

fn keymap() -> Keymap {
    Keymap::new(vec![
        KeyEntry { keysym: 0x61, keycode: 38, level: 0 },
        KeyEntry { keysym: 0x41, keycode: 38, level: 1 },
        KeyEntry { keysym: 0x20ac, keycode: 26, level: 2 },
        KeyEntry { keysym: 0x99, keycode: 77, level: 3 },
        KeyEntry { keysym: 0x61, keycode: 99, level: 1 },
    ])
}

fn worker(origin_x: u32, origin_y: u32, width: u32, height: u32) -> AppData {
    AppData::new(keymap(), origin_x, origin_y, width, height)
}

fn measure(value: f64) -> Real {
    Real { bits: value.to_bits() }
}

fn modifiers(depressed: u32) -> DeviceCall {
    DeviceCall::Modifiers { depressed, latched: 0, locked: 0, group: 0 }
}

#[test]
fn caps_lock_toggles_on_press_only() {
    let mut data = worker(0, 0, 1920, 1080);
    let calls = data.notify_keyboard_keycode(58, 1);
    assert_eq!(data.mods, 2);
    assert_eq!(calls, vec![modifiers(2)]);
    let calls = data.notify_keyboard_keycode(58, 0);
    assert_eq!(data.mods, 2);
    assert!(calls.is_empty());
    let calls = data.notify_keyboard_keycode(58, 1);
    assert_eq!(data.mods, 0);
    assert_eq!(calls, vec![modifiers(0)]);
}

#[test]
fn absolute_motion_is_offset_by_the_origin() {
    let data = worker(100, 50, 1920, 1080);
    let calls = data.notify_pointer_motion_absolute(50, 25);
    assert_eq!(
        calls,
        vec![DeviceCall::MotionAbsolute { time: 10, x: 150, y: 75, x_extent: 1920, y_extent: 1080 }]
    );
}

#[test]
fn absolute_motion_at_the_edge_of_the_space() {
    let data = worker(100, 50, 1920, 1080);
    assert!(data.can_reach(u32::MAX - 100, u32::MAX - 50));
    assert!(!data.can_reach(u32::MAX - 99, 0));
    assert!(!data.can_reach(0, u32::MAX - 49));
    assert!(data.can_accept(&InputRequest::PointerMotionAbsolute { x: u32::MAX - 100, y: 0 }));
    assert!(!data.can_accept(&InputRequest::PointerMotionAbsolute { x: u32::MAX, y: 0 }));
    assert!(data.can_accept(&InputRequest::Exit));
    let calls = data.notify_pointer_motion_absolute(u32::MAX - 100, u32::MAX - 50);
    assert_eq!(
        calls,
        vec![DeviceCall::MotionAbsolute {
            time: 10,
            x: u32::MAX,
            y: u32::MAX,
            x_extent: 1920,
            y_extent: 1080
        }]
    );
}

#[test]
fn relative_motion_is_handed_on() {
    let data = worker(0, 0, 10, 10);
    let calls = data.notify_pointer_motion(measure(1.5), measure(-2.25));
    assert_eq!(calls, vec![DeviceCall::Motion { time: 10, dx: measure(1.5), dy: measure(-2.25) }]);
}

#[test]
fn button_state_zero_releases_and_others_press() {
    let data = worker(0, 0, 10, 10);
    assert_eq!(
        data.notify_pointer_button(272, 0),
        vec![DeviceCall::Button { time: 100, button: 272, state: ButtonState::Released }]
    );
    assert_eq!(
        data.notify_pointer_button(272, 1),
        vec![DeviceCall::Button { time: 100, button: 272, state: ButtonState::Pressed }]
    );
    assert_eq!(
        data.notify_pointer_button(273, 7),
        vec![DeviceCall::Button { time: 100, button: 273, state: ButtonState::Pressed }]
    );
    assert_eq!(
        data.notify_pointer_button(-1, u32::MAX),
        vec![DeviceCall::Button { time: 100, button: u32::MAX, state: ButtonState::Pressed }]
    );
}

#[test]
fn continuous_scroll_sends_both_axes() {
    let data = worker(0, 0, 10, 10);
    assert_eq!(
        data.notify_pointer_axis(measure(3.0), measure(4.0)),
        vec![
            DeviceCall::Axis { time: 100, axis: Axis::HorizontalScroll, value: measure(3.0) },
            DeviceCall::Axis { time: 100, axis: Axis::VerticalScroll, value: measure(4.0) },
        ]
    );
}

#[test]
fn discrete_scroll_axis_and_step_value() {
    let data = worker(0, 0, 10, 10);
    assert_eq!(
        data.notify_pointer_axis_discrete(0, 3),
        vec![DeviceCall::AxisDiscrete {
            time: 100,
            axis: Axis::VerticalScroll,
            value: measure(10.0),
            steps: 3
        }]
    );
    assert_eq!(
        data.notify_pointer_axis_discrete(1, -2),
        vec![DeviceCall::AxisDiscrete {
            time: 100,
            axis: Axis::HorizontalScroll,
            value: measure(10.0),
            steps: -2
        }]
    );
    assert_eq!(
        data.notify_pointer_axis_discrete(9, i32::MIN),
        vec![DeviceCall::AxisDiscrete {
            time: 100,
            axis: Axis::HorizontalScroll,
            value: measure(10.0),
            steps: i32::MIN
        }]
    );
}

#[test]
fn modifier_keycodes_and_bits() {
    let data = worker(0, 0, 10, 10);
    let table: [(i32, Modifiers, u32); 9] = [
        (42, Modifiers::Shift, 1),
        (54, Modifiers::Shift, 1),
        (58, Modifiers::CapsLock, 2),
        (29, Modifiers::Ctrl, 4),
        (97, Modifiers::Ctrl, 4),
        (56, Modifiers::Alt, 8),
        (125, Modifiers::Super, 64),
        (126, Modifiers::Super, 64),
        (100, Modifiers::AltGr, 128),
    ];
    for (keycode, modifier, bits) in table {
        assert_eq!(data.get_modifier_from_keycode(keycode), Some(modifier));
        assert_eq!(modifier.bits(), bits);
    }
    assert_eq!(data.get_modifier_from_keycode(30), None);
    assert_eq!(data.get_modifier_from_keycode(0), None);
    assert_eq!(data.get_modifier_from_keycode(-42), None);
}

#[test]
fn other_modifiers_set_on_press_and_clear_on_release() {
    let mut data = worker(0, 0, 10, 10);
    assert_eq!(data.notify_keyboard_keycode(42, 1), vec![modifiers(1)]);
    assert_eq!(data.notify_keyboard_keycode(29, 1), vec![modifiers(5)]);
    assert_eq!(data.notify_keyboard_keycode(29, 1), vec![modifiers(5)]);
    assert_eq!(data.notify_keyboard_keycode(100, 1), vec![modifiers(133)]);
    assert_eq!(data.notify_keyboard_keycode(54, 0), vec![modifiers(132)]);
    assert_eq!(data.notify_keyboard_keycode(54, 0), vec![modifiers(132)]);
    assert_eq!(data.notify_keyboard_keycode(97, 2), vec![modifiers(128)]);
    assert_eq!(data.notify_keyboard_keycode(125, 1), vec![modifiers(192)]);
    assert_eq!(data.notify_keyboard_keycode(56, 1), vec![modifiers(200)]);
    assert_eq!(data.mods, 200);
}

#[test]
fn plain_key_is_sent_as_it_is() {
    let mut data = worker(0, 0, 10, 10);
    data.notify_keyboard_keycode(42, 1);
    assert_eq!(
        data.notify_keyboard_keycode(30, 1),
        vec![DeviceCall::Key { time: 100, key: 30, state: 1 }]
    );
    assert_eq!(
        data.notify_keyboard_keycode(30, 0),
        vec![DeviceCall::Key { time: 100, key: 30, state: 0 }]
    );
    assert_eq!(
        data.notify_keyboard_keycode(-1, 1),
        vec![DeviceCall::Key { time: 100, key: u32::MAX, state: 1 }]
    );
    assert_eq!(data.mods, 1);
}

#[test]
fn keysym_resolves_to_first_entry() {
    let map = keymap();
    assert_eq!(map.resolve(0x61), Some((38, 0)));
    assert_eq!(map.resolve(0x41), Some((38, 1)));
    assert_eq!(map.resolve(0x20ac), Some((26, 2)));
    assert_eq!(map.resolve(0x99), None);
    assert_eq!(map.resolve(0x62), None);
    assert_eq!(Keymap::new(Vec::new()).resolve(0x61), None);
}

#[test]
fn keysym_levels_wrap_the_key_in_modifiers() {
    let mut data = worker(0, 0, 10, 10);
    data.notify_keyboard_keycode(29, 1);
    assert_eq!(
        data.notify_keyboard_keysym(0x61, 1),
        vec![DeviceCall::Key { time: 100, key: 38, state: 1 }]
    );
    assert_eq!(
        data.notify_keyboard_keysym(0x41, 1),
        vec![modifiers(5), DeviceCall::Key { time: 100, key: 38, state: 1 }, modifiers(4)]
    );
    assert_eq!(
        data.notify_keyboard_keysym(0x20ac, 0),
        vec![modifiers(132), DeviceCall::Key { time: 100, key: 26, state: 0 }, modifiers(4)]
    );
    assert!(data.notify_keyboard_keysym(0x99, 1).is_empty());
    assert!(data.notify_keyboard_keysym(-5, 1).is_empty());
    assert_eq!(data.mods, 4);
}

#[test]
fn emit_resolved_for_each_level() {
    let data = worker(0, 0, 10, 10);
    assert!(data.emit_resolved(None, 1).is_empty());
    assert_eq!(
        data.emit_resolved(Some((7, 0)), 1),
        vec![DeviceCall::Key { time: 100, key: 7, state: 1 }]
    );
    assert_eq!(
        data.emit_resolved(Some((7, 1)), 1),
        vec![modifiers(1), DeviceCall::Key { time: 100, key: 7, state: 1 }, modifiers(0)]
    );
    assert_eq!(
        data.emit_resolved(Some((7, 2)), 1),
        vec![modifiers(128), DeviceCall::Key { time: 100, key: 7, state: 1 }, modifiers(0)]
    );
}

#[test]
fn batch_runs_in_order_and_stops_at_exit() {
    let mut data = worker(100, 50, 1920, 1080);
    let requests = vec![
        InputRequest::KeyboardKeycode { keycode: 42, state: 1 },
        InputRequest::PointerMotionAbsolute { x: 50, y: 25 },
        InputRequest::TouchDown { slot: 0, x: measure(1.0), y: measure(1.0) },
        InputRequest::KeyboardKeycode { keycode: 30, state: 1 },
        InputRequest::Exit,
        InputRequest::KeyboardKeycode { keycode: 58, state: 1 },
    ];
    let turn = remote_loop(&mut data, &requests);
    assert!(turn.exit);
    assert_eq!(
        turn.calls,
        vec![
            modifiers(1),
            DeviceCall::MotionAbsolute {
                time: 10,
                x: 150,
                y: 75,
                x_extent: 1920,
                y_extent: 1080
            },
            DeviceCall::Key { time: 100, key: 30, state: 1 },
        ]
    );
    assert_eq!(data.mods, 1);
}

#[test]
fn batch_without_exit_goes_on() {
    let mut data = worker(0, 0, 10, 10);
    let turn = remote_loop(&mut data, &Vec::new());
    assert!(!turn.exit);
    assert!(turn.calls.is_empty());
    let first = vec![InputRequest::KeyboardKeycode { keycode: 58, state: 1 }];
    let second = vec![
        InputRequest::KeyboardKeycode { keycode: 58, state: 0 },
        InputRequest::KeyboardKeycode { keycode: 58, state: 1 },
    ];
    let one = remote_loop(&mut data, &first);
    assert_eq!(one.calls, vec![modifiers(2)]);
    let two = remote_loop(&mut data, &second);
    assert_eq!(two.calls, vec![modifiers(0)]);
    assert!(!two.exit);

    let mut whole = worker(0, 0, 10, 10);
    let mut both = first.clone();
    both.extend(second.iter().copied());
    let all = remote_loop(&mut whole, &both);
    assert_eq!(all.calls, vec![modifiers(2), modifiers(0)]);
    assert_eq!(whole.mods, data.mods);
}

#[test]
fn handle_touch_and_exit_send_nothing() {
    let mut data = worker(0, 0, 10, 10);
    assert!(data.handle(&InputRequest::TouchUp { slot: 1 }).is_empty());
    assert!(data.handle(&InputRequest::TouchMotion { slot: 1, x: measure(0.0), y: measure(0.0) }).is_empty());
    assert!(data.handle(&InputRequest::Exit).is_empty());
    assert_eq!(
        data.handle(&InputRequest::PointerButton { button: 1, state: 0 }),
        vec![DeviceCall::Button { time: 100, button: 1, state: ButtonState::Released }]
    );
    assert_eq!(
        data.handle(&InputRequest::PointerAxisDiscrate { axis: 0, steps: 1 }),
        vec![DeviceCall::AxisDiscrete {
            time: 100,
            axis: Axis::VerticalScroll,
            value: measure(10.0),
            steps: 1
        }]
    );
}

#[test]
fn keymap_event_replaces_the_keymap() {
    let mut data = worker(0, 0, 10, 10);
    assert!(!data.event(KeymapFormat::NoKeymap, Some(Keymap::new(Vec::new()))));
    assert_eq!(data.keymap.entries.len(), 5);
    assert!(!data.event(KeymapFormat::Unknown, None));
    assert!(data.event(KeymapFormat::XkbV1, None));
    assert_eq!(data.keymap.entries.len(), 5);
    let fresh = Keymap::new(vec![KeyEntry { keysym: 1, keycode: 2, level: 0 }]);
    assert!(data.event(KeymapFormat::XkbV1, Some(fresh)));
    assert_eq!(data.keymap.resolve(1), Some((2, 0)));
    assert_eq!(data.keymap.resolve(0x61), None);
}

#[test]
fn signed_and_unsigned_readings() {
    assert_eq!(unsigned(0), 0);
    assert_eq!(unsigned(-1), u32::MAX);
    assert_eq!(unsigned(i32::MIN), 0x8000_0000);
    assert_eq!(unsigned(i32::MAX), 0x7fff_ffff);
    assert_eq!(signed(0x8000_0000), i32::MIN);
    assert_eq!(signed(u32::MAX), -1);
    assert_eq!(signed(5), 5);
    assert_eq!(signed(unsigned(-77)), -77);
}

#[test]
fn entries_from_xkb_codes() {
    assert_eq!(KeyEntry::from_xkb(38, 0, 0x61), Some(KeyEntry { keysym: 0x61, keycode: 30, level: 0 }));
    assert_eq!(KeyEntry::from_xkb(8, 2, 7), Some(KeyEntry { keysym: 7, keycode: 0, level: 2 }));
    assert_eq!(KeyEntry::from_xkb(7, 0, 7), None);
    assert_eq!(KeyEntry::from_xkb(0, 0, 7), None);
    assert_eq!(KeyEntry::from_xkb(38, 3, 7), None);
    assert_eq!(
        KeyEntry::from_xkb(u32::MAX, 1, u32::MAX),
        Some(KeyEntry { keysym: u32::MAX, keycode: u32::MAX - 8, level: 1 })
    );
}

use luminous::remotedesktop::eis_server::{
    decode_request, handle_request_source_event, seat_capabilities, start, Client, ContextState,
    DeviceCapability, DeviceKind, EisRequest, EisServerMsg, LoopAction, NewDevice, PostAction,
    SourceEvent,
};
use luminous::remotedesktop::remote_thread::InputRequest;
use luminous::utils::Real;

fn measure(value: f64) -> Real {
    Real { bits: value.to_bits() }
}

#[test]
fn scroll_discrete_gives_horizontal_then_vertical() {
    assert_eq!(
        decode_request(&EisRequest::ScrollDiscrete { discrete_dx: 2, discrete_dy: -3 }),
        vec![
            InputRequest::PointerAxisDiscrate { axis: 1, steps: 2 },
            InputRequest::PointerAxisDiscrate { axis: 0, steps: -3 },
        ]
    );
    assert_eq!(
        decode_request(&EisRequest::ScrollDiscrete { discrete_dx: 0, discrete_dy: 5 }),
        vec![InputRequest::PointerAxisDiscrate { axis: 0, steps: 5 }]
    );
    assert_eq!(
        decode_request(&EisRequest::ScrollDiscrete { discrete_dx: 4, discrete_dy: 0 }),
        vec![InputRequest::PointerAxisDiscrate { axis: 1, steps: 4 }]
    );
    assert!(decode_request(&EisRequest::ScrollDiscrete { discrete_dx: 0, discrete_dy: 0 }).is_empty());
}

#[test]
fn client_requests_become_input_requests() {
    assert_eq!(
        decode_request(&EisRequest::PointerMotion { dx: measure(1.0), dy: measure(2.0) }),
        vec![InputRequest::PointerMotion { dx: measure(1.0), dy: measure(2.0) }]
    );
    assert_eq!(
        decode_request(&EisRequest::PointerMotionAbsolute { x: 3, y: 4 }),
        vec![InputRequest::PointerMotionAbsolute { x: 3, y: 4 }]
    );
    assert_eq!(
        decode_request(&EisRequest::Button { button: 272, state: 1 }),
        vec![InputRequest::PointerButton { button: 272, state: 1 }]
    );
    assert_eq!(
        decode_request(&EisRequest::Button { button: u32::MAX, state: 0 }),
        vec![InputRequest::PointerButton { button: -1, state: 0 }]
    );
    assert_eq!(
        decode_request(&EisRequest::ScrollDelta { dx: measure(0.5), dy: measure(0.25) }),
        vec![InputRequest::PointerAxis { dx: measure(0.5), dy: measure(0.25) }]
    );
    assert_eq!(
        decode_request(&EisRequest::KeyboardKey { key: 30, state: 1 }),
        vec![InputRequest::KeyboardKeycode { keycode: 30, state: 1 }]
    );
    assert_eq!(
        decode_request(&EisRequest::TouchDown { touch_id: 1, x: measure(1.0), y: measure(2.0) }),
        vec![InputRequest::TouchDown { slot: 1, x: measure(1.0), y: measure(2.0) }]
    );
    assert_eq!(
        decode_request(&EisRequest::TouchMotion { touch_id: 1, x: measure(1.0), y: measure(2.0) }),
        vec![InputRequest::TouchMotion { slot: 1, x: measure(1.0), y: measure(2.0) }]
    );
    assert_eq!(
        decode_request(&EisRequest::TouchUp { touch_id: 9 }),
        vec![InputRequest::TouchUp { slot: 9 }]
    );
    assert!(decode_request(&EisRequest::Other).is_empty());
    assert!(decode_request(&EisRequest::Disconnect).is_empty());
}

#[test]
fn bind_creates_each_device_once() {
    let mut state = ContextState::new();
    let bind = EisRequest::Bind { keyboard: true, pointer: true, touch: false, pointer_absolute: true };
    let (action, devices) = state.handle_request(true, &bind);
    assert_eq!(action, PostAction::Continue);
    assert_eq!(
        devices,
        vec![
            NewDevice { kind: DeviceKind::Keyboard, start_emulating: Some(1) },
            NewDevice { kind: DeviceKind::Pointer, start_emulating: Some(2) },
            NewDevice { kind: DeviceKind::PointerAbsolute, start_emulating: Some(3) },
        ]
    );
    assert_eq!(state.sequence, 3);
    let all = EisRequest::Bind { keyboard: true, pointer: true, touch: true, pointer_absolute: true };
    let (_, devices) = state.handle_request(true, &all);
    assert_eq!(devices, vec![NewDevice { kind: DeviceKind::Touch, start_emulating: Some(4) }]);
    let (_, devices) = state.handle_request(true, &all);
    assert!(devices.is_empty());
    assert_eq!(state.sequence, 4);
}

#[test]
fn bind_of_a_sender_does_not_start_emulating() {
    let mut state = ContextState::new();
    let bind = EisRequest::Bind { keyboard: false, pointer: true, touch: true, pointer_absolute: false };
    let (_, devices) = state.handle_request(false, &bind);
    assert_eq!(
        devices,
        vec![
            NewDevice { kind: DeviceKind::Pointer, start_emulating: None },
            NewDevice { kind: DeviceKind::Touch, start_emulating: None },
        ]
    );
    assert_eq!(state.sequence, 0);
    assert!(state.device_pointer && state.device_touch);
    assert!(!state.device_keyboard && !state.device_pointer_absolute);
}

#[test]
fn disconnect_removes_the_client() {
    let mut state = ContextState::new();
    let (action, devices) = state.handle_request(true, &EisRequest::Disconnect);
    assert_eq!(action, PostAction::Remove);
    assert!(devices.is_empty());
    let (action, _) = state.handle_request(true, &EisRequest::Other);
    assert_eq!(action, PostAction::Continue);
}

#[test]
fn device_kinds_names_and_capabilities() {
    assert_eq!(DeviceKind::Keyboard.name(), "keyboard");
    assert_eq!(DeviceKind::Pointer.name(), "pointer");
    assert_eq!(DeviceKind::Touch.name(), "touch");
    assert_eq!(DeviceKind::PointerAbsolute.name(), "pointer-abs");
    assert_eq!(DeviceKind::Keyboard.capabilities(), vec![DeviceCapability::Keyboard]);
    assert_eq!(
        DeviceKind::Pointer.capabilities(),
        vec![DeviceCapability::Pointer, DeviceCapability::Button, DeviceCapability::Scroll]
    );
    assert_eq!(DeviceKind::Touch.capabilities(), vec![DeviceCapability::Touch]);
    assert_eq!(
        DeviceKind::PointerAbsolute.capabilities(),
        vec![DeviceCapability::PointerAbsolute, DeviceCapability::Button, DeviceCapability::Scroll]
    );
    assert_eq!(
        seat_capabilities(),
        vec![
            DeviceCapability::Pointer,
            DeviceCapability::PointerAbsolute,
            DeviceCapability::Keyboard,
            DeviceCapability::Touch,
            DeviceCapability::Scroll,
            DeviceCapability::Button,
        ]
    );
}

#[test]
fn source_events_are_tagged_with_the_session() {
    let mut state = ContextState::new();
    let handle = "/p/s1".to_string();
    let connected = handle_request_source_event(&mut state, true, SourceEvent::Connected, &handle);
    assert!(connected.add_seat);
    assert!(connected.flush);
    assert!(connected.events.is_empty());
    assert_eq!(connected.action, PostAction::Continue);

    let request = SourceEvent::Request(EisRequest::ScrollDiscrete { discrete_dx: 1, discrete_dy: 2 });
    let reaction = handle_request_source_event(&mut state, true, request, &handle);
    assert!(!reaction.add_seat);
    assert_eq!(reaction.events.len(), 2);
    assert_eq!(reaction.events[0].session_handle, "/p/s1");
    assert_eq!(reaction.events[0].request, InputRequest::PointerAxisDiscrate { axis: 1, steps: 1 });
    assert_eq!(reaction.events[1].session_handle, "/p/s1");
    assert_eq!(reaction.events[1].request, InputRequest::PointerAxisDiscrate { axis: 0, steps: 2 });
    assert!(reaction.flush);

    let bind = SourceEvent::Request(EisRequest::Bind {
        keyboard: true,
        pointer: false,
        touch: false,
        pointer_absolute: false,
    });
    let reaction = handle_request_source_event(&mut state, true, bind, &handle);
    assert!(reaction.events.is_empty());
    assert_eq!(
        reaction.devices,
        vec![NewDevice { kind: DeviceKind::Keyboard, start_emulating: Some(1) }]
    );

    let gone = handle_request_source_event(
        &mut state,
        true,
        SourceEvent::Request(EisRequest::Disconnect),
        &handle,
    );
    assert_eq!(gone.action, PostAction::Remove);
    assert!(!gone.flush);

    let invalid = handle_request_source_event(&mut state, true, SourceEvent::InvalidObject, &handle);
    assert_eq!(invalid.action, PostAction::Continue);
    assert!(invalid.flush);
    assert!(invalid.events.is_empty() && invalid.devices.is_empty());
}

#[test]
fn listener_table_follows_the_messages() {
    let mut clients: Vec<Client> = Vec::new();
    assert_eq!(
        start(&mut clients, EisServerMsg::StopListener("/p/s1".to_string())),
        LoopAction::Nothing
    );
    assert_eq!(
        start(&mut clients, EisServerMsg::NewListener(7, "/p/s1".to_string())),
        LoopAction::Nothing
    );
    assert_eq!(
        start(&mut clients, EisServerMsg::NewListener(8, "/p/s2".to_string())),
        LoopAction::Nothing
    );
    assert_eq!(clients.len(), 2);
    assert_eq!(
        start(&mut clients, EisServerMsg::StopListener("/p/s1".to_string())),
        LoopAction::Disable(7)
    );
    assert_eq!(
        start(&mut clients, EisServerMsg::ActiveListener("/p/s2".to_string())),
        LoopAction::Enable(8)
    );
    assert_eq!(
        start(&mut clients, EisServerMsg::NewListener(9, "/p/s1".to_string())),
        LoopAction::Nothing
    );
    assert_eq!(clients.len(), 2);
    assert_eq!(clients[0].token, 9);
    assert_eq!(
        start(&mut clients, EisServerMsg::RemoveListener("/p/s1".to_string())),
        LoopAction::Remove(9)
    );
    assert_eq!(clients.len(), 1);
    assert_eq!(clients[0].session_handle, "/p/s2");
    assert_eq!(
        start(&mut clients, EisServerMsg::RemoveListener("/p/s1".to_string())),
        LoopAction::Nothing
    );
    assert_eq!(
        start(&mut clients, EisServerMsg::ActiveListener("/p/s1".to_string())),
        LoopAction::Nothing
    );
}

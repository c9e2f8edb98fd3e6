//! The emulated-input server: what a client's requests mean as input
//! events, which devices a binding client is given, and the table of
//! listeners by session.

use vstd::prelude::*;
use crate::registry::{absent, distinct_handles, first_at, lemma_push_distinct, position, Handled};
use crate::remotedesktop::remote_thread::InputRequest;
use crate::utils::{signed, spec_signed, Real};

verus! {

/// What a device of the emulated-input protocol can do.
#[derive(Clone, Copy, Debug, PartialEq, Eq, Structural)]
pub enum DeviceCapability {
    /// Relative pointer motion.
    Pointer,
    /// Absolute pointer motion.
    PointerAbsolute,
    /// Keys.
    Keyboard,
    /// Touches.
    Touch,
    /// Scrolling.
    Scroll,
    /// Buttons.
    Button,
}

/// A device that the server can give a client.
#[derive(Clone, Copy, Debug, PartialEq, Eq, Structural)]
pub enum DeviceKind {
    /// The keyboard.
    Keyboard,
    /// The relative pointer, with buttons and scrolling.
    Pointer,
    /// The touch screen.
    Touch,
    /// The absolute pointer, with buttons and scrolling.
    PointerAbsolute,
}

impl DeviceKind {
    /// What a device of this kind can do.
    pub open spec fn spec_capabilities(self) -> Seq<DeviceCapability> {
        match self {
            DeviceKind::Keyboard => seq![DeviceCapability::Keyboard],
            DeviceKind::Pointer => seq![
                DeviceCapability::Pointer,
                DeviceCapability::Button,
                DeviceCapability::Scroll,
            ],
            DeviceKind::Touch => seq![DeviceCapability::Touch],
            DeviceKind::PointerAbsolute => seq![
                DeviceCapability::PointerAbsolute,
                DeviceCapability::Button,
                DeviceCapability::Scroll,
            ],
        }
    }

    /// What a device of this kind can do.
    pub fn capabilities(self) -> (list: Vec<DeviceCapability>)
        ensures
            list@ == self.spec_capabilities(),
    {
        match self {
            DeviceKind::Keyboard => vec![DeviceCapability::Keyboard],
            DeviceKind::Pointer => vec![
                DeviceCapability::Pointer,
                DeviceCapability::Button,
                DeviceCapability::Scroll,
            ],
            DeviceKind::Touch => vec![DeviceCapability::Touch],
            DeviceKind::PointerAbsolute => vec![
                DeviceCapability::PointerAbsolute,
                DeviceCapability::Button,
                DeviceCapability::Scroll,
            ],
        }
    }

    /// The name under which a device of this kind is announced.
    pub fn name(self) -> (name: &'static str)
        ensures
            name@ == match self {
                DeviceKind::Keyboard => "keyboard"@,
                DeviceKind::Pointer => "pointer"@,
                DeviceKind::Touch => "touch"@,
                DeviceKind::PointerAbsolute => "pointer-abs"@,
            },
    {
        match self {
            DeviceKind::Keyboard => "keyboard",
            DeviceKind::Pointer => "pointer",
            DeviceKind::Touch => "touch",
            DeviceKind::PointerAbsolute => "pointer-abs",
        }
    }
}

/// What a seat offers to every client that connects.
pub fn seat_capabilities() -> (list: Vec<DeviceCapability>)
    ensures
        list@ == seq![
            DeviceCapability::Pointer,
            DeviceCapability::PointerAbsolute,
            DeviceCapability::Keyboard,
            DeviceCapability::Touch,
            DeviceCapability::Scroll,
            DeviceCapability::Button,
        ],
{
    vec![
        DeviceCapability::Pointer,
        DeviceCapability::PointerAbsolute,
        DeviceCapability::Keyboard,
        DeviceCapability::Touch,
        DeviceCapability::Scroll,
        DeviceCapability::Button,
    ]
}

/// A request of an emulated-input client, as far as the server reads it.
#[derive(Clone, Copy, Debug, PartialEq, Eq, Structural)]
pub enum EisRequest {
    /// The client leaves.
    Disconnect,
    /// The client binds to the seat and names the capabilities it wants.
    Bind { keyboard: bool, pointer: bool, touch: bool, pointer_absolute: bool },
    /// Relative pointer motion.
    PointerMotion { dx: Real, dy: Real },
    /// Absolute pointer motion.
    PointerMotionAbsolute { x: u32, y: u32 },
    /// A button went down or up.
    Button { button: u32, state: u32 },
    /// Scrolling by a distance.
    ScrollDelta { dx: Real, dy: Real },
    /// Scrolling by steps.
    ScrollDiscrete { discrete_dx: i32, discrete_dy: i32 },
    /// A key went down or up.
    KeyboardKey { key: u32, state: u32 },
    /// A finger touched the screen.
    TouchDown { touch_id: u32, x: Real, y: Real },
    /// A finger moved on the screen.
    TouchMotion { touch_id: u32, x: Real, y: Real },
    /// A finger left the screen.
    TouchUp { touch_id: u32 },
    /// Any other request.
    Other,
}

/// An input request on its way to the worker of one session.
pub struct InputEvent {
    /// The session the event came in for.
    pub session_handle: String,
    /// What the session's worker is asked to do.
    pub request: InputRequest,
}

/// The input requests that one client request stands for, in order.
/// Scrolling by steps gives the horizontal steps first, then the vertical
/// ones, each only where it is not zero.
pub open spec fn spec_requests(request: EisRequest) -> Seq<InputRequest> {
    match request {
        EisRequest::PointerMotion { dx, dy } => seq![InputRequest::PointerMotion { dx, dy }],
        EisRequest::PointerMotionAbsolute { x, y } => seq![
            InputRequest::PointerMotionAbsolute { x, y },
        ],
        EisRequest::Button { button, state } => seq![
            InputRequest::PointerButton { button: spec_signed(button), state },
        ],
        EisRequest::ScrollDelta { dx, dy } => seq![InputRequest::PointerAxis { dx, dy }],
        EisRequest::ScrollDiscrete { discrete_dx, discrete_dy } => {
            let across = if discrete_dx != 0 {
                seq![InputRequest::PointerAxisDiscrate { axis: 1, steps: discrete_dx }]
            } else {
                Seq::empty()
            };
            let down = if discrete_dy != 0 {
                seq![InputRequest::PointerAxisDiscrate { axis: 0, steps: discrete_dy }]
            } else {
                Seq::empty()
            };
            across + down
        },
        EisRequest::KeyboardKey { key, state } => seq![
            InputRequest::KeyboardKeycode { keycode: spec_signed(key), state },
        ],
        EisRequest::TouchDown { touch_id, x, y } => seq![
            InputRequest::TouchDown { slot: touch_id, x, y },
        ],
        EisRequest::TouchMotion { touch_id, x, y } => seq![
            InputRequest::TouchMotion { slot: touch_id, x, y },
        ],
        EisRequest::TouchUp { touch_id } => seq![InputRequest::TouchUp { slot: touch_id }],
        _ => Seq::empty(),
    }
}

/// The input requests that one client request stands for.
pub fn decode_request(request: &EisRequest) -> (requests: Vec<InputRequest>)
    ensures
        requests@ == spec_requests(*request),
{
    match request {
        EisRequest::PointerMotion { dx, dy } => vec![
            InputRequest::PointerMotion { dx: *dx, dy: *dy },
        ],
        EisRequest::PointerMotionAbsolute { x, y } => vec![
            InputRequest::PointerMotionAbsolute { x: *x, y: *y },
        ],
        EisRequest::Button { button, state } => vec![
            InputRequest::PointerButton { button: signed(*button), state: *state },
        ],
        EisRequest::ScrollDelta { dx, dy } => vec![InputRequest::PointerAxis { dx: *dx, dy: *dy }],
        EisRequest::ScrollDiscrete { discrete_dx, discrete_dy } => {
            let mut requests: Vec<InputRequest> = Vec::new();
            if *discrete_dx != 0 {
                requests.push(InputRequest::PointerAxisDiscrate { axis: 1, steps: *discrete_dx });
            }
            if *discrete_dy != 0 {
                requests.push(InputRequest::PointerAxisDiscrate { axis: 0, steps: *discrete_dy });
            }
            proof {
                assert(requests@ =~= spec_requests(*request));
            }
            requests
        },
        EisRequest::KeyboardKey { key, state } => vec![
            InputRequest::KeyboardKeycode { keycode: signed(*key), state: *state },
        ],
        EisRequest::TouchDown { touch_id, x, y } => vec![
            InputRequest::TouchDown { slot: *touch_id, x: *x, y: *y },
        ],
        EisRequest::TouchMotion { touch_id, x, y } => vec![
            InputRequest::TouchMotion { slot: *touch_id, x: *x, y: *y },
        ],
        EisRequest::TouchUp { touch_id } => vec![InputRequest::TouchUp { slot: *touch_id }],
        _ => Vec::new(),
    }
}

/// What the event loop does with a client after a request.
#[derive(Clone, Copy, Debug, PartialEq, Eq, Structural)]
pub enum PostAction {
    /// Keep the client.
    Continue,
    /// Drop the client.
    Remove,
}

/// A device to create for a client.
#[derive(Clone, Copy, Debug, PartialEq, Eq, Structural)]
pub struct NewDevice {
    /// Which device.
    pub kind: DeviceKind,
    /// The sequence number to start emulating with, where the client is a
    /// receiver.
    pub start_emulating: Option<u32>,
}

/// What the server remembers of one client.
#[derive(Clone, Copy, Debug, PartialEq, Eq, Structural)]
pub struct ContextState {
    /// Whether the client has the keyboard.
    pub device_keyboard: bool,
    /// Whether the client has the relative pointer.
    pub device_pointer: bool,
    /// Whether the client has the absolute pointer.
    pub device_pointer_absolute: bool,
    /// Whether the client has the touch screen.
    pub device_touch: bool,
    /// The last sequence number given out.
    pub sequence: u32,
}

/// 1 where the flag is set, else 0.
pub open spec fn one_if(flag: bool) -> int {
    if flag {
        1
    } else {
        0
    }
}

impl ContextState {
    /// How many devices the client has.
    pub open spec fn device_count(self) -> int {
        one_if(self.device_keyboard) + one_if(self.device_pointer) + one_if(
            self.device_pointer_absolute,
        ) + one_if(self.device_touch)
    }

    /// No more sequence numbers were given out than devices.
    pub open spec fn wf(self) -> bool {
        self.sequence <= self.device_count()
    }

    /// The state after giving the client a device of `kind`, which it
    /// lacked.
    pub open spec fn with_device(self, kind: DeviceKind, receiver: bool) -> ContextState {
        ContextState {
            device_keyboard: self.device_keyboard || kind == DeviceKind::Keyboard,
            device_pointer: self.device_pointer || kind == DeviceKind::Pointer,
            device_pointer_absolute: self.device_pointer_absolute || kind
                == DeviceKind::PointerAbsolute,
            device_touch: self.device_touch || kind == DeviceKind::Touch,
            sequence: if receiver {
                (self.sequence + 1) as u32
            } else {
                self.sequence
            },
        }
    }

    /// Whether the client has a device of `kind`.
    pub open spec fn has(self, kind: DeviceKind) -> bool {
        match kind {
            DeviceKind::Keyboard => self.device_keyboard,
            DeviceKind::Pointer => self.device_pointer,
            DeviceKind::Touch => self.device_touch,
            DeviceKind::PointerAbsolute => self.device_pointer_absolute,
        }
    }

    /// The state and the devices made after the client asked for a device
    /// of `kind` (`wanted`), given what was made before.  A device is made
    /// once: where the client has it already, nothing happens.
    pub open spec fn offer(
        step: (ContextState, Seq<NewDevice>),
        kind: DeviceKind,
        wanted: bool,
        receiver: bool,
    ) -> (ContextState, Seq<NewDevice>) {
        if wanted && !step.0.has(kind) {
            let next = step.0.with_device(kind, receiver);
            (
                next,
                step.1.push(
                    NewDevice {
                        kind,
                        start_emulating: if receiver {
                            Some(next.sequence)
                        } else {
                            None
                        },
                    },
                ),
            )
        } else {
            step
        }
    }

    /// The state and the devices made after a request.  Only a bind makes
    /// devices: keyboard, pointer, touch screen and absolute pointer, in
    /// this order.
    pub open spec fn after(self, receiver: bool, request: EisRequest) -> (
        ContextState,
        Seq<NewDevice>,
    ) {
        match request {
            EisRequest::Bind { keyboard, pointer, touch, pointer_absolute } => {
                let a = Self::offer((self, Seq::empty()), DeviceKind::Keyboard, keyboard, receiver);
                let b = Self::offer(a, DeviceKind::Pointer, pointer, receiver);
                let c = Self::offer(b, DeviceKind::Touch, touch, receiver);
                Self::offer(c, DeviceKind::PointerAbsolute, pointer_absolute, receiver)
            },
            _ => (self, Seq::empty()),
        }
    }

    /// Tests whether no more sequence numbers were given out than
    /// devices.
    pub fn is_wf(&self) -> (ok: bool)
        ensures
            ok == self.wf(),
    {
        let mut count: u32 = 0;
        if self.device_keyboard {
            count = count + 1;
        }
        if self.device_pointer {
            count = count + 1;
        }
        if self.device_pointer_absolute {
            count = count + 1;
        }
        if self.device_touch {
            count = count + 1;
        }
        self.sequence <= count
    }

    /// The state of a client that has just connected.
    pub fn new() -> (state: ContextState)
        ensures
            state.wf(),
            state.device_count() == 0,
            state.sequence == 0,
    {
        ContextState {
            device_keyboard: false,
            device_pointer: false,
            device_pointer_absolute: false,
            device_touch: false,
            sequence: 0,
        }
    }

    fn add_device(&mut self, kind: DeviceKind, wanted: bool, receiver: bool, made: &mut Vec<
        NewDevice,
    >)
        requires
            old(self).wf(),
        ensures
            final(self).wf(),
            (*final(self), final(made)@) == Self::offer((*old(self), old(made)@), kind, wanted, receiver),
    {
        let present = match kind {
            DeviceKind::Keyboard => self.device_keyboard,
            DeviceKind::Pointer => self.device_pointer,
            DeviceKind::Touch => self.device_touch,
            DeviceKind::PointerAbsolute => self.device_pointer_absolute,
        };
        if wanted && !present {
            match kind {
                DeviceKind::Keyboard => {
                    self.device_keyboard = true;
                },
                DeviceKind::Pointer => {
                    self.device_pointer = true;
                },
                DeviceKind::Touch => {
                    self.device_touch = true;
                },
                DeviceKind::PointerAbsolute => {
                    self.device_pointer_absolute = true;
                },
            }
            let start_emulating = if receiver {
                self.sequence = self.sequence + 1;
                Some(self.sequence)
            } else {
                None
            };
            made.push(NewDevice { kind, start_emulating });
        }
    }

    /// Takes one request of the client.  A disconnect drops the client; a
    /// bind creates the devices that the client asked for and lacks, each
    /// with the next sequence number where the client is a receiver.
    pub fn handle_request(&mut self, receiver: bool, request: &EisRequest) -> (outcome: (
        PostAction,
        Vec<NewDevice>,
    ))
        requires
            old(self).wf(),
        ensures
            final(self).wf(),
            *final(self) == old(self).after(receiver, *request).0,
            outcome.1@ == old(self).after(receiver, *request).1,
            outcome.0 == if *request == EisRequest::Disconnect {
                PostAction::Remove
            } else {
                PostAction::Continue
            },
    {
        let mut made: Vec<NewDevice> = Vec::new();
        match request {
            EisRequest::Disconnect => {
                return (PostAction::Remove, made);
            },
            EisRequest::Bind { keyboard, pointer, touch, pointer_absolute } => {
                self.add_device(DeviceKind::Keyboard, *keyboard, receiver, &mut made);
                self.add_device(DeviceKind::Pointer, *pointer, receiver, &mut made);
                self.add_device(DeviceKind::Touch, *touch, receiver, &mut made);
                self.add_device(DeviceKind::PointerAbsolute, *pointer_absolute, receiver, &mut made);
            },
            _ => {},
        }
        (PostAction::Continue, made)
    }
}

/// What happened on a client's connection.
#[derive(Clone, Copy, Debug, PartialEq, Eq, Structural)]
pub enum SourceEvent {
    /// The handshake is done.
    Connected,
    /// The client sent a request.
    Request(EisRequest),
    /// The client named an object that does not exist.
    InvalidObject,
}

/// What the server does about an event on a client's connection.
pub struct Reaction {
    /// Whether to give the client its seat, with `seat_capabilities`.
    pub add_seat: bool,
    /// The input events to hand to the sessions' workers, in order.
    pub events: Vec<InputEvent>,
    /// The devices to create for the client, in order.
    pub devices: Vec<NewDevice>,
    /// Whether to flush the connection.
    pub flush: bool,
    /// Whether to keep the client.
    pub action: PostAction,
}

/// The request of each event is the corresponding one of `requests`, and
/// each event is for the session `handle`.
pub open spec fn events_carry(events: Seq<InputEvent>, handle: String, requests: Seq<InputRequest>) -> bool {
    &&& events.len() == requests.len()
    &&& forall|i: int|
        0 <= i < events.len() ==> (#[trigger] events[i]).request == requests[i] && events[i].session_handle
            == handle
}

/// Takes one event on the connection of a client of the session
/// `session_handle`.
///
/// On connection the client gets its seat.  A request is turned into the
/// input events it stands for, all tagged with the session, and then seen
/// to as a bind or disconnect.  The connection is flushed unless the
/// client is dropped.
pub fn handle_request_source_event(
    context_state: &mut ContextState,
    receiver: bool,
    event: SourceEvent,
    session_handle: &String,
) -> (reaction: Reaction)
    requires
        old(context_state).wf(),
    ensures
        final(context_state).wf(),
        reaction.add_seat == (event == SourceEvent::Connected),
        match event {
            SourceEvent::Request(request) => {
                &&& events_carry(reaction.events@, *session_handle, spec_requests(request))
                &&& *final(context_state) == old(context_state).after(receiver, request).0
                &&& reaction.devices@ == old(context_state).after(receiver, request).1
                &&& reaction.action == if request == EisRequest::Disconnect {
                    PostAction::Remove
                } else {
                    PostAction::Continue
                }
            },
            _ => {
                &&& reaction.events@.len() == 0
                &&& reaction.devices@.len() == 0
                &&& *final(context_state) == *old(context_state)
                &&& reaction.action == PostAction::Continue
            },
        },
        reaction.flush == (reaction.action == PostAction::Continue),
{
    match event {
        SourceEvent::Connected => Reaction {
            add_seat: true,
            events: Vec::new(),
            devices: Vec::new(),
            flush: true,
            action: PostAction::Continue,
        },
        SourceEvent::Request(request) => {
            let requests = decode_request(&request);
            let mut events: Vec<InputEvent> = Vec::new();
            let mut index: usize = 0;
            while index < requests.len()
                invariant
                    index <= requests.len(),
                    events_carry(events@, *session_handle, requests@.take(index as int)),
                decreases requests.len() - index,
            {
                events.push(
                    InputEvent { session_handle: session_handle.clone(), request: requests[index] },
                );
                index = index + 1;
            }
            proof {
                assert(requests@.take(index as int) =~= requests@);
            }
            let (action, devices) = context_state.handle_request(receiver, &request);
            Reaction {
                add_seat: false,
                events,
                devices,
                flush: action == PostAction::Continue,
                action,
            }
        },
        SourceEvent::InvalidObject => Reaction {
            add_seat: false,
            events: Vec::new(),
            devices: Vec::new(),
            flush: true,
            action: PostAction::Continue,
        },
    }
}

/// A message from the dispatcher to the server.  A listener is named by
/// the token under which the event loop holds it.
pub enum EisServerMsg {
    /// A listener for a session was registered under a token.
    NewListener(u64, String),
    /// Stop listening for a session.
    StopListener(String),
    /// Listen for a session again.
    ActiveListener(String),
    /// Forget the listener of a session.
    RemoveListener(String),
}

/// The listener of one session.
pub struct Client {
    /// The session the listener was made for.
    pub session_handle: String,
    /// The token under which the event loop holds the listener.
    pub token: u64,
}

impl Handled for Client {
    open spec fn handle(&self) -> Seq<char> {
        self.session_handle@
    }

    fn handle_is(&self, path: &String) -> (same: bool) {
        self.session_handle == *path
    }
}

/// What the event loop is to do with a listener.
#[derive(Clone, Copy, Debug, PartialEq, Eq, Structural)]
pub enum LoopAction {
    /// Nothing.
    Nothing,
    /// Disable the source with this token.
    Disable(u64),
    /// Enable the source with this token.
    Enable(u64),
    /// Remove the source with this token.
    Remove(u64),
}

/// Takes one message from the dispatcher.
///
/// A new listener is filed under its session, in place of an earlier one
/// of the same session.  The other messages look the session's listener up
/// and say what to do with it; for a session without a listener they do
/// nothing.  Only `RemoveListener` takes the listener out of the table.
pub fn start(clients: &mut Vec<Client>, message: EisServerMsg) -> (action: LoopAction)
    ensures
        distinct_handles(old(clients)@) ==> distinct_handles(final(clients)@),
        match message {
            EisServerMsg::NewListener(token, session) => {
                &&& action == LoopAction::Nothing
                &&& if absent(old(clients)@, session@) {
                    final(clients)@ == old(clients)@.push(Client { session_handle: session, token })
                } else {
                    exists|index: int|
                        {
                            &&& #[trigger] first_at(old(clients)@, session@, index)
                            &&& final(clients)@ == old(clients)@.update(
                                index,
                                Client { session_handle: session, token },
                            )
                        }
                }
            },
            EisServerMsg::StopListener(session) => {
                &&& final(clients)@ == old(clients)@
                &&& if absent(old(clients)@, session@) {
                    action == LoopAction::Nothing
                } else {
                    exists|index: int|
                        #[trigger] first_at(old(clients)@, session@, index) && action
                            == LoopAction::Disable(old(clients)@[index].token)
                }
            },
            EisServerMsg::ActiveListener(session) => {
                &&& final(clients)@ == old(clients)@
                &&& if absent(old(clients)@, session@) {
                    action == LoopAction::Nothing
                } else {
                    exists|index: int|
                        #[trigger] first_at(old(clients)@, session@, index) && action
                            == LoopAction::Enable(old(clients)@[index].token)
                }
            },
            EisServerMsg::RemoveListener(session) => {
                if absent(old(clients)@, session@) {
                    action == LoopAction::Nothing && final(clients)@ == old(clients)@
                } else {
                    &&& distinct_handles(old(clients)@) ==> absent(final(clients)@, session@)
                    &&& exists|index: int|
                        {
                            &&& #[trigger] first_at(old(clients)@, session@, index)
                            &&& action == LoopAction::Remove(old(clients)@[index].token)
                            &&& final(clients)@ == old(clients)@.remove(index)
                        }
                }
            },
        },
{
    match message {
        EisServerMsg::NewListener(token, session) => {
            match position(clients, &session) {
                Some(index) => {
                    let client = Client { session_handle: session, token };
                    proof {
                        let before = clients@;
                        let after = before.update(index as int, client);
                        assert(before[index as int].handle() == session@);
                        if distinct_handles(before) {
                            assert forall|i: int, j: int| 0 <= i < j < after.len() implies (
                            #[trigger] after[i]).handle() != (#[trigger] after[j]).handle() by {
                                assert(after[i].handle() == before[i].handle());
                                assert(after[j].handle() == before[j].handle());
                            }
                        }
                    }
                    clients.set(index, client);
                },
                None => {
                    let client = Client { session_handle: session, token };
                    proof {
                        if distinct_handles(clients@) {
                            lemma_push_distinct(clients@, client);
                        }
                    }
                    clients.push(client);
                },
            }
            LoopAction::Nothing
        },
        EisServerMsg::StopListener(session) => {
            match position(clients, &session) {
                Some(index) => {
                    proof {
                        assert(clients@[index as int].handle() == session@);
                    }
                    LoopAction::Disable(clients[index].token)
                },
                None => LoopAction::Nothing,
            }
        },
        EisServerMsg::ActiveListener(session) => {
            match position(clients, &session) {
                Some(index) => {
                    proof {
                        assert(clients@[index as int].handle() == session@);
                    }
                    LoopAction::Enable(clients[index].token)
                },
                None => LoopAction::Nothing,
            }
        },
        EisServerMsg::RemoveListener(session) => {
            match position(clients, &session) {
                Some(index) => {
                    proof {
                        assert(clients@[index as int].handle() == session@);
                        if distinct_handles(clients@) {
                            crate::registry::lemma_remove_clears(clients@, session@, index as int);
                        }
                    }
                    let client = clients.remove(index);
                    LoopAction::Remove(client.token)
                },
                None => LoopAction::Nothing,
            }
        },
    }
}

} // verus!

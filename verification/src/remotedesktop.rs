//! Remote desktop: sessions that stream frames and take input.

pub mod dispatch;
pub mod eis_server;
pub mod remote_thread;
pub mod state;

use vstd::prelude::*;
use crate::input_capture::BarrierInfo;
use crate::registry::{absent, distinct_handles, lemma_position, lemma_push_distinct, position, spec_position, take_out, Handled};
use crate::remotedesktop::eis_server::InputEvent;
use crate::remotedesktop::remote_thread::InputRequest;
use crate::screencast::StreamProperties;
use crate::session::{CursorMode, DeviceType, DeviceTypes, SelectDevicesOptions, Session, SessionType, SourceType};
use crate::utils::Real;

verus! {

/// A stream on the media graph: the id of its producer node and its
/// properties.
pub struct Stream(pub u32, pub StreamProperties);

/// What a successful start of a remote session returns.
pub struct RemoteStartReturnValue {
    /// The streams of the session.
    pub streams: Vec<Stream>,
    /// The devices that the session may drive.
    pub devices: DeviceTypes,
    /// Whether the clipboard is shared.
    pub clipboard_enabled: bool,
    /// Whether the screen is shared.
    pub screen_share_enabled: bool,
}

/// A rectangle of the compositor's space that a session's pointer may be
/// captured in.
#[derive(Clone, Copy, Debug, PartialEq, Eq, Structural)]
pub struct Zone {
    /// Pixels across.
    pub width: u32,
    /// Pixels down.
    pub height: u32,
    /// The left edge.
    pub x_offset: i32,
    /// The top edge.
    pub y_offset: i32,
}

/// What the service holds for a remote session besides the session
/// itself.
pub struct RemoteSessionData {
    /// The session this belongs to.
    pub session_handle: String,
    /// The producer node of the session's cast, once it casts.
    pub cast_node: Option<u32>,
    /// The zones advertised to the client.
    pub zones: Vec<Zone>,
    /// The number of the current set of zones.
    pub zone_id: u32,
    /// The barriers that the client installed.
    pub barriers: Vec<BarrierInfo>,
    /// The number of the last activation.
    pub activation_id: u32,
}

impl Handled for RemoteSessionData {
    open spec fn handle(&self) -> Seq<char> {
        self.session_handle@
    }

    fn handle_is(&self, path: &String) -> (same: bool) {
        self.session_handle == *path
    }
}

impl RemoteSessionData {
    /// The data of a session that has no barriers and was never
    /// activated.
    pub fn new(session_handle: String, cast_node: Option<u32>, zones: Vec<Zone>) -> (data:
        RemoteSessionData)
        ensures
            data.session_handle@ == session_handle@,
            data.cast_node == cast_node,
            data.zones@ == zones@,
            data.zone_id == 1,
            data.barriers@.len() == 0,
            data.activation_id == 0,
    {
        RemoteSessionData {
            session_handle,
            cast_node,
            zones,
            zone_id: 1,
            barriers: Vec::new(),
            activation_id: 0,
        }
    }
}

/// Files the data of a remote session.  Data for a session that has some
/// already is refused and the table stays as it was.
pub fn append_remote_session(remote_sessions: &mut Vec<RemoteSessionData>, session: RemoteSessionData) -> (added:
    bool)
    ensures
        added == absent(old(remote_sessions)@, session.handle()),
        added ==> final(remote_sessions)@ == old(remote_sessions)@.push(session),
        !added ==> final(remote_sessions)@ == old(remote_sessions)@,
        distinct_handles(old(remote_sessions)@) ==> distinct_handles(final(remote_sessions)@),
{
    match position(remote_sessions, &session.session_handle) {
        Some(_) => false,
        None => {
            proof {
                if distinct_handles(remote_sessions@) {
                    lemma_push_distinct(remote_sessions@, session);
                }
            }
            remote_sessions.push(session);
            true
        },
    }
}

/// Takes the data of the remote session `path` out of the table and
/// returns it, so that its workers can be stopped.  Without such data
/// nothing changes.
pub fn remove_remote_session(remote_sessions: &mut Vec<RemoteSessionData>, path: &String) -> (stopped:
    Option<RemoteSessionData>)
    ensures
        match spec_position(old(remote_sessions)@, path@) {
            Some(index) => stopped == Some(old(remote_sessions)@[index]) && final(remote_sessions)@
                == old(remote_sessions)@.remove(index),
            None => stopped.is_none() && final(remote_sessions)@ == old(remote_sessions)@,
        },
        distinct_handles(old(remote_sessions)@) ==> distinct_handles(final(remote_sessions)@)
            && absent(final(remote_sessions)@, path@),
{
    take_out(remote_sessions, path)
}

/// Records that the remote session `path` casts on the node `node_id`:
/// in the session's data where it has some, in fresh data without zones
/// otherwise.
pub fn record_cast(remote_sessions: &mut Vec<RemoteSessionData>, path: &String, node_id: u32)
    ensures
        match spec_position(old(remote_sessions)@, path@) {
            Some(index) => {
                &&& final(remote_sessions)@.len() == old(remote_sessions)@.len()
                &&& final(remote_sessions)@[index].cast_node == Some(node_id)
                &&& final(remote_sessions)@[index].session_handle == old(remote_sessions)@[index].session_handle
                &&& final(remote_sessions)@[index].zones == old(remote_sessions)@[index].zones
                &&& final(remote_sessions)@[index].zone_id == old(remote_sessions)@[index].zone_id
                &&& final(remote_sessions)@[index].barriers == old(remote_sessions)@[index].barriers
                &&& final(remote_sessions)@[index].activation_id == old(remote_sessions)@[index].activation_id
                &&& forall|i: int|
                    0 <= i < old(remote_sessions)@.len() && i != index ==> final(remote_sessions)@[i] == old(remote_sessions)@[i]
            },
            None => {
                &&& final(remote_sessions)@.len() == old(remote_sessions)@.len() + 1
                &&& final(remote_sessions)@.drop_last() == old(remote_sessions)@
                &&& final(remote_sessions)@.last().session_handle@ == path@
                &&& final(remote_sessions)@.last().cast_node == Some(node_id)
                &&& final(remote_sessions)@.last().zones@.len() == 0
                &&& final(remote_sessions)@.last().barriers@.len() == 0
            },
        },
        distinct_handles(old(remote_sessions)@) ==> distinct_handles(final(remote_sessions)@),
{
    match position(remote_sessions, path) {
        Some(index) => {
            let mut data = remote_sessions.remove(index);
            data.cast_node = Some(node_id);
            remote_sessions.insert(index, data);
            proof {
                let before = old(remote_sessions)@;
                let after = remote_sessions@;
                assert forall|i: int| 0 <= i < before.len() && i != index implies after[i]
                    == before[i] by {}
                if distinct_handles(before) {
                    assert forall|i: int, j: int| 0 <= i < j < after.len() implies (
                    #[trigger] after[i]).handle() != (#[trigger] after[j]).handle() by {
                        assert(after[i].handle() == before[i].handle());
                        assert(after[j].handle() == before[j].handle());
                    }
                }
            }
        },
        None => {
            let data = RemoteSessionData::new(path.clone(), Some(node_id), Vec::new());
            proof {
                if distinct_handles(remote_sessions@) {
                    lemma_push_distinct(remote_sessions@, data);
                }
            }
            remote_sessions.push(data);
            proof {
                assert(remote_sessions@.drop_last() =~= old(remote_sessions)@);
            }
        },
    }
}

/// What a call to start a remote session comes to.
#[derive(Clone, Copy, Debug, PartialEq, Eq, Structural)]
pub enum RemoteStartStep {
    /// There is no such session, or it is of another kind: answer `Other`.
    Other,
    /// The session casts already: answer with the stream of this node.
    Running { node_id: u32, devices: DeviceTypes },
    /// Let the user choose a target and start the workers for it.
    Select { show_cursor: bool, devices: DeviceTypes },
}

/// What starting the remote session `path` comes to, given the sessions
/// and the data of the remote sessions.
pub open spec fn spec_start(
    sessions: Seq<Session>,
    remote_sessions: Seq<RemoteSessionData>,
    path: Seq<char>,
) -> RemoteStartStep {
    match spec_position(sessions, path) {
        None => RemoteStartStep::Other,
        Some(index) => if sessions[index].session_type != SessionType::Remote {
            RemoteStartStep::Other
        } else {
            let devices = sessions[index].device_type;
            let show_cursor = sessions[index].cursor_mode != CursorMode::Hidden;
            match spec_position(remote_sessions, path) {
                None => RemoteStartStep::Select { show_cursor, devices },
                Some(at) => match remote_sessions[at].cast_node {
                    Some(node_id) => RemoteStartStep::Running { node_id, devices },
                    None => RemoteStartStep::Select { show_cursor, devices },
                },
            }
        },
    }
}

/// Where an input request for the session `path` goes: to the worker of
/// the session's data, at this place in the table; nowhere where the
/// session has none.
pub open spec fn spec_route(remote_sessions: Seq<RemoteSessionData>, path: Seq<char>) -> Option<int> {
    spec_position(remote_sessions, path)
}

/// An input request and the place of the session data whose worker is to
/// get it.
#[derive(Clone, Copy, Debug, PartialEq, Eq, Structural)]
pub struct Routed {
    /// The place of the session's data in the table.
    pub index: usize,
    /// The request for the session's worker.
    pub request: InputRequest,
}

/// The request routed to the session `path`; nothing where the session
/// has no worker.
pub open spec fn spec_forward(
    remote_sessions: Seq<RemoteSessionData>,
    path: Seq<char>,
    request: InputRequest,
) -> Option<Routed> {
    match spec_route(remote_sessions, path) {
        Some(index) => Some(Routed { index: index as usize, request }),
        None => None,
    }
}

/// Routes a request to the worker of the session `path`.  For a session
/// that is gone the request is dropped silently.
pub fn forward(remote_sessions: &Vec<RemoteSessionData>, path: &String, request: InputRequest) -> (routed:
    Option<Routed>)
    ensures
        routed == spec_forward(remote_sessions@, path@, request),
{
    match position(remote_sessions, path) {
        Some(index) => Some(Routed { index, request }),
        None => None,
    }
}

/// Routes an event of the emulated-input server to the worker of its
/// session.
pub fn handle_input_event(remote_sessions: &Vec<RemoteSessionData>, event: &InputEvent) -> (routed:
    Option<Routed>)
    ensures
        routed == spec_forward(remote_sessions@, event.session_handle@, event.request),
{
    forward(remote_sessions, &event.session_handle, event.request)
}

/// The remote-desktop interface.
pub struct RemoteDesktopBackend;

impl RemoteDesktopBackend {
    /// The version of the interface.
    pub fn version(&self) -> (version: u32)
        ensures
            version == 2,
    {
        2
    }

    /// The device kinds on offer: keyboard, pointer and touch screen.
    pub fn available_device_types(&self) -> (kinds: u32)
        ensures
            kinds == DeviceType::Keyboard.spec_bits() | DeviceType::Pointer.spec_bits()
                | DeviceType::TouchScreen.spec_bits(),
            kinds == 7,
    {
        assert(1u32 | 2u32 | 4u32 == 7u32) by (bit_vector);
        DeviceType::Keyboard.bits() | DeviceType::Pointer.bits() | DeviceType::TouchScreen.bits()
    }

    /// Makes a remote session for `session_handle` and files it; refused
    /// where the handle is in use.
    pub fn create_session(&self, sessions: &mut Vec<Session>, session_handle: String) -> (created:
        bool)
        ensures
            created == absent(old(sessions)@, session_handle@),
            created ==> {
                &&& final(sessions)@.len() == old(sessions)@.len() + 1
                &&& final(sessions)@.drop_last() == old(sessions)@
                &&& final(sessions)@.last().handle_path@ == session_handle@
                &&& final(sessions)@.last().session_type == SessionType::Remote
                &&& final(sessions)@.last().cursor_mode == CursorMode::Hidden
            },
            !created ==> final(sessions)@ == old(sessions)@,
            distinct_handles(old(sessions)@) ==> distinct_handles(final(sessions)@),
    {
        let session = Session::new(session_handle, SessionType::Remote);
        let added = crate::session::append_session(sessions, session);
        proof {
            if added {
                assert(final(sessions)@.drop_last() =~= old(sessions)@);
            }
        }
        added
    }

    /// Merges the options into the session `path`.  The answer is success
    /// (true) where the session exists and is a remote session; otherwise
    /// nothing changes.
    pub fn select_devices(&self, sessions: &mut Vec<Session>, path: &String, options: SelectDevicesOptions) -> (done:
        bool)
        ensures
            match spec_position(old(sessions)@, path@) {
                Some(index) => if old(sessions)@[index].session_type == SessionType::Remote {
                    done && final(sessions)@ == old(sessions)@.update(
                        index,
                        old(sessions)@[index].with_remote_options(options),
                    )
                } else {
                    !done && final(sessions)@ == old(sessions)@
                },
                None => !done && final(sessions)@ == old(sessions)@,
            },
            distinct_handles(old(sessions)@) ==> distinct_handles(final(sessions)@),
    {
        match position(sessions, path) {
            None => false,
            Some(index) => {
                match sessions[index].session_type {
                    SessionType::Remote => {},
                    _ => {
                        return false;
                    },
                }
                let mut session = sessions.remove(index);
                session.set_remote_options(options);
                sessions.insert(index, session);
                proof {
                    let before = old(sessions)@;
                    let after = sessions@;
                    assert(after =~= before.update(
                        index as int,
                        before[index as int].with_remote_options(options),
                    ));
                    if distinct_handles(before) {
                        assert forall|i: int, j: int| 0 <= i < j < after.len() implies (
                        #[trigger] after[i]).handle() != (#[trigger] after[j]).handle() by {
                            assert(after[i].handle() == before[i].handle());
                            assert(after[j].handle() == before[j].handle());
                        }
                    }
                }
                true
            },
        }
    }

    /// What a call to start the session `path` comes to.
    pub fn start(
        &self,
        sessions: &Vec<Session>,
        remote_sessions: &Vec<RemoteSessionData>,
        path: &String,
    ) -> (step: RemoteStartStep)
        ensures
            step == spec_start(sessions@, remote_sessions@, path@),
    {
        match position(sessions, path) {
            None => RemoteStartStep::Other,
            Some(index) => {
                match sessions[index].session_type {
                    SessionType::Remote => {},
                    _ => {
                        return RemoteStartStep::Other;
                    },
                }
                let devices = sessions[index].device_type;
                let show_cursor = sessions[index].cursor_mode.show_cursor();
                match position(remote_sessions, path) {
                    None => RemoteStartStep::Select { show_cursor, devices },
                    Some(at) => match remote_sessions[at].cast_node {
                        Some(node_id) => RemoteStartStep::Running { node_id, devices },
                        None => RemoteStartStep::Select { show_cursor, devices },
                    },
                }
            },
        }
    }

    /// The answer to a start: one stream with the given node and the
    /// session's devices.  `size` is the size of the monitor where the
    /// cast has just begun, and then the screen counts as shared; a
    /// session that was running already is answered without properties.
    pub fn start_reply(&self, node_id: u32, devices: DeviceTypes, size: Option<(i32, i32)>) -> (reply:
        RemoteStartReturnValue)
        ensures
            reply.streams@.len() == 1,
            reply.streams@[0].0 == node_id,
            reply.streams@[0].1.size == match size {
                Some(found) => found,
                None => (0i32, 0i32),
            },
            reply.streams@[0].1.source_type == SourceType::Monitor,
            reply.streams@[0].1.id.is_none(),
            reply.streams@[0].1.position.is_none(),
            reply.devices == devices,
            !reply.clipboard_enabled,
            reply.screen_share_enabled == size.is_some(),
    {
        let mut properties = StreamProperties::empty();
        if let Some(found) = size {
            properties.size = found;
        }
        let mut streams: Vec<Stream> = Vec::new();
        streams.push(Stream(node_id, properties));
        RemoteStartReturnValue {
            streams,
            devices,
            clipboard_enabled: false,
            screen_share_enabled: size.is_some(),
        }
    }

    /// A relative pointer motion for the session `path`.
    pub fn notify_pointer_motion(
        &self,
        remote_sessions: &Vec<RemoteSessionData>,
        path: &String,
        dx: Real,
        dy: Real,
    ) -> (routed: Option<Routed>)
        ensures
            routed == spec_forward(remote_sessions@, path@, InputRequest::PointerMotion { dx, dy }),
    {
        forward(remote_sessions, path, InputRequest::PointerMotion { dx, dy })
    }

    /// An absolute pointer motion for the session `path`.
    pub fn notify_pointer_motion_absolute(
        &self,
        remote_sessions: &Vec<RemoteSessionData>,
        path: &String,
        x: u32,
        y: u32,
    ) -> (routed: Option<Routed>)
        ensures
            routed == spec_forward(
                remote_sessions@,
                path@,
                InputRequest::PointerMotionAbsolute { x, y },
            ),
    {
        forward(remote_sessions, path, InputRequest::PointerMotionAbsolute { x, y })
    }

    /// A pointer button event for the session `path`.
    pub fn notify_pointer_button(
        &self,
        remote_sessions: &Vec<RemoteSessionData>,
        path: &String,
        button: i32,
        state: u32,
    ) -> (routed: Option<Routed>)
        ensures
            routed == spec_forward(
                remote_sessions@,
                path@,
                InputRequest::PointerButton { button, state },
            ),
    {
        forward(remote_sessions, path, InputRequest::PointerButton { button, state })
    }

    /// A continuous scroll for the session `path`.
    pub fn notify_pointer_axis(
        &self,
        remote_sessions: &Vec<RemoteSessionData>,
        path: &String,
        dx: Real,
        dy: Real,
    ) -> (routed: Option<Routed>)
        ensures
            routed == spec_forward(remote_sessions@, path@, InputRequest::PointerAxis { dx, dy }),
    {
        forward(remote_sessions, path, InputRequest::PointerAxis { dx, dy })
    }

    /// A scroll by steps for the session `path`.
    pub fn notify_pointer_axis_discrate(
        &self,
        remote_sessions: &Vec<RemoteSessionData>,
        path: &String,
        axis: u32,
        steps: i32,
    ) -> (routed: Option<Routed>)
        ensures
            routed == spec_forward(
                remote_sessions@,
                path@,
                InputRequest::PointerAxisDiscrate { axis, steps },
            ),
    {
        forward(remote_sessions, path, InputRequest::PointerAxisDiscrate { axis, steps })
    }

    /// A key event by evdev code for the session `path`.
    pub fn notify_keyboard_keycode(
        &self,
        remote_sessions: &Vec<RemoteSessionData>,
        path: &String,
        keycode: i32,
        state: u32,
    ) -> (routed: Option<Routed>)
        ensures
            routed == spec_forward(
                remote_sessions@,
                path@,
                InputRequest::KeyboardKeycode { keycode, state },
            ),
    {
        forward(remote_sessions, path, InputRequest::KeyboardKeycode { keycode, state })
    }

    /// A key event by key symbol for the session `path`.
    pub fn notify_keyboard_keysym(
        &self,
        remote_sessions: &Vec<RemoteSessionData>,
        path: &String,
        keysym: i32,
        state: u32,
    ) -> (routed: Option<Routed>)
        ensures
            routed == spec_forward(
                remote_sessions@,
                path@,
                InputRequest::KeyboardKeysym { keysym, state },
            ),
    {
        forward(remote_sessions, path, InputRequest::KeyboardKeysym { keysym, state })
    }
}

/// Starting is idempotent: once a remote session casts on node `node_id`,
/// every start of that session is answered with that node.
pub proof fn lemma_start_idempotent(
    sessions: Seq<Session>,
    remote_sessions: Seq<RemoteSessionData>,
    data: RemoteSessionData,
    node_id: u32,
)
    requires
        absent(remote_sessions, data.handle()),
        data.cast_node == Some(node_id),
        spec_position(sessions, data.handle()).is_some(),
        sessions[spec_position(sessions, data.handle()).unwrap()].session_type == SessionType::Remote,
    ensures
        spec_start(sessions, remote_sessions.push(data), data.handle()) == (RemoteStartStep::Running {
            node_id,
            devices: sessions[spec_position(sessions, data.handle()).unwrap()].device_type,
        }),
{
    let table = remote_sessions.push(data);
    let index = remote_sessions.len() as int;
    assert(table.take(index) =~= remote_sessions);
    assert(table[index] == data);
    lemma_position(table, data.handle(), index);
}

/// For a session that is filed nowhere a start is answered with `Other`
/// and every input request is dropped.
pub proof fn lemma_unknown_session_is_inert(
    sessions: Seq<Session>,
    remote_sessions: Seq<RemoteSessionData>,
    path: Seq<char>,
    request: InputRequest,
)
    requires
        absent(sessions, path),
        absent(remote_sessions, path),
    ensures
        spec_start(sessions, remote_sessions, path) == RemoteStartStep::Other,
        spec_forward(remote_sessions, path, request).is_none(),
{
}

} // verus!

//! Input capture: zones, pointer barriers and activation.

use vstd::prelude::*;
use crate::registry::{absent, distinct_handles, position, spec_position, Handled};
use crate::remotedesktop::eis_server::EisServerMsg;
use crate::remotedesktop::{append_remote_session, RemoteSessionData, Zone};
use crate::session::{append_session, DeviceType, DeviceTypes, Session, SessionType};
use crate::utils::{spec_unsigned, unsigned};

verus! {

/// A line segment from `(x1, y1)` to `(x2, y2)`.
#[derive(Clone, Copy, Debug, PartialEq, Eq, Structural)]
pub struct Position {
    /// Where the segment begins, across.
    pub x1: i32,
    /// Where the segment begins, down.
    pub y1: i32,
    /// Where the segment ends, across.
    pub x2: i32,
    /// Where the segment ends, down.
    pub y2: i32,
}

impl Position {
    /// A segment is admitted as a barrier when it is vertical or
    /// horizontal.
    pub open spec fn legal(&self) -> bool {
        self.x1 == self.x2 || self.y1 == self.y2
    }

    /// Tests whether the segment is vertical or horizontal.
    pub fn legal_check(&self) -> (legal: bool)
        ensures
            legal == self.legal(),
            legal == (self.x1 == self.x2 || self.y1 == self.y2),
    {
        if self.x1 == self.x2 {
            return true;
        }
        if self.y1 == self.y2 {
            return true;
        }
        false
    }
}

/// The number by which a client names a barrier.
pub type BarrierId = u32;

/// A pointer barrier that a client asks for.
#[derive(Clone, Copy, Debug, PartialEq, Eq, Structural)]
pub struct BarrierInfo {
    /// The client's number for the barrier.
    pub barrier_id: BarrierId,
    /// Where the barrier lies.
    pub position: Position,
}

impl BarrierInfo {
    /// Tests whether the barrier is admitted: whether it is vertical or
    /// horizontal.
    pub fn valid(&self) -> (admitted: bool)
        ensures
            admitted == self.position.legal(),
            admitted == (self.position.x1 == self.position.x2 || self.position.y1
                == self.position.y2),
    {
        self.position.legal_check()
    }
}

/// The barriers of `barriers` that are admitted, in their order.
pub open spec fn spec_admitted(barriers: Seq<BarrierInfo>) -> Seq<BarrierInfo>
    decreases barriers.len(),
{
    if barriers.len() == 0 {
        Seq::empty()
    } else if barriers.last().position.legal() {
        spec_admitted(barriers.drop_last()).push(barriers.last())
    } else {
        spec_admitted(barriers.drop_last())
    }
}

/// The ids of the barriers of `barriers` that are refused, in their
/// order.
pub open spec fn spec_failed(barriers: Seq<BarrierInfo>) -> Seq<BarrierId>
    decreases barriers.len(),
{
    if barriers.len() == 0 {
        Seq::empty()
    } else if barriers.last().position.legal() {
        spec_failed(barriers.drop_last())
    } else {
        spec_failed(barriers.drop_last()).push(barriers.last().barrier_id)
    }
}

/// Every barrier is either admitted or reported as failed, never both
/// and never neither: a barrier is among the admitted ones exactly when
/// it is vertical or horizontal, and its id is among the failed ones
/// where it is not.
pub proof fn lemma_barriers_partition(barriers: Seq<BarrierInfo>, index: int)
    requires
        0 <= index < barriers.len(),
    ensures
        barriers[index].position.legal() ==> spec_admitted(barriers).contains(barriers[index]),
        !barriers[index].position.legal() ==> spec_failed(barriers).contains(
            barriers[index].barrier_id,
        ),
        !barriers[index].position.legal() ==> !spec_admitted(barriers).contains(barriers[index]),
        spec_admitted(barriers).len() + spec_failed(barriers).len() == barriers.len(),
    decreases barriers.len(),
{
    lemma_admitted_are_legal(barriers);
    let rest = barriers.drop_last();
    if index < rest.len() {
        lemma_barriers_partition(rest, index);
        assert(rest[index] == barriers[index]);
        if barriers[index].position.legal() {
            let at = choose|i: int|
                0 <= i < spec_admitted(rest).len() && spec_admitted(rest)[i] == barriers[index];
            if barriers.last().position.legal() {
                assert(spec_admitted(barriers)[at] == barriers[index]);
            }
        } else {
            let at = choose|i: int|
                0 <= i < spec_failed(rest).len() && spec_failed(rest)[i]
                    == barriers[index].barrier_id;
            if !barriers.last().position.legal() {
                assert(spec_failed(barriers)[at] == barriers[index].barrier_id);
            }
        }
    } else {
        if rest.len() > 0 {
            lemma_barriers_partition(rest, 0);
        }
        if barriers[index].position.legal() {
            assert(spec_admitted(barriers)[spec_admitted(rest).len() as int] == barriers[index]);
        } else {
            assert(spec_failed(barriers)[spec_failed(rest).len() as int]
                == barriers[index].barrier_id);
        }
    }
}

/// Every admitted barrier is vertical or horizontal and is one of the
/// barriers asked for; every failed id is that of a barrier asked for that
/// is neither.
pub proof fn lemma_admitted_are_legal(barriers: Seq<BarrierInfo>)
    ensures
        forall|i: int|
            0 <= i < spec_admitted(barriers).len() ==> (#[trigger] spec_admitted(
                barriers,
            )[i]).position.legal() && barriers.contains(spec_admitted(barriers)[i]),
        forall|i: int|
            0 <= i < spec_failed(barriers).len() ==> exists|j: int|
                0 <= j < barriers.len() && !(#[trigger] barriers[j]).position.legal()
                    && barriers[j].barrier_id == #[trigger] spec_failed(barriers)[i],
    decreases barriers.len(),
{
    if barriers.len() > 0 {
        let rest = barriers.drop_last();
        lemma_admitted_are_legal(rest);
        let last = (barriers.len() - 1) as int;
        assert forall|i: int| 0 <= i < spec_admitted(barriers).len() implies (
        #[trigger] spec_admitted(barriers)[i]).position.legal() && barriers.contains(
            spec_admitted(barriers)[i],
        ) by {
            if i < spec_admitted(rest).len() {
                let found = spec_admitted(rest)[i];
                let j = choose|j: int| 0 <= j < rest.len() && rest[j] == found;
                assert(barriers[j] == found);
            } else {
                assert(barriers[last] == spec_admitted(barriers)[i]);
            }
        }
        assert forall|i: int| 0 <= i < spec_failed(barriers).len() implies exists|j: int|
            0 <= j < barriers.len() && !(#[trigger] barriers[j]).position.legal()
                && barriers[j].barrier_id == #[trigger] spec_failed(barriers)[i] by {
            if i < spec_failed(rest).len() {
                let j = choose|j: int|
                    0 <= j < rest.len() && !(#[trigger] rest[j]).position.legal()
                        && rest[j].barrier_id == spec_failed(rest)[i];
                assert(barriers[j] == rest[j]);
            } else {
                assert(!barriers[last].position.legal());
                assert(barriers[last].barrier_id == spec_failed(barriers)[i]);
            }
        }
    }
}

/// What went wrong with a call.
#[derive(Clone, Copy, Debug, PartialEq, Eq, Structural)]
pub enum InputCaptureError {
    /// The client asked for a capability that is not on offer.
    UnsupportedCapability,
    /// The session has no zones to tell.
    NoSuchHandle,
    /// There is no such session, or it has another set of zones.
    NoSuchSession,
    /// The session handle is in use.
    HandleInUse,
}

impl InputCaptureError {
    /// What the client is told.
    pub fn message(&self) -> (text: &'static str)
        ensures
            text@ == match self {
                InputCaptureError::UnsupportedCapability => "Unsupported capability"@,
                InputCaptureError::NoSuchHandle => "No such handle"@,
                InputCaptureError::NoSuchSession => "no such session"@,
                InputCaptureError::HandleInUse => "session handle in use"@,
            },
    {
        match self {
            InputCaptureError::UnsupportedCapability => "Unsupported capability",
            InputCaptureError::NoSuchHandle => "No such handle",
            InputCaptureError::NoSuchSession => "no such session",
            InputCaptureError::HandleInUse => "session handle in use",
        }
    }
}

/// The monitor that a new session's pointer lives on.
#[derive(Clone, Copy, Debug, PartialEq, Eq, Structural)]
pub struct RemoteInfo {
    /// Pixels across.
    pub width: i32,
    /// Pixels down.
    pub height: i32,
    /// The left edge.
    pub x: i32,
    /// The top edge.
    pub y: i32,
}

/// The geometry to start an input worker with.
#[derive(Clone, Copy, Debug, PartialEq, Eq, Structural)]
pub struct WorkerGeometry {
    /// Where the session's space begins, across.
    pub origin_x: u32,
    /// Where the session's space begins, down.
    pub origin_y: u32,
    /// The width of the session's space.
    pub width: u32,
    /// The height of the session's space.
    pub height: u32,
}

/// What creating a session returns.
pub struct CreateSessionRet {
    /// The capabilities granted.
    pub capabilities: DeviceTypes,
    /// The session's handle.
    pub session_id: String,
    /// The geometry to start the session's input worker with.
    pub geometry: WorkerGeometry,
}

/// What asking for the zones returns.
pub struct GetZonesRet {
    /// The zones of the session.
    pub zones: Vec<Zone>,
    /// The number of this set of zones.
    pub zone_set: u32,
}

/// What installing barriers returns.
pub struct BarrierRet {
    /// The ids of the barriers that were refused.
    pub failed_barries: Vec<u32>,
}

/// What an activation tells the client.
pub struct ActivatedSignal {
    /// The number of the activation.
    pub activation_id: u32,
    /// The barrier that was crossed.
    pub barrier_id: BarrierId,
}

/// What a deactivation tells the client.
pub struct DisableSignal {
    /// The number of the activation that ends.
    pub activation_id: u32,
}

/// The input-capture interface.
pub struct InputCapture;

impl InputCapture {
    /// The capabilities on offer, as a bit-set.
    pub open spec fn spec_capabilities() -> u32 {
        7
    }

    /// The capabilities on offer: pointer, keyboard and touch screen.
    pub fn capabilities(&self) -> (offered: DeviceTypes)
        ensures
            offered.wf(),
            offered.bits == Self::spec_capabilities(),
            offered.has(DeviceType::Pointer),
            offered.has(DeviceType::Keyboard),
            offered.has(DeviceType::TouchScreen),
    {
        assert(7u32 & 1u32 != 0 && 7u32 & 2u32 != 0 && 7u32 & 4u32 != 0) by (bit_vector);
        DeviceTypes { bits: 7 }
    }

    /// The version of the interface.
    pub fn version(&self) -> (version: u32)
        ensures
            version == 1,
    {
        1
    }

    /// The capabilities on offer, as a bus number.
    pub fn supported_capabilities(&self) -> (bits: u32)
        ensures
            bits == Self::spec_capabilities(),
    {
        self.capabilities().bits
    }

    /// Makes a session for `session_handle` with the capabilities asked
    /// for and files it, together with its data: one zone, the monitor.
    ///
    /// A capability that is not on offer is an error, and so is a handle
    /// that is in use; in both cases nothing is filed.
    pub fn create_session(
        &self,
        sessions: &mut Vec<Session>,
        remote_sessions: &mut Vec<RemoteSessionData>,
        session_handle: &String,
        requested: DeviceTypes,
        info: RemoteInfo,
    ) -> (created: Result<CreateSessionRet, InputCaptureError>)
        ensures
            match created {
                Ok(ret) => {
                    &&& requested.bits | Self::spec_capabilities() == Self::spec_capabilities()
                    &&& absent(old(sessions)@, session_handle@)
                    &&& absent(old(remote_sessions)@, session_handle@)
                    &&& ret.capabilities.bits == requested.bits & Self::spec_capabilities()
                    &&& ret.session_id@ == session_handle@
                    &&& ret.geometry == (WorkerGeometry {
                        origin_x: spec_unsigned(info.x),
                        origin_y: spec_unsigned(info.y),
                        width: spec_unsigned(info.width),
                        height: spec_unsigned(info.height),
                    })
                    &&& final(sessions)@.len() == old(sessions)@.len() + 1
                    &&& final(sessions)@.drop_last() == old(sessions)@
                    &&& final(sessions)@.last().handle_path@ == session_handle@
                    &&& final(sessions)@.last().session_type == SessionType::Remote
                    &&& final(remote_sessions)@.len() == old(remote_sessions)@.len() + 1
                    &&& final(remote_sessions)@.drop_last() == old(remote_sessions)@
                    &&& final(remote_sessions)@.last().session_handle@ == session_handle@
                    &&& final(remote_sessions)@.last().cast_node.is_none()
                    &&& final(remote_sessions)@.last().zones@ == seq![
                        Zone {
                            width: spec_unsigned(info.width),
                            height: spec_unsigned(info.height),
                            x_offset: info.x,
                            y_offset: info.y,
                        },
                    ]
                },
                Err(error) => {
                    &&& final(sessions)@ == old(sessions)@
                    &&& final(remote_sessions)@ == old(remote_sessions)@
                    &&& error == if requested.bits | Self::spec_capabilities()
                        != Self::spec_capabilities() {
                        InputCaptureError::UnsupportedCapability
                    } else {
                        InputCaptureError::HandleInUse
                    }
                    &&& error == InputCaptureError::HandleInUse ==> !absent(
                        old(sessions)@,
                        session_handle@,
                    ) || !absent(old(remote_sessions)@, session_handle@)
                },
            },
            distinct_handles(old(sessions)@) ==> distinct_handles(final(sessions)@),
            distinct_handles(old(remote_sessions)@) ==> distinct_handles(final(remote_sessions)@),
    {
        let offered = self.capabilities();
        if !requested.is_subset_of(offered) {
            return Err(InputCaptureError::UnsupportedCapability);
        }
        if position(sessions, session_handle).is_some() || position(
            remote_sessions,
            session_handle,
        ).is_some() {
            return Err(InputCaptureError::HandleInUse);
        }
        let capabilities = requested.intersection(offered);
        let session = Session::new(session_handle.clone(), SessionType::Remote);
        let added = append_session(sessions, session);
        let mut zones: Vec<Zone> = Vec::new();
        zones.push(
            Zone {
                width: unsigned(info.width),
                height: unsigned(info.height),
                x_offset: info.x,
                y_offset: info.y,
            },
        );
        let data = RemoteSessionData::new(session_handle.clone(), None, zones);
        let filed = append_remote_session(remote_sessions, data);
        proof {
            assert(added && filed);
            assert(final(sessions)@.drop_last() =~= old(sessions)@);
            assert(final(remote_sessions)@.drop_last() =~= old(remote_sessions)@);
        }
        Ok(
            CreateSessionRet {
                capabilities,
                session_id: session_handle.clone(),
                geometry: WorkerGeometry {
                    origin_x: unsigned(info.x),
                    origin_y: unsigned(info.y),
                    width: unsigned(info.width),
                    height: unsigned(info.height),
                },
            },
        )
    }

    /// The zones of the session `path` and the number of their set.
    pub fn get_zones(&self, remote_sessions: &Vec<RemoteSessionData>, path: &String) -> (zones: Result<
        GetZonesRet,
        InputCaptureError,
    >)
        ensures
            match spec_position(remote_sessions@, path@) {
                Some(index) => zones.is_ok() && zones.unwrap().zones@ == remote_sessions@[index].zones@
                    && zones.unwrap().zone_set == remote_sessions@[index].zone_id,
                None => zones == Err::<GetZonesRet, InputCaptureError>(
                    InputCaptureError::NoSuchHandle,
                ),
            },
    {
        match position(remote_sessions, path) {
            None => Err(InputCaptureError::NoSuchHandle),
            Some(index) => {
                let session = &remote_sessions[index];
                let mut zones: Vec<Zone> = Vec::new();
                let mut at: usize = 0;
                while at < session.zones.len()
                    invariant
                        at <= session.zones.len(),
                        zones@ == session.zones@.take(at as int),
                    decreases session.zones.len() - at,
                {
                    zones.push(session.zones[at]);
                    proof {
                        assert(session.zones@.take(at as int).push(session.zones@[at as int])
                            =~= session.zones@.take(at as int + 1));
                    }
                    at = at + 1;
                }
                proof {
                    assert(session.zones@.take(at as int) =~= session.zones@);
                }
                Ok(GetZonesRet { zones, zone_set: session.zone_id })
            },
        }
    }

    /// Installs the barriers that are vertical or horizontal for the
    /// session `path`, in place of those it had, and reports the ids of the
    /// others.
    ///
    /// Where the session does not exist, or `zone_set` is not the number of
    /// its set of zones, the call fails and installs nothing.
    pub fn set_pointer_barriers(
        &self,
        remote_sessions: &mut Vec<RemoteSessionData>,
        path: &String,
        barriers: Vec<BarrierInfo>,
        zone_set: u32,
    ) -> (outcome: Result<BarrierRet, InputCaptureError>)
        ensures
            final(remote_sessions)@.len() == old(remote_sessions)@.len(),
            match spec_position(old(remote_sessions)@, path@) {
                Some(index) if old(remote_sessions)@[index].zone_id == zone_set => {
                    &&& outcome.is_ok()
                    &&& outcome.unwrap().failed_barries@ == spec_failed(barriers@)
                    &&& final(remote_sessions)@[index].barriers@ == spec_admitted(barriers@)
                    &&& final(remote_sessions)@[index].session_handle == old(remote_sessions)@[index].session_handle
                    &&& final(remote_sessions)@[index].cast_node == old(remote_sessions)@[index].cast_node
                    &&& final(remote_sessions)@[index].zones == old(remote_sessions)@[index].zones
                    &&& final(remote_sessions)@[index].zone_id == zone_set
                    &&& final(remote_sessions)@[index].activation_id == old(remote_sessions)@[index].activation_id
                    &&& forall|i: int|
                        0 <= i < old(remote_sessions)@.len() && i != index ==> final(remote_sessions)@[i] == old(remote_sessions)@[i]
                },
                _ => {
                    &&& outcome == Err::<BarrierRet, InputCaptureError>(
                        InputCaptureError::NoSuchSession,
                    )
                    &&& final(remote_sessions)@ == old(remote_sessions)@
                },
            },
            distinct_handles(old(remote_sessions)@) ==> distinct_handles(final(remote_sessions)@),
    {
        let mut valid_barries: Vec<BarrierInfo> = Vec::new();
        let mut failed_barries: Vec<u32> = Vec::new();
        let mut at: usize = 0;
        while at < barriers.len()
            invariant
                at <= barriers.len(),
                valid_barries@ == spec_admitted(barriers@.take(at as int)),
                failed_barries@ == spec_failed(barriers@.take(at as int)),
            decreases barriers.len() - at,
        {
            let barrier: BarrierInfo = barriers[at];
            proof {
                let longer = barriers@.take(at as int + 1);
                assert(longer.drop_last() =~= barriers@.take(at as int));
                assert(longer.last() == barrier);
            }
            if barrier.valid() {
                valid_barries.push(barrier);
            } else {
                failed_barries.push(barrier.barrier_id);
            }
            at = at + 1;
        }
        proof {
            assert(barriers@.take(at as int) =~= barriers@);
        }
        match position(remote_sessions, path) {
            None => Err(InputCaptureError::NoSuchSession),
            Some(index) => {
                if remote_sessions[index].zone_id != zone_set {
                    return Err(InputCaptureError::NoSuchSession);
                }
                let mut session = remote_sessions.remove(index);
                session.barriers = valid_barries;
                remote_sessions.insert(index, session);
                proof {
                    let before = old(remote_sessions)@;
                    let after = remote_sessions@;
                    assert forall|i: int| 0 <= i < before.len() && i != index implies after[i]
                        == before[i] by {}
                    if distinct_handles(before) {
                        assert forall|i: int, j: int| 0 <= i < j < after.len() implies (
                        #[trigger] after[i]).handle() != (#[trigger] after[j]).handle() by {
                            assert(after[i].handle() == before[i].handle());
                            assert(after[j].handle() == before[j].handle());
                        }
                    }
                }
                Ok(BarrierRet { failed_barries })
            },
        }
    }

    /// Activates capture for the session `path`: the session gets the next
    /// activation number, and the result is the signal for the client and
    /// the message for the emulated-input server.
    pub fn enable(&self, remote_sessions: &mut Vec<RemoteSessionData>, path: &String) -> (outcome: Result<
        (ActivatedSignal, EisServerMsg),
        InputCaptureError,
    >)
        ensures
            final(remote_sessions)@.len() == old(remote_sessions)@.len(),
            match spec_position(old(remote_sessions)@, path@) {
                Some(index) => {
                    let next = if old(remote_sessions)@[index].activation_id == u32::MAX {
                        0u32
                    } else {
                        (old(remote_sessions)@[index].activation_id + 1) as u32
                    };
                    &&& outcome.is_ok()
                    &&& outcome.unwrap().0.activation_id == next
                    &&& outcome.unwrap().0.barrier_id == 0
                    &&& outcome.unwrap().1 matches EisServerMsg::ActiveListener(session)
                        && session@ == path@
                    &&& final(remote_sessions)@[index].activation_id == next
                    &&& final(remote_sessions)@[index].session_handle == old(remote_sessions)@[index].session_handle
                    &&& final(remote_sessions)@[index].barriers == old(remote_sessions)@[index].barriers
                    &&& final(remote_sessions)@[index].zones == old(remote_sessions)@[index].zones
                    &&& final(remote_sessions)@[index].zone_id == old(remote_sessions)@[index].zone_id
                    &&& final(remote_sessions)@[index].cast_node == old(remote_sessions)@[index].cast_node
                    &&& forall|i: int|
                        0 <= i < old(remote_sessions)@.len() && i != index ==> final(remote_sessions)@[i] == old(remote_sessions)@[i]
                },
                None => {
                    &&& outcome is Err
                    &&& outcome->Err_0 == InputCaptureError::NoSuchSession
                    &&& final(remote_sessions)@ == old(remote_sessions)@
                },
            },
    {
        match position(remote_sessions, path) {
            None => Err(InputCaptureError::NoSuchSession),
            Some(index) => {
                let mut session = remote_sessions.remove(index);
                session.activation_id = if session.activation_id == u32::MAX {
                    0
                } else {
                    session.activation_id + 1
                };
                let activation_id = session.activation_id;
                remote_sessions.insert(index, session);
                proof {
                    let before = old(remote_sessions)@;
                    let after = remote_sessions@;
                    assert forall|i: int| 0 <= i < before.len() && i != index implies after[i]
                        == before[i] by {}
                }
                Ok(
                    (
                        ActivatedSignal { activation_id, barrier_id: 0 },
                        EisServerMsg::ActiveListener(path.clone()),
                    ),
                )
            },
        }
    }

    /// Ends capture for the session `path`: the result is the signal for
    /// the client, with the number of the activation that ends, and the
    /// message for the emulated-input server.
    pub fn disable(&self, remote_sessions: &Vec<RemoteSessionData>, path: &String) -> (outcome: Result<
        (DisableSignal, EisServerMsg),
        InputCaptureError,
    >)
        ensures
            match spec_position(remote_sessions@, path@) {
                Some(index) => {
                    &&& outcome.is_ok()
                    &&& outcome.unwrap().0.activation_id == remote_sessions@[index].activation_id
                    &&& outcome.unwrap().1 matches EisServerMsg::StopListener(session) && session@
                        == path@
                },
                None => outcome is Err && outcome->Err_0 == InputCaptureError::NoSuchSession,
            },
    {
        match position(remote_sessions, path) {
            None => Err(InputCaptureError::NoSuchSession),
            Some(index) => Ok(
                (
                    DisableSignal { activation_id: remote_sessions[index].activation_id },
                    EisServerMsg::StopListener(path.clone()),
                ),
            ),
        }
    }
}

} // verus!

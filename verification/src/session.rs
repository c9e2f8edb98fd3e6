//! Session records, the bit-sets that describe what a session may capture
//! or control, and the table the sessions live in.

use vstd::prelude::*;
use crate::registry::{absent, distinct_handles, first_at, lemma_push_distinct, lemma_without_is_absent, position, spec_position, spec_without, take_out, Handled};
use crate::remotedesktop::remote_thread::InputRequest;
use crate::remotedesktop::{remove_remote_session, RemoteSessionData};
use crate::screencast::{remove_cast_session, CastSessionData};

verus! {

/// A kind of source that can be recorded.
#[derive(Clone, Copy, Debug, PartialEq, Eq, Structural)]
pub enum SourceType {
    /// A monitor.
    Monitor,
    /// A single window.
    Window,
    /// A virtual output.
    Virtual,
}

impl SourceType {
    /// The bit that stands for this kind on the bus.
    pub open spec fn spec_bits(self) -> u32 {
        match self {
            SourceType::Monitor => 1,
            SourceType::Window => 2,
            SourceType::Virtual => 4,
        }
    }

    /// The bit that stands for this kind on the bus.
    pub fn bits(self) -> (bit: u32)
        ensures
            bit == self.spec_bits(),
    {
        match self {
            SourceType::Monitor => 1,
            SourceType::Window => 2,
            SourceType::Virtual => 4,
        }
    }
}

/// How the cursor appears in captured frames.
#[derive(Clone, Copy, Debug, PartialEq, Eq, Structural)]
pub enum CursorMode {
    /// The cursor is not part of the stream.
    Hidden,
    /// The cursor is drawn into the frames.
    Embedded,
    /// The cursor is sent beside the frames as metadata.
    Metadata,
}

impl CursorMode {
    /// The bit that stands for this mode on the bus.
    pub open spec fn spec_bits(self) -> u32 {
        match self {
            CursorMode::Hidden => 1,
            CursorMode::Embedded => 2,
            CursorMode::Metadata => 4,
        }
    }

    /// The bit that stands for this mode on the bus.
    pub fn bits(self) -> (bit: u32)
        ensures
            bit == self.spec_bits(),
    {
        match self {
            CursorMode::Hidden => 1,
            CursorMode::Embedded => 2,
            CursorMode::Metadata => 4,
        }
    }

    /// The mode that a bus value names, if it names exactly one.
    pub fn from_bits(bit: u32) -> (mode: Option<CursorMode>)
        ensures
            match mode {
                Some(m) => m.spec_bits() == bit,
                None => bit != 1 && bit != 2 && bit != 4,
            },
    {
        if bit == 1 {
            Some(CursorMode::Hidden)
        } else if bit == 2 {
            Some(CursorMode::Embedded)
        } else if bit == 4 {
            Some(CursorMode::Metadata)
        } else {
            None
        }
    }

    /// Whether frames of a session in this mode carry the cursor.
    pub fn show_cursor(&self) -> (shown: bool)
        ensures
            shown == !(*self == CursorMode::Hidden),
    {
        match self {
            CursorMode::Hidden => false,
            _ => true,
        }
    }
}

/// A kind of input device that a remote session can drive.
#[derive(Clone, Copy, Debug, PartialEq, Eq, Structural)]
pub enum DeviceType {
    /// A keyboard.
    Keyboard,
    /// A pointer.
    Pointer,
    /// A touch screen.
    TouchScreen,
}

impl DeviceType {
    /// The bit that stands for this kind on the bus.
    pub open spec fn spec_bits(self) -> u32 {
        match self {
            DeviceType::Keyboard => 1,
            DeviceType::Pointer => 2,
            DeviceType::TouchScreen => 4,
        }
    }

    /// The bit that stands for this kind on the bus.
    pub fn bits(self) -> (bit: u32)
        ensures
            bit == self.spec_bits(),
    {
        match self {
            DeviceType::Keyboard => 1,
            DeviceType::Pointer => 2,
            DeviceType::TouchScreen => 4,
        }
    }
}

/// What a session is for.
#[derive(Clone, Copy, Debug, PartialEq, Eq, Structural)]
pub enum SessionType {
    /// Streaming frames only.
    ScreenCast,
    /// Streaming frames and injecting input.
    Remote,
}

/// How long the selections of a session are remembered.
#[derive(Clone, Copy, Debug, PartialEq, Eq, Structural)]
pub enum PersistMode {
    /// Not at all.
    DoNot,
    /// While the application runs.
    Application,
    /// Until the user revokes them.
    ExplicitlyRevoked,
}

impl PersistMode {
    /// The number that stands for this mode on the bus.
    pub open spec fn spec_code(self) -> u32 {
        match self {
            PersistMode::DoNot => 0,
            PersistMode::Application => 1,
            PersistMode::ExplicitlyRevoked => 2,
        }
    }

    /// The number that stands for this mode on the bus.
    pub fn code(self) -> (code: u32)
        ensures
            code == self.spec_code(),
    {
        match self {
            PersistMode::DoNot => 0,
            PersistMode::Application => 1,
            PersistMode::ExplicitlyRevoked => 2,
        }
    }

    /// The mode that a bus number names.
    pub fn from_code(code: u32) -> (mode: Option<PersistMode>)
        ensures
            match mode {
                Some(m) => m.spec_code() == code,
                None => code > 2,
            },
    {
        if code == 0 {
            Some(PersistMode::DoNot)
        } else if code == 1 {
            Some(PersistMode::Application)
        } else if code == 2 {
            Some(PersistMode::ExplicitlyRevoked)
        } else {
            None
        }
    }
}

/// The mask of the three bits that a set of kinds may hold.
pub const KNOWN_BITS: u32 = 7;

/// A set of source kinds, held as the bits of its members.
#[derive(Clone, Copy, Debug, PartialEq, Eq, Structural)]
pub struct SourceTypes {
    /// The union of the members' bits.
    pub bits: u32,
}

impl SourceTypes {
    /// Only bits of source kinds are set.
    pub open spec fn wf(self) -> bool {
        self.bits <= KNOWN_BITS
    }

    /// Whether `kind` is a member.
    pub open spec fn has(self, kind: SourceType) -> bool {
        self.bits & kind.spec_bits() != 0
    }

    /// The set that holds `kind` alone.
    pub fn from_flag(kind: SourceType) -> (set: SourceTypes)
        ensures
            set.wf(),
            set.bits == kind.spec_bits(),
    {
        SourceTypes { bits: kind.bits() }
    }

    /// The set that `bits` names; none where a bit of no kind is set.
    pub fn from_bits(bits: u32) -> (set: Option<SourceTypes>)
        ensures
            set == if bits <= KNOWN_BITS {
                Some(SourceTypes { bits })
            } else {
                None
            },
    {
        if bits <= KNOWN_BITS {
            Some(SourceTypes { bits })
        } else {
            None
        }
    }

    /// Whether `kind` is a member.
    pub fn contains(self, kind: SourceType) -> (member: bool)
        ensures
            member == self.has(kind),
    {
        self.bits & kind.bits() != 0
    }

    /// Whether every member is also a member of `other`.
    pub fn is_subset_of(self, other: SourceTypes) -> (inside: bool)
        ensures
            inside == (self.bits | other.bits == other.bits),
            inside == (self.bits & !other.bits == 0),
    {
        let merged: u32 = self.bits | other.bits;
        proof {
            let a: u32 = self.bits;
            let b: u32 = other.bits;
            assert((a | b == b) == (a & !b == 0)) by (bit_vector);
        }
        merged == other.bits
    }
}

/// A set of device kinds, held as the bits of its members.
#[derive(Clone, Copy, Debug, PartialEq, Eq, Structural)]
pub struct DeviceTypes {
    /// The union of the members' bits.
    pub bits: u32,
}

impl DeviceTypes {
    /// Only bits of device kinds are set.
    pub open spec fn wf(self) -> bool {
        self.bits <= KNOWN_BITS
    }

    /// Whether `kind` is a member.
    pub open spec fn has(self, kind: DeviceType) -> bool {
        self.bits & kind.spec_bits() != 0
    }

    /// The set that holds `kind` alone.
    pub fn from_flag(kind: DeviceType) -> (set: DeviceTypes)
        ensures
            set.wf(),
            set.bits == kind.spec_bits(),
    {
        DeviceTypes { bits: kind.bits() }
    }

    /// The set that `bits` names; none where a bit of no kind is set.
    pub fn from_bits(bits: u32) -> (set: Option<DeviceTypes>)
        ensures
            set == if bits <= KNOWN_BITS {
                Some(DeviceTypes { bits })
            } else {
                None
            },
    {
        if bits <= KNOWN_BITS {
            Some(DeviceTypes { bits })
        } else {
            None
        }
    }

    /// Whether `kind` is a member.
    pub fn contains(self, kind: DeviceType) -> (member: bool)
        ensures
            member == self.has(kind),
    {
        self.bits & kind.bits() != 0
    }

    /// The members of either set.
    pub fn union(self, other: DeviceTypes) -> (both: DeviceTypes)
        requires
            self.wf(),
            other.wf(),
        ensures
            both.wf(),
            both.bits == self.bits | other.bits,
    {
        proof {
            let a: u32 = self.bits;
            let b: u32 = other.bits;
            assert(a <= 7 && b <= 7 ==> (a | b) <= 7) by (bit_vector);
        }
        DeviceTypes { bits: self.bits | other.bits }
    }

    /// The members of both sets.
    pub fn intersection(self, other: DeviceTypes) -> (common: DeviceTypes)
        requires
            other.wf(),
        ensures
            common.wf(),
            common.bits == self.bits & other.bits,
    {
        proof {
            let a: u32 = self.bits;
            let b: u32 = other.bits;
            assert(b <= 7 ==> (a & b) <= 7) by (bit_vector);
        }
        DeviceTypes { bits: self.bits & other.bits }
    }

    /// Whether every member is also a member of `other`.
    pub fn is_subset_of(self, other: DeviceTypes) -> (inside: bool)
        ensures
            inside == (self.bits | other.bits == other.bits),
            inside == (self.bits & !other.bits == 0),
    {
        let merged: u32 = self.bits | other.bits;
        proof {
            let a: u32 = self.bits;
            let b: u32 = other.bits;
            assert((a | b == b) == (a & !b == 0)) by (bit_vector);
        }
        merged == other.bits
    }
}

/// What a client may set with a request to select sources.  A field that
/// the client left out is `None`.
pub struct SelectSourcesOptions {
    /// The kinds of source to offer.
    pub types: Option<SourceTypes>,
    /// Whether several sources may be chosen.
    pub multiple: Option<bool>,
    /// How the cursor is to appear.
    pub cursor_mode: Option<CursorMode>,
    /// A token of an earlier session to restore.
    pub restore_token: Option<String>,
    /// How long to remember the selection.
    pub persist_mode: Option<PersistMode>,
}

/// What a client may set with a request to select devices.  A field that
/// the client left out is `None`.
pub struct SelectDevicesOptions {
    /// The kinds of device to control.
    pub types: Option<DeviceTypes>,
    /// A token of an earlier session to restore.
    pub restore_token: Option<String>,
    /// How long to remember the selection.
    pub persist_mode: Option<PersistMode>,
}

/// A conversation between one client and the service.
pub struct Session {
    /// What the session is for; fixed when it is made.
    pub session_type: SessionType,
    /// The object path that names the session.
    pub handle_path: String,
    /// The kinds of source to offer.
    pub source_type: SourceTypes,
    /// Whether several sources may be chosen.
    pub multiple: bool,
    /// How the cursor is to appear.
    pub cursor_mode: CursorMode,
    /// How long the selection is remembered.
    pub persist_mode: PersistMode,
    /// The kinds of device to control.
    pub device_type: DeviceTypes,
}

impl Handled for Session {
    open spec fn handle(&self) -> Seq<char> {
        self.handle_path@
    }

    fn handle_is(&self, path: &String) -> (same: bool) {
        self.handle_path == *path
    }
}

impl Session {
    /// A session as it is before any option was selected: monitors only,
    /// one source, cursor hidden, nothing remembered, keyboard only.
    pub fn new(path: String, session_type: SessionType) -> (session: Session)
        ensures
            session.session_type == session_type,
            session.handle_path@ == path@,
            session.source_type.bits == SourceType::Monitor.spec_bits(),
            !session.multiple,
            session.cursor_mode == CursorMode::Hidden,
            session.persist_mode == PersistMode::DoNot,
            session.device_type.bits == DeviceType::Keyboard.spec_bits(),
    {
        Session {
            session_type,
            handle_path: path,
            source_type: SourceTypes::from_flag(SourceType::Monitor),
            multiple: false,
            cursor_mode: CursorMode::Hidden,
            persist_mode: PersistMode::DoNot,
            device_type: DeviceTypes::from_flag(DeviceType::Keyboard),
        }
    }

    /// The session after the source options were merged into it.
    pub open spec fn with_screencast_options(self, options: SelectSourcesOptions) -> Session {
        Session {
            session_type: self.session_type,
            handle_path: self.handle_path,
            source_type: match options.types {
                Some(types) => types,
                None => self.source_type,
            },
            multiple: options.multiple == Some(true),
            cursor_mode: match options.cursor_mode {
                Some(mode) => mode,
                None => self.cursor_mode,
            },
            persist_mode: match options.persist_mode {
                Some(mode) => mode,
                None => self.persist_mode,
            },
            device_type: self.device_type,
        }
    }

    /// The session after the device options were merged into it.
    pub open spec fn with_remote_options(self, options: SelectDevicesOptions) -> Session {
        Session {
            session_type: self.session_type,
            handle_path: self.handle_path,
            source_type: self.source_type,
            multiple: self.multiple,
            cursor_mode: self.cursor_mode,
            persist_mode: match options.persist_mode {
                Some(mode) => mode,
                None => self.persist_mode,
            },
            device_type: match options.types {
                Some(types) => types,
                None => self.device_type,
            },
        }
    }

    /// Merges the source options into the session.  Fields that the client
    /// left out keep their value, except `multiple`, which is then false.
    /// The kind and the handle never change.
    pub fn set_screencast_options(&mut self, options: SelectSourcesOptions)
        ensures
            *final(self) == old(self).with_screencast_options(options),
    {
        if let Some(types) = options.types {
            self.source_type = types;
        }
        self.multiple = match options.multiple {
            Some(content) => content,
            None => false,
        };
        if let Some(mode) = options.cursor_mode {
            self.cursor_mode = mode;
        }
        if let Some(mode) = options.persist_mode {
            self.persist_mode = mode;
        }
    }

    /// Merges the device options into the session.  Fields that the client
    /// left out keep their value.  The kind and the handle never change.
    pub fn set_remote_options(&mut self, options: SelectDevicesOptions)
        ensures
            *final(self) == old(self).with_remote_options(options),
    {
        if let Some(types) = options.types {
            self.device_type = types;
        }
        if let Some(mode) = options.persist_mode {
            self.persist_mode = mode;
        }
    }

    /// The version of the session interface.
    pub fn version(&self) -> (version: u32)
        ensures
            version == 2,
    {
        2
    }
}

/// Files a new session.  A session whose handle is already filed is a
/// caller's mistake: it is refused and the table stays as it was.
pub fn append_session(sessions: &mut Vec<Session>, session: Session) -> (added: bool)
    ensures
        added == absent(old(sessions)@, session.handle()),
        added ==> final(sessions)@ == old(sessions)@.push(session),
        !added ==> final(sessions)@ == old(sessions)@,
        distinct_handles(old(sessions)@) ==> distinct_handles(final(sessions)@),
{
    match position(sessions, &session.handle_path) {
        Some(_) => false,
        None => {
            proof {
                if distinct_handles(sessions@) {
                    lemma_push_distinct(sessions@, session);
                }
            }
            sessions.push(session);
            true
        },
    }
}

/// The session filed under `path`, if there is one.
pub fn find_session<'a>(sessions: &'a Vec<Session>, path: &String) -> (found: Option<&'a Session>)
    ensures
        match found {
            Some(session) => exists|index: int|
                #[trigger] first_at(sessions@, path@, index) && *session == sessions@[index],
            None => absent(sessions@, path@),
        },
{
    match position(sessions, path) {
        Some(index) => Some(&sessions[index]),
        None => None,
    }
}

/// What closing a session took out of the tables: the session and the
/// workers it owned, which are to be stopped.
pub struct Teardown {
    /// The session that was closed.
    pub session: Option<Session>,
    /// The session's cast, if it had one.
    pub cast: Option<CastSessionData>,
    /// The session's remote data, if it had some.
    pub remote: Option<RemoteSessionData>,
}

/// Closes the session `path`: takes the workers it owns out of their
/// tables, then the session out of its own.  Closing a session that is not
/// filed changes nothing.
pub fn remove_session(
    sessions: &mut Vec<Session>,
    cast_sessions: &mut Vec<CastSessionData>,
    remote_sessions: &mut Vec<RemoteSessionData>,
    path: &String,
) -> (teardown: Teardown)
    ensures
        match spec_position(old(sessions)@, path@) {
            None => {
                &&& final(sessions)@ == old(sessions)@
                &&& final(cast_sessions)@ == old(cast_sessions)@
                &&& final(remote_sessions)@ == old(remote_sessions)@
                &&& teardown.session.is_none()
                &&& teardown.cast.is_none()
                &&& teardown.remote.is_none()
            },
            Some(index) => {
                &&& final(sessions)@ == old(sessions)@.remove(index)
                &&& teardown.session == Some(old(sessions)@[index])
                &&& match spec_position(old(cast_sessions)@, path@) {
                    Some(at) => teardown.cast == Some(old(cast_sessions)@[at]) && final(cast_sessions)@ == old(cast_sessions)@.remove(at),
                    None => teardown.cast.is_none() && final(cast_sessions)@ == old(cast_sessions)@,
                }
                &&& match spec_position(old(remote_sessions)@, path@) {
                    Some(at) => teardown.remote == Some(old(remote_sessions)@[at]) && final(remote_sessions)@ == old(remote_sessions)@.remove(at),
                    None => teardown.remote.is_none() && final(remote_sessions)@ == old(remote_sessions)@,
                }
            },
        },
        spec_position(old(sessions)@, path@).is_some() ==> {
            &&& final(sessions)@ == spec_without(old(sessions)@, path@)
            &&& final(cast_sessions)@ == spec_without(old(cast_sessions)@, path@)
            &&& final(remote_sessions)@ == spec_without(old(remote_sessions)@, path@)
        },
        distinct_handles(old(sessions)@) ==> distinct_handles(final(sessions)@),
        distinct_handles(old(cast_sessions)@) ==> distinct_handles(final(cast_sessions)@),
        distinct_handles(old(remote_sessions)@) ==> distinct_handles(final(remote_sessions)@),
        spec_position(old(sessions)@, path@).is_some() && distinct_handles(old(sessions)@)
            ==> absent(final(sessions)@, path@),
        spec_position(old(sessions)@, path@).is_some() && distinct_handles(old(cast_sessions)@)
            ==> absent(final(cast_sessions)@, path@),
        spec_position(old(sessions)@, path@).is_some() && distinct_handles(old(remote_sessions)@)
            ==> absent(final(remote_sessions)@, path@),
{
    if position(sessions, path).is_none() {
        return Teardown { session: None, cast: None, remote: None };
    }
    let cast = remove_cast_session(cast_sessions, path);
    let remote = remove_remote_session(remote_sessions, path);
    let session = take_out(sessions, path);
    Teardown { session, cast, remote }
}

/// A session that was closed is gone for good: with tables whose handles
/// are distinct, after the session `path` and its workers were taken out, a
/// start of it is answered with `Other`, as a cast and as a remote session
/// alike, and every input request for it is dropped.
pub proof fn lemma_closed_session_is_inert(
    sessions: Seq<Session>,
    cast_sessions: Seq<CastSessionData>,
    remote_sessions: Seq<RemoteSessionData>,
    path: Seq<char>,
    request: InputRequest,
)
    requires
        distinct_handles(sessions),
        distinct_handles(cast_sessions),
        distinct_handles(remote_sessions),
    ensures
        crate::screencast::spec_start(
            spec_without(sessions, path),
            spec_without(cast_sessions, path),
            path,
        ) == crate::screencast::StartStep::Other,
        crate::remotedesktop::spec_start(
            spec_without(sessions, path),
            spec_without(remote_sessions, path),
            path,
        ) == crate::remotedesktop::RemoteStartStep::Other,
        crate::remotedesktop::spec_forward(spec_without(remote_sessions, path), path, request).is_none(),
{
    lemma_without_is_absent(sessions, path);
    lemma_without_is_absent(cast_sessions, path);
    lemma_without_is_absent(remote_sessions, path);
}

} // verus!

//! Screen casting: the table of running casts and what a call to start one
//! comes to.

use vstd::prelude::*;
use crate::registry::{absent, distinct_handles, lemma_position, lemma_push_distinct, position, spec_position, take_out, Handled};
use crate::session::{CursorMode, Session, SessionType, SourceType};

verus! {

/// What is known of a stream beside its node.
pub struct StreamProperties {
    /// A name for the stream.
    pub id: Option<String>,
    /// Where the source lies in the compositor's space.
    pub position: Option<(i32, i32)>,
    /// The size of the source.
    pub size: (i32, i32),
    /// The kind of the source.
    pub source_type: SourceType,
}

impl StreamProperties {
    /// Properties that say nothing: no name, no position, no size, a
    /// monitor.
    pub fn empty() -> (properties: StreamProperties)
        ensures
            properties.id.is_none(),
            properties.position.is_none(),
            properties.size == (0i32, 0i32),
            properties.source_type == SourceType::Monitor,
    {
        StreamProperties { id: None, position: None, size: (0, 0), source_type: SourceType::Monitor }
    }
}

/// A stream on the media graph: the id of its producer node and its
/// properties.
pub struct Stream(pub u32, pub StreamProperties);

/// What a successful start returns.
pub struct StartReturnValue {
    /// The streams of the session.
    pub streams: Vec<Stream>,
    /// How long the selection is remembered, as a bus number.
    pub persist_mode: u32,
    /// A token to restore the session with.
    pub restore_token: Option<String>,
}

/// A running cast: the session it belongs to and its producer node.
pub struct CastSessionData {
    /// The session that owns the cast.
    pub session_handle: String,
    /// The id of the producer node.
    pub node_id: u32,
}

impl Handled for CastSessionData {
    open spec fn handle(&self) -> Seq<char> {
        self.session_handle@
    }

    fn handle_is(&self, path: &String) -> (same: bool) {
        self.session_handle == *path
    }
}

/// Files a running cast.  One whose session already has a cast is refused
/// and the table stays as it was.
pub fn append_cast_session(cast_sessions: &mut Vec<CastSessionData>, session: CastSessionData) -> (added:
    bool)
    ensures
        added == absent(old(cast_sessions)@, session.handle()),
        added ==> final(cast_sessions)@ == old(cast_sessions)@.push(session),
        !added ==> final(cast_sessions)@ == old(cast_sessions)@,
        distinct_handles(old(cast_sessions)@) ==> distinct_handles(final(cast_sessions)@),
{
    match position(cast_sessions, &session.session_handle) {
        Some(_) => false,
        None => {
            proof {
                if distinct_handles(cast_sessions@) {
                    lemma_push_distinct(cast_sessions@, session);
                }
            }
            cast_sessions.push(session);
            true
        },
    }
}

/// Takes the cast of the session `path` out of the table and returns it,
/// so that its worker can be stopped.  Without such a cast nothing changes.
pub fn remove_cast_session(cast_sessions: &mut Vec<CastSessionData>, path: &String) -> (stopped: Option<
    CastSessionData,
>)
    ensures
        match spec_position(old(cast_sessions)@, path@) {
            Some(index) => stopped == Some(old(cast_sessions)@[index]) && final(cast_sessions)@ == old(cast_sessions)@.remove(index),
            None => stopped.is_none() && final(cast_sessions)@ == old(cast_sessions)@,
        },
        distinct_handles(old(cast_sessions)@) ==> distinct_handles(final(cast_sessions)@) && absent(
            final(cast_sessions)@,
            path@,
        ),
{
    take_out(cast_sessions, path)
}

/// What a call to start a cast comes to.
#[derive(Clone, Copy, Debug, PartialEq, Eq, Structural)]
pub enum StartStep {
    /// There is no such session, or it is of another kind: answer `Other`.
    Other,
    /// The session casts already: answer with the stream of this node.
    Running { node_id: u32 },
    /// Let the user choose a target and start a worker for it.
    Select { show_cursor: bool },
}

/// What starting the session `path` comes to, given the sessions and the
/// running casts.
pub open spec fn spec_start(sessions: Seq<Session>, cast_sessions: Seq<CastSessionData>, path: Seq<char>) -> StartStep {
    match spec_position(cast_sessions, path) {
        Some(index) => StartStep::Running { node_id: cast_sessions[index].node_id },
        None => match spec_position(sessions, path) {
            None => StartStep::Other,
            Some(index) => if sessions[index].session_type == SessionType::ScreenCast {
                StartStep::Select { show_cursor: sessions[index].cursor_mode != CursorMode::Hidden }
            } else {
                StartStep::Other
            },
        },
    }
}

/// The screen-cast interface.
pub struct ScreenCastBackend;

impl ScreenCastBackend {
    /// The version of the interface.
    pub fn version(&self) -> (version: u32)
        ensures
            version == 4,
    {
        4
    }

    /// The cursor modes on offer: hidden and embedded.
    pub fn available_cursor_modes(&self) -> (modes: u32)
        ensures
            modes == CursorMode::Hidden.spec_bits() | CursorMode::Embedded.spec_bits(),
            modes == 3,
    {
        assert(1u32 | 2u32 == 3u32) by (bit_vector);
        CursorMode::Hidden.bits() | CursorMode::Embedded.bits()
    }

    /// The source kinds on offer: monitors and windows.
    pub fn available_source_types(&self) -> (kinds: u32)
        ensures
            kinds == SourceType::Monitor.spec_bits() | SourceType::Window.spec_bits(),
            kinds == 3,
    {
        assert(1u32 | 2u32 == 3u32) by (bit_vector);
        SourceType::Monitor.bits() | SourceType::Window.bits()
    }

    /// Makes a screen-cast session for `session_handle` and files it;
    /// refused where the handle is in use.
    pub fn create_session(&self, sessions: &mut Vec<Session>, session_handle: String) -> (created:
        bool)
        ensures
            created == absent(old(sessions)@, session_handle@),
            created ==> {
                &&& final(sessions)@.len() == old(sessions)@.len() + 1
                &&& final(sessions)@.drop_last() == old(sessions)@
                &&& final(sessions)@.last().handle_path@ == session_handle@
                &&& final(sessions)@.last().session_type == SessionType::ScreenCast
                &&& final(sessions)@.last().cursor_mode == CursorMode::Hidden
            },
            !created ==> final(sessions)@ == old(sessions)@,
            distinct_handles(old(sessions)@) ==> distinct_handles(final(sessions)@),
    {
        let session = Session::new(session_handle, SessionType::ScreenCast);
        let added = crate::session::append_session(sessions, session);
        proof {
            if added {
                assert(final(sessions)@.drop_last() =~= old(sessions)@);
            }
        }
        added
    }

    /// Merges the options into the session `path`.  The answer is success
    /// (true) where the session exists; otherwise nothing changes.
    pub fn select_sources(
        &self,
        sessions: &mut Vec<Session>,
        path: &String,
        options: crate::session::SelectSourcesOptions,
    ) -> (found: bool)
        ensures
            match spec_position(old(sessions)@, path@) {
                Some(index) => found && final(sessions)@ == old(sessions)@.update(
                    index,
                    old(sessions)@[index].with_screencast_options(options),
                ),
                None => !found && final(sessions)@ == old(sessions)@,
            },
            distinct_handles(old(sessions)@) ==> distinct_handles(final(sessions)@),
    {
        match position(sessions, path) {
            None => false,
            Some(index) => {
                let mut session = sessions.remove(index);
                session.set_screencast_options(options);
                sessions.insert(index, session);
                proof {
                    let before = old(sessions)@;
                    let after = sessions@;
                    assert(after =~= before.update(
                        index as int,
                        before[index as int].with_screencast_options(options),
                    ));
                    if distinct_handles(before) {
                        assert forall|i: int, j: int| 0 <= i < j < after.len() implies (
                        #[trigger] after[i]).handle() != (#[trigger] after[j]).handle() by {
                            assert(after[i].handle() == before[i].handle());
                            assert(after[j].handle() == before[j].handle());
                        }
                    }
                }
                true
            },
        }
    }

    /// What a call to start the session `path` comes to.
    pub fn start(&self, sessions: &Vec<Session>, cast_sessions: &Vec<CastSessionData>, path: &String) -> (step:
        StartStep)
        ensures
            step == spec_start(sessions@, cast_sessions@, path@),
    {
        if let Some(index) = position(cast_sessions, path) {
            return StartStep::Running { node_id: cast_sessions[index].node_id };
        }
        match position(sessions, path) {
            None => StartStep::Other,
            Some(index) => {
                match sessions[index].session_type {
                    SessionType::ScreenCast => StartStep::Select {
                        show_cursor: sessions[index].cursor_mode.show_cursor(),
                    },
                    _ => StartStep::Other,
                }
            },
        }
    }

    /// The answer to a start: one stream with the given node.  `size` is
    /// the size of the monitor where the cast has just begun; a cast that
    /// was running already is answered without properties.
    pub fn start_reply(&self, node_id: u32, size: Option<(i32, i32)>) -> (reply: StartReturnValue)
        ensures
            reply.streams@.len() == 1,
            reply.streams@[0].0 == node_id,
            reply.streams@[0].1.size == match size {
                Some(found) => found,
                None => (0i32, 0i32),
            },
            reply.streams@[0].1.source_type == SourceType::Monitor,
            reply.streams@[0].1.id.is_none(),
            reply.streams@[0].1.position.is_none(),
            reply.persist_mode == 0,
            reply.restore_token.is_none(),
    {
        let mut properties = StreamProperties::empty();
        if let Some(found) = size {
            properties.size = found;
        }
        let mut streams: Vec<Stream> = Vec::new();
        streams.push(Stream(node_id, properties));
        StartReturnValue { streams, persist_mode: 0, restore_token: None }
    }
}

/// Starting is idempotent: once a cast with node `node_id` is filed for a
/// session, every start of that session is answered with that node.
pub proof fn lemma_start_idempotent(
    sessions: Seq<Session>,
    cast_sessions: Seq<CastSessionData>,
    cast: CastSessionData,
)
    requires
        absent(cast_sessions, cast.handle()),
    ensures
        spec_start(sessions, cast_sessions.push(cast), cast.handle()) == (StartStep::Running {
            node_id: cast.node_id,
        }),
{
    let table = cast_sessions.push(cast);
    let index = cast_sessions.len() as int;
    assert(table.take(index) =~= cast_sessions);
    assert(table[index] == cast);
    lemma_position(table, cast.handle(), index);
}

/// A start of a session that is filed nowhere is answered with `Other`.
pub proof fn lemma_start_of_unknown(
    sessions: Seq<Session>,
    cast_sessions: Seq<CastSessionData>,
    path: Seq<char>,
)
    requires
        absent(sessions, path),
        absent(cast_sessions, path),
    ensures
        spec_start(sessions, cast_sessions, path) == StartStep::Other,
{
}

} // verus!

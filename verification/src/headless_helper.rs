//! The headless selector's server side: who is being served, and what each
//! client is answered.

use vstd::prelude::*;
use crate::stream_message::Response;

verus! {

/// What the user did with the list of monitors.
#[derive(Clone, Copy, Debug, PartialEq, Eq, Structural)]
pub enum Selection {
    /// Chose the monitor at this place.
    Accept(u32),
    /// Chose nothing.
    Reject,
}

/// The selector: the client whose request is with the user, if any.
#[derive(Clone, Copy, Debug, PartialEq, Eq, Structural)]
pub struct Selector {
    /// The client that is being served.
    pub active: Option<u64>,
}

/// The selector after a request of `client` came in, and whether the
/// request was taken.  While one client is served every other request is
/// refused and the selector stays as it is.
pub open spec fn spec_admit(selector: Selector, client: u64) -> (Selector, bool) {
    match selector.active {
        Some(_) => (selector, false),
        None => (Selector { active: Some(client) }, true),
    }
}

impl Selector {
    /// A selector that serves nobody.
    pub fn new() -> (selector: Selector)
        ensures
            selector.active.is_none(),
    {
        Selector { active: None }
    }

    /// A request of `client` came in.  The result says whether it was
    /// taken; a request that was not taken is to be answered with
    /// `Response::Busy`.
    pub fn handle_client(&mut self, client: u64) -> (taken: bool)
        ensures
            (*final(self), taken) == spec_admit(*old(self), client),
            taken == old(self).active.is_none(),
            !taken ==> *final(self) == *old(self),
            taken ==> final(self).active == Some(client),
    {
        match self.active {
            Some(_) => false,
            None => {
                self.active = Some(client);
                true
            },
        }
    }

    /// The user is done.  The result is the client to tell, if one was
    /// being served, and its answer; afterwards nobody is served.
    pub fn finish(&mut self, selection: Selection) -> (told: Option<(u64, Response)>)
        ensures
            final(self).active.is_none(),
            told == match old(self).active {
                Some(client) => Some((client, spec_answer(Some(selection)))),
                None => None,
            },
    {
        let told = match self.active {
            Some(client) => Some((client, answer(Some(selection)))),
            None => None,
        };
        self.active = None;
        told
    }
}

/// The answer for what the user did; `Busy` where the user's choice was
/// lost on its way.
pub open spec fn spec_answer(outcome: Option<Selection>) -> Response {
    match outcome {
        Some(Selection::Accept(index)) => Response::Success { index },
        Some(Selection::Reject) => Response::Cancel,
        None => Response::Busy,
    }
}

/// The answer for what the user did.
pub fn answer(outcome: Option<Selection>) -> (response: Response)
    ensures
        response == spec_answer(outcome),
{
    match outcome {
        Some(Selection::Accept(index)) => Response::Success { index },
        Some(Selection::Reject) => Response::Cancel,
        None => Response::Busy,
    }
}

/// What the user did, given the place that the fuzzy selector returned:
/// the place was chosen where there is one that a response can carry,
/// nothing otherwise.
pub fn selection_from(picked: Option<usize>) -> (selection: Selection)
    ensures
        selection == match picked {
            Some(index) if index <= u32::MAX => Selection::Accept(index as u32),
            _ => Selection::Reject,
        },
{
    match picked {
        Some(index) => {
            if index <= 0xffff_ffff {
                Selection::Accept(index as u32)
            } else {
                Selection::Reject
            }
        },
        None => Selection::Reject,
    }
}

/// At most one request is outstanding: while a client is served, a
/// request of any client is refused, the selector does not change, and the
/// client that is served still gets the user's answer.
pub proof fn lemma_second_request_is_busy(selector: Selector, first: u64, second: u64)
    requires
        selector.active.is_none(),
    ensures
        spec_admit(selector, first) == (Selector { active: Some(first) }, true),
        spec_admit(spec_admit(selector, first).0, second) == (Selector { active: Some(first) }, false),
{
}

} // verus!

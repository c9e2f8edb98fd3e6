//! The request objects: one for every call in flight, at the handle that
//! the caller chose, removed when the call is done or aborted.

use vstd::prelude::*;
use crate::registry::{absent, distinct_handles, lemma_push_distinct, position, spec_position, spec_without, take_out, Handled};

verus! {

/// The object that stands for one call in flight.
pub struct RequestInterface {
    /// The object path that names the request.
    pub handle_path: String,
}

impl Handled for RequestInterface {
    open spec fn handle(&self) -> Seq<char> {
        self.handle_path@
    }

    fn handle_is(&self, path: &String) -> (same: bool) {
        self.handle_path == *path
    }
}

impl RequestInterface {
    /// Binds a request object at `handle_path`.  A handle that is bound
    /// already is refused and nothing changes.
    pub fn bind(requests: &mut Vec<RequestInterface>, handle_path: String) -> (bound: bool)
        ensures
            bound == absent(old(requests)@, handle_path@),
            bound ==> final(requests)@ == old(requests)@.push(RequestInterface { handle_path }),
            !bound ==> final(requests)@ == old(requests)@,
            distinct_handles(old(requests)@) ==> distinct_handles(final(requests)@),
    {
        match position(requests, &handle_path) {
            Some(_) => false,
            None => {
                let request = RequestInterface { handle_path };
                proof {
                    if distinct_handles(requests@) {
                        lemma_push_distinct(requests@, request);
                    }
                }
                requests.push(request);
                true
            },
        }
    }

    /// Removes the request object at `handle_path`.  The result says
    /// whether there was one; without one nothing changes.
    pub fn close(requests: &mut Vec<RequestInterface>, handle_path: &String) -> (closed: bool)
        ensures
            closed == spec_position(old(requests)@, handle_path@).is_some(),
            final(requests)@ == spec_without(old(requests)@, handle_path@),
            distinct_handles(old(requests)@) ==> distinct_handles(final(requests)@) && absent(
                final(requests)@,
                handle_path@,
            ),
    {
        take_out(requests, handle_path).is_some()
    }
}

} // verus!

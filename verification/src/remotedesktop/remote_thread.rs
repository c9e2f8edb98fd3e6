//! The requests an input worker takes from its queue, and one turn of the
//! worker's loop over the requests that have queued up.

use vstd::prelude::*;
use crate::remotedesktop::dispatch::spec_resolve;
use crate::remotedesktop::state::{
    spec_axis, spec_button_state, spec_keycode_calls, spec_keysym_calls, spec_mods_after_key, AppData,
    Axis, DeviceCall, EVENT_TIME, MOTION_TIME, STEP_VALUE_BITS,
};
use crate::utils::{spec_unsigned, Real};

verus! {

/// One request to an input worker.
#[derive(Clone, Copy, Debug, PartialEq, Eq, Structural)]
pub enum InputRequest {
    /// Move the pointer by a distance.
    PointerMotion { dx: Real, dy: Real },
    /// Put the pointer at a place of the session's space.
    PointerMotionAbsolute { x: u32, y: u32 },
    /// Press (state not 0) or release (state 0) a pointer button.
    PointerButton { button: i32, state: u32 },
    /// Scroll by a distance on both axes.
    PointerAxis { dx: Real, dy: Real },
    /// Scroll by steps on the vertical (0) or horizontal (other) axis.
    PointerAxisDiscrate { axis: u32, steps: i32 },
    /// Press or release a key, by evdev code.
    KeyboardKeycode { keycode: i32, state: u32 },
    /// Press or release a key, by key symbol.
    KeyboardKeysym { keysym: i32, state: u32 },
    /// A finger touched the screen.
    TouchDown { slot: u32, x: Real, y: Real },
    /// A finger moved on the screen.
    TouchMotion { slot: u32, x: Real, y: Real },
    /// A finger left the screen.
    TouchUp { slot: u32 },
    /// End the worker.
    Exit,
}

impl AppData {
    /// Whether the worker can carry `request` out: an absolute motion has
    /// to stay within the compositor's 32-bit space.
    pub open spec fn accepts(&self, request: InputRequest) -> bool {
        match request {
            InputRequest::PointerMotionAbsolute { x, y } => self.reaches(x, y),
            _ => true,
        }
    }

    /// The modifier state after `request`.  Only key events by code change
    /// it.
    pub open spec fn mods_after(&self, request: InputRequest) -> u32 {
        match request {
            InputRequest::KeyboardKeycode { keycode, state } => spec_mods_after_key(
                self.mods,
                keycode,
                state,
            ),
            _ => self.mods,
        }
    }

    /// What the worker sends to the compositor for `request`.  Touch
    /// requests send nothing: touch is a reserved capability.
    pub open spec fn calls_for(&self, request: InputRequest) -> Seq<DeviceCall> {
        match request {
            InputRequest::PointerMotion { dx, dy } => seq![
                DeviceCall::Motion { time: MOTION_TIME, dx, dy },
            ],
            InputRequest::PointerMotionAbsolute { x, y } => seq![
                DeviceCall::MotionAbsolute {
                    time: MOTION_TIME,
                    x: (x + self.origin_x) as u32,
                    y: (y + self.origin_y) as u32,
                    x_extent: self.output_width,
                    y_extent: self.output_height,
                },
            ],
            InputRequest::PointerButton { button, state } => seq![
                DeviceCall::Button {
                    time: EVENT_TIME,
                    button: spec_unsigned(button),
                    state: spec_button_state(state),
                },
            ],
            InputRequest::PointerAxis { dx, dy } => seq![
                DeviceCall::Axis { time: EVENT_TIME, axis: Axis::HorizontalScroll, value: dx },
                DeviceCall::Axis { time: EVENT_TIME, axis: Axis::VerticalScroll, value: dy },
            ],
            InputRequest::PointerAxisDiscrate { axis, steps } => seq![
                DeviceCall::AxisDiscrete {
                    time: EVENT_TIME,
                    axis: spec_axis(axis),
                    value: Real { bits: STEP_VALUE_BITS },
                    steps,
                },
            ],
            InputRequest::KeyboardKeycode { keycode, state } => spec_keycode_calls(
                self.mods,
                keycode,
                state,
            ),
            InputRequest::KeyboardKeysym { keysym, state } => spec_keysym_calls(
                self.mods,
                spec_resolve(self.keymap.entries@, spec_unsigned(keysym)),
                state,
            ),
            _ => Seq::empty(),
        }
    }

    /// The worker with another modifier state.
    pub open spec fn with_mods(self, mods: u32) -> AppData {
        AppData {
            mods,
            keymap: self.keymap,
            origin_x: self.origin_x,
            origin_y: self.origin_y,
            output_width: self.output_width,
            output_height: self.output_height,
        }
    }

    /// Tests whether the worker can carry `request` out.
    pub fn can_accept(&self, request: &InputRequest) -> (fits: bool)
        ensures
            fits == self.accepts(*request),
    {
        match request {
            InputRequest::PointerMotionAbsolute { x, y } => self.can_reach(*x, *y),
            _ => true,
        }
    }

    /// Carries one request out: updates the modifier state and returns what
    /// to send to the compositor, in order.  `Exit` sends nothing; ending
    /// the loop is the caller's part.
    pub fn handle(&mut self, request: &InputRequest) -> (calls: Vec<DeviceCall>)
        requires
            old(self).accepts(*request),
        ensures
            *final(self) == old(self).with_mods(old(self).mods_after(*request)),
            calls@ == old(self).calls_for(*request),
    {
        match request {
            InputRequest::PointerMotion { dx, dy } => self.notify_pointer_motion(*dx, *dy),
            InputRequest::PointerMotionAbsolute { x, y } => self.notify_pointer_motion_absolute(
                *x,
                *y,
            ),
            InputRequest::PointerButton { button, state } => self.notify_pointer_button(
                *button,
                *state,
            ),
            InputRequest::PointerAxis { dx, dy } => self.notify_pointer_axis(*dx, *dy),
            InputRequest::PointerAxisDiscrate { axis, steps } => self.notify_pointer_axis_discrete(
                *axis,
                *steps,
            ),
            InputRequest::KeyboardKeycode { keycode, state } => self.notify_keyboard_keycode(
                *keycode,
                *state,
            ),
            InputRequest::KeyboardKeysym { keysym, state } => self.notify_keyboard_keysym(
                *keysym,
                *state,
            ),
            _ => Vec::new(),
        }
    }
}

/// What one turn of the loop comes to.
pub struct Turn {
    /// What to send to the compositor, in order.
    pub calls: Vec<DeviceCall>,
    /// Whether the worker is to end.
    pub exit: bool,
}

/// Every request of the batch can be carried out by a worker with these
/// dimensions.
pub open spec fn all_accepted(data: AppData, requests: Seq<InputRequest>) -> bool {
    forall|i: int| 0 <= i < requests.len() ==> data.accepts(#[trigger] requests[i])
}

/// The modifier state after a batch, what the batch sends, and whether it
/// ends the worker.  Requests are carried out in the order of the batch;
/// the first `Exit` ends the turn and what follows it is dropped.
pub open spec fn spec_run(data: AppData, requests: Seq<InputRequest>) -> (u32, Seq<DeviceCall>, bool)
    decreases requests.len(),
{
    if requests.len() == 0 {
        (data.mods, Seq::empty(), false)
    } else if requests[0] == InputRequest::Exit {
        (data.mods, Seq::empty(), true)
    } else {
        let rest = spec_run(
            data.with_mods(data.mods_after(requests[0])),
            requests.drop_first(),
        );
        (rest.0, data.calls_for(requests[0]) + rest.1, rest.2)
    }
}

/// One turn of the worker's loop over the requests that queued up since
/// the last turn.
pub fn remote_loop(data: &mut AppData, requests: &Vec<InputRequest>) -> (turn: Turn)
    requires
        all_accepted(*old(data), requests@),
    ensures
        *final(data) == old(data).with_mods(spec_run(*old(data), requests@).0),
        turn.calls@ == spec_run(*old(data), requests@).1,
        turn.exit == spec_run(*old(data), requests@).2,
{
    let mut calls: Vec<DeviceCall> = Vec::new();
    let mut index: usize = 0;
    let mut exit: bool = false;
    proof {
        assert(requests@.skip(0) =~= requests@);
        assert(old(data).with_mods(old(data).mods) == *old(data));
    }
    while index < requests.len() && !exit
        invariant
            index <= requests.len(),
            *data == old(data).with_mods(data.mods),
            all_accepted(*old(data), requests@),
            !exit ==> spec_run(*old(data), requests@).0 == spec_run(
                *data,
                requests@.skip(index as int),
            ).0,
            !exit ==> spec_run(*old(data), requests@).1 == calls@ + spec_run(
                *data,
                requests@.skip(index as int),
            ).1,
            !exit ==> spec_run(*old(data), requests@).2 == spec_run(
                *data,
                requests@.skip(index as int),
            ).2,
            exit ==> spec_run(*old(data), requests@) == (data.mods, calls@, true),
        decreases requests.len() - index, if exit { 0int } else { 1int },
    {
        let request: InputRequest = requests[index];
        proof {
            let tail = requests@.skip(index as int);
            assert(tail[0] == request);
            assert(tail.drop_first() =~= requests@.skip(index as int + 1));
            assert(old(data).accepts(request));
        }
        match request {
            InputRequest::Exit => {
                exit = true;
                proof {
                    assert(calls@ + Seq::<DeviceCall>::empty() =~= calls@);
                }
            },
            _ => {
                let ghost before = *data;
                let ghost sent = calls@;
                let mut more = data.handle(&request);
                calls.append(&mut more);
                proof {
                    let rest = spec_run(*data, requests@.skip(index as int + 1));
                    assert(sent + (before.calls_for(request) + rest.1) =~= (sent
                        + before.calls_for(request)) + rest.1);
                }
                index = index + 1;
            },
        }
    }
    proof {
        if !exit {
            assert(requests@.skip(index as int).len() == 0);
            assert(calls@ + Seq::<DeviceCall>::empty() =~= calls@);
        }
    }
    Turn { calls, exit }
}

/// Requests of one session are carried out in the order in which they
/// were queued: a batch followed by another sends what the first sends and
/// then what the second sends, unless the first ends the worker.
pub proof fn lemma_batches_in_order(data: AppData, first: Seq<InputRequest>, second: Seq<InputRequest>)
    ensures
        ({
            let head = spec_run(data, first);
            let tail = spec_run(data.with_mods(head.0), second);
            let whole = spec_run(data, first + second);
            if head.2 {
                whole == head
            } else {
                whole == (tail.0, head.1 + tail.1, tail.2)
            }
        }),
    decreases first.len(),
{
    if first.len() == 0 {
        assert(first + second =~= second);
        assert(data.with_mods(data.mods) == data);
        assert(Seq::<DeviceCall>::empty() + spec_run(data, second).1 =~= spec_run(data, second).1);
    } else if first[0] == InputRequest::Exit {
        assert((first + second)[0] == first[0]);
    } else {
        let next = data.with_mods(data.mods_after(first[0]));
        assert((first + second)[0] == first[0]);
        assert((first + second).drop_first() =~= first.drop_first() + second);
        lemma_batches_in_order(next, first.drop_first(), second);
        let head_rest = spec_run(next, first.drop_first());
        assert(next.with_mods(head_rest.0) == data.with_mods(head_rest.0));
        let tail = spec_run(data.with_mods(head_rest.0), second);
        assert(data.calls_for(first[0]) + (head_rest.1 + tail.1) =~= (data.calls_for(first[0])
            + head_rest.1) + tail.1);
    }
}

} // verus!

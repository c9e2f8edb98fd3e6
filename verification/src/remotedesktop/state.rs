//! The state of one input worker and what each input request makes it send
//! to the compositor.

use vstd::prelude::*;
use crate::remotedesktop::dispatch::{contains_symbol, spec_resolve, Keymap};
use crate::utils::{spec_unsigned, unsigned, Real};

verus! {

/// The time stamp of motion events.
pub const MOTION_TIME: u32 = 10;

/// The time stamp of button, scroll and key events.
pub const EVENT_TIME: u32 = 100;

/// The key state that means "pressed".
pub const KEY_PRESSED: u32 = 1;

/// The scroll distance of one discrete step, 10.0, as an IEEE 754 bit
/// pattern.
pub const STEP_VALUE_BITS: u64 = 0x4024_0000_0000_0000;

/// A modifier key, by its meaning.
#[derive(Clone, Copy, Debug, PartialEq, Eq, Structural)]
pub enum Modifiers {
    /// Either Shift key.
    Shift,
    /// Caps Lock.
    CapsLock,
    /// Either Control key.
    Ctrl,
    /// The Alt key.
    Alt,
    /// Either Super key.
    Super,
    /// The AltGr key.
    AltGr,
}

impl Modifiers {
    /// The bit of this modifier in the keyboard's modifier state.
    pub open spec fn spec_bits(self) -> u32 {
        match self {
            Modifiers::Shift => 1,
            Modifiers::CapsLock => 2,
            Modifiers::Ctrl => 4,
            Modifiers::Alt => 8,
            Modifiers::Super => 64,
            Modifiers::AltGr => 128,
        }
    }

    /// The bit of this modifier in the keyboard's modifier state.
    pub fn bits(self) -> (bit: u32)
        ensures
            bit == self.spec_bits(),
    {
        match self {
            Modifiers::Shift => 1,
            Modifiers::CapsLock => 2,
            Modifiers::Ctrl => 4,
            Modifiers::Alt => 8,
            Modifiers::Super => 64,
            Modifiers::AltGr => 128,
        }
    }
}

/// The modifier that the key with evdev code `keycode` is, if it is one.
pub open spec fn spec_modifier(keycode: i32) -> Option<Modifiers> {
    if keycode == 42 || keycode == 54 {
        Some(Modifiers::Shift)
    } else if keycode == 58 {
        Some(Modifiers::CapsLock)
    } else if keycode == 29 || keycode == 97 {
        Some(Modifiers::Ctrl)
    } else if keycode == 56 {
        Some(Modifiers::Alt)
    } else if keycode == 125 || keycode == 126 {
        Some(Modifiers::Super)
    } else if keycode == 100 {
        Some(Modifiers::AltGr)
    } else {
        None
    }
}

/// The modifier state after the key `keycode` went to `state`.
///
/// Caps Lock flips its bit when pressed and ignores the release.  Every
/// other modifier sets its bit when pressed and clears it otherwise.  A key
/// that is no modifier leaves the state alone.
pub open spec fn spec_mods_after_key(mods: u32, keycode: i32, state: u32) -> u32 {
    match spec_modifier(keycode) {
        Some(Modifiers::CapsLock) => if state == KEY_PRESSED {
            mods ^ 2
        } else {
            mods
        },
        Some(modifier) => if state == KEY_PRESSED {
            mods | modifier.spec_bits()
        } else {
            mods & !modifier.spec_bits()
        },
        None => mods,
    }
}

/// Whether a button is down.
#[derive(Clone, Copy, Debug, PartialEq, Eq, Structural)]
pub enum ButtonState {
    /// The button went up.
    Released,
    /// The button went down.
    Pressed,
}

/// A scroll axis.
#[derive(Clone, Copy, Debug, PartialEq, Eq, Structural)]
pub enum Axis {
    /// Up and down.
    VerticalScroll,
    /// Left and right.
    HorizontalScroll,
}

/// One request to the compositor's virtual pointer or virtual keyboard.
#[derive(Clone, Copy, Debug, PartialEq, Eq, Structural)]
pub enum DeviceCall {
    /// Move the pointer by a distance.
    Motion { time: u32, dx: Real, dy: Real },
    /// Put the pointer at a place within an extent.
    MotionAbsolute { time: u32, x: u32, y: u32, x_extent: u32, y_extent: u32 },
    /// Press or release a pointer button.
    Button { time: u32, button: u32, state: ButtonState },
    /// Scroll by a distance.
    Axis { time: u32, axis: Axis, value: Real },
    /// Scroll by a number of steps of a given distance each.
    AxisDiscrete { time: u32, axis: Axis, value: Real, steps: i32 },
    /// Tell the keyboard's modifier state.
    Modifiers { depressed: u32, latched: u32, locked: u32, group: u32 },
    /// Press or release a key.
    Key { time: u32, key: u32, state: u32 },
}

/// The button state that a request's number means: 0 is a release, every
/// other number a press.
pub open spec fn spec_button_state(state: u32) -> ButtonState {
    if state == 0 {
        ButtonState::Released
    } else {
        ButtonState::Pressed
    }
}

/// The scroll axis that a request's number means: 0 is vertical, every
/// other number horizontal.
pub open spec fn spec_axis(axis: u32) -> Axis {
    if axis == 0 {
        Axis::VerticalScroll
    } else {
        Axis::HorizontalScroll
    }
}

/// The modifier that a shift level needs: none at level 0, Shift at 1,
/// AltGr at 2.
pub open spec fn spec_level_bits(level: u32) -> u32 {
    if level == 1 {
        1
    } else if level == 2 {
        128
    } else {
        0
    }
}

/// What typing a resolved key symbol sends: the key alone at level 0;
/// at a higher level the key between the modifier state with the level's
/// modifier added and the state as it was.  A symbol that did not resolve
/// sends nothing.
pub open spec fn spec_keysym_calls(mods: u32, resolved: Option<(u32, u32)>, state: u32) -> Seq<
    DeviceCall,
> {
    match resolved {
        None => Seq::empty(),
        Some((keycode, level)) => {
            let key = DeviceCall::Key { time: EVENT_TIME, key: keycode, state };
            if spec_level_bits(level) == 0 {
                seq![key]
            } else {
                seq![
                    DeviceCall::Modifiers {
                        depressed: mods | spec_level_bits(level),
                        latched: 0,
                        locked: 0,
                        group: 0,
                    },
                    key,
                    DeviceCall::Modifiers { depressed: mods, latched: 0, locked: 0, group: 0 },
                ]
            }
        },
    }
}

/// What a key event sends: the new modifier state where the state may have
/// changed, the key itself where it is no modifier, nothing for the release
/// of Caps Lock.
pub open spec fn spec_keycode_calls(mods: u32, keycode: i32, state: u32) -> Seq<DeviceCall> {
    match spec_modifier(keycode) {
        Some(Modifiers::CapsLock) => if state == KEY_PRESSED {
            seq![
                DeviceCall::Modifiers {
                    depressed: spec_mods_after_key(mods, keycode, state),
                    latched: 0,
                    locked: 0,
                    group: 0,
                },
            ]
        } else {
            Seq::empty()
        },
        Some(_) => seq![
            DeviceCall::Modifiers {
                depressed: spec_mods_after_key(mods, keycode, state),
                latched: 0,
                locked: 0,
                group: 0,
            },
        ],
        None => seq![DeviceCall::Key { time: EVENT_TIME, key: spec_unsigned(keycode), state }],
    }
}

/// The state of one input worker.
pub struct AppData {
    /// The modifier keys that are down, as a bit-set.
    pub mods: u32,
    /// The keymap that key symbols are looked up in.
    pub keymap: Keymap,
    /// Where the session's space begins, across.
    pub origin_x: u32,
    /// Where the session's space begins, down.
    pub origin_y: u32,
    /// The width of the session's space.
    pub output_width: u32,
    /// The height of the session's space.
    pub output_height: u32,
}

impl AppData {
    /// A worker with no modifier down.
    pub fn new(
        keymap: Keymap,
        origin_x: u32,
        origin_y: u32,
        output_width: u32,
        output_height: u32,
    ) -> (data: AppData)
        ensures
            data.mods == 0,
            data.keymap == keymap,
            data.origin_x == origin_x,
            data.origin_y == origin_y,
            data.output_width == output_width,
            data.output_height == output_height,
    {
        AppData { mods: 0, keymap, origin_x, origin_y, output_width, output_height }
    }

    /// Whether the place `(x, y)` of the session's space is still a place
    /// of the compositor's 32-bit space.
    pub open spec fn reaches(&self, x: u32, y: u32) -> bool {
        x + self.origin_x <= u32::MAX && y + self.origin_y <= u32::MAX
    }

    /// Whether the place `(x, y)` of the session's space is still a place
    /// of the compositor's 32-bit space.
    pub fn can_reach(&self, x: u32, y: u32) -> (fits: bool)
        ensures
            fits == self.reaches(x, y),
    {
        x <= u32::MAX - self.origin_x && y <= u32::MAX - self.origin_y
    }

    /// The modifier that the key with evdev code `keycode` is.
    pub fn get_modifier_from_keycode(&self, keycode: i32) -> (modifier: Option<Modifiers>)
        ensures
            modifier == spec_modifier(keycode),
    {
        match keycode {
            42 | 54 => Some(Modifiers::Shift),
            58 => Some(Modifiers::CapsLock),
            29 | 97 => Some(Modifiers::Ctrl),
            56 => Some(Modifiers::Alt),
            125 | 126 => Some(Modifiers::Super),
            100 => Some(Modifiers::AltGr),
            _ => None,
        }
    }

    /// A relative motion, handed on as it came.
    pub fn notify_pointer_motion(&self, dx: Real, dy: Real) -> (calls: Vec<DeviceCall>)
        ensures
            calls@ == seq![DeviceCall::Motion { time: MOTION_TIME, dx, dy }],
    {
        vec![DeviceCall::Motion { time: MOTION_TIME, dx, dy }]
    }

    /// A motion to the place `(x, y)` of the session's space, which lies at
    /// the session's origin within the compositor's space.
    pub fn notify_pointer_motion_absolute(&self, x: u32, y: u32) -> (calls: Vec<DeviceCall>)
        requires
            self.reaches(x, y),
        ensures
            calls@ == seq![
                DeviceCall::MotionAbsolute {
                    time: MOTION_TIME,
                    x: (x + self.origin_x) as u32,
                    y: (y + self.origin_y) as u32,
                    x_extent: self.output_width,
                    y_extent: self.output_height,
                },
            ],
    {
        vec![
            DeviceCall::MotionAbsolute {
                time: MOTION_TIME,
                x: x + self.origin_x,
                y: y + self.origin_y,
                x_extent: self.output_width,
                y_extent: self.output_height,
            },
        ]
    }

    /// A button event: state 0 releases the button, every other state
    /// presses it.
    pub fn notify_pointer_button(&self, button: i32, state: u32) -> (calls: Vec<DeviceCall>)
        ensures
            calls@ == seq![
                DeviceCall::Button {
                    time: EVENT_TIME,
                    button: spec_unsigned(button),
                    state: spec_button_state(state),
                },
            ],
            state == 0 ==> calls@[0]->Button_state == ButtonState::Released,
            state != 0 ==> calls@[0]->Button_state == ButtonState::Pressed,
    {
        let pressed = if state == 0 {
            ButtonState::Released
        } else {
            ButtonState::Pressed
        };
        vec![DeviceCall::Button { time: EVENT_TIME, button: unsigned(button), state: pressed }]
    }

    /// A continuous scroll: the horizontal distance, then the vertical one.
    pub fn notify_pointer_axis(&self, dx: Real, dy: Real) -> (calls: Vec<DeviceCall>)
        ensures
            calls@ == seq![
                DeviceCall::Axis { time: EVENT_TIME, axis: Axis::HorizontalScroll, value: dx },
                DeviceCall::Axis { time: EVENT_TIME, axis: Axis::VerticalScroll, value: dy },
            ],
    {
        vec![
            DeviceCall::Axis { time: EVENT_TIME, axis: Axis::HorizontalScroll, value: dx },
            DeviceCall::Axis { time: EVENT_TIME, axis: Axis::VerticalScroll, value: dy },
        ]
    }

    /// A scroll by steps: axis 0 is vertical, every other axis horizontal.
    /// Each step is worth the same distance whatever the sign or number of
    /// the steps, and the steps are handed on as they came.
    pub fn notify_pointer_axis_discrete(&self, axis: u32, steps: i32) -> (calls: Vec<DeviceCall>)
        ensures
            calls@ == seq![
                DeviceCall::AxisDiscrete {
                    time: EVENT_TIME,
                    axis: spec_axis(axis),
                    value: Real { bits: STEP_VALUE_BITS },
                    steps,
                },
            ],
            axis == 0 ==> calls@[0]->AxisDiscrete_axis == Axis::VerticalScroll,
            axis != 0 ==> calls@[0]->AxisDiscrete_axis == Axis::HorizontalScroll,
    {
        let which = if axis == 0 {
            Axis::VerticalScroll
        } else {
            Axis::HorizontalScroll
        };
        vec![
            DeviceCall::AxisDiscrete {
                time: EVENT_TIME,
                axis: which,
                value: Real { bits: STEP_VALUE_BITS },
                steps,
            },
        ]
    }

    /// A key event by evdev code.  A modifier key updates the modifier
    /// state and tells the keyboard the new state; any other key is sent as
    /// it is.
    pub fn notify_keyboard_keycode(&mut self, keycode: i32, state: u32) -> (calls: Vec<DeviceCall>)
        ensures
            final(self).mods == spec_mods_after_key(old(self).mods, keycode, state),
            final(self).keymap == old(self).keymap,
            final(self).origin_x == old(self).origin_x,
            final(self).origin_y == old(self).origin_y,
            final(self).output_width == old(self).output_width,
            final(self).output_height == old(self).output_height,
            calls@ == spec_keycode_calls(old(self).mods, keycode, state),
    {
        match self.get_modifier_from_keycode(keycode) {
            Some(Modifiers::CapsLock) => {
                if state == KEY_PRESSED {
                    self.mods = self.mods ^ 2;
                    vec![
                        DeviceCall::Modifiers {
                            depressed: self.mods,
                            latched: 0,
                            locked: 0,
                            group: 0,
                        },
                    ]
                } else {
                    Vec::new()
                }
            },
            Some(modifier) => {
                if state == KEY_PRESSED {
                    self.mods = self.mods | modifier.bits();
                } else {
                    self.mods = self.mods & !modifier.bits();
                }
                vec![
                    DeviceCall::Modifiers { depressed: self.mods, latched: 0, locked: 0, group: 0 },
                ]
            },
            None => vec![DeviceCall::Key { time: EVENT_TIME, key: unsigned(keycode), state }],
        }
    }

    /// What typing the symbol that resolved to `resolved` sends.
    pub fn emit_resolved(&self, resolved: Option<(u32, u32)>, state: u32) -> (calls: Vec<
        DeviceCall,
    >)
        ensures
            calls@ == spec_keysym_calls(self.mods, resolved, state),
    {
        match resolved {
            None => Vec::new(),
            Some((keycode, level)) => {
                let key = DeviceCall::Key { time: EVENT_TIME, key: keycode, state };
                let extra: u32 = if level == 1 {
                    1
                } else if level == 2 {
                    128
                } else {
                    0
                };
                if extra == 0 {
                    vec![key]
                } else {
                    vec![
                        DeviceCall::Modifiers {
                            depressed: self.mods | extra,
                            latched: 0,
                            locked: 0,
                            group: 0,
                        },
                        key,
                        DeviceCall::Modifiers {
                            depressed: self.mods,
                            latched: 0,
                            locked: 0,
                            group: 0,
                        },
                    ]
                }
            },
        }
    }

    /// A key event by key symbol.  The symbol is looked up in the keymap;
    /// one that the keymap lacks is dropped.  The modifier state of the
    /// worker is the same before and after.
    pub fn notify_keyboard_keysym(&self, keysym: i32, state: u32) -> (calls: Vec<DeviceCall>)
        ensures
            calls@ == spec_keysym_calls(
                self.mods,
                spec_resolve(self.keymap.entries@, spec_unsigned(keysym)),
                state,
            ),
            calls@.len() == 0 <==> !contains_symbol(self.keymap.entries@, spec_unsigned(keysym)),
    {
        let resolved = self.keymap.resolve(unsigned(keysym));
        self.emit_resolved(resolved, state)
    }
}

/// Caps Lock flips its own bit when pressed and leaves every other bit
/// alone; its release changes nothing.
pub proof fn lemma_caps_lock_toggles(mods: u32, state: u32)
    ensures
        state == KEY_PRESSED ==> (spec_mods_after_key(mods, 58, state) & 2 != 0) == (mods & 2 == 0),
        spec_mods_after_key(mods, 58, state) & !2u32 == mods & !2u32,
        state != KEY_PRESSED ==> spec_mods_after_key(mods, 58, state) == mods,
        spec_mods_after_key(spec_mods_after_key(mods, 58, KEY_PRESSED), 58, KEY_PRESSED) == mods,
{
    assert(((mods ^ 2) & 2 != 0) == (mods & 2 == 0)) by (bit_vector);
    assert((mods ^ 2) & !2u32 == mods & !2u32) by (bit_vector);
    assert((mods ^ 2) ^ 2 == mods) by (bit_vector);
}

/// A modifier other than Caps Lock has its bit set after a press and clear
/// after anything else, and no other bit changes.
pub proof fn lemma_modifier_sets_and_clears(mods: u32, keycode: i32, state: u32)
    requires
        spec_modifier(keycode).is_some(),
        spec_modifier(keycode) != Some(Modifiers::CapsLock),
    ensures
        ({
            let bit = spec_modifier(keycode).unwrap().spec_bits();
            let after = spec_mods_after_key(mods, keycode, state);
            &&& state == KEY_PRESSED ==> after & bit == bit
            &&& state != KEY_PRESSED ==> after & bit == 0
            &&& after & !bit == mods & !bit
        }),
{
    let bit = spec_modifier(keycode).unwrap().spec_bits();
    assert((mods | bit) & bit == bit) by (bit_vector);
    assert((mods & !bit) & bit == 0) by (bit_vector);
    assert((mods | bit) & !bit == mods & !bit) by (bit_vector);
    assert((mods & !bit) & !bit == mods & !bit) by (bit_vector);
}

/// A key that is no modifier never changes the modifier state.
pub proof fn lemma_plain_key_keeps_modifiers(mods: u32, keycode: i32, state: u32)
    requires
        spec_modifier(keycode).is_none(),
    ensures
        spec_mods_after_key(mods, keycode, state) == mods,
{
}

} // verus!

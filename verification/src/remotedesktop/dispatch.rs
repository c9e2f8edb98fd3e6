//! The keymap the virtual keyboard is seeded with, as the table of keys
//! that the worker looks key symbols up in.

use vstd::prelude::*;
use crate::remotedesktop::state::AppData;

verus! {

/// The highest shift level at which a key symbol is looked for.
pub const MAX_LEVEL: u32 = 2;

/// One way to type a key symbol: a key of the keyboard at a shift level.
#[derive(Clone, Copy, Debug, PartialEq, Eq, Structural)]
pub struct KeyEntry {
    /// The symbol that the key gives at this level.
    pub keysym: u32,
    /// The code of the key.
    pub keycode: u32,
    /// The shift level: 0 bare, 1 with Shift, 2 with AltGr.
    pub level: u32,
}

/// How far the key codes of XKB lie above the evdev codes that the
/// virtual keyboard takes.
pub const EVDEV_OFFSET: u32 = 8;

impl KeyEntry {
    /// The entry for a symbol that XKB gives for the key with XKB code
    /// `xkb_keycode` at `level`.  The virtual keyboard takes evdev codes,
    /// which lie `EVDEV_OFFSET` below; a code below the offset is no key
    /// of the keyboard and a level above `MAX_LEVEL` cannot be reached, so
    /// neither has an entry.
    pub fn from_xkb(xkb_keycode: u32, level: u32, keysym: u32) -> (entry: Option<KeyEntry>)
        ensures
            entry == if xkb_keycode >= EVDEV_OFFSET && level <= MAX_LEVEL {
                Some(KeyEntry { keysym, keycode: (xkb_keycode - EVDEV_OFFSET) as u32, level })
            } else {
                None
            },
    {
        if xkb_keycode >= EVDEV_OFFSET && level <= MAX_LEVEL {
            Some(KeyEntry { keysym, keycode: xkb_keycode - EVDEV_OFFSET, level })
        } else {
            None
        }
    }
}

/// A keymap, as the list of its keys in the order in which they are tried.
pub struct Keymap {
    /// The ways to type each symbol.
    pub entries: Vec<KeyEntry>,
}

/// Whether `entry` types `keysym` at a level that the worker can reach.
pub open spec fn types_symbol(entry: KeyEntry, keysym: u32) -> bool {
    entry.keysym == keysym && entry.level <= MAX_LEVEL
}

/// Whether the keymap has a way to type `keysym`.
pub open spec fn contains_symbol(entries: Seq<KeyEntry>, keysym: u32) -> bool {
    exists|i: int| 0 <= i < entries.len() && types_symbol(#[trigger] entries[i], keysym)
}

/// The first way to type `keysym` in the keymap, as key code and level.
pub open spec fn spec_resolve(entries: Seq<KeyEntry>, keysym: u32) -> Option<(u32, u32)>
    decreases entries.len(),
{
    if entries.len() == 0 {
        None
    } else if types_symbol(entries[0], keysym) {
        Some((entries[0].keycode, entries[0].level))
    } else {
        spec_resolve(entries.drop_first(), keysym)
    }
}

/// A symbol resolves exactly when the keymap contains it, and then to one
/// of its entries, at level 0, 1 or 2.
pub proof fn lemma_resolve_iff_contained(entries: Seq<KeyEntry>, keysym: u32)
    ensures
        spec_resolve(entries, keysym).is_some() <==> contains_symbol(entries, keysym),
        match spec_resolve(entries, keysym) {
            Some((keycode, level)) => level <= MAX_LEVEL && exists|i: int|
                0 <= i < entries.len() && #[trigger] entries[i] == (KeyEntry {
                    keysym,
                    keycode,
                    level,
                }),
            None => true,
        },
    decreases entries.len(),
{
    if entries.len() == 0 {
    } else if types_symbol(entries[0], keysym) {
        assert(entries[0] == KeyEntry {
            keysym,
            keycode: entries[0].keycode,
            level: entries[0].level,
        });
    } else {
        let rest = entries.drop_first();
        lemma_resolve_iff_contained(rest, keysym);
        if contains_symbol(rest, keysym) {
            let i = choose|i: int| 0 <= i < rest.len() && types_symbol(#[trigger] rest[i], keysym);
            assert(types_symbol(entries[i + 1], keysym));
        }
        if contains_symbol(entries, keysym) {
            let i = choose|i: int|
                0 <= i < entries.len() && types_symbol(#[trigger] entries[i], keysym);
            assert(types_symbol(rest[i - 1], keysym));
        }
        match spec_resolve(rest, keysym) {
            Some((keycode, level)) => {
                let i = choose|i: int|
                    0 <= i < rest.len() && #[trigger] rest[i] == (KeyEntry {
                        keysym,
                        keycode,
                        level,
                    });
                assert(entries[i + 1] == rest[i]);
            },
            None => {},
        }
    }
}

impl Keymap {
    /// A keymap with the given keys.
    pub fn new(entries: Vec<KeyEntry>) -> (keymap: Keymap)
        ensures
            keymap.entries@ == entries@,
    {
        Keymap { entries }
    }

    /// Looks `keysym` up.  The result is the key code and level of the
    /// first entry that types it at level 0, 1 or 2; there is a result
    /// exactly when the keymap contains the symbol.
    pub fn resolve(&self, keysym: u32) -> (found: Option<(u32, u32)>)
        ensures
            found == spec_resolve(self.entries@, keysym),
            found.is_some() <==> contains_symbol(self.entries@, keysym),
            match found {
                Some((_, level)) => level <= MAX_LEVEL,
                None => true,
            },
    {
        proof {
            lemma_resolve_iff_contained(self.entries@, keysym);
            assert(self.entries@.skip(0) =~= self.entries@);
        }
        let mut index: usize = 0;
        while index < self.entries.len()
            invariant
                index <= self.entries.len(),
                spec_resolve(self.entries@, keysym) == spec_resolve(
                    self.entries@.skip(index as int),
                    keysym,
                ),
            decreases self.entries.len() - index,
        {
            let entry: KeyEntry = self.entries[index];
            proof {
                let tail = self.entries@.skip(index as int);
                assert(tail[0] == entry);
                assert(tail.drop_first() =~= self.entries@.skip(index as int + 1));
            }
            if entry.keysym == keysym && entry.level <= MAX_LEVEL {
                return Some((entry.keycode, entry.level));
            }
            index = index + 1;
        }
        proof {
            assert(self.entries@.skip(index as int).len() == 0);
        }
        None
    }
}

/// The format in which the compositor hands a keymap over.
#[derive(Clone, Copy, Debug, PartialEq, Eq, Structural)]
pub enum KeymapFormat {
    /// No keymap; the keys are to be taken as they are.
    NoKeymap,
    /// A keymap in the text format of XKB.
    XkbV1,
    /// A format that the worker does not know.
    Unknown,
}

impl AppData {
    /// The compositor announced a keymap.  One in the XKB text format is
    /// handed on to the virtual keyboard (the result is true) and, where
    /// it could be compiled, becomes the keymap that key symbols are
    /// looked up in.  A keymap in any other format is reported and
    /// changes nothing.
    pub fn event(&mut self, format: KeymapFormat, compiled: Option<Keymap>) -> (hand_on: bool)
        ensures
            hand_on == (format == KeymapFormat::XkbV1),
            final(self).keymap == if format == KeymapFormat::XkbV1 && compiled.is_some() {
                compiled.unwrap()
            } else {
                old(self).keymap
            },
            final(self).mods == old(self).mods,
            final(self).origin_x == old(self).origin_x,
            final(self).origin_y == old(self).origin_y,
            final(self).output_width == old(self).output_width,
            final(self).output_height == old(self).output_height,
    {
        match format {
            KeymapFormat::XkbV1 => {
                if let Some(keymap) = compiled {
                    self.keymap = keymap;
                }
                true
            },
            _ => false,
        }
    }
}

} // verus!

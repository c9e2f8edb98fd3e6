//! The thin dialogs: a monitor picker and a confirmation.

use vstd::prelude::*;
use crate::gui::CopySelect;

verus! {

/// What the thin picker answers.
#[derive(Clone, Copy, Debug, PartialEq, Eq, Structural)]
pub enum SlintSelection {
    /// All monitors.
    GlobalScreen { showcursor: bool },
    /// An area that the user draws.
    Slurp,
    /// Nothing.
    Canceled,
    /// The monitor at this place in the list that was shown.
    Selection { showcursor: bool, index: i32 },
}

/// The answer of the picker: what it sent before it closed, or a
/// cancellation where it sent nothing.
pub fn selectgui(sent: Option<SlintSelection>) -> (selection: SlintSelection)
    ensures
        selection == match sent {
            Some(message) => message,
            None => SlintSelection::Canceled,
        },
{
    match sent {
        Some(message) => message,
        None => SlintSelection::Canceled,
    }
}

/// The answer of the confirmation: what the user pressed, or a refusal
/// where the dialog closed without an answer.
pub fn confirmgui(sent: Option<bool>) -> (confirmed: bool)
    ensures
        confirmed == (sent == Some(true)),
{
    match sent {
        Some(answer) => answer,
        None => false,
    }
}

impl SlintSelection {
    /// The same answer in the words of the full dialog.  A place below
    /// zero names no monitor and counts as a cancellation.
    pub fn into_copy_select(self) -> (select: CopySelect)
        ensures
            select == match self {
                SlintSelection::GlobalScreen { .. } => CopySelect::All,
                SlintSelection::Slurp => CopySelect::Slurp,
                SlintSelection::Canceled => CopySelect::Cancel,
                SlintSelection::Selection { showcursor, index } => if index >= 0 {
                    CopySelect::Screen { index: index as usize, show_cursor: showcursor }
                } else {
                    CopySelect::Cancel
                },
            },
    {
        match self {
            SlintSelection::GlobalScreen { showcursor: _ } => CopySelect::All,
            SlintSelection::Slurp => CopySelect::Slurp,
            SlintSelection::Canceled => CopySelect::Cancel,
            SlintSelection::Selection { showcursor, index } => {
                if index >= 0 {
                    CopySelect::Screen { index: index as usize, show_cursor: showcursor }
                } else {
                    CopySelect::Cancel
                }
            },
        }
    }
}

} // verus!

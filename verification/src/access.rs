//! The access interface: a permission prompt.

use vstd::prelude::*;
use crate::gui::{CopySelect, Message};
use crate::response::PortalResponse;

verus! {

/// A choice to show with the prompt: id, label, the options as pairs of
/// id and label, and the id of the option that is selected at first.
#[derive(Debug)]
pub struct Choice(pub String, pub String, pub Vec<(String, String)>, pub String);

/// How the prompt is to look.
#[derive(Debug)]
pub struct AccessOption {
    /// Whether the prompt is modal.
    pub modal: Option<bool>,
    /// The label of the button that denies.
    pub deny_label: Option<String>,
    /// The label of the button that grants.
    pub grant_label: Option<String>,
    /// The icon to show.
    pub icon: Option<String>,
    /// The choices to show.
    pub choices: Option<Vec<Choice>>,
}

/// The access interface.
#[derive(Debug)]
pub struct AccessBackend;

impl AccessBackend {
    /// What to ask of the dialog: a permission prompt with the body of the
    /// request as its text.
    pub fn prompt(&self, body: String) -> (message: Message)
        ensures
            message == (Message::PermissionPrompt { text: body }),
    {
        Message::PermissionPrompt { text: body }
    }

    /// The answer to an access request, given what the dialog answered:
    /// success, with nothing to tell, where the user granted; a
    /// cancellation in every other case, a lost dialog (`None`) included.
    pub fn access_dialog(&self, reply: Option<CopySelect>) -> (response: PortalResponse<()>)
        ensures
            response == if reply == Some(CopySelect::Permission(true)) {
                PortalResponse::Success(())
            } else {
                PortalResponse::Cancelled
            },
    {
        match reply {
            Some(CopySelect::Permission(true)) => PortalResponse::Success(()),
            _ => PortalResponse::Cancelled,
        }
    }
}

} // verus!

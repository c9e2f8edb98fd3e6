//! Screenshots and colour picking: what is captured for a request and what
//! is answered.

use vstd::prelude::*;
use crate::gui::CopySelect;
use crate::pipewirethread::EmbeddedRegion;
use crate::response::PortalResponse;
use crate::settings::config::AccentColor;
use crate::utils::{join, runtime_dir, spec_fallback_dir, spec_join};

verus! {

/// What a client may set with a screenshot request.
#[derive(Debug)]
pub struct ScreenshotOption {
    /// Whether the user chooses what is shot.
    pub interactive: bool,
    /// Whether the dialog is modal.
    pub modal: Option<bool>,
    /// Whether the permission to shoot was checked already.
    pub permission_store_checked: Option<bool>,
}

/// The result of a screenshot: where the picture is.
pub struct Screenshot {
    /// The file URI of the picture.
    pub uri: String,
}

/// The result of picking a colour.
#[derive(Clone, Copy, Debug, PartialEq, Eq, Structural)]
pub struct Color {
    /// The colour of the pixel, each channel a fraction of 256.
    pub color: AccentColor,
}

/// What a screenshot request begins with.
#[derive(Clone, Copy, Debug, PartialEq, Eq, Structural)]
pub enum ShotStep {
    /// Ask the user for permission first.
    AskPermission,
    /// Let the user choose what to shoot.
    OpenPicker,
    /// Shoot all monitors.
    CaptureAll,
    /// Answer `Cancelled`.
    Cancelled,
}

/// What is shot.
#[derive(Clone, Copy, Debug, PartialEq, Eq, Structural)]
pub enum ShotChoice {
    /// Nothing: answer `Cancelled` and write no file.
    Cancelled,
    /// The monitor at this place of the list.
    Output { index: usize, show_cursor: bool },
    /// The window at this place of the list.
    Toplevel { index: usize, show_cursor: bool },
    /// All monitors.
    All,
    /// An area that the user draws on the frozen screen.
    Area,
}

/// What picking a colour goes on with.
#[derive(Clone, Copy, Debug, PartialEq, Eq, Structural)]
pub enum PickStep {
    /// The user chose no point: answer `Cancelled`.
    Cancelled,
    /// Capture this region of one pixel.
    Capture(EmbeddedRegion),
}

/// The text of the file URI that `url` makes of the path `path`; none
/// where it makes no URI of it.
pub uninterp spec fn file_url_text(path: Seq<char>) -> Option<Seq<char>>;

/// Makes a file URI of a path with `url::Url::from_file_path` and returns
/// its text.  The contract only gives the outcome its name: the same path
/// always gives the same URI, or none.
#[verifier::external_body]
fn file_url(path: &str) -> (uri: Option<String>)
    ensures
        match uri {
            Some(text) => file_url_text(path@) == Some(text@),
            None => file_url_text(path@).is_none(),
        },
{
    match url::Url::from_file_path(path) {
        Ok(url) => Some(url.to_string()),
        Err(_) => None,
    }
}

/// The screenshot interface.
#[derive(Debug)]
pub struct ScreenShotBackend;

impl ScreenShotBackend {
    /// The version of the interface.
    pub fn version(&self) -> (version: u32)
        ensures
            version == 1,
    {
        1
    }

    /// What a screenshot request begins with.  Without interaction all
    /// monitors are shot.  With it the user chooses, after granting
    /// permission where that was not checked before.
    pub fn screenshot(&self, options: &ScreenshotOption) -> (step: ShotStep)
        ensures
            step == if !options.interactive {
                ShotStep::CaptureAll
            } else if options.permission_store_checked == Some(true) {
                ShotStep::OpenPicker
            } else {
                ShotStep::AskPermission
            },
    {
        if !options.interactive {
            ShotStep::CaptureAll
        } else {
            match options.permission_store_checked {
                Some(true) => ShotStep::OpenPicker,
                _ => ShotStep::AskPermission,
            }
        }
    }

    /// What follows the permission prompt: the picker where the user
    /// granted, a cancellation otherwise.
    pub fn after_permission(&self, reply: Option<CopySelect>) -> (step: ShotStep)
        ensures
            step == if reply == Some(CopySelect::Permission(true)) {
                ShotStep::OpenPicker
            } else {
                ShotStep::Cancelled
            },
    {
        match reply {
            Some(CopySelect::Permission(true)) => ShotStep::OpenPicker,
            _ => ShotStep::Cancelled,
        }
    }

    /// What is shot for an answer of the picker over `screens` monitors
    /// and `toplevels` windows.  A lost dialog (`None`), a cancellation, a
    /// place outside the list and an answer to another question shoot
    /// nothing.
    pub fn shot_choice(&self, reply: Option<CopySelect>, screens: usize, toplevels: usize) -> (choice:
        ShotChoice)
        ensures
            choice == match reply {
                Some(CopySelect::Screen { index, show_cursor }) if index < screens => ShotChoice::Output {
                    index,
                    show_cursor,
                },
                Some(CopySelect::Window { index, show_cursor }) if index < toplevels => ShotChoice::Toplevel {
                    index,
                    show_cursor,
                },
                Some(CopySelect::All) => ShotChoice::All,
                Some(CopySelect::Slurp) => ShotChoice::Area,
                _ => ShotChoice::Cancelled,
            },
    {
        match reply {
            Some(CopySelect::Screen { index, show_cursor }) => {
                if index < screens {
                    ShotChoice::Output { index, show_cursor }
                } else {
                    ShotChoice::Cancelled
                }
            },
            Some(CopySelect::Window { index, show_cursor }) => {
                if index < toplevels {
                    ShotChoice::Toplevel { index, show_cursor }
                } else {
                    ShotChoice::Cancelled
                }
            },
            Some(CopySelect::All) => ShotChoice::All,
            Some(CopySelect::Slurp) => ShotChoice::Area,
            _ => ShotChoice::Cancelled,
        }
    }

    /// Where the picture is saved: `wayshot.png` in the runtime directory
    /// that the environment names, or in `/tmp`.
    pub fn save_path(&self, runtime_dir_from_environment: Option<String>) -> (path: String)
        ensures
            path@ == spec_join(
                match runtime_dir_from_environment {
                    Some(named) => named@,
                    None => spec_fallback_dir(),
                },
                "wayshot.png"@,
            ),
    {
        join(runtime_dir(runtime_dir_from_environment), "wayshot.png")
    }

    /// The answer for a picture whose URI is `uri`: success with the URI;
    /// `Other` where the path of the picture has none.
    pub fn reply_with(&self, uri: Option<String>) -> (response: PortalResponse<Screenshot>)
        ensures
            response == match uri {
                Some(text) => PortalResponse::Success(Screenshot { uri: text }),
                None => PortalResponse::Other,
            },
    {
        match uri {
            Some(text) => PortalResponse::Success(Screenshot { uri: text }),
            None => PortalResponse::Other,
        }
    }

    /// The answer for a picture that was saved at `path`: success with
    /// the file URI of the path.
    pub fn reply(&self, path: &String) -> (response: PortalResponse<Screenshot>)
        ensures
            match file_url_text(path@) {
                Some(text) => response matches PortalResponse::Success(shot) && shot.uri@ == text,
                None => response is Other,
            },
    {
        self.reply_with(file_url(path.as_str()))
    }

    /// What picking a colour goes on with once the user has chosen a
    /// point, or has not.
    pub fn pick_color(&self, point: Option<(i32, i32)>) -> (step: PickStep)
        ensures
            step == match point {
                Some((x, y)) => PickStep::Capture(EmbeddedRegion { x, y, width: 1, height: 1 }),
                None => PickStep::Cancelled,
            },
    {
        match point {
            Some((x, y)) => PickStep::Capture(EmbeddedRegion { x, y, width: 1, height: 1 }),
            None => PickStep::Cancelled,
        }
    }

    /// The answer for the pixel that was captured, given as red, green,
    /// blue and alpha: its red, green and blue, each a fraction of 256 and
    /// so less than one.
    pub fn color_reply(&self, pixel: [u8; 4]) -> (response: PortalResponse<Color>)
        ensures
            response == PortalResponse::Success(
                Color { color: AccentColor { red: pixel[0], green: pixel[1], blue: pixel[2] } },
            ),
    {
        PortalResponse::Success(
            Color { color: AccentColor { red: pixel[0], green: pixel[1], blue: pixel[2] } },
        )
    }
}

} // verus!

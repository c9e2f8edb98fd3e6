//! The selection dialog as the core sees it: what is asked of it and what
//! it answers.

use vstd::prelude::*;
use vstd::string::StringExecFns;
use crate::pipewirethread::CastTarget;
use crate::stream_message::Response;

verus! {

/// What the dialog is open for.
#[derive(Clone, Copy, Debug, PartialEq, Eq, Structural)]
pub enum GuiMode {
    /// Choosing what to cast.
    ScreenCast,
    /// Choosing what to shoot.
    ScreenShot,
}

impl Default for GuiMode {
    /// The dialog opens for a screenshot unless told otherwise.
    fn default() -> (mode: GuiMode)
        ensures
            mode == GuiMode::ScreenShot,
    {
        GuiMode::ScreenShot
    }
}

/// The page of the dialog that is shown.
#[derive(Clone, Copy, Debug, PartialEq, Eq, Structural)]
pub enum ShowMode {
    /// The monitors.
    Screens,
    /// The windows.
    Windows,
    /// Everything else: all monitors at once, or an area.
    Others,
}

/// What the dialog answers.
#[derive(Clone, Copy, Debug, PartialEq, Eq, Structural)]
pub enum CopySelect {
    /// The window at this place in the list that was shown.
    Window { index: usize, show_cursor: bool },
    /// The monitor at this place in the list that was shown.
    Screen { index: usize, show_cursor: bool },
    /// All monitors.
    All,
    /// An area that the user draws.
    Slurp,
    /// Nothing.
    Cancel,
    /// The answer to a permission prompt.
    Permission(bool),
}

/// What the dialog takes: requests of the core and what the user does.
pub enum Message {
    /// Show the picker for a screenshot over so many windows and monitors.
    ImageCopyOpen { top_levels: usize, screens: usize },
    /// Show the picker for a cast over so many windows and monitors.
    ScreenCastOpen { top_levels: usize, screens: usize },
    /// Ask the user for a permission, with this text.
    PermissionPrompt { text: String },
    /// The user chose.
    Selected { use_curor: bool, select: CopySelect },
    /// The user turned to another page.
    ShowModeChange(ShowMode),
    /// The user set whether the cursor is shown.
    ToggleCursor(bool),
}

/// What the dialog does after a message.
#[derive(Clone, Copy, Debug, PartialEq, Eq, Structural)]
pub enum Effect {
    /// Nothing beyond the change of its state.
    Nothing,
    /// Open the picker's window.
    OpenWindow,
    /// Ask the user to grant or deny.
    OpenPrompt,
    /// Answer the request that the dialog is open for, and close the
    /// window.
    Reply { mode: GuiMode, select: CopySelect },
    /// Answer a request that came while the window was open with a
    /// cancellation, and leave the window as it is.
    Refuse { mode: GuiMode },
}

/// One button of the row that turns the pages.
#[derive(Clone, Copy, Debug, PartialEq, Eq, Structural)]
pub struct PageButton {
    /// The page that the button turns to.
    pub page: ShowMode,
    /// Whether the button can be pressed.
    pub enabled: bool,
    /// Whether the button's page is the one shown.
    pub current: bool,
}

/// The state of the selection dialog.
#[derive(Clone, Copy, Debug, PartialEq, Eq, Structural)]
pub struct AreaSelectorGUI {
    /// What the dialog is open for.
    pub gui_mode: GuiMode,
    /// The page that is shown.
    pub mode: ShowMode,
    /// Whether the window is open.
    pub window_show: bool,
    /// Whether the compositor can capture single windows.
    pub toplevel_capture_support: bool,
    /// How many windows are listed.
    pub toplevels: usize,
    /// How many monitors are listed.
    pub screens: usize,
    /// Whether the cursor is to be shown.
    pub use_curor: bool,
}

impl AreaSelectorGUI {
    /// The dialog before any request: closed, for a screenshot, on the
    /// page of the other choices, with nothing listed.
    pub fn new(toplevel_capture_support: bool) -> (gui: AreaSelectorGUI)
        ensures
            gui == (AreaSelectorGUI {
                gui_mode: GuiMode::ScreenShot,
                mode: ShowMode::Others,
                window_show: false,
                toplevel_capture_support,
                toplevels: 0,
                screens: 0,
                use_curor: false,
            }),
    {
        AreaSelectorGUI {
            gui_mode: GuiMode::ScreenShot,
            mode: ShowMode::Others,
            window_show: false,
            toplevel_capture_support,
            toplevels: 0,
            screens: 0,
            use_curor: false,
        }
    }

    /// The dialog after a request to open for `wanted` over so many
    /// windows and monitors, while it was closed.  Coming from a cast a
    /// screenshot begins on the page of the other choices; coming from a
    /// screenshot a cast begins on the page of the monitors, for a cast
    /// has no other choices.
    pub open spec fn opened(self, wanted: GuiMode, top_levels: usize, screens: usize) -> AreaSelectorGUI {
        AreaSelectorGUI {
            gui_mode: wanted,
            mode: if self.gui_mode == wanted {
                self.mode
            } else if wanted == GuiMode::ScreenShot {
                ShowMode::Others
            } else {
                ShowMode::Screens
            },
            window_show: true,
            toplevel_capture_support: self.toplevel_capture_support,
            toplevels: top_levels,
            screens,
            use_curor: self.use_curor,
        }
    }

    /// The dialog after a message, and what it does.
    pub open spec fn spec_update(self, message: Message) -> (AreaSelectorGUI, Effect) {
        match message {
            Message::ShowModeChange(page) => (AreaSelectorGUI { mode: page, ..self }, Effect::Nothing),
            Message::ToggleCursor(cursor) => (
                AreaSelectorGUI { use_curor: cursor, ..self },
                Effect::Nothing,
            ),
            Message::Selected { select, .. } => (
                AreaSelectorGUI { window_show: false, ..self },
                Effect::Reply { mode: self.gui_mode, select },
            ),
            Message::ImageCopyOpen { top_levels, screens } => if self.window_show {
                (self, Effect::Refuse { mode: GuiMode::ScreenShot })
            } else {
                (self.opened(GuiMode::ScreenShot, top_levels, screens), Effect::OpenWindow)
            },
            Message::ScreenCastOpen { top_levels, screens } => if self.window_show {
                (self, Effect::Refuse { mode: GuiMode::ScreenCast })
            } else {
                (self.opened(GuiMode::ScreenCast, top_levels, screens), Effect::OpenWindow)
            },
            Message::PermissionPrompt { .. } => (self, Effect::OpenPrompt),
        }
    }

    /// Takes one message.  A request that comes while the window is open
    /// is refused and changes nothing: one request is outstanding at a
    /// time.
    pub fn update(&mut self, message: Message) -> (effect: Effect)
        ensures
            (*final(self), effect) == old(self).spec_update(message),
    {
        match message {
            Message::ShowModeChange(page) => {
                self.mode = page;
                Effect::Nothing
            },
            Message::ToggleCursor(cursor) => {
                self.use_curor = cursor;
                Effect::Nothing
            },
            Message::Selected { use_curor: _, select } => {
                self.window_show = false;
                Effect::Reply { mode: self.gui_mode, select }
            },
            Message::ImageCopyOpen { top_levels, screens } => {
                if self.window_show {
                    return Effect::Refuse { mode: GuiMode::ScreenShot };
                }
                match self.gui_mode {
                    GuiMode::ScreenShot => {},
                    GuiMode::ScreenCast => {
                        self.mode = ShowMode::Others;
                    },
                }
                self.gui_mode = GuiMode::ScreenShot;
                self.window_show = true;
                self.toplevels = top_levels;
                self.screens = screens;
                Effect::OpenWindow
            },
            Message::ScreenCastOpen { top_levels, screens } => {
                if self.window_show {
                    return Effect::Refuse { mode: GuiMode::ScreenCast };
                }
                match self.gui_mode {
                    GuiMode::ScreenShot => {
                        self.mode = ShowMode::Screens;
                    },
                    GuiMode::ScreenCast => {},
                }
                self.gui_mode = GuiMode::ScreenCast;
                self.window_show = true;
                self.toplevels = top_levels;
                self.screens = screens;
                Effect::OpenWindow
            },
            Message::PermissionPrompt { text: _ } => Effect::OpenPrompt,
        }
    }

    /// The answers that the page shown offers, from top to bottom: every
    /// monitor or every window of the list, with the cursor as the user
    /// set it, or an area and all monitors; and in the last place always
    /// a cancellation.
    pub open spec fn spec_view(self) -> Seq<CopySelect> {
        let page = match self.mode {
            ShowMode::Screens => Seq::new(
                self.screens as nat,
                |index: int|
                    CopySelect::Screen { index: index as usize, show_cursor: self.use_curor },
            ),
            ShowMode::Windows => Seq::new(
                self.toplevels as nat,
                |index: int|
                    CopySelect::Window { index: index as usize, show_cursor: self.use_curor },
            ),
            ShowMode::Others => seq![CopySelect::Slurp, CopySelect::All],
        };
        page.push(CopySelect::Cancel)
    }

    /// The answers that the page shown offers.
    pub fn view(&self) -> (offered: Vec<CopySelect>)
        ensures
            offered@ == self.spec_view(),
    {
        let mut offered: Vec<CopySelect> = Vec::new();
        match self.mode {
            ShowMode::Screens => {
                let mut index: usize = 0;
                while index < self.screens
                    invariant
                        index <= self.screens,
                        offered@ == Seq::new(
                            index as nat,
                            |i: int|
                                CopySelect::Screen { index: i as usize, show_cursor: self.use_curor },
                        ),
                    decreases self.screens - index,
                {
                    offered.push(CopySelect::Screen { index, show_cursor: self.use_curor });
                    index = index + 1;
                    proof {
                        assert(offered@ =~= Seq::new(
                            index as nat,
                            |i: int|
                                CopySelect::Screen { index: i as usize, show_cursor: self.use_curor },
                        ));
                    }
                }
            },
            ShowMode::Windows => {
                let mut index: usize = 0;
                while index < self.toplevels
                    invariant
                        index <= self.toplevels,
                        offered@ == Seq::new(
                            index as nat,
                            |i: int|
                                CopySelect::Window { index: i as usize, show_cursor: self.use_curor },
                        ),
                    decreases self.toplevels - index,
                {
                    offered.push(CopySelect::Window { index, show_cursor: self.use_curor });
                    index = index + 1;
                    proof {
                        assert(offered@ =~= Seq::new(
                            index as nat,
                            |i: int|
                                CopySelect::Window { index: i as usize, show_cursor: self.use_curor },
                        ));
                    }
                }
            },
            ShowMode::Others => {
                offered.push(CopySelect::Slurp);
                offered.push(CopySelect::All);
                proof {
                    assert(offered@ =~= seq![CopySelect::Slurp, CopySelect::All]);
                }
            },
        }
        offered.push(CopySelect::Cancel);
        offered
    }

    /// The buttons that turn the pages, from left to right.  The page of
    /// the other choices exists for screenshots only; the page of the
    /// windows can be turned to where the compositor captures windows.
    pub fn selector(&self) -> (buttons: Vec<PageButton>)
        ensures
            buttons@ == if self.gui_mode == GuiMode::ScreenShot {
                seq![
                    PageButton {
                        page: ShowMode::Others,
                        enabled: true,
                        current: self.mode == ShowMode::Others,
                    },
                    PageButton {
                        page: ShowMode::Screens,
                        enabled: true,
                        current: self.mode == ShowMode::Screens,
                    },
                    PageButton {
                        page: ShowMode::Windows,
                        enabled: self.toplevel_capture_support,
                        current: self.mode == ShowMode::Windows,
                    },
                ]
            } else {
                seq![
                    PageButton {
                        page: ShowMode::Screens,
                        enabled: true,
                        current: self.mode == ShowMode::Screens,
                    },
                    PageButton {
                        page: ShowMode::Windows,
                        enabled: self.toplevel_capture_support,
                        current: self.mode == ShowMode::Windows,
                    },
                ]
            },
    {
        let mut buttons: Vec<PageButton> = Vec::new();
        match self.gui_mode {
            GuiMode::ScreenShot => {
                buttons.push(
                    PageButton {
                        page: ShowMode::Others,
                        enabled: true,
                        current: self.mode == ShowMode::Others,
                    },
                );
            },
            GuiMode::ScreenCast => {},
        }
        buttons.push(
            PageButton {
                page: ShowMode::Screens,
                enabled: true,
                current: self.mode == ShowMode::Screens,
            },
        );
        buttons.push(
            PageButton {
                page: ShowMode::Windows,
                enabled: self.toplevel_capture_support,
                current: self.mode == ShowMode::Windows,
            },
        );
        proof {
            if self.gui_mode == GuiMode::ScreenShot {
                assert(buttons@ =~= seq![
                    PageButton {
                        page: ShowMode::Others,
                        enabled: true,
                        current: self.mode == ShowMode::Others,
                    },
                    PageButton {
                        page: ShowMode::Screens,
                        enabled: true,
                        current: self.mode == ShowMode::Screens,
                    },
                    PageButton {
                        page: ShowMode::Windows,
                        enabled: self.toplevel_capture_support,
                        current: self.mode == ShowMode::Windows,
                    },
                ]);
            } else {
                assert(buttons@ =~= seq![
                    PageButton {
                        page: ShowMode::Screens,
                        enabled: true,
                        current: self.mode == ShowMode::Screens,
                    },
                    PageButton {
                        page: ShowMode::Windows,
                        enabled: self.toplevel_capture_support,
                        current: self.mode == ShowMode::Windows,
                    },
                ]);
            }
        }
        buttons
    }
}

/// What the user's answer means for a cast.
#[derive(Clone, Copy, Debug, PartialEq, Eq, Structural)]
pub enum CastChoice {
    /// The user chose nothing: answer `Cancelled`.
    Cancelled,
    /// Cast this target.
    Start { target: CastTarget },
}

/// What an answer of the dialog means for a cast over `screens` monitors
/// and `toplevels` windows.  A monitor or window of the list is cast;
/// every other answer, a lost dialog (`None`) and a place outside the list
/// are a cancellation.
pub open spec fn spec_cast_choice(reply: Option<CopySelect>, screens: usize, toplevels: usize) -> CastChoice {
    match reply {
        Some(CopySelect::Screen { index, .. }) if index < screens => CastChoice::Start {
            target: CastTarget::Screen(index),
        },
        Some(CopySelect::Window { index, .. }) if index < toplevels => CastChoice::Start {
            target: CastTarget::TopLevel(index),
        },
        _ => CastChoice::Cancelled,
    }
}

/// What an answer of the dialog means for a cast.
pub fn cast_choice(reply: Option<CopySelect>, screens: usize, toplevels: usize) -> (choice: CastChoice)
    ensures
        choice == spec_cast_choice(reply, screens, toplevels),
{
    match reply {
        Some(CopySelect::Screen { index, show_cursor: _ }) => {
            if index < screens {
                CastChoice::Start { target: CastTarget::Screen(index) }
            } else {
                CastChoice::Cancelled
            }
        },
        Some(CopySelect::Window { index, show_cursor: _ }) => {
            if index < toplevels {
                CastChoice::Start { target: CastTarget::TopLevel(index) }
            } else {
                CastChoice::Cancelled
            }
        },
        _ => CastChoice::Cancelled,
    }
}

/// Whether selections go through the headless selector instead of the
/// dialog: when the compositor's backend is `headless` or the switch is
/// `1`.
pub fn headless(wlr_backends: Option<&String>, switch: Option<&String>) -> (on: bool)
    ensures
        on == ((wlr_backends.is_some() && wlr_backends.unwrap()@ == "headless"@) || (
        switch.is_some() && switch.unwrap()@ == "1"@)),
{
    let by_backend = match wlr_backends {
        Some(value) => *value == String::from_str("headless"),
        None => false,
    };
    let by_switch = match switch {
        Some(value) => *value == String::from_str("1"),
        None => false,
    };
    by_backend || by_switch
}

/// The answer of the dialog that an answer of the headless selector
/// stands for.  A lost connection (`None`) and a busy selector count as a
/// cancellation.
pub fn select_from_response(response: Option<Response>, show_cursor: bool) -> (select: CopySelect)
    ensures
        select == match response {
            Some(Response::Success { index }) => CopySelect::Screen {
                index: index as usize,
                show_cursor,
            },
            _ => CopySelect::Cancel,
        },
{
    match response {
        Some(Response::Success { index }) => CopySelect::Screen {
            index: index as usize,
            show_cursor,
        },
        _ => CopySelect::Cancel,
    }
}

} // verus!

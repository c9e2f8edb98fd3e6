use luminous::access::AccessBackend;
use luminous::gui::{
    cast_choice, headless, select_from_response, AreaSelectorGUI, CastChoice, CopySelect, Effect,
    GuiMode, Message, PageButton, ShowMode,
};
use luminous::input_capture::InputCaptureError;
use luminous::pipewirethread::{CastTarget, EmbeddedRegion};
use luminous::request::RequestInterface;
use luminous::response::PortalResponse;
use luminous::screenshot::{PickStep, ScreenShotBackend, ScreenshotOption, ShotChoice, ShotStep};
use luminous::settings::config::{config_path, AccentColor};
use luminous::settings::SettingsError;
use luminous::slintbackend::{confirmgui, selectgui, SlintSelection};
use luminous::stream_message::Response;

#[test]
fn non_interactive_screenshot_shoots_everything() {
    let backend = ScreenShotBackend;
    assert_eq!(backend.version(), 1);
    let options = ScreenshotOption { interactive: false, modal: None, permission_store_checked: None };
    assert_eq!(backend.screenshot(&options), ShotStep::CaptureAll);
    let path = backend.save_path(Some("/run/user/1000".to_string()));
    assert_eq!(path, "/run/user/1000/wayshot.png");
    assert_eq!(backend.save_path(None), "/tmp/wayshot.png");
    match backend.reply(&path) {
        PortalResponse::Success(shot) => assert_eq!(shot.uri, "file:///run/user/1000/wayshot.png"),
        _ => panic!("no uri"),
    }
    match backend.reply(&"/tmp/with space.png".to_string()) {
        PortalResponse::Success(shot) => assert_eq!(shot.uri, "file:///tmp/with%20space.png"),
        _ => panic!("no uri"),
    }
    assert_eq!(backend.reply(&"relative/wayshot.png".to_string()).code(), 2);
    assert_eq!(backend.reply_with(None).code(), 2);
    assert_eq!(backend.reply_with(Some("file:///x".to_string())).code(), 0);
}

#[test]
fn interactive_screenshot_cancelled() {
    let backend = ScreenShotBackend;
    let options = ScreenshotOption { interactive: true, modal: None, permission_store_checked: Some(true) };
    assert_eq!(backend.screenshot(&options), ShotStep::OpenPicker);
    assert_eq!(backend.shot_choice(Some(CopySelect::Cancel), 2, 2), ShotChoice::Cancelled);
    assert_eq!(backend.shot_choice(None, 2, 2), ShotChoice::Cancelled);
    let cancelled: PortalResponse<()> = PortalResponse::Cancelled;
    assert_eq!(cancelled.code(), 1);
}

#[test]
fn interactive_screenshot_asks_permission_first() {
    let backend = ScreenShotBackend;
    for checked in [None, Some(false)] {
        let options = ScreenshotOption { interactive: true, modal: Some(true), permission_store_checked: checked };
        assert_eq!(backend.screenshot(&options), ShotStep::AskPermission);
    }
    assert_eq!(backend.after_permission(Some(CopySelect::Permission(true))), ShotStep::OpenPicker);
    assert_eq!(backend.after_permission(Some(CopySelect::Permission(false))), ShotStep::Cancelled);
    assert_eq!(backend.after_permission(Some(CopySelect::All)), ShotStep::Cancelled);
    assert_eq!(backend.after_permission(None), ShotStep::Cancelled);
}

#[test]
fn screenshot_choices() {
    let backend = ScreenShotBackend;
    assert_eq!(
        backend.shot_choice(Some(CopySelect::Screen { index: 1, show_cursor: true }), 2, 0),
        ShotChoice::Output { index: 1, show_cursor: true }
    );
    assert_eq!(
        backend.shot_choice(Some(CopySelect::Screen { index: 2, show_cursor: true }), 2, 5),
        ShotChoice::Cancelled
    );
    assert_eq!(
        backend.shot_choice(Some(CopySelect::Window { index: 0, show_cursor: false }), 0, 1),
        ShotChoice::Toplevel { index: 0, show_cursor: false }
    );
    assert_eq!(
        backend.shot_choice(Some(CopySelect::Window { index: 1, show_cursor: false }), 9, 1),
        ShotChoice::Cancelled
    );
    assert_eq!(backend.shot_choice(Some(CopySelect::All), 0, 0), ShotChoice::All);
    assert_eq!(backend.shot_choice(Some(CopySelect::Slurp), 0, 0), ShotChoice::Area);
    assert_eq!(backend.shot_choice(Some(CopySelect::Permission(true)), 1, 1), ShotChoice::Cancelled);
}

#[test]
fn picked_colour_is_a_fraction_of_256() {
    let backend = ScreenShotBackend;
    assert_eq!(
        backend.pick_color(Some((10, -20))),
        PickStep::Capture(EmbeddedRegion { x: 10, y: -20, width: 1, height: 1 })
    );
    assert_eq!(backend.pick_color(None), PickStep::Cancelled);
    match backend.color_reply([255, 128, 0, 77]) {
        PortalResponse::Success(color) => {
            assert_eq!(color.color, AccentColor { red: 255, green: 128, blue: 0 });
            let shares = [
                color.color.red as f64 / 256.0,
                color.color.green as f64 / 256.0,
                color.color.blue as f64 / 256.0,
            ];
            assert_eq!(shares, [0.99609375, 0.5, 0.0]);
            assert!(shares.iter().all(|share| *share >= 0.0 && *share < 1.0));
        }
        _ => panic!("no colour"),
    }
}

#[test]
fn access_dialog_answers() {
    let backend = AccessBackend;
    assert_eq!(backend.access_dialog(Some(CopySelect::Permission(true))).code(), 0);
    assert_eq!(backend.access_dialog(Some(CopySelect::Permission(false))).code(), 1);
    assert_eq!(backend.access_dialog(Some(CopySelect::Cancel)).code(), 1);
    assert_eq!(backend.access_dialog(None).code(), 1);
    assert!(matches!(
        backend.prompt("May it?".to_string()),
        Message::PermissionPrompt { text } if text == "May it?"
    ));
}

#[test]
fn cast_choices() {
    assert_eq!(
        cast_choice(Some(CopySelect::Screen { index: 0, show_cursor: true }), 1, 0),
        CastChoice::Start { target: CastTarget::Screen(0) }
    );
    assert_eq!(
        cast_choice(Some(CopySelect::Window { index: 2, show_cursor: false }), 1, 3),
        CastChoice::Start { target: CastTarget::TopLevel(2) }
    );
    assert_eq!(
        cast_choice(Some(CopySelect::Screen { index: 1, show_cursor: true }), 1, 9),
        CastChoice::Cancelled
    );
    assert_eq!(
        cast_choice(Some(CopySelect::Window { index: 3, show_cursor: true }), 9, 3),
        CastChoice::Cancelled
    );
    assert_eq!(cast_choice(Some(CopySelect::All), 1, 1), CastChoice::Cancelled);
    assert_eq!(cast_choice(Some(CopySelect::Slurp), 1, 1), CastChoice::Cancelled);
    assert_eq!(cast_choice(Some(CopySelect::Cancel), 1, 1), CastChoice::Cancelled);
    assert_eq!(cast_choice(None, 1, 1), CastChoice::Cancelled);
}

#[test]
fn headless_switches() {
    let headless_word = "headless".to_string();
    let one = "1".to_string();
    let other = "drm".to_string();
    assert!(headless(Some(&headless_word), None));
    assert!(headless(None, Some(&one)));
    assert!(headless(Some(&other), Some(&one)));
    assert!(!headless(Some(&other), None));
    assert!(!headless(None, Some(&other)));
    assert!(!headless(None, None));
    assert!(!headless(Some(&one), Some(&headless_word)));
}

#[test]
fn headless_answers_become_selections() {
    assert_eq!(
        select_from_response(Some(Response::Success { index: 2 }), true),
        CopySelect::Screen { index: 2, show_cursor: true }
    );
    assert_eq!(select_from_response(Some(Response::Cancel), true), CopySelect::Cancel);
    assert_eq!(select_from_response(Some(Response::Busy), false), CopySelect::Cancel);
    assert_eq!(select_from_response(None, false), CopySelect::Cancel);
}

#[test]
fn thin_dialogs() {
    assert!(confirmgui(Some(true)));
    assert!(!confirmgui(Some(false)));
    assert!(!confirmgui(None));
    assert_eq!(selectgui(None), SlintSelection::Canceled);
    assert_eq!(selectgui(Some(SlintSelection::Slurp)), SlintSelection::Slurp);
    assert_eq!(SlintSelection::Slurp.into_copy_select(), CopySelect::Slurp);
    assert_eq!(SlintSelection::Canceled.into_copy_select(), CopySelect::Cancel);
    assert_eq!(
        SlintSelection::GlobalScreen { showcursor: true }.into_copy_select(),
        CopySelect::All
    );
    assert_eq!(
        SlintSelection::Selection { showcursor: true, index: 3 }.into_copy_select(),
        CopySelect::Screen { index: 3, show_cursor: true }
    );
    assert_eq!(
        SlintSelection::Selection { showcursor: true, index: -1 }.into_copy_select(),
        CopySelect::Cancel
    );
}

#[test]
fn dialog_serves_one_request_at_a_time() {
    let mut gui = AreaSelectorGUI::new(true);
    assert_eq!(gui.gui_mode, GuiMode::ScreenShot);
    assert_eq!(GuiMode::default(), GuiMode::ScreenShot);
    assert_eq!(gui.mode, ShowMode::Others);
    assert_eq!(gui.update(Message::ScreenCastOpen { top_levels: 2, screens: 1 }), Effect::OpenWindow);
    assert!(gui.window_show);
    assert_eq!(gui.gui_mode, GuiMode::ScreenCast);
    assert_eq!(gui.mode, ShowMode::Screens);
    assert_eq!((gui.toplevels, gui.screens), (2, 1));
    let before = gui;
    assert_eq!(
        gui.update(Message::ImageCopyOpen { top_levels: 9, screens: 9 }),
        Effect::Refuse { mode: GuiMode::ScreenShot }
    );
    assert_eq!(
        gui.update(Message::ScreenCastOpen { top_levels: 9, screens: 9 }),
        Effect::Refuse { mode: GuiMode::ScreenCast }
    );
    assert_eq!(gui, before);
    assert_eq!(gui.update(Message::ShowModeChange(ShowMode::Windows)), Effect::Nothing);
    assert_eq!(gui.mode, ShowMode::Windows);
    assert_eq!(gui.update(Message::ToggleCursor(true)), Effect::Nothing);
    assert!(gui.use_curor);
    let select = CopySelect::Window { index: 1, show_cursor: true };
    assert_eq!(
        gui.update(Message::Selected { use_curor: true, select }),
        Effect::Reply { mode: GuiMode::ScreenCast, select }
    );
    assert!(!gui.window_show);
    assert_eq!(gui.update(Message::ImageCopyOpen { top_levels: 0, screens: 3 }), Effect::OpenWindow);
    assert_eq!(gui.gui_mode, GuiMode::ScreenShot);
    assert_eq!(gui.mode, ShowMode::Others);
    assert_eq!(
        gui.update(Message::Selected { use_curor: true, select: CopySelect::Cancel }),
        Effect::Reply { mode: GuiMode::ScreenShot, select: CopySelect::Cancel }
    );
    assert_eq!(gui.update(Message::ShowModeChange(ShowMode::Screens)), Effect::Nothing);
    assert_eq!(gui.update(Message::ImageCopyOpen { top_levels: 0, screens: 3 }), Effect::OpenWindow);
    assert_eq!(gui.mode, ShowMode::Screens);
    assert_eq!(
        gui.update(Message::PermissionPrompt { text: "May it?".to_string() }),
        Effect::OpenPrompt
    );
}

#[test]
fn page_buttons() {
    let mut gui = AreaSelectorGUI::new(false);
    assert_eq!(
        gui.selector(),
        vec![
            PageButton { page: ShowMode::Others, enabled: true, current: true },
            PageButton { page: ShowMode::Screens, enabled: true, current: false },
            PageButton { page: ShowMode::Windows, enabled: false, current: false },
        ]
    );
    gui.update(Message::ScreenCastOpen { top_levels: 0, screens: 1 });
    assert_eq!(
        gui.selector(),
        vec![
            PageButton { page: ShowMode::Screens, enabled: true, current: true },
            PageButton { page: ShowMode::Windows, enabled: false, current: false },
        ]
    );
    let gui = AreaSelectorGUI::new(true);
    assert!(gui.selector()[2].enabled);
}

#[test]
fn pages_offer_their_answers() {
    let mut gui = AreaSelectorGUI::new(true);
    assert_eq!(gui.view(), vec![CopySelect::Slurp, CopySelect::All, CopySelect::Cancel]);
    gui.update(Message::ScreenCastOpen { top_levels: 1, screens: 2 });
    gui.update(Message::ToggleCursor(true));
    assert_eq!(
        gui.view(),
        vec![
            CopySelect::Screen { index: 0, show_cursor: true },
            CopySelect::Screen { index: 1, show_cursor: true },
            CopySelect::Cancel,
        ]
    );
    gui.update(Message::ShowModeChange(ShowMode::Windows));
    gui.update(Message::ToggleCursor(false));
    assert_eq!(
        gui.view(),
        vec![CopySelect::Window { index: 0, show_cursor: false }, CopySelect::Cancel]
    );
    let mut empty = AreaSelectorGUI::new(false);
    empty.update(Message::ShowModeChange(ShowMode::Screens));
    assert_eq!(empty.view(), vec![CopySelect::Cancel]);
}

#[test]
fn request_objects_are_bound_and_closed() {
    let mut requests: Vec<RequestInterface> = Vec::new();
    assert!(RequestInterface::bind(&mut requests, "/r/1".to_string()));
    assert!(RequestInterface::bind(&mut requests, "/r/2".to_string()));
    assert!(!RequestInterface::bind(&mut requests, "/r/1".to_string()));
    assert_eq!(requests.len(), 2);
    assert!(RequestInterface::close(&mut requests, &"/r/1".to_string()));
    assert!(!RequestInterface::close(&mut requests, &"/r/1".to_string()));
    assert_eq!(requests.len(), 1);
    assert_eq!(requests[0].handle_path, "/r/2");
}

#[test]
fn error_messages() {
    assert_eq!(InputCaptureError::UnsupportedCapability.message(), "Unsupported capability");
    assert_eq!(InputCaptureError::NoSuchHandle.message(), "No such handle");
    assert_eq!(InputCaptureError::NoSuchSession.message(), "no such session");
    assert_eq!(InputCaptureError::HandleInUse.message(), "session handle in use");
    assert_eq!(SettingsError::NoSuchNamespace.message(), "No such namespace");
    assert_eq!(SettingsError::NoSuchKey.message(), "No such key");
}

#[test]
fn configuration_path() {
    assert_eq!(
        config_path(Some("/home/u".to_string())),
        Some("/home/u/.config/xdg-desktop-portal-luminous/config.toml".to_string())
    );
    assert_eq!(
        config_path(Some("/".to_string())),
        Some("/.config/xdg-desktop-portal-luminous/config.toml".to_string())
    );
    assert_eq!(config_path(None), None);
}

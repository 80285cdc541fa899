use autotyper::tray::{
    tray_menu, Effect, MenuCommand, MenuEntry, MouseButton, TrayController, TrayGesture,
    QUIT_EXIT_CODE,
};

#[test]
fn menu_has_show_hide_quit_in_order() {
    let menu = tray_menu();
    assert_eq!(
        menu,
        vec![
            MenuEntry { command: MenuCommand::Show, enabled: true },
            MenuEntry { command: MenuCommand::Hide, enabled: true },
            MenuEntry { command: MenuCommand::Quit, enabled: true },
        ]
    );
    let ids: Vec<&str> = menu.iter().map(|e| e.command.id()).collect();
    let labels: Vec<&str> = menu.iter().map(|e| e.command.label()).collect();
    assert_eq!(ids, vec!["show", "hide", "quit"]);
    assert_eq!(labels, vec!["Show", "Hide", "Quit"]);
}

#[test]
fn ids_map_back_to_commands() {
    assert_eq!(MenuCommand::from_id("show"), Some(MenuCommand::Show));
    assert_eq!(MenuCommand::from_id("hide"), Some(MenuCommand::Hide));
    assert_eq!(MenuCommand::from_id("quit"), Some(MenuCommand::Quit));
    assert_eq!(MenuCommand::from_id("Quit"), None);
    assert_eq!(MenuCommand::from_id("quit!"), None);
    assert_eq!(MenuCommand::from_id(""), None);
}

#[test]
fn tray_is_created_only_with_an_icon() {
    assert!(TrayController::new(true).creates_tray());
    assert!(!TrayController::new(false).creates_tray());
}

#[test]
fn menu_events_map_to_effects() {
    let mut c = TrayController::new(true);
    assert_eq!(c.on_menu_event("show"), Effect::ShowWindow);
    assert_eq!(c.on_menu_event("show"), Effect::ShowWindow);
    assert_eq!(c.on_menu_event("hide"), Effect::HideWindow);
    assert_eq!(c.on_menu_event("other"), Effect::Nothing);
    assert_eq!(c.on_menu_event("quit"), Effect::Exit(0));
}

#[test]
fn left_click_acts_as_show() {
    let mut c = TrayController::new(true);
    let click = c.on_tray_event(TrayGesture::Click { button: MouseButton::Left });
    assert_eq!(click, c.on_menu_event("show"));
    assert_eq!(click, Effect::ShowWindow);
}

#[test]
fn other_gestures_do_nothing() {
    let mut c = TrayController::new(true);
    assert_eq!(c.on_tray_event(TrayGesture::Click { button: MouseButton::Right }), Effect::Nothing);
    assert_eq!(c.on_tray_event(TrayGesture::Click { button: MouseButton::Middle }), Effect::Nothing);
    assert_eq!(
        c.on_tray_event(TrayGesture::DoubleClick { button: MouseButton::Left }),
        Effect::Nothing
    );
    assert_eq!(c.on_tray_event(TrayGesture::Hover), Effect::Nothing);
}

#[test]
fn quit_is_terminal() {
    let mut c = TrayController::new(true);
    assert_eq!(c.on_menu_event("quit"), Effect::Exit(0));
    assert_eq!(c.on_menu_event("show"), Effect::Nothing);
    assert_eq!(c.on_tray_event(TrayGesture::Click { button: MouseButton::Left }), Effect::Nothing);
}

#[test]
fn without_tray_no_tray_effects() {
    let mut c = TrayController::new(false);
    assert_eq!(c.on_menu_event("show"), Effect::Nothing);
    assert_eq!(c.on_menu_event("quit"), Effect::Nothing);
    assert_eq!(c.on_tray_event(TrayGesture::Click { button: MouseButton::Left }), Effect::Nothing);
}

#[test]
fn quit_command_exits_with_zero_with_or_without_tray() {
    assert_eq!(QUIT_EXIT_CODE, 0);
    let mut with_tray = TrayController::new(true);
    assert_eq!(with_tray.quit_app(), Effect::Exit(0));
    let mut without_tray = TrayController::new(false);
    assert_eq!(without_tray.quit_app(), Effect::Exit(0));
    assert_eq!(without_tray.quit_app(), Effect::Exit(0));
}

use tiny_cursor::renderer::RenderCursorKind;
use tiny_cursor::sys::{MF_CHECKED, MF_DISABLED, MF_SEPARATOR, MF_STRING, WM_LBUTTONUP, WM_RBUTTONUP};
use tiny_cursor::tray::{
    CursorDesignOverride, CursorTone, MenuEntryKind, ThemeMode, TrayManager, TrayNotification,
    IDM_CLICK_HAND, IDM_DESIGN_AUTO, IDM_DESIGN_CROSSHAIR, IDM_DESIGN_IBEAM, IDM_DESIGN_MOVE,
    IDM_DESIGN_RESIZE_NS, IDM_DESIGN_RESIZE_WE, IDM_DESIGN_ZOOM_IN, IDM_DESIGN_ZOOM_OUT, IDM_EXIT,
    IDM_PAUSE, IDM_THEME_AUTO, IDM_THEME_BLACK, IDM_THEME_WHITE, IDM_TITLE, WM_TRAY_CALLBACK,
};

#[test]
fn tray_starts_running_with_hand_and_automatic_modes() {
    let tray = TrayManager::new();
    assert!(!tray.should_exit());
    assert!(!tray.is_paused());
    assert!(tray.is_hand_on_click_enabled());
    assert_eq!(tray.theme_mode(), ThemeMode::Auto);
    assert_eq!(tray.design_override(), CursorDesignOverride::Auto);
}

#[test]
fn pause_and_hand_toggle_back_and_forth() {
    let mut tray = TrayManager::new();
    assert!(!tray.apply_command(IDM_PAUSE));
    assert!(tray.is_paused());
    tray.apply_command(IDM_PAUSE);
    assert!(!tray.is_paused());
    tray.apply_command(IDM_CLICK_HAND);
    assert!(!tray.is_hand_on_click_enabled());
    tray.apply_command(IDM_CLICK_HAND);
    assert!(tray.is_hand_on_click_enabled());
}

#[test]
fn theme_commands_read_back() {
    let mut tray = TrayManager::new();
    tray.apply_command(IDM_THEME_WHITE);
    assert_eq!(tray.theme_mode(), ThemeMode::AlwaysWhite);
    tray.apply_command(IDM_THEME_BLACK);
    assert_eq!(tray.theme_mode(), ThemeMode::AlwaysBlack);
    tray.apply_command(IDM_THEME_BLACK);
    assert_eq!(tray.theme_mode(), ThemeMode::AlwaysBlack);
    tray.apply_command(IDM_THEME_AUTO);
    assert_eq!(tray.theme_mode(), ThemeMode::Auto);
}

#[test]
fn design_commands_read_back() {
    let cases = [
        (IDM_DESIGN_ZOOM_IN, CursorDesignOverride::ZoomIn),
        (IDM_DESIGN_ZOOM_OUT, CursorDesignOverride::ZoomOut),
        (IDM_DESIGN_RESIZE_NS, CursorDesignOverride::ResizeNS),
        (IDM_DESIGN_RESIZE_WE, CursorDesignOverride::ResizeWE),
        (IDM_DESIGN_MOVE, CursorDesignOverride::Move),
        (IDM_DESIGN_IBEAM, CursorDesignOverride::IBeam),
        (IDM_DESIGN_CROSSHAIR, CursorDesignOverride::Crosshair),
        (IDM_DESIGN_AUTO, CursorDesignOverride::Auto),
    ];
    let mut tray = TrayManager::new();
    for (cmd, design) in cases {
        tray.apply_command(cmd);
        assert_eq!(tray.design_override(), design);
    }
}

#[test]
fn exit_command_quits_and_sticks() {
    let mut tray = TrayManager::new();
    assert!(tray.apply_command(IDM_EXIT));
    assert!(tray.should_exit());
    assert!(!tray.is_paused());
    assert!(tray.is_hand_on_click_enabled());
    tray.apply_command(IDM_PAUSE);
    assert!(tray.should_exit());
}

#[test]
fn unknown_commands_change_nothing() {
    let mut tray = TrayManager::new();
    for cmd in [0usize, IDM_TITLE, 1007, 1009, 1018, 5000] {
        assert!(!tray.apply_command(cmd));
    }
    assert!(!tray.should_exit());
    assert!(!tray.is_paused());
    assert!(tray.is_hand_on_click_enabled());
    assert_eq!(tray.theme_mode(), ThemeMode::Auto);
    assert_eq!(tray.design_override(), CursorDesignOverride::Auto);
}

#[test]
fn theme_and_design_codes() {
    assert_eq!(ThemeMode::from_code(0), ThemeMode::Auto);
    assert_eq!(ThemeMode::from_code(1), ThemeMode::AlwaysWhite);
    assert_eq!(ThemeMode::from_code(2), ThemeMode::AlwaysBlack);
    assert_eq!(ThemeMode::from_code(3), ThemeMode::Auto);
    assert_eq!(ThemeMode::AlwaysBlack.code(), 2);
    assert_eq!(CursorDesignOverride::from_code(1), CursorDesignOverride::Arrow);
    assert_eq!(CursorDesignOverride::from_code(2), CursorDesignOverride::Hand);
    assert_eq!(CursorDesignOverride::from_code(9), CursorDesignOverride::Crosshair);
    assert_eq!(CursorDesignOverride::from_code(10), CursorDesignOverride::Auto);
    for code in 0..10u32 {
        assert_eq!(CursorDesignOverride::from_code(code).code(), code);
    }
    for code in 0..3u32 {
        assert_eq!(ThemeMode::from_code(code).code(), code);
    }
}

#[test]
fn fixed_tones_and_forced_shapes() {
    assert_eq!(ThemeMode::Auto.fixed_tone(), None);
    assert_eq!(ThemeMode::AlwaysWhite.fixed_tone(), Some(CursorTone::White));
    assert_eq!(ThemeMode::AlwaysBlack.fixed_tone(), Some(CursorTone::Black));
    assert_eq!(CursorDesignOverride::Auto.render_kind(), None);
    assert_eq!(CursorDesignOverride::Arrow.render_kind(), Some(RenderCursorKind::Arrow));
    assert_eq!(CursorDesignOverride::Hand.render_kind(), Some(RenderCursorKind::Hand));
    assert_eq!(CursorDesignOverride::ResizeWE.render_kind(), Some(RenderCursorKind::ResizeWE));
    assert_eq!(CursorDesignOverride::ZoomOut.render_kind(), Some(RenderCursorKind::ZoomOut));
}

#[test]
fn menu_lists_all_entries_in_order() {
    let tray = TrayManager::new();
    let menu = tray.menu_entries();
    let kinds: Vec<MenuEntryKind> = menu.iter().map(|e| e.kind).collect();
    assert_eq!(
        kinds,
        vec![
            MenuEntryKind::Title,
            MenuEntryKind::Separator,
            MenuEntryKind::Pause,
            MenuEntryKind::HandOnClick,
            MenuEntryKind::Separator,
            MenuEntryKind::ThemeAuto,
            MenuEntryKind::ThemeWhite,
            MenuEntryKind::ThemeBlack,
            MenuEntryKind::Separator,
            MenuEntryKind::DesignAuto,
            MenuEntryKind::DesignZoomIn,
            MenuEntryKind::DesignZoomOut,
            MenuEntryKind::DesignResize,
            MenuEntryKind::DesignMove,
            MenuEntryKind::DesignIBeam,
            MenuEntryKind::DesignCrosshair,
            MenuEntryKind::Separator,
            MenuEntryKind::Exit,
        ]
    );
    assert_eq!(menu[0].id, IDM_TITLE);
    assert_eq!(menu[0].flags, MF_STRING | MF_DISABLED);
    assert_eq!(menu[1].flags, MF_SEPARATOR);
    assert_eq!(menu[17].id, IDM_EXIT);
    assert_eq!(menu[17].flags, MF_STRING);
}

#[test]
fn menu_checks_current_settings() {
    let mut tray = TrayManager::new();
    let menu = tray.menu_entries();
    assert_eq!(menu[2].flags, 0);
    assert_eq!(menu[3].flags, MF_CHECKED);
    assert_eq!(menu[5].flags, MF_CHECKED);
    assert_eq!(menu[6].flags, 0);
    assert_eq!(menu[9].flags, MF_CHECKED);
    tray.apply_command(IDM_PAUSE);
    tray.apply_command(IDM_THEME_BLACK);
    tray.apply_command(IDM_DESIGN_IBEAM);
    let menu = tray.menu_entries();
    assert_eq!(menu[2].kind, MenuEntryKind::Resume);
    assert_eq!(menu[2].flags, MF_CHECKED);
    assert_eq!(menu[5].flags, 0);
    assert_eq!(menu[7].flags, MF_CHECKED);
    assert_eq!(menu[9].flags, 0);
    assert_eq!(menu[14].id, IDM_DESIGN_IBEAM);
    assert_eq!(menu[14].flags, MF_CHECKED);
}

#[test]
fn menu_labels() {
    assert_eq!(MenuEntryKind::Title.label(), Some("TinyCursor v0.1.0"));
    assert_eq!(MenuEntryKind::Separator.label(), None);
    assert_eq!(MenuEntryKind::Pause.label(), Some("⏸ Pausar Smooth Cursor"));
    assert_eq!(MenuEntryKind::Resume.label(), Some("▶ Reanudar Smooth Cursor"));
    assert_eq!(MenuEntryKind::Exit.label(), Some("✕ Salir y Restaurar Cursor"));
    assert_eq!(MenuEntryKind::DesignIBeam.label(), Some("I Vista: Texto (I-Beam)"));
}

#[test]
fn right_click_opens_menu_left_click_toggles_pause() {
    let mut tray = TrayManager::new();
    assert_eq!(tray.handle_notification(WM_TRAY_CALLBACK, WM_RBUTTONUP), TrayNotification::ShowMenu);
    assert!(!tray.is_paused());
    assert_eq!(tray.handle_notification(WM_TRAY_CALLBACK, WM_LBUTTONUP), TrayNotification::Handled);
    assert!(tray.is_paused());
    assert_eq!(tray.handle_notification(WM_TRAY_CALLBACK, WM_LBUTTONUP), TrayNotification::Handled);
    assert!(!tray.is_paused());
    assert_eq!(tray.handle_notification(WM_TRAY_CALLBACK, 0x0200), TrayNotification::NotHandled);
    assert_eq!(tray.handle_notification(0x0111, WM_LBUTTONUP), TrayNotification::NotHandled);
    assert!(!tray.is_paused());
    assert_eq!(WM_TRAY_CALLBACK, 0x8000 + 101);
}

#[test]
fn forced_design_wins_over_detection() {
    assert_eq!(
        tiny_cursor::tray::select_cursor_kind(CursorDesignOverride::Crosshair, Some(RenderCursorKind::IBeam)),
        RenderCursorKind::Crosshair
    );
    assert_eq!(tiny_cursor::tray::select_cursor_kind(CursorDesignOverride::Hand, None), RenderCursorKind::Hand);
    assert_eq!(
        tiny_cursor::tray::select_cursor_kind(CursorDesignOverride::Auto, Some(RenderCursorKind::ResizeNS)),
        RenderCursorKind::ResizeNS
    );
}

#[test]
fn pause_follows_toggle_parity() {
    let mut tray = TrayManager::new();
    let cmds = [IDM_PAUSE, IDM_THEME_WHITE, IDM_PAUSE, IDM_PAUSE, IDM_CLICK_HAND, 0];
    for cmd in cmds {
        tray.apply_command(cmd);
    }
    assert!(tray.is_paused());
    tray.apply_command(IDM_PAUSE);
    assert!(!tray.is_paused());
}

#[test]
fn design_is_last_selected_and_menu_never_reaches_arrow_or_hand() {
    let mut tray = TrayManager::new();
    for cmd in [IDM_DESIGN_ZOOM_IN, IDM_PAUSE, IDM_DESIGN_MOVE, IDM_THEME_BLACK, 0, IDM_TITLE] {
        tray.apply_command(cmd);
    }
    assert_eq!(tray.design_override(), CursorDesignOverride::Move);
    let menu_ids: Vec<usize> = tray.menu_entries().iter().map(|e| e.id).collect();
    for id in menu_ids {
        tray.apply_command(id);
        let d = tray.design_override();
        assert!(d != CursorDesignOverride::Arrow && d != CursorDesignOverride::Hand && d != CursorDesignOverride::ResizeWE);
    }
}

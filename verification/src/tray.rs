//! Tray icon settings: pause, hand-on-click, theme and cursor design, the
//! context menu that shows them and the commands that change them.
//!
//! A right click on the tray icon opens the context menu; a left click
//! toggles pause directly.

use vstd::prelude::*;
use crate::renderer::RenderCursorKind;
use crate::sys::{
    MF_CHECKED, MF_DISABLED, MF_SEPARATOR, MF_STRING, MF_UNCHECKED, WM_APP, WM_LBUTTONUP,
    WM_RBUTTONUP,
};

verus! {

/// The message the tray icon sends to its window.
pub const WM_TRAY_CALLBACK: u32 = WM_APP + 101;

pub const IDM_TITLE: usize = 1000;
pub const IDM_PAUSE: usize = 1001;
pub const IDM_CLICK_HAND: usize = 1002;
pub const IDM_THEME_AUTO: usize = 1003;
pub const IDM_THEME_WHITE: usize = 1004;
pub const IDM_THEME_BLACK: usize = 1005;
pub const IDM_EXIT: usize = 1006;
pub const IDM_DESIGN_AUTO: usize = 1010;
pub const IDM_DESIGN_ZOOM_IN: usize = 1011;
pub const IDM_DESIGN_ZOOM_OUT: usize = 1012;
pub const IDM_DESIGN_RESIZE_NS: usize = 1013;
pub const IDM_DESIGN_RESIZE_WE: usize = 1014;
pub const IDM_DESIGN_MOVE: usize = 1015;
pub const IDM_DESIGN_IBEAM: usize = 1016;
pub const IDM_DESIGN_CROSSHAIR: usize = 1017;

/// The two tones the cursor can be drawn in.
#[derive(Debug, Clone, Copy, PartialEq, Eq, Structural)]
pub enum CursorTone {
    White,
    Black,
}

/// How the cursor tone is chosen.
#[derive(Debug, Clone, Copy, PartialEq, Eq, Structural)]
pub enum ThemeMode {
    /// Follows the luminance of the background.
    Auto,
    AlwaysWhite,
    AlwaysBlack,
}

impl ThemeMode {
    /// The mode a stored code stands for; unknown codes mean `Auto`.
    pub open spec fn spec_from_code(code: u32) -> ThemeMode {
        if code == 1 {
            ThemeMode::AlwaysWhite
        } else if code == 2 {
            ThemeMode::AlwaysBlack
        } else {
            ThemeMode::Auto
        }
    }

    /// The code under which a mode is stored.
    pub open spec fn spec_code(self) -> u32 {
        match self {
            ThemeMode::Auto => 0,
            ThemeMode::AlwaysWhite => 1,
            ThemeMode::AlwaysBlack => 2,
        }
    }

    /// The tone a mode imposes, if it imposes one.
    pub open spec fn spec_fixed_tone(self) -> Option<CursorTone> {
        match self {
            ThemeMode::Auto => None,
            ThemeMode::AlwaysWhite => Some(CursorTone::White),
            ThemeMode::AlwaysBlack => Some(CursorTone::Black),
        }
    }

    /// Decodes a stored theme code.
    pub fn from_code(code: u32) -> (mode: ThemeMode)
        ensures
            mode == ThemeMode::spec_from_code(code),
    {
        match code {
            1 => ThemeMode::AlwaysWhite,
            2 => ThemeMode::AlwaysBlack,
            _ => ThemeMode::Auto,
        }
    }

    /// Encodes a theme mode.
    pub fn code(self) -> (code: u32)
        ensures
            code == self.spec_code(),
    {
        match self {
            ThemeMode::Auto => 0,
            ThemeMode::AlwaysWhite => 1,
            ThemeMode::AlwaysBlack => 2,
        }
    }

    /// The tone this mode imposes; `None` for `Auto`, where the background
    /// decides.
    pub fn fixed_tone(self) -> (tone: Option<CursorTone>)
        ensures
            tone == self.spec_fixed_tone(),
    {
        match self {
            ThemeMode::Auto => None,
            ThemeMode::AlwaysWhite => Some(CursorTone::White),
            ThemeMode::AlwaysBlack => Some(CursorTone::Black),
        }
    }
}

/// A cursor design chosen in the tray, or `Auto` to follow the system.
#[derive(Debug, Clone, Copy, PartialEq, Eq, Structural)]
pub enum CursorDesignOverride {
    Auto,
    Arrow,
    Hand,
    IBeam,
    ResizeNS,
    ResizeWE,
    Move,
    ZoomIn,
    ZoomOut,
    Crosshair,
}

impl CursorDesignOverride {
    /// The design a stored code stands for; unknown codes mean `Auto`.
    pub open spec fn spec_from_code(code: u32) -> CursorDesignOverride {
        if code == 1 {
            CursorDesignOverride::Arrow
        } else if code == 2 {
            CursorDesignOverride::Hand
        } else if code == 3 {
            CursorDesignOverride::IBeam
        } else if code == 4 {
            CursorDesignOverride::ResizeNS
        } else if code == 5 {
            CursorDesignOverride::ResizeWE
        } else if code == 6 {
            CursorDesignOverride::Move
        } else if code == 7 {
            CursorDesignOverride::ZoomIn
        } else if code == 8 {
            CursorDesignOverride::ZoomOut
        } else if code == 9 {
            CursorDesignOverride::Crosshair
        } else {
            CursorDesignOverride::Auto
        }
    }

    /// The code under which a design is stored.
    pub open spec fn spec_code(self) -> u32 {
        match self {
            CursorDesignOverride::Auto => 0,
            CursorDesignOverride::Arrow => 1,
            CursorDesignOverride::Hand => 2,
            CursorDesignOverride::IBeam => 3,
            CursorDesignOverride::ResizeNS => 4,
            CursorDesignOverride::ResizeWE => 5,
            CursorDesignOverride::Move => 6,
            CursorDesignOverride::ZoomIn => 7,
            CursorDesignOverride::ZoomOut => 8,
            CursorDesignOverride::Crosshair => 9,
        }
    }

    /// The shape a design forces; `None` for `Auto`.
    pub open spec fn spec_render_kind(self) -> Option<RenderCursorKind> {
        match self {
            CursorDesignOverride::Auto => None,
            CursorDesignOverride::Arrow => Some(RenderCursorKind::Arrow),
            CursorDesignOverride::Hand => Some(RenderCursorKind::Hand),
            CursorDesignOverride::IBeam => Some(RenderCursorKind::IBeam),
            CursorDesignOverride::ResizeNS => Some(RenderCursorKind::ResizeNS),
            CursorDesignOverride::ResizeWE => Some(RenderCursorKind::ResizeWE),
            CursorDesignOverride::Move => Some(RenderCursorKind::Move),
            CursorDesignOverride::ZoomIn => Some(RenderCursorKind::ZoomIn),
            CursorDesignOverride::ZoomOut => Some(RenderCursorKind::ZoomOut),
            CursorDesignOverride::Crosshair => Some(RenderCursorKind::Crosshair),
        }
    }

    /// Decodes a stored design code.
    pub fn from_code(code: u32) -> (design: CursorDesignOverride)
        ensures
            design == CursorDesignOverride::spec_from_code(code),
    {
        match code {
            1 => CursorDesignOverride::Arrow,
            2 => CursorDesignOverride::Hand,
            3 => CursorDesignOverride::IBeam,
            4 => CursorDesignOverride::ResizeNS,
            5 => CursorDesignOverride::ResizeWE,
            6 => CursorDesignOverride::Move,
            7 => CursorDesignOverride::ZoomIn,
            8 => CursorDesignOverride::ZoomOut,
            9 => CursorDesignOverride::Crosshair,
            _ => CursorDesignOverride::Auto,
        }
    }

    /// Encodes a design.
    pub fn code(self) -> (code: u32)
        ensures
            code == self.spec_code(),
    {
        match self {
            CursorDesignOverride::Auto => 0,
            CursorDesignOverride::Arrow => 1,
            CursorDesignOverride::Hand => 2,
            CursorDesignOverride::IBeam => 3,
            CursorDesignOverride::ResizeNS => 4,
            CursorDesignOverride::ResizeWE => 5,
            CursorDesignOverride::Move => 6,
            CursorDesignOverride::ZoomIn => 7,
            CursorDesignOverride::ZoomOut => 8,
            CursorDesignOverride::Crosshair => 9,
        }
    }

    /// The cursor shape to draw under this design; `None` for `Auto`, where
    /// the shape is detected from the window under the pointer.
    pub fn render_kind(self) -> (kind: Option<RenderCursorKind>)
        ensures
            kind == self.spec_render_kind(),
    {
        match self {
            CursorDesignOverride::Auto => None,
            CursorDesignOverride::Arrow => Some(RenderCursorKind::Arrow),
            CursorDesignOverride::Hand => Some(RenderCursorKind::Hand),
            CursorDesignOverride::IBeam => Some(RenderCursorKind::IBeam),
            CursorDesignOverride::ResizeNS => Some(RenderCursorKind::ResizeNS),
            CursorDesignOverride::ResizeWE => Some(RenderCursorKind::ResizeWE),
            CursorDesignOverride::Move => Some(RenderCursorKind::Move),
            CursorDesignOverride::ZoomIn => Some(RenderCursorKind::ZoomIn),
            CursorDesignOverride::ZoomOut => Some(RenderCursorKind::ZoomOut),
            CursorDesignOverride::Crosshair => Some(RenderCursorKind::Crosshair),
        }
    }
}

/// The shape to draw: the design's forced shape, or the detected one under
/// the automatic design.
pub open spec fn spec_select_cursor_kind(
    design: CursorDesignOverride,
    detected: Option<RenderCursorKind>,
) -> RenderCursorKind {
    match design.spec_render_kind() {
        Some(kind) => kind,
        None => detected.unwrap(),
    }
}

/// Chooses the shape to draw. A forced design wins over detection; the
/// detected shape is needed (and used) only under the automatic design.
pub fn select_cursor_kind(design: CursorDesignOverride, detected: Option<RenderCursorKind>) -> (kind:
    RenderCursorKind)
    requires
        design == CursorDesignOverride::Auto ==> detected is Some,
    ensures
        kind == spec_select_cursor_kind(design, detected),
{
    match design.render_kind() {
        Some(kind) => kind,
        None => detected.unwrap(),
    }
}

/// A forced design is drawn whatever was detected; the automatic design
/// draws what was detected.
pub proof fn lemma_override_wins(design: CursorDesignOverride, d1: Option<RenderCursorKind>, d2: Option<
    RenderCursorKind,
>)
    ensures
        design != CursorDesignOverride::Auto ==> spec_select_cursor_kind(design, d1)
            == spec_select_cursor_kind(design, d2),
        d1 is Some ==> spec_select_cursor_kind(CursorDesignOverride::Auto, d1) == d1.unwrap(),
        design.spec_render_kind() is None <==> design == CursorDesignOverride::Auto,
{
}

/// The settings the tray holds. Theme and design are kept as their codes.
#[derive(Debug, Clone, Copy, PartialEq, Eq, Structural)]
pub struct TraySettings {
    pub paused: bool,
    pub hand_on_click: bool,
    pub theme_code: u32,
    pub design_code: u32,
    pub exit_requested: bool,
}

/// What a menu entry is.
#[derive(Debug, Clone, Copy, PartialEq, Eq, Structural)]
pub enum MenuEntryKind {
    Title,
    Separator,
    Pause,
    Resume,
    HandOnClick,
    ThemeAuto,
    ThemeWhite,
    ThemeBlack,
    DesignAuto,
    DesignZoomIn,
    DesignZoomOut,
    DesignResize,
    DesignMove,
    DesignIBeam,
    DesignCrosshair,
    Exit,
}

/// One entry of the tray context menu: what it is, the command it sends and
/// its menu flags.
#[derive(Debug, Clone, Copy, PartialEq, Eq, Structural)]
pub struct MenuEntry {
    pub kind: MenuEntryKind,
    pub id: usize,
    pub flags: u32,
}

impl MenuEntryKind {
    /// The text shown for an entry; separators have none.
    pub open spec fn spec_label(self) -> Option<&'static str> {
        match self {
            MenuEntryKind::Title => Some("TinyCursor v0.1.0"),
            MenuEntryKind::Separator => None,
            MenuEntryKind::Pause => Some("⏸ Pausar Smooth Cursor"),
            MenuEntryKind::Resume => Some("▶ Reanudar Smooth Cursor"),
            MenuEntryKind::HandOnClick => Some("👆 Mano en Clic"),
            MenuEntryKind::ThemeAuto => Some("🌓 Tema: Automático (Adaptativo)"),
            MenuEntryKind::ThemeWhite => Some("⚪ Tema: Siempre Blanco"),
            MenuEntryKind::ThemeBlack => Some("⚫ Tema: Siempre Negro"),
            MenuEntryKind::DesignAuto => Some("🎯 Modo Cursor: Automático (Detectar OS)"),
            MenuEntryKind::DesignZoomIn => Some("🔍 Vista: Lupa Zoom +"),
            MenuEntryKind::DesignZoomOut => Some("🔎 Vista: Lupa Zoom -"),
            MenuEntryKind::DesignResize => Some("↕ Vista: Redimensionar"),
            MenuEntryKind::DesignMove => Some("✥ Vista: Mover"),
            MenuEntryKind::DesignIBeam => Some("I Vista: Texto (I-Beam)"),
            MenuEntryKind::DesignCrosshair => Some("➕ Vista: Cruz (Precision)"),
            MenuEntryKind::Exit => Some("✕ Salir y Restaurar Cursor"),
        }
    }

    /// The text shown for this entry.
    pub fn label(self) -> (label: Option<&'static str>)
        ensures
            label == self.spec_label(),
    {
        match self {
            MenuEntryKind::Title => Some("TinyCursor v0.1.0"),
            MenuEntryKind::Separator => None,
            MenuEntryKind::Pause => Some("⏸ Pausar Smooth Cursor"),
            MenuEntryKind::Resume => Some("▶ Reanudar Smooth Cursor"),
            MenuEntryKind::HandOnClick => Some("👆 Mano en Clic"),
            MenuEntryKind::ThemeAuto => Some("🌓 Tema: Automático (Adaptativo)"),
            MenuEntryKind::ThemeWhite => Some("⚪ Tema: Siempre Blanco"),
            MenuEntryKind::ThemeBlack => Some("⚫ Tema: Siempre Negro"),
            MenuEntryKind::DesignAuto => Some("🎯 Modo Cursor: Automático (Detectar OS)"),
            MenuEntryKind::DesignZoomIn => Some("🔍 Vista: Lupa Zoom +"),
            MenuEntryKind::DesignZoomOut => Some("🔎 Vista: Lupa Zoom -"),
            MenuEntryKind::DesignResize => Some("↕ Vista: Redimensionar"),
            MenuEntryKind::DesignMove => Some("✥ Vista: Mover"),
            MenuEntryKind::DesignIBeam => Some("I Vista: Texto (I-Beam)"),
            MenuEntryKind::DesignCrosshair => Some("➕ Vista: Cruz (Precision)"),
            MenuEntryKind::Exit => Some("✕ Salir y Restaurar Cursor"),
        }
    }
}

/// Menu flags of a checkable entry.
pub open spec fn check_flags(checked: bool) -> u32 {
    MF_STRING | (if checked {
        MF_CHECKED
    } else {
        MF_UNCHECKED
    })
}

fn checkable_flags(checked: bool) -> (flags: u32)
    ensures
        flags == check_flags(checked),
{
    MF_STRING | (if checked {
        MF_CHECKED
    } else {
        MF_UNCHECKED
    })
}

/// A separator line.
pub open spec fn separator() -> MenuEntry {
    MenuEntry { kind: MenuEntryKind::Separator, id: 0, flags: MF_SEPARATOR }
}

/// A checkable entry.
pub open spec fn check_entry(kind: MenuEntryKind, id: usize, checked: bool) -> MenuEntry {
    MenuEntry { kind, id, flags: check_flags(checked) }
}

/// What the tray window does with a notification from its icon.
#[derive(Debug, Clone, Copy, PartialEq, Eq, Structural)]
pub enum TrayNotification {
    /// Open the context menu at the pointer.
    ShowMenu,
    /// Handled without a menu (a left click toggles pause).
    Handled,
    /// Not a tray notification: default window processing.
    NotHandled,
}

impl TraySettings {
    /// Settings at start-up: running, hand on click, automatic theme and design.
    pub open spec fn initial() -> TraySettings {
        TraySettings {
            paused: false,
            hand_on_click: true,
            theme_code: 0,
            design_code: 0,
            exit_requested: false,
        }
    }

    /// Settings whose theme and design codes name an existing mode.
    pub open spec fn valid(self) -> bool {
        self.theme_code <= 2 && self.design_code <= 9
    }

    /// Settings after a menu command; unknown commands change nothing.
    pub open spec fn after_command(self, cmd: usize) -> TraySettings {
        if cmd == IDM_PAUSE {
            TraySettings { paused: !self.paused, ..self }
        } else if cmd == IDM_CLICK_HAND {
            TraySettings { hand_on_click: !self.hand_on_click, ..self }
        } else if cmd == IDM_THEME_AUTO {
            TraySettings { theme_code: 0, ..self }
        } else if cmd == IDM_THEME_WHITE {
            TraySettings { theme_code: 1, ..self }
        } else if cmd == IDM_THEME_BLACK {
            TraySettings { theme_code: 2, ..self }
        } else if cmd == IDM_DESIGN_AUTO {
            TraySettings { design_code: 0, ..self }
        } else if cmd == IDM_DESIGN_ZOOM_IN {
            TraySettings { design_code: 7, ..self }
        } else if cmd == IDM_DESIGN_ZOOM_OUT {
            TraySettings { design_code: 8, ..self }
        } else if cmd == IDM_DESIGN_RESIZE_NS {
            TraySettings { design_code: 4, ..self }
        } else if cmd == IDM_DESIGN_RESIZE_WE {
            TraySettings { design_code: 5, ..self }
        } else if cmd == IDM_DESIGN_MOVE {
            TraySettings { design_code: 6, ..self }
        } else if cmd == IDM_DESIGN_IBEAM {
            TraySettings { design_code: 3, ..self }
        } else if cmd == IDM_DESIGN_CROSSHAIR {
            TraySettings { design_code: 9, ..self }
        } else if cmd == IDM_EXIT {
            TraySettings { exit_requested: true, ..self }
        } else {
            self
        }
    }

    /// The context menu for these settings, top to bottom; the entry of each
    /// active setting is checked.
    pub open spec fn menu(self) -> Seq<MenuEntry> {
        seq![
            MenuEntry { kind: MenuEntryKind::Title, id: IDM_TITLE, flags: MF_STRING | MF_DISABLED },
            separator(),
            check_entry(
                if self.paused {
                    MenuEntryKind::Resume
                } else {
                    MenuEntryKind::Pause
                },
                IDM_PAUSE,
                self.paused,
            ),
            check_entry(MenuEntryKind::HandOnClick, IDM_CLICK_HAND, self.hand_on_click),
            separator(),
            check_entry(MenuEntryKind::ThemeAuto, IDM_THEME_AUTO, self.theme_code == 0),
            check_entry(MenuEntryKind::ThemeWhite, IDM_THEME_WHITE, self.theme_code == 1),
            check_entry(MenuEntryKind::ThemeBlack, IDM_THEME_BLACK, self.theme_code == 2),
            separator(),
            check_entry(MenuEntryKind::DesignAuto, IDM_DESIGN_AUTO, self.design_code == 0),
            check_entry(MenuEntryKind::DesignZoomIn, IDM_DESIGN_ZOOM_IN, self.design_code == 7),
            check_entry(MenuEntryKind::DesignZoomOut, IDM_DESIGN_ZOOM_OUT, self.design_code == 8),
            check_entry(MenuEntryKind::DesignResize, IDM_DESIGN_RESIZE_NS, self.design_code == 4),
            check_entry(MenuEntryKind::DesignMove, IDM_DESIGN_MOVE, self.design_code == 6),
            check_entry(MenuEntryKind::DesignIBeam, IDM_DESIGN_IBEAM, self.design_code == 3),
            check_entry(MenuEntryKind::DesignCrosshair, IDM_DESIGN_CROSSHAIR, self.design_code == 9),
            separator(),
            MenuEntry { kind: MenuEntryKind::Exit, id: IDM_EXIT, flags: MF_STRING },
        ]
    }

    /// How a window message is answered: a right click on the icon opens
    /// the menu, a left click is handled in place.
    pub open spec fn spec_notification(msg: u32, event: u32) -> TrayNotification {
        if msg == WM_TRAY_CALLBACK && event == WM_RBUTTONUP {
            TrayNotification::ShowMenu
        } else if msg == WM_TRAY_CALLBACK && event == WM_LBUTTONUP {
            TrayNotification::Handled
        } else {
            TrayNotification::NotHandled
        }
    }

    /// Settings after a window message: a left click on the icon toggles
    /// pause, anything else leaves the settings alone.
    pub open spec fn after_notification(self, msg: u32, event: u32) -> TraySettings {
        if TraySettings::spec_notification(msg, event) == TrayNotification::Handled {
            self.after_command(IDM_PAUSE)
        } else {
            self
        }
    }
}

/// The tray settings shared by the tray window and the render loop.
pub struct TrayManager {
    settings: TraySettings,
}

impl View for TrayManager {
    type V = TraySettings;

    closed spec fn view(&self) -> TraySettings {
        self.settings
    }
}

impl TrayManager {
    /// The tray settings at start-up.
    pub fn new() -> (tray: Self)
        ensures
            tray@ == TraySettings::initial(),
    {
        TrayManager {
            settings: TraySettings {
                paused: false,
                hand_on_click: true,
                theme_code: 0,
                design_code: 0,
                exit_requested: false,
            },
        }
    }

    /// Checks if the user requested a clean shutdown from the tray menu.
    pub fn should_exit(&self) -> (exit: bool)
        ensures
            exit == self@.exit_requested,
    {
        self.settings.exit_requested
    }

    /// Checks if smooth cursor rendering is currently paused from the tray.
    pub fn is_paused(&self) -> (paused: bool)
        ensures
            paused == self@.paused,
    {
        self.settings.paused
    }

    /// Checks if the hand should be displayed during click.
    pub fn is_hand_on_click_enabled(&self) -> (enabled: bool)
        ensures
            enabled == self@.hand_on_click,
    {
        self.settings.hand_on_click
    }

    /// The user's selected theme mode.
    pub fn theme_mode(&self) -> (mode: ThemeMode)
        ensures
            mode == ThemeMode::spec_from_code(self@.theme_code),
    {
        ThemeMode::from_code(self.settings.theme_code)
    }

    /// The user's selected cursor design override.
    pub fn design_override(&self) -> (design: CursorDesignOverride)
        ensures
            design == CursorDesignOverride::spec_from_code(self@.design_code),
    {
        CursorDesignOverride::from_code(self.settings.design_code)
    }

    /// Applies the command chosen in the context menu; returns true when the
    /// command asks the program to quit.
    pub fn apply_command(&mut self, cmd: usize) -> (quit: bool)
        ensures
            final(self)@ == old(self)@.after_command(cmd),
            quit == (cmd == IDM_EXIT),
    {
        let s = self.settings;
        if cmd == IDM_PAUSE {
            self.settings = TraySettings { paused: !s.paused, ..s };
        } else if cmd == IDM_CLICK_HAND {
            self.settings = TraySettings { hand_on_click: !s.hand_on_click, ..s };
        } else if cmd == IDM_THEME_AUTO {
            self.settings = TraySettings { theme_code: 0, ..s };
        } else if cmd == IDM_THEME_WHITE {
            self.settings = TraySettings { theme_code: 1, ..s };
        } else if cmd == IDM_THEME_BLACK {
            self.settings = TraySettings { theme_code: 2, ..s };
        } else if cmd == IDM_DESIGN_AUTO {
            self.settings = TraySettings { design_code: 0, ..s };
        } else if cmd == IDM_DESIGN_ZOOM_IN {
            self.settings = TraySettings { design_code: 7, ..s };
        } else if cmd == IDM_DESIGN_ZOOM_OUT {
            self.settings = TraySettings { design_code: 8, ..s };
        } else if cmd == IDM_DESIGN_RESIZE_NS {
            self.settings = TraySettings { design_code: 4, ..s };
        } else if cmd == IDM_DESIGN_RESIZE_WE {
            self.settings = TraySettings { design_code: 5, ..s };
        } else if cmd == IDM_DESIGN_MOVE {
            self.settings = TraySettings { design_code: 6, ..s };
        } else if cmd == IDM_DESIGN_IBEAM {
            self.settings = TraySettings { design_code: 3, ..s };
        } else if cmd == IDM_DESIGN_CROSSHAIR {
            self.settings = TraySettings { design_code: 9, ..s };
        } else if cmd == IDM_EXIT {
            self.settings = TraySettings { exit_requested: true, ..s };
        }
        cmd == IDM_EXIT
    }

    /// Answers a message sent to the tray window: `ShowMenu` for a right
    /// click on the icon, a pause toggle for a left click, `NotHandled` for
    /// everything else.
    pub fn handle_notification(&mut self, msg: u32, event: u32) -> (outcome: TrayNotification)
        ensures
            outcome == TraySettings::spec_notification(msg, event),
            final(self)@ == old(self)@.after_notification(msg, event),
    {
        if msg == WM_TRAY_CALLBACK && event == WM_RBUTTONUP {
            TrayNotification::ShowMenu
        } else if msg == WM_TRAY_CALLBACK && event == WM_LBUTTONUP {
            self.apply_command(IDM_PAUSE);
            TrayNotification::Handled
        } else {
            TrayNotification::NotHandled
        }
    }

    /// The context menu for the current settings, top to bottom.
    pub fn menu_entries(&self) -> (entries: Vec<MenuEntry>)
        ensures
            entries@ == self@.menu(),
    {
        let s = self.settings;
        let sep = MenuEntry { kind: MenuEntryKind::Separator, id: 0, flags: MF_SEPARATOR };
        let mut entries: Vec<MenuEntry> = Vec::new();
        entries.push(
            MenuEntry { kind: MenuEntryKind::Title, id: IDM_TITLE, flags: MF_STRING | MF_DISABLED },
        );
        entries.push(sep);
        let pause_kind = if s.paused {
            MenuEntryKind::Resume
        } else {
            MenuEntryKind::Pause
        };
        entries.push(MenuEntry { kind: pause_kind, id: IDM_PAUSE, flags: checkable_flags(s.paused) });
        entries.push(
            MenuEntry {
                kind: MenuEntryKind::HandOnClick,
                id: IDM_CLICK_HAND,
                flags: checkable_flags(s.hand_on_click),
            },
        );
        entries.push(sep);
        entries.push(
            MenuEntry {
                kind: MenuEntryKind::ThemeAuto,
                id: IDM_THEME_AUTO,
                flags: checkable_flags(s.theme_code == 0),
            },
        );
        entries.push(
            MenuEntry {
                kind: MenuEntryKind::ThemeWhite,
                id: IDM_THEME_WHITE,
                flags: checkable_flags(s.theme_code == 1),
            },
        );
        entries.push(
            MenuEntry {
                kind: MenuEntryKind::ThemeBlack,
                id: IDM_THEME_BLACK,
                flags: checkable_flags(s.theme_code == 2),
            },
        );
        entries.push(sep);
        entries.push(
            MenuEntry {
                kind: MenuEntryKind::DesignAuto,
                id: IDM_DESIGN_AUTO,
                flags: checkable_flags(s.design_code == 0),
            },
        );
        entries.push(
            MenuEntry {
                kind: MenuEntryKind::DesignZoomIn,
                id: IDM_DESIGN_ZOOM_IN,
                flags: checkable_flags(s.design_code == 7),
            },
        );
        entries.push(
            MenuEntry {
                kind: MenuEntryKind::DesignZoomOut,
                id: IDM_DESIGN_ZOOM_OUT,
                flags: checkable_flags(s.design_code == 8),
            },
        );
        entries.push(
            MenuEntry {
                kind: MenuEntryKind::DesignResize,
                id: IDM_DESIGN_RESIZE_NS,
                flags: checkable_flags(s.design_code == 4),
            },
        );
        entries.push(
            MenuEntry {
                kind: MenuEntryKind::DesignMove,
                id: IDM_DESIGN_MOVE,
                flags: checkable_flags(s.design_code == 6),
            },
        );
        entries.push(
            MenuEntry {
                kind: MenuEntryKind::DesignIBeam,
                id: IDM_DESIGN_IBEAM,
                flags: checkable_flags(s.design_code == 3),
            },
        );
        entries.push(
            MenuEntry {
                kind: MenuEntryKind::DesignCrosshair,
                id: IDM_DESIGN_CROSSHAIR,
                flags: checkable_flags(s.design_code == 9),
            },
        );
        entries.push(sep);
        entries.push(MenuEntry { kind: MenuEntryKind::Exit, id: IDM_EXIT, flags: MF_STRING });
        assert(entries@ =~= s.menu());
        entries
    }
}

/// The menu command that selects a theme mode.
pub open spec fn theme_command(mode: ThemeMode) -> usize {
    match mode {
        ThemeMode::Auto => IDM_THEME_AUTO,
        ThemeMode::AlwaysWhite => IDM_THEME_WHITE,
        ThemeMode::AlwaysBlack => IDM_THEME_BLACK,
    }
}

/// The menu command that selects a design, if the menu offers one (the
/// arrow and hand designs have no command).
pub open spec fn design_command(design: CursorDesignOverride) -> Option<usize> {
    match design {
        CursorDesignOverride::Auto => Some(IDM_DESIGN_AUTO),
        CursorDesignOverride::Arrow => None,
        CursorDesignOverride::Hand => None,
        CursorDesignOverride::IBeam => Some(IDM_DESIGN_IBEAM),
        CursorDesignOverride::ResizeNS => Some(IDM_DESIGN_RESIZE_NS),
        CursorDesignOverride::ResizeWE => Some(IDM_DESIGN_RESIZE_WE),
        CursorDesignOverride::Move => Some(IDM_DESIGN_MOVE),
        CursorDesignOverride::ZoomIn => Some(IDM_DESIGN_ZOOM_IN),
        CursorDesignOverride::ZoomOut => Some(IDM_DESIGN_ZOOM_OUT),
        CursorDesignOverride::Crosshair => Some(IDM_DESIGN_CROSSHAIR),
    }
}

/// Commands the tray understands.
pub open spec fn is_known_command(cmd: usize) -> bool {
    cmd == IDM_PAUSE || cmd == IDM_CLICK_HAND || cmd == IDM_THEME_AUTO || cmd == IDM_THEME_WHITE
        || cmd == IDM_THEME_BLACK || cmd == IDM_EXIT || (IDM_DESIGN_AUTO <= cmd
        <= IDM_DESIGN_CROSSHAIR)
}

/// Toggling pause, or hand-on-click, twice gives the settings back.
pub proof fn lemma_toggle_twice_restores(s: TraySettings)
    ensures
        s.after_command(IDM_PAUSE).after_command(IDM_PAUSE) == s,
        s.after_command(IDM_CLICK_HAND).after_command(IDM_CLICK_HAND) == s,
        s.after_command(IDM_PAUSE).paused != s.paused,
        s.after_command(IDM_CLICK_HAND).hand_on_click != s.hand_on_click,
{
}

/// After a theme is selected the tray reports that theme, and nothing else
/// has changed.
pub proof fn lemma_theme_selection_reads_back(s: TraySettings, mode: ThemeMode)
    ensures
        ThemeMode::spec_from_code(s.after_command(theme_command(mode)).theme_code) == mode,
        s.after_command(theme_command(mode)) == (TraySettings { theme_code: mode.spec_code(), ..s }),
{
}

/// After a design is selected from the menu the tray reports that design,
/// and nothing else has changed.
pub proof fn lemma_design_selection_reads_back(s: TraySettings, design: CursorDesignOverride)
    requires
        design_command(design) is Some,
    ensures
        CursorDesignOverride::spec_from_code(
            s.after_command(design_command(design).unwrap()).design_code,
        ) == design,
        s.after_command(design_command(design).unwrap()) == (TraySettings {
            design_code: design.spec_code(),
            ..s
        }),
{
}

/// Every command but the two toggles is idempotent: choosing it again
/// changes nothing more.
pub proof fn lemma_selection_is_idempotent(s: TraySettings, cmd: usize)
    requires
        cmd != IDM_PAUSE,
        cmd != IDM_CLICK_HAND,
    ensures
        s.after_command(cmd).after_command(cmd) == s.after_command(cmd),
{
}

/// Commands the tray does not know leave the settings unchanged.
pub proof fn lemma_unknown_command_is_ignored(s: TraySettings, cmd: usize)
    requires
        !is_known_command(cmd),
    ensures
        s.after_command(cmd) == s,
{
}

/// The exit command only raises the exit request, and once raised no
/// command lowers it again; no other command raises it.
pub proof fn lemma_exit_request_is_sticky(s: TraySettings, cmd: usize)
    ensures
        s.after_command(IDM_EXIT) == (TraySettings { exit_requested: true, ..s }),
        s.exit_requested ==> s.after_command(cmd).exit_requested,
        cmd != IDM_EXIT ==> s.after_command(cmd).exit_requested == s.exit_requested,
{
}

/// The start-up settings are valid, and every command keeps settings valid.
pub proof fn lemma_commands_keep_settings_valid(s: TraySettings, cmd: usize)
    ensures
        TraySettings::initial().valid(),
        s.valid() ==> s.after_command(cmd).valid(),
{
}

/// Encoding a theme or a design and decoding it gives it back.
pub proof fn lemma_codes_round_trip(mode: ThemeMode, design: CursorDesignOverride)
    ensures
        ThemeMode::spec_from_code(mode.spec_code()) == mode,
        CursorDesignOverride::spec_from_code(design.spec_code()) == design,
{
}

/// A left click on the tray icon toggles pause; a right click opens the
/// menu and changes nothing; other messages change nothing.
pub proof fn lemma_tray_clicks(s: TraySettings, msg: u32, event: u32)
    ensures
        s.after_notification(WM_TRAY_CALLBACK, WM_LBUTTONUP) == s.after_command(IDM_PAUSE),
        s.after_notification(WM_TRAY_CALLBACK, WM_RBUTTONUP) == s,
        TraySettings::spec_notification(WM_TRAY_CALLBACK, WM_RBUTTONUP) == TrayNotification::ShowMenu,
        msg != WM_TRAY_CALLBACK ==> s.after_notification(msg, event) == s
            && TraySettings::spec_notification(msg, event) == TrayNotification::NotHandled,
{
}

/// A checked entry carries the check flag and an unchecked one does not.
pub proof fn lemma_check_flags(checked: bool)
    ensures
        check_flags(checked) == (if checked {
            MF_CHECKED
        } else {
            MF_UNCHECKED
        }),
        check_flags(true) != check_flags(false),
{
    assert(0u32 | 8u32 == 8u32) by (bit_vector);
    assert(0u32 | 0u32 == 0u32) by (bit_vector);
}

/// The menu shows the settings: the pause entry is checked exactly when
/// paused (and then offers to resume), the hand entry exactly when the hand
/// is enabled, and of the three theme entries exactly the current one.
pub proof fn lemma_menu_shows_settings(s: TraySettings)
    ensures
        s.menu().len() == 18,
        s.menu()[2].flags == check_flags(s.paused),
        s.menu()[2].kind == (if s.paused {
            MenuEntryKind::Resume
        } else {
            MenuEntryKind::Pause
        }),
        s.menu()[3].flags == check_flags(s.hand_on_click),
        forall|i: int|
            0 <= i < 3 ==> (#[trigger] s.menu()[5 + i]).flags == check_flags(i == s.theme_code),
        s.menu()[17].id == IDM_EXIT,
{
    assert(s.menu()[5 + 0int].flags == check_flags(0int == s.theme_code));
    assert(s.menu()[5 + 1int].flags == check_flags(1int == s.theme_code));
    assert(s.menu()[5 + 2int].flags == check_flags(2int == s.theme_code));
}

/// Menu positions of the radio entries: the three themes and the seven
/// designs.
pub open spec fn is_radio_entry(i: int) -> bool {
    5 <= i <= 7 || 9 <= i <= 15
}

/// Two menu positions in the same radio group.
pub open spec fn same_radio_group(i: int, j: int) -> bool {
    (5 <= i <= 7 && 5 <= j <= 7) || (9 <= i <= 15 && 9 <= j <= 15)
}

/// Choosing a theme or design entry of the menu makes it the one checked
/// entry of its group in the next menu.
pub proof fn lemma_choosing_entry_checks_it(s: TraySettings, i: int, j: int)
    requires
        is_radio_entry(i),
        same_radio_group(i, j),
    ensures
        s.after_command(s.menu()[i].id).menu()[j].flags == check_flags(i == j),
{
    let t = s.after_command(s.menu()[i].id);
    assert(t.menu()[j] == t.menu()[j]);
}

/// Settings after a sequence of menu commands, applied first to last.
pub open spec fn settings_after(s: TraySettings, cmds: Seq<usize>) -> TraySettings
    decreases cmds.len(),
{
    if cmds.len() == 0 {
        s
    } else {
        settings_after(s, cmds.drop_last()).after_command(cmds.last())
    }
}

/// The design code a command stores, if it is a design command.
pub open spec fn design_code_of(cmd: usize) -> Option<u32> {
    if cmd == IDM_DESIGN_AUTO {
        Some(0u32)
    } else if cmd == IDM_DESIGN_ZOOM_IN {
        Some(7u32)
    } else if cmd == IDM_DESIGN_ZOOM_OUT {
        Some(8u32)
    } else if cmd == IDM_DESIGN_RESIZE_NS {
        Some(4u32)
    } else if cmd == IDM_DESIGN_RESIZE_WE {
        Some(5u32)
    } else if cmd == IDM_DESIGN_MOVE {
        Some(6u32)
    } else if cmd == IDM_DESIGN_IBEAM {
        Some(3u32)
    } else if cmd == IDM_DESIGN_CROSSHAIR {
        Some(9u32)
    } else {
        None
    }
}

/// The design code stored by the last design command of a sequence.
pub open spec fn last_design_code(cmds: Seq<usize>) -> Option<u32>
    decreases cmds.len(),
{
    if cmds.len() == 0 {
        None
    } else if design_code_of(cmds.last()) is Some {
        design_code_of(cmds.last())
    } else {
        last_design_code(cmds.drop_last())
    }
}

/// The number of pause toggles in a sequence of commands.
pub open spec fn pause_toggles(cmds: Seq<usize>) -> nat
    decreases cmds.len(),
{
    if cmds.len() == 0 {
        0
    } else {
        pause_toggles(cmds.drop_last()) + if cmds.last() == IDM_PAUSE {
            1nat
        } else {
            0nat
        }
    }
}

/// The commands the context menu can return (0 when it is dismissed).
pub open spec fn is_menu_command(cmd: usize) -> bool {
    cmd == 0 || cmd == IDM_TITLE || cmd == IDM_PAUSE || cmd == IDM_CLICK_HAND || cmd
        == IDM_THEME_AUTO || cmd == IDM_THEME_WHITE || cmd == IDM_THEME_BLACK || cmd == IDM_EXIT
        || cmd == IDM_DESIGN_AUTO || cmd == IDM_DESIGN_ZOOM_IN || cmd == IDM_DESIGN_ZOOM_OUT || cmd
        == IDM_DESIGN_RESIZE_NS || cmd == IDM_DESIGN_MOVE || cmd == IDM_DESIGN_IBEAM || cmd
        == IDM_DESIGN_CROSSHAIR
}

/// The design codes the context menu offers.
pub open spec fn is_menu_design_code(code: u32) -> bool {
    code == 0 || code == 3 || code == 4 || code == 6 || code == 7 || code == 8 || code == 9
}

/// After any sequence of commands the design is the one stored by the last
/// design command, or the starting one if there was none.
pub proof fn lemma_design_is_last_selected(s: TraySettings, cmds: Seq<usize>)
    ensures
        settings_after(s, cmds).design_code == match last_design_code(cmds) {
            Some(code) => code,
            None => s.design_code,
        },
    decreases cmds.len(),
{
    if cmds.len() > 0 {
        lemma_design_is_last_selected(s, cmds.drop_last());
    }
}

/// Pause is the parity of the pause toggles: after any sequence of commands
/// the tray is paused exactly when it started paused or toggled an odd
/// number of times, but not both; from start-up, exactly after an odd number.
pub proof fn lemma_pause_is_toggle_parity(s: TraySettings, cmds: Seq<usize>)
    ensures
        settings_after(s, cmds).paused == (s.paused != (pause_toggles(cmds) % 2 == 1)),
        settings_after(TraySettings::initial(), cmds).paused == (pause_toggles(cmds) % 2 == 1),
    decreases cmds.len(),
{
    if cmds.len() > 0 {
        lemma_pause_is_toggle_parity(s, cmds.drop_last());
        lemma_pause_is_toggle_parity(TraySettings::initial(), cmds.drop_last());
    }
}

/// Every entry of every menu sends a menu command.
pub proof fn lemma_menu_sends_menu_commands(s: TraySettings, i: int)
    requires
        0 <= i < s.menu().len(),
    ensures
        is_menu_command(s.menu()[i].id),
{
}

/// Through the menu alone the design never becomes the arrow, the hand or
/// horizontal resize: from start-up, menu commands only reach the designs
/// the menu offers.
pub proof fn lemma_menu_reaches_only_offered_designs(cmds: Seq<usize>)
    requires
        forall|k: int| 0 <= k < cmds.len() ==> is_menu_command(#[trigger] cmds[k]),
    ensures
        is_menu_design_code(settings_after(TraySettings::initial(), cmds).design_code),
        CursorDesignOverride::spec_from_code(settings_after(TraySettings::initial(), cmds).design_code)
            != CursorDesignOverride::Arrow,
        CursorDesignOverride::spec_from_code(settings_after(TraySettings::initial(), cmds).design_code)
            != CursorDesignOverride::Hand,
        CursorDesignOverride::spec_from_code(settings_after(TraySettings::initial(), cmds).design_code)
            != CursorDesignOverride::ResizeWE,
    decreases cmds.len(),
{
    if cmds.len() > 0 {
        let prefix = cmds.drop_last();
        assert forall|k: int| 0 <= k < prefix.len() implies is_menu_command(#[trigger] prefix[k]) by {
            assert(prefix[k] == cmds[k]);
        }
        lemma_menu_reaches_only_offered_designs(prefix);
        assert(is_menu_command(cmds[cmds.len() - 1]));
    }
}

/// Each forced design draws its own shape: distinct designs draw distinct
/// shapes, only the automatic design draws nothing forced, and every design
/// draws the shape of the same name.
pub proof fn lemma_design_draws_its_own_shape(d1: CursorDesignOverride, d2: CursorDesignOverride)
    ensures
        d1 != d2 ==> d1.spec_render_kind() != d2.spec_render_kind(),
        CursorDesignOverride::Auto.spec_render_kind() == None::<RenderCursorKind>,
        CursorDesignOverride::Arrow.spec_render_kind() == Some(RenderCursorKind::Arrow),
        CursorDesignOverride::Hand.spec_render_kind() == Some(RenderCursorKind::Hand),
        CursorDesignOverride::IBeam.spec_render_kind() == Some(RenderCursorKind::IBeam),
        CursorDesignOverride::ResizeNS.spec_render_kind() == Some(RenderCursorKind::ResizeNS),
        CursorDesignOverride::ResizeWE.spec_render_kind() == Some(RenderCursorKind::ResizeWE),
        CursorDesignOverride::Move.spec_render_kind() == Some(RenderCursorKind::Move),
        CursorDesignOverride::ZoomIn.spec_render_kind() == Some(RenderCursorKind::ZoomIn),
        CursorDesignOverride::ZoomOut.spec_render_kind() == Some(RenderCursorKind::ZoomOut),
        CursorDesignOverride::Crosshair.spec_render_kind() == Some(RenderCursorKind::Crosshair),
        d1 != CursorDesignOverride::Auto ==> spec_select_cursor_kind(d1, None)
            == d1.spec_render_kind().unwrap(),
{
}

/// The design a design entry of the menu names.
pub open spec fn design_of_entry(kind: MenuEntryKind) -> Option<CursorDesignOverride> {
    match kind {
        MenuEntryKind::DesignAuto => Some(CursorDesignOverride::Auto),
        MenuEntryKind::DesignZoomIn => Some(CursorDesignOverride::ZoomIn),
        MenuEntryKind::DesignZoomOut => Some(CursorDesignOverride::ZoomOut),
        MenuEntryKind::DesignResize => Some(CursorDesignOverride::ResizeNS),
        MenuEntryKind::DesignMove => Some(CursorDesignOverride::Move),
        MenuEntryKind::DesignIBeam => Some(CursorDesignOverride::IBeam),
        MenuEntryKind::DesignCrosshair => Some(CursorDesignOverride::Crosshair),
        _ => None,
    }
}

/// The theme a theme entry of the menu names.
pub open spec fn theme_of_entry(kind: MenuEntryKind) -> Option<ThemeMode> {
    match kind {
        MenuEntryKind::ThemeAuto => Some(ThemeMode::Auto),
        MenuEntryKind::ThemeWhite => Some(ThemeMode::AlwaysWhite),
        MenuEntryKind::ThemeBlack => Some(ThemeMode::AlwaysBlack),
        _ => None,
    }
}

/// Every design entry of the menu sends the command of the design it names,
/// is checked exactly when that design is the stored one, and choosing it
/// makes the tray report that design; likewise for the theme entries. The
/// menu offers each of the seven menu designs and the three themes.
pub proof fn lemma_menu_entries_do_what_they_say(s: TraySettings, i: int)
    requires
        0 <= i < s.menu().len(),
    ensures
        design_of_entry(s.menu()[i].kind) matches Some(d) ==> {
            &&& s.menu()[i].id == design_command(d).unwrap()
            &&& s.menu()[i].flags == check_flags(s.design_code == d.spec_code())
            &&& CursorDesignOverride::spec_from_code(
                s.after_command(s.menu()[i].id).design_code,
            ) == d
        },
        theme_of_entry(s.menu()[i].kind) matches Some(m) ==> {
            &&& s.menu()[i].id == theme_command(m)
            &&& s.menu()[i].flags == check_flags(s.theme_code == m.spec_code())
            &&& ThemeMode::spec_from_code(s.after_command(s.menu()[i].id).theme_code) == m
        },
        s.menu()[i].kind == MenuEntryKind::Exit ==> s.menu()[i].id == IDM_EXIT,
        (s.menu()[i].kind == MenuEntryKind::Pause || s.menu()[i].kind == MenuEntryKind::Resume)
            ==> s.menu()[i].id == IDM_PAUSE,
        s.menu()[i].kind == MenuEntryKind::HandOnClick ==> s.menu()[i].id == IDM_CLICK_HAND,
        s.menu()[10].kind == MenuEntryKind::DesignZoomIn,
        s.menu()[11].kind == MenuEntryKind::DesignZoomOut,
{
}

/// Only a right-button-up or left-button-up event of the tray icon is acted
/// on: every other event (button down, moves, double clicks) is left to
/// default processing and changes nothing, and a full left click (down,
/// then up) toggles pause exactly once.
pub proof fn lemma_only_button_up_acts(s: TraySettings, event: u32)
    ensures
        event != WM_RBUTTONUP && event != WM_LBUTTONUP ==> TraySettings::spec_notification(
            WM_TRAY_CALLBACK,
            event,
        ) == TrayNotification::NotHandled && s.after_notification(WM_TRAY_CALLBACK, event) == s,
        s.after_notification(WM_TRAY_CALLBACK, 0x0201u32).after_notification(
            WM_TRAY_CALLBACK,
            WM_LBUTTONUP,
        ).paused != s.paused,
        s.after_notification(WM_TRAY_CALLBACK, WM_LBUTTONUP) == (TraySettings {
            paused: !s.paused,
            ..s
        }),
{
}

} // verus!

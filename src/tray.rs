//! The tray menu and the lifecycle decisions driven by tray events.

use vstd::prelude::*;
use vstd::string::StrSliceExecFns;

verus! {

/// The exit code the process ends with when the user quits.
pub const QUIT_EXIT_CODE: i32 = 0;

/// The three entries of the tray menu.
#[derive(Clone, Copy, Debug, PartialEq, Eq, Structural)]
pub enum MenuCommand {
    Show,
    Hide,
    Quit,
}

impl MenuCommand {
    pub open spec fn spec_id(self) -> Seq<char> {
        match self {
            MenuCommand::Show => "show"@,
            MenuCommand::Hide => "hide"@,
            MenuCommand::Quit => "quit"@,
        }
    }

    pub open spec fn spec_label(self) -> Seq<char> {
        match self {
            MenuCommand::Show => "Show"@,
            MenuCommand::Hide => "Hide"@,
            MenuCommand::Quit => "Quit"@,
        }
    }

    /// The identifier that menu events carry for this entry.
    pub fn id(&self) -> (r: &'static str)
        ensures
            r@ == self.spec_id(),
    {
        match self {
            MenuCommand::Show => "show",
            MenuCommand::Hide => "hide",
            MenuCommand::Quit => "quit",
        }
    }

    /// The text shown for this entry.
    pub fn label(&self) -> (r: &'static str)
        ensures
            r@ == self.spec_label(),
    {
        match self {
            MenuCommand::Show => "Show",
            MenuCommand::Hide => "Hide",
            MenuCommand::Quit => "Quit",
        }
    }

    /// The entry whose identifier is `id`, if any.
    pub fn from_id(id: &str) -> (r: Option<MenuCommand>)
        ensures
            r == command_for_id(id@),
    {
        if same_text(id, "show") {
            Some(MenuCommand::Show)
        } else if same_text(id, "hide") {
            Some(MenuCommand::Hide)
        } else if same_text(id, "quit") {
            Some(MenuCommand::Quit)
        } else {
            None
        }
    }
}

/// The menu entry that a menu event identifier names.
pub open spec fn command_for_id(id: Seq<char>) -> Option<MenuCommand> {
    if id == MenuCommand::Show.spec_id() {
        Some(MenuCommand::Show)
    } else if id == MenuCommand::Hide.spec_id() {
        Some(MenuCommand::Hide)
    } else if id == MenuCommand::Quit.spec_id() {
        Some(MenuCommand::Quit)
    } else {
        None
    }
}

fn same_text(a: &str, b: &str) -> (r: bool)
    ensures
        r == (a@ == b@),
{
    let n = a.unicode_len();
    if n != b.unicode_len() {
        return false;
    }
    let mut i: usize = 0;
    while i < n
        invariant
            n == a@.len(),
            n == b@.len(),
            i <= n,
            a@.subrange(0, i as int) == b@.subrange(0, i as int),
        decreases n - i,
    {
        if a.get_char(i) != b.get_char(i) {
            assert(a@[i as int] != b@[i as int]);
            return false;
        }
        assert(a@.subrange(0, i + 1) =~= a@.subrange(0, i as int).push(a@[i as int]));
        assert(b@.subrange(0, i + 1) =~= b@.subrange(0, i as int).push(b@[i as int]));
        i = i + 1;
    }
    assert(a@ =~= a@.subrange(0, n as int));
    assert(b@ =~= b@.subrange(0, n as int));
    true
}

/// One entry of the tray menu.
#[derive(Clone, Copy, Debug, PartialEq, Eq, Structural)]
pub struct MenuEntry {
    pub command: MenuCommand,
    pub enabled: bool,
}

/// The tray menu: Show, Hide and Quit, in that order, all enabled.
pub open spec fn spec_tray_menu() -> Seq<MenuEntry> {
    seq![
        MenuEntry { command: MenuCommand::Show, enabled: true },
        MenuEntry { command: MenuCommand::Hide, enabled: true },
        MenuEntry { command: MenuCommand::Quit, enabled: true },
    ]
}

/// The entries of the tray menu, in the order they are shown.
pub fn tray_menu() -> (r: Vec<MenuEntry>)
    ensures
        r@ == spec_tray_menu(),
{
    let r = vec![
        MenuEntry { command: MenuCommand::Show, enabled: true },
        MenuEntry { command: MenuCommand::Hide, enabled: true },
        MenuEntry { command: MenuCommand::Quit, enabled: true },
    ];
    assert(r@ =~= spec_tray_menu());
    r
}

/// A mouse button, as tray gestures report it.
#[derive(Clone, Copy, Debug, PartialEq, Eq, Structural)]
pub enum MouseButton {
    Left,
    Right,
    Middle,
}

/// A gesture on the tray icon.
#[derive(Clone, Copy, Debug, PartialEq, Eq, Structural)]
pub enum TrayGesture {
    Click { button: MouseButton },
    DoubleClick { button: MouseButton },
    /// The pointer entered, moved over or left the icon.
    Hover,
}

/// What the host is to do in answer to an event.
#[derive(Clone, Copy, Debug, PartialEq, Eq, Structural)]
pub enum Effect {
    /// Look up the main window; if it exists, make it visible and focus it.
    ShowWindow,
    /// Look up the main window; if it exists, make it invisible.
    HideWindow,
    /// End the process with this exit code.
    Exit(i32),
    /// Do nothing.
    Nothing,
}

/// The effect of selecting the menu entry with identifier `id`.
pub open spec fn menu_effect(id: Seq<char>) -> Effect {
    match command_for_id(id) {
        Some(MenuCommand::Show) => Effect::ShowWindow,
        Some(MenuCommand::Hide) => Effect::HideWindow,
        Some(MenuCommand::Quit) => Effect::Exit(QUIT_EXIT_CODE),
        None => Effect::Nothing,
    }
}

/// The effect of a gesture on the tray icon: a left click shows the window,
/// anything else does nothing.
pub open spec fn gesture_effect(g: TrayGesture) -> Effect {
    match g {
        TrayGesture::Click { button: MouseButton::Left } => Effect::ShowWindow,
        _ => Effect::Nothing,
    }
}

/// What can be observed of the main window.
#[derive(Clone, Copy, Debug, PartialEq, Eq, Structural)]
pub struct WindowState {
    pub visible: bool,
    pub focused: bool,
}

/// The main window after the host performed `e`; `None` stands for a main
/// window that does not exist, which every effect leaves alone.
pub open spec fn window_after(e: Effect, w: Option<WindowState>) -> Option<WindowState> {
    match w {
        None => None,
        Some(s) => match e {
            Effect::ShowWindow => Some(WindowState { visible: true, focused: true }),
            Effect::HideWindow => Some(WindowState { visible: false, ..s }),
            _ => Some(s),
        },
    }
}

/// The exit code that `e` ends the process with, if it ends it.
pub open spec fn exit_code_of(e: Effect) -> Option<i32> {
    match e {
        Effect::Exit(code) => Some(code),
        _ => None,
    }
}

/// Routes tray and menu events to effects on the main window and process.
/// Tray events only arrive when the tray icon was created, and once the user
/// has quit no event has any effect.
pub struct TrayController {
    pub tray_present: bool,
    pub quitting: bool,
}

impl TrayController {
    /// Whether events from the tray icon and its menu still take effect.
    pub open spec fn accepts_tray_events(self) -> bool {
        self.tray_present && !self.quitting
    }

    /// The effect of selecting the menu entry `id` in this state.
    pub open spec fn menu_response(self, id: Seq<char>) -> Effect {
        if self.accepts_tray_events() {
            menu_effect(id)
        } else {
            Effect::Nothing
        }
    }

    /// The effect of gesture `g` on the tray icon in this state.
    pub open spec fn gesture_response(self, g: TrayGesture) -> Effect {
        if self.accepts_tray_events() {
            gesture_effect(g)
        } else {
            Effect::Nothing
        }
    }

    /// The controller at startup; `default_icon_present` tells whether the
    /// application has a default window icon, without which no tray icon is
    /// created.
    pub fn new(default_icon_present: bool) -> (r: TrayController)
        ensures
            r.tray_present == default_icon_present,
            !r.quitting,
    {
        TrayController { tray_present: default_icon_present, quitting: false }
    }

    /// Whether a tray icon with the menu of `tray_menu` is to be created.
    pub fn creates_tray(&self) -> (r: bool)
        ensures
            r == self.tray_present,
    {
        self.tray_present
    }

    /// Answers the selection of the menu entry with identifier `id`.
    pub fn on_menu_event(&mut self, id: &str) -> (r: Effect)
        ensures
            r == old(self).menu_response(id@),
            final(self).tray_present == old(self).tray_present,
            final(self).quitting == (old(self).quitting || exit_code_of(r) is Some),
    {
        if !self.tray_present || self.quitting {
            return Effect::Nothing;
        }
        let r = match MenuCommand::from_id(id) {
            Some(MenuCommand::Show) => Effect::ShowWindow,
            Some(MenuCommand::Hide) => Effect::HideWindow,
            Some(MenuCommand::Quit) => Effect::Exit(QUIT_EXIT_CODE),
            None => Effect::Nothing,
        };
        if let Effect::Exit(_) = r {
            self.quitting = true;
        }
        r
    }

    /// Answers a gesture on the tray icon.
    pub fn on_tray_event(&mut self, g: TrayGesture) -> (r: Effect)
        ensures
            r == old(self).gesture_response(g),
            *final(self) == *old(self),
    {
        if !self.tray_present || self.quitting {
            return Effect::Nothing;
        }
        match g {
            TrayGesture::Click { button: MouseButton::Left } => Effect::ShowWindow,
            _ => Effect::Nothing,
        }
    }

    /// Answers the quit command of the host UI: the process always ends with
    /// exit code 0, whether or not a tray icon exists.
    pub fn quit_app(&mut self) -> (r: Effect)
        ensures
            r == Effect::Exit(QUIT_EXIT_CODE),
            final(self).tray_present == old(self).tray_present,
            final(self).quitting,
    {
        self.quitting = true;
        Effect::Exit(QUIT_EXIT_CODE)
    }
}

/// Showing the main window twice in a row leaves it as showing it once does:
/// visible and focused when it exists, absent when it does not.
pub proof fn lemma_show_is_idempotent(w: Option<WindowState>)
    ensures
        window_after(Effect::ShowWindow, window_after(Effect::ShowWindow, w)) == window_after(
            Effect::ShowWindow,
            w,
        ),
        w is Some ==> window_after(Effect::ShowWindow, w) == Some(
            WindowState { visible: true, focused: true },
        ),
{
}

/// Hiding when no main window exists changes nothing and ends nothing.
pub proof fn lemma_hide_without_window_is_noop()
    ensures
        window_after(Effect::HideWindow, None) == Option::<WindowState>::None,
        exit_code_of(Effect::HideWindow) == Option::<i32>::None,
{
}

/// Quitting ends the process with exit code 0, from the menu whenever tray
/// events are accepted, and through the host command in every state.
pub proof fn lemma_quit_exits_with_zero(c: TrayController)
    ensures
        c.accepts_tray_events() ==> exit_code_of(c.menu_response("quit"@)) == Some(0i32),
        exit_code_of(Effect::Exit(QUIT_EXIT_CODE)) == Some(0i32),
{
    reveal_strlit("quit");
    reveal_strlit("show");
    reveal_strlit("hide");
    assert("quit"@[0] != "show"@[0]);
    assert("quit"@[0] != "hide"@[0]);
}

/// A left click on the tray icon has the same effect as the Show entry of
/// the menu, in every state, and so leaves the main window in the same state.
pub proof fn lemma_left_click_acts_as_show(c: TrayController, w: Option<WindowState>)
    ensures
        c.gesture_response(TrayGesture::Click { button: MouseButton::Left }) == c.menu_response(
            "show"@,
        ),
        window_after(c.gesture_response(TrayGesture::Click { button: MouseButton::Left }), w)
            == window_after(c.menu_response("show"@), w),
{
}

/// Without a tray icon no menu selection and no gesture has any effect: only
/// the host's commands remain.
pub proof fn lemma_no_tray_no_tray_effects(c: TrayController, id: Seq<char>, g: TrayGesture)
    requires
        !c.tray_present,
    ensures
        c.menu_response(id) == Effect::Nothing,
        c.gesture_response(g) == Effect::Nothing,
{
}

/// Once the user has quit, no later tray event has any effect.
pub proof fn lemma_quit_is_terminal(c: TrayController, id: Seq<char>, g: TrayGesture)
    requires
        c.quitting,
    ensures
        c.menu_response(id) == Effect::Nothing,
        c.gesture_response(g) == Effect::Nothing,
{
}

} // verus!

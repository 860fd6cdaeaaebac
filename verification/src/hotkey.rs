//! The two global hotkeys: one shows or hides the main window, the other
//! ends the application.

use vstd::prelude::*;

verus! {

/// The accelerator registered for showing and hiding the main window.
pub const TOGGLE_ACCELERATOR: &'static str = "CmdOrCtrl+M";

/// The accelerator registered for ending the application.
pub const QUIT_ACCELERATOR: &'static str = "CmdOrCtrl+Q";

/// The label of the window that the toggle hotkey shows and hides.
pub const MAIN_WINDOW: &'static str = "main";

/// The exit code with which the quit hotkey ends the process.
pub const EXIT_SUCCESS: i32 = 0;

/// The key of a shortcut, as far as the hotkeys tell keys apart.
#[derive(Clone, Copy, Debug, PartialEq, Eq, Structural)]
pub enum Key {
    M,
    Q,
    /// Any key that is neither of the two.
    Other,
}

/// The modifier keys that a shortcut can ask for. `meta` is the Command
/// key of one keyboard and the Super or Windows key of another.
#[derive(Clone, Copy, Debug, PartialEq, Eq, Structural)]
pub struct Modifiers {
    pub shift: bool,
    pub control: bool,
    pub alt: bool,
    pub meta: bool,
}

/// A registered key combination.
#[derive(Clone, Copy, Debug, PartialEq, Eq, Structural)]
pub struct Shortcut {
    pub modifiers: Modifiers,
    pub key: Key,
}

/// Whether the combination went down or came up.
#[derive(Clone, Copy, Debug, PartialEq, Eq, Structural)]
pub enum KeyState {
    Pressed,
    Released,
}

/// What a hotkey asks for.
#[derive(Clone, Copy, Debug, PartialEq, Eq, Structural)]
pub enum Command {
    /// Show the main window if it is hidden, hide it if it is shown.
    ToggleWindow,
    /// End the process at once with the given exit code.
    Exit { code: i32 },
}

/// What the host says when asked whether a window is visible.
#[derive(Clone, Copy, Debug, PartialEq, Eq, Structural)]
pub enum Visibility {
    Visible,
    Hidden,
    /// The host could not tell.
    Unknown,
}

/// What is done to the window.
#[derive(Clone, Copy, Debug, PartialEq, Eq, Structural)]
pub enum WindowAction {
    Hide,
    ShowAndFocus,
}

/// A window as far as the hotkeys change it.
#[derive(Clone, Copy, Debug, PartialEq, Eq, Structural)]
pub struct Window {
    pub visible: bool,
    pub focused: bool,
}

impl Modifiers {
    pub open spec fn none_spec() -> Modifiers {
        Modifiers { shift: false, control: false, alt: false, meta: false }
    }

    pub open spec fn control_spec() -> Modifiers {
        Modifiers { control: true, ..Self::none_spec() }
    }

    pub open spec fn meta_spec() -> Modifiers {
        Modifiers { meta: true, ..Self::none_spec() }
    }

    /// No modifier key.
    pub fn none() -> (m: Modifiers)
        ensures
            m == Self::none_spec(),
    {
        Modifiers { shift: false, control: false, alt: false, meta: false }
    }

    /// The Control key alone.
    pub fn control() -> (m: Modifiers)
        ensures
            m == Self::control_spec(),
    {
        Modifiers { shift: false, control: true, alt: false, meta: false }
    }

    /// The Meta key alone.
    pub fn meta() -> (m: Modifiers)
        ensures
            m == Self::meta_spec(),
    {
        Modifiers { shift: false, control: false, alt: false, meta: true }
    }
}

impl Shortcut {
    /// The shortcut is this key with exactly these modifiers.
    pub open spec fn matches_spec(self, modifiers: Modifiers, key: Key) -> bool {
        self.modifiers == modifiers && self.key == key
    }

    /// The shortcut is the key with Control alone or with Meta alone:
    /// keyboards differ in which of the two they use.
    pub open spec fn is_combination(self, key: Key) -> bool {
        self.matches_spec(Modifiers::control_spec(), key) || self.matches_spec(
            Modifiers::meta_spec(),
            key,
        )
    }

    pub open spec fn is_toggle_spec(self) -> bool {
        self.is_combination(Key::M)
    }

    pub open spec fn is_quit_spec(self) -> bool {
        self.is_combination(Key::Q)
    }

    pub fn new(modifiers: Modifiers, key: Key) -> (shortcut: Shortcut)
        ensures
            shortcut == (Shortcut { modifiers, key }),
    {
        Shortcut { modifiers, key }
    }

    /// Whether the shortcut is this key with exactly these modifiers.
    pub fn matches(&self, modifiers: Modifiers, key: Key) -> (yes: bool)
        ensures
            yes == self.matches_spec(modifiers, key),
    {
        self.modifiers == modifiers && self.key == key
    }

    /// Whether the shortcut is the toggle combination.
    pub fn is_toggle(&self) -> (yes: bool)
        ensures
            yes == self.is_toggle_spec(),
    {
        self.matches(Modifiers::control(), Key::M) || self.matches(Modifiers::meta(), Key::M)
    }

    /// Whether the shortcut is the quit combination.
    pub fn is_quit(&self) -> (yes: bool)
        ensures
            yes == self.is_quit_spec(),
    {
        self.matches(Modifiers::control(), Key::Q) || self.matches(Modifiers::meta(), Key::Q)
    }
}

/// What a hotkey event asks for: a press of the toggle combination asks
/// for the toggle, a press of the quit combination for the end of the
/// process with `EXIT_SUCCESS`; a release, or any other combination, asks
/// for nothing.
pub open spec fn command_for(shortcut: Shortcut, state: KeyState) -> Option<Command> {
    if state is Released {
        None
    } else if shortcut.is_toggle_spec() {
        Some(Command::ToggleWindow)
    } else if shortcut.is_quit_spec() {
        Some(Command::Exit { code: EXIT_SUCCESS })
    } else {
        None
    }
}

/// What the toggle does to a window, given what the host says of it. A
/// window that is known to be visible is hidden. In every other case,
/// also when the host cannot tell, it is shown and focused. Where there
/// is no window, nothing is done.
pub open spec fn toggle_action(seen: Option<Visibility>) -> Option<WindowAction> {
    match seen {
        None => None,
        Some(Visibility::Visible) => Some(WindowAction::Hide),
        Some(Visibility::Hidden) | Some(Visibility::Unknown) => Some(WindowAction::ShowAndFocus),
    }
}

/// Maps a hotkey event to what it asks for.
pub fn on_shortcut(shortcut: &Shortcut, state: KeyState) -> (command: Option<Command>)
    ensures
        command == command_for(*shortcut, state),
{
    match state {
        KeyState::Released => None,
        KeyState::Pressed => {
            if shortcut.is_toggle() {
                Some(Command::ToggleWindow)
            } else if shortcut.is_quit() {
                Some(Command::Exit { code: EXIT_SUCCESS })
            } else {
                None
            }
        },
    }
}

/// Decides what the toggle does to the main window. `seen` is `None`
/// where the host has no such window.
pub fn on_toggle(seen: Option<Visibility>) -> (action: Option<WindowAction>)
    ensures
        action == toggle_action(seen),
{
    match seen {
        None => None,
        Some(Visibility::Visible) => Some(WindowAction::Hide),
        Some(_) => Some(WindowAction::ShowAndFocus),
    }
}

impl Window {
    /// What a host that can tell says of the window.
    pub open spec fn visibility_spec(self) -> Visibility {
        if self.visible {
            Visibility::Visible
        } else {
            Visibility::Hidden
        }
    }

    /// The window after the action. A hidden window does not hold the focus.
    pub open spec fn apply_spec(self, action: WindowAction) -> Window {
        match action {
            WindowAction::Hide => Window { visible: false, focused: false },
            WindowAction::ShowAndFocus => Window { visible: true, focused: true },
        }
    }

    /// The window after a press of the toggle combination, where the host
    /// said `seen` of it.
    pub open spec fn toggled(self, seen: Visibility) -> Window {
        match toggle_action(Some(seen)) {
            Some(action) => self.apply_spec(action),
            None => self,
        }
    }

    pub fn visibility(&self) -> (seen: Visibility)
        ensures
            seen == self.visibility_spec(),
    {
        if self.visible {
            Visibility::Visible
        } else {
            Visibility::Hidden
        }
    }

    pub fn apply(self, action: WindowAction) -> (after: Window)
        ensures
            after == self.apply_spec(action),
    {
        match action {
            WindowAction::Hide => Window { visible: false, focused: false },
            WindowAction::ShowAndFocus => Window { visible: true, focused: true },
        }
    }
}

/// A press of the toggle combination hides a window that is seen visible,
/// and shows and focuses one that is seen hidden or of which the host
/// cannot tell. Where the host tells the truth, the window is afterwards
/// visible exactly if it was not before.
pub proof fn law_toggle(window: Window, seen: Visibility)
    ensures
        seen is Visible ==> !window.toggled(seen).visible,
        seen is Hidden || seen is Unknown ==> window.toggled(seen).visible && window.toggled(
            seen,
        ).focused,
        seen == window.visibility_spec() ==> window.toggled(seen).visible == !window.visible,
{
}

/// The toggle and the quit combination are told apart, each is accepted
/// with Control and with Meta, and a press of the quit combination asks
/// for the end of the process with exit code 0.
pub proof fn law_hotkeys(shortcut: Shortcut)
    ensures
        !(shortcut.is_toggle_spec() && shortcut.is_quit_spec()),
        (Shortcut { modifiers: Modifiers::control_spec(), key: Key::M }).is_toggle_spec(),
        (Shortcut { modifiers: Modifiers::meta_spec(), key: Key::M }).is_toggle_spec(),
        (Shortcut { modifiers: Modifiers::control_spec(), key: Key::Q }).is_quit_spec(),
        (Shortcut { modifiers: Modifiers::meta_spec(), key: Key::Q }).is_quit_spec(),
        shortcut.is_quit_spec() ==> command_for(shortcut, KeyState::Pressed) == Some(
            Command::Exit { code: 0 },
        ),
        shortcut.is_toggle_spec() ==> command_for(shortcut, KeyState::Pressed) == Some(
            Command::ToggleWindow,
        ),
        command_for(shortcut, KeyState::Released) is None,
{
}

} // verus!

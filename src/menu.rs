use vstd::prelude::*;
use vstd::string::StringExecFns;

use crate::text::same_text;
use crate::window::WindowName;

verus! {

/// A user action taken from the tray menu or the tray icon.
pub enum MenuAction {
    OpenChat,
    OpenWorld,
    OpenSettings,
    OpenZen,
    Quit,
    /// A menu identifier the shell does not know.
    Unknown(String),
}

/// What the host must do in answer to an action.
#[derive(Clone, Copy, Debug, PartialEq, Eq, Structural)]
pub enum Command {
    /// Open or focus this window.
    Open(WindowName),
    /// End the process with this exit code.
    Exit(i32),
    /// Nothing beyond a log line.
    Ignore,
}

/// The action a known menu identifier stands for; `None` for any other text.
pub open spec fn known_action(id: Seq<char>) -> Option<MenuAction> {
    if id == "chat"@ {
        Some(MenuAction::OpenChat)
    } else if id == "world"@ {
        Some(MenuAction::OpenWorld)
    } else if id == "zen"@ {
        Some(MenuAction::OpenZen)
    } else if id == "settings"@ {
        Some(MenuAction::OpenSettings)
    } else if id == "quit"@ {
        Some(MenuAction::Quit)
    } else {
        None
    }
}

/// The command an action leads to.
pub open spec fn command_of(a: MenuAction) -> Command {
    match a {
        MenuAction::OpenChat => Command::Open(WindowName::Chat),
        MenuAction::OpenWorld => Command::Open(WindowName::World),
        MenuAction::OpenSettings => Command::Open(WindowName::Settings),
        MenuAction::OpenZen => Command::Open(WindowName::Zen),
        MenuAction::Quit => Command::Exit(0),
        MenuAction::Unknown(_) => Command::Ignore,
    }
}

impl MenuAction {
    /// The action behind a menu identifier.
    pub fn from_id(id: &str) -> (r: MenuAction)
        ensures
            known_action(id@) matches Some(a) ==> r == a,
            known_action(id@) is None ==> (r matches MenuAction::Unknown(s) && s@ == id@),
    {
        if same_text(id, "chat") {
            MenuAction::OpenChat
        } else if same_text(id, "world") {
            MenuAction::OpenWorld
        } else if same_text(id, "zen") {
            MenuAction::OpenZen
        } else if same_text(id, "settings") {
            MenuAction::OpenSettings
        } else if same_text(id, "quit") {
            MenuAction::Quit
        } else {
            MenuAction::Unknown(String::from_str(id))
        }
    }
}

pub fn route(action: &MenuAction) -> (r: Command)
    ensures
        r == command_of(*action),
{
    match action {
        MenuAction::OpenChat => Command::Open(WindowName::Chat),
        MenuAction::OpenWorld => Command::Open(WindowName::World),
        MenuAction::OpenSettings => Command::Open(WindowName::Settings),
        MenuAction::OpenZen => Command::Open(WindowName::Zen),
        MenuAction::Quit => Command::Exit(0),
        MenuAction::Unknown(_) => Command::Ignore,
    }
}

/// The command for a click on the menu entry with identifier `id`.
pub fn menu_command(id: &str) -> (r: Command)
    ensures
        known_action(id@) matches Some(a) ==> r == command_of(a),
        known_action(id@) is None ==> r == Command::Ignore,
{
    route(&MenuAction::from_id(id))
}

/// The action for a click on the tray icon itself: releasing the primary
/// button opens the chat window, every other mouse event does nothing.
pub fn tray_click_action(primary_button: bool, released: bool) -> (r: Option<MenuAction>)
    ensures
        r is Some <==> primary_button && released,
        r matches Some(a) ==> a == MenuAction::OpenChat,
{
    if primary_button && released {
        Some(MenuAction::OpenChat)
    } else {
        None
    }
}

/// A menu identifier the shell does not know neither opens a window nor ends
/// the process.
pub proof fn lemma_unknown_id_ignored(id: Seq<char>, a: MenuAction)
    requires
        known_action(id) is None,
        a is Unknown,
    ensures
        command_of(a) == Command::Ignore,
        !(command_of(a) is Open),
        !(command_of(a) is Exit),
{
}

/// Only the quit action ends the process, and it ends it with code 0.
pub proof fn lemma_only_quit_exits(a: MenuAction)
    ensures
        command_of(a) is Exit <==> a is Quit,
        a is Quit ==> command_of(a) == Command::Exit(0),
{
}

} // verus!

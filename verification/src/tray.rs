//! The tray menu: three fixed commands, and what an activation of each asks
//! of the main window or of the process.

use crate::error::Error;
use crate::text::same_text;
use vstd::prelude::*;

verus! {

/// The label of the main window, by which it is made and found again.
pub const MAIN_WINDOW: &'static str = "main";

/// A command of the tray menu.
#[derive(Clone, Copy, Debug, PartialEq, Eq, Structural)]
pub enum TrayCommand {
    Show,
    Hide,
    Quit,
}

/// What the caller is to do in answer to an activation of the tray menu.
#[derive(Clone, Copy, Debug, PartialEq, Eq, Structural)]
pub enum TrayAction {
    /// Make the main window visible and give it the input focus.
    ShowAndFocus,
    /// Make the main window invisible.
    HideWindow,
    /// End the process at once with this exit status.
    Exit(i32),
    /// Do nothing.
    Nothing,
}

/// An entry of the tray menu as it is shown.
#[derive(Clone, Copy, Debug)]
pub struct MenuEntry {
    /// The identifier that an activation of the entry carries.
    pub id: &'static str,
    /// The text shown for the entry.
    pub label: &'static str,
    /// Whether the entry can be activated.
    pub enabled: bool,
}

/// The identifier of a command.
pub open spec fn command_id(command: TrayCommand) -> Seq<char> {
    match command {
        TrayCommand::Show => "show"@,
        TrayCommand::Hide => "hide"@,
        TrayCommand::Quit => "quit"@,
    }
}

/// The text shown for a command.
pub open spec fn command_label(command: TrayCommand) -> Seq<char> {
    match command {
        TrayCommand::Show => "Show"@,
        TrayCommand::Hide => "Hide"@,
        TrayCommand::Quit => "Quit"@,
    }
}

/// The command that carries the identifier `id`, if there is one.
pub open spec fn command_of(id: Seq<char>) -> Option<TrayCommand> {
    if id == command_id(TrayCommand::Show) {
        Some(TrayCommand::Show)
    } else if id == command_id(TrayCommand::Hide) {
        Some(TrayCommand::Hide)
    } else if id == command_id(TrayCommand::Quit) {
        Some(TrayCommand::Quit)
    } else {
        None
    }
}

/// What an activation with identifier `id` asks for, given whether the main
/// window can be found at that moment.
pub open spec fn tray_action(id: Seq<char>, window_available: bool) -> TrayAction {
    match command_of(id) {
        Some(TrayCommand::Show) => if window_available {
            TrayAction::ShowAndFocus
        } else {
            TrayAction::Nothing
        },
        Some(TrayCommand::Hide) => if window_available {
            TrayAction::HideWindow
        } else {
            TrayAction::Nothing
        },
        Some(TrayCommand::Quit) => TrayAction::Exit(0),
        None => TrayAction::Nothing,
    }
}

/// The menu as a sequence of commands, in the order shown.
pub open spec fn menu_commands() -> Seq<TrayCommand> {
    seq![TrayCommand::Show, TrayCommand::Hide, TrayCommand::Quit]
}

impl TrayCommand {
    /// The identifier that an activation of this command carries.
    pub fn id(self) -> (r: &'static str)
        ensures
            r@ == command_id(self),
    {
        match self {
            TrayCommand::Show => "show",
            TrayCommand::Hide => "hide",
            TrayCommand::Quit => "quit",
        }
    }

    /// The text shown for this command.
    pub fn label(self) -> (r: &'static str)
        ensures
            r@ == command_label(self),
    {
        match self {
            TrayCommand::Show => "Show",
            TrayCommand::Hide => "Hide",
            TrayCommand::Quit => "Quit",
        }
    }

    /// The command that carries the identifier `id`; `None` for any other
    /// text.
    pub fn from_id(id: &str) -> (r: Option<TrayCommand>)
        ensures
            r == command_of(id@),
    {
        if same_text(id, "show") {
            Some(TrayCommand::Show)
        } else if same_text(id, "hide") {
            Some(TrayCommand::Hide)
        } else if same_text(id, "quit") {
            Some(TrayCommand::Quit)
        } else {
            None
        }
    }

    /// The entry of the menu for this command: always enabled.
    pub fn entry(self) -> (r: MenuEntry)
        ensures
            r.id@ == command_id(self),
            r.label@ == command_label(self),
            r.enabled,
    {
        MenuEntry { id: self.id(), label: self.label(), enabled: true }
    }
}

/// The tray menu: Show, Hide and Quit in this order, each enabled.
pub fn setup_tray() -> (menu: Vec<MenuEntry>)
    ensures
        menu@.len() == menu_commands().len(),
        forall|i: int|
            0 <= i < menu@.len() ==> {
                &&& menu@[i].id@ == command_id(menu_commands()[i])
                &&& menu@[i].label@ == command_label(menu_commands()[i])
                &&& menu@[i].enabled
            },
{
    let mut menu: Vec<MenuEntry> = Vec::new();
    menu.push(TrayCommand::Show.entry());
    menu.push(TrayCommand::Hide.entry());
    menu.push(TrayCommand::Quit.entry());
    menu
}

/// What the caller is to do when the tray menu reports an activation with
/// identifier `id`. `window_available` says whether the main window can be
/// found at this moment. An identifier of no command asks for nothing, and
/// so does Show or Hide without a window.
pub fn on_menu_event(id: &str, window_available: bool) -> (action: TrayAction)
    ensures
        action == tray_action(id@, window_available),
{
    match TrayCommand::from_id(id) {
        Some(TrayCommand::Show) => if window_available {
            TrayAction::ShowAndFocus
        } else {
            TrayAction::Nothing
        },
        Some(TrayCommand::Hide) => if window_available {
            TrayAction::HideWindow
        } else {
            TrayAction::Nothing
        },
        Some(TrayCommand::Quit) => TrayAction::Exit(0),
        None => TrayAction::Nothing,
    }
}

/// The outcome of an operation on the main window that the caller carried
/// out, from what the windowing runtime reported: success, or a failure of
/// the runtime that keeps the reported message. No such failure is passed
/// over.
pub fn window_outcome(reported: Result<(), String>) -> (r: Result<(), Error>)
    ensures
        r == match reported {
            Ok(_) => Ok::<(), Error>(()),
            Err(message) => Err(Error::Tauri(message)),
        },
{
    match reported {
        Ok(_) => Ok(()),
        Err(message) => Err(Error::Tauri(message)),
    }
}

/// No two commands share an identifier, and each identifier leads back to
/// its command.
pub proof fn lemma_identifiers_distinct(a: TrayCommand, b: TrayCommand)
    ensures
        command_id(a) == command_id(b) ==> a == b,
        command_of(command_id(a)) == Some(a),
{
    reveal_strlit("show");
    reveal_strlit("hide");
    reveal_strlit("quit");
    assert("show"@[0] != "hide"@[0]);
    assert("show"@[0] != "quit"@[0]);
    assert("hide"@[0] != "quit"@[0]);
}

/// Show and Hide ask for nothing while no main window can be found.
pub proof fn lemma_no_window_no_action(id: Seq<char>)
    requires
        command_of(id) == Some(TrayCommand::Show) || command_of(id) == Some(TrayCommand::Hide),
    ensures
        tray_action(id, false) == TrayAction::Nothing,
{
}

/// An identifier that is none of the three asks for nothing, window or not.
pub proof fn lemma_unknown_identifier_ignored(id: Seq<char>, window_available: bool)
    requires
        id != "show"@,
        id != "hide"@,
        id != "quit"@,
    ensures
        tray_action(id, window_available) == TrayAction::Nothing,
{
}

/// The process is ended only by Quit, and then with status 0.
pub proof fn lemma_exit_only_on_quit(id: Seq<char>, window_available: bool, status: i32)
    requires
        tray_action(id, window_available) == TrayAction::Exit(status),
    ensures
        id == "quit"@,
        status == 0,
{
    lemma_identifiers_distinct(TrayCommand::Show, TrayCommand::Quit);
    lemma_identifiers_distinct(TrayCommand::Hide, TrayCommand::Quit);
}

} // verus!

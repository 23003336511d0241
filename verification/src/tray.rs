//! The tray menu, and what each event of the tray and of the window leads
//! to.

use vstd::prelude::*;
use crate::command::WarpCommand;
use crate::text::same_text;

verus! {

/// An entry of the tray menu.
#[derive(Clone, Copy, Debug, PartialEq, Eq)]
pub enum MenuEntry {
    /// Bring the window back.
    Show,
    /// Bring the tunnel up.
    Connect,
    /// Take the tunnel down.
    Disconnect,
    /// Leave the application.
    Quit,
}

/// Something that the tray or the window reports.
#[derive(Clone, Debug, PartialEq, Eq)]
pub enum Event {
    /// The menu entry with this id was chosen.
    MenuChosen(String),
    /// The tray icon was clicked.
    IconClicked,
    /// The user asked for the window to be closed.
    CloseRequested,
    /// Anything else.
    Other,
}

/// What the application does about an event.
#[derive(Clone, Debug, PartialEq, Eq)]
pub enum Effect {
    /// Leave the application with this exit code.
    Exit(i32),
    /// Show the main window and give it the focus, if there is one.
    RevealWindow,
    /// Hide the window, and keep it from being closed.
    HideWindow,
    /// Start this request and leave it alone: whatever comes of it is
    /// dropped.
    Launch(WarpCommand),
    /// Nothing at all.
    Nothing,
}

/// The label of the window that the tray shows and hides.
pub open spec fn main_window_label() -> Seq<char> {
    "main"@
}

/// The label of the window that the tray shows and hides.
pub fn main_window() -> (label: &'static str)
    ensures
        label@ == main_window_label(),
{
    "main"
}

/// The entries of the menu, from top to bottom.
pub open spec fn menu_entries() -> Seq<MenuEntry> {
    seq![MenuEntry::Show, MenuEntry::Connect, MenuEntry::Disconnect, MenuEntry::Quit]
}

/// The entries of the menu, from top to bottom.
pub fn menu() -> (entries: Vec<MenuEntry>)
    ensures
        entries@ == menu_entries(),
{
    let mut entries: Vec<MenuEntry> = Vec::new();
    entries.push(MenuEntry::Show);
    entries.push(MenuEntry::Connect);
    entries.push(MenuEntry::Disconnect);
    entries.push(MenuEntry::Quit);
    assert(entries@ =~= menu_entries());
    entries
}

impl MenuEntry {
    /// The id under which the entry is known to the menu.
    pub open spec fn id_text(self) -> Seq<char> {
        match self {
            MenuEntry::Show => "show"@,
            MenuEntry::Connect => "connect"@,
            MenuEntry::Disconnect => "disconnect"@,
            MenuEntry::Quit => "quit"@,
        }
    }

    /// The words that the entry shows.
    pub open spec fn label_text(self) -> Seq<char> {
        match self {
            MenuEntry::Show => "Show"@,
            MenuEntry::Connect => "Connect"@,
            MenuEntry::Disconnect => "Disconnect"@,
            MenuEntry::Quit => "Quit"@,
        }
    }

    /// What choosing the entry leads to.
    pub open spec fn effect_of_choice(self) -> Effect {
        match self {
            MenuEntry::Show => Effect::RevealWindow,
            MenuEntry::Connect => Effect::Launch(WarpCommand::Connect),
            MenuEntry::Disconnect => Effect::Launch(WarpCommand::Disconnect),
            MenuEntry::Quit => Effect::Exit(0),
        }
    }

    /// The id under which the entry is known to the menu.
    pub fn id(&self) -> (id: &'static str)
        ensures
            id@ == self.id_text(),
    {
        match self {
            MenuEntry::Show => "show",
            MenuEntry::Connect => "connect",
            MenuEntry::Disconnect => "disconnect",
            MenuEntry::Quit => "quit",
        }
    }

    /// The words that the entry shows.
    pub fn label(&self) -> (label: &'static str)
        ensures
            label@ == self.label_text(),
    {
        match self {
            MenuEntry::Show => "Show",
            MenuEntry::Connect => "Connect",
            MenuEntry::Disconnect => "Disconnect",
            MenuEntry::Quit => "Quit",
        }
    }

    /// What choosing the entry leads to.
    pub fn effect(&self) -> (effect: Effect)
        ensures
            effect == self.effect_of_choice(),
    {
        match self {
            MenuEntry::Show => Effect::RevealWindow,
            MenuEntry::Connect => Effect::Launch(WarpCommand::Connect),
            MenuEntry::Disconnect => Effect::Launch(WarpCommand::Disconnect),
            MenuEntry::Quit => Effect::Exit(0),
        }
    }
}

/// No two entries of the menu share an id.
pub proof fn lemma_ids_differ(a: MenuEntry, b: MenuEntry)
    requires
        a.id_text() == b.id_text(),
    ensures
        a == b,
{
    reveal_strlit("show");
    reveal_strlit("connect");
    reveal_strlit("disconnect");
    reveal_strlit("quit");
    assert("show"@.len() == 4 && "show"@[0] == 's');
    assert("quit"@.len() == 4 && "quit"@[0] == 'q');
    assert("connect"@.len() == 7);
    assert("disconnect"@.len() == 10);
}

/// The entry of the menu that has the given id, where there is one.
pub open spec fn entry_of_id(id: Seq<char>) -> Option<MenuEntry> {
    if id == MenuEntry::Quit.id_text() {
        Some(MenuEntry::Quit)
    } else if id == MenuEntry::Show.id_text() {
        Some(MenuEntry::Show)
    } else if id == MenuEntry::Connect.id_text() {
        Some(MenuEntry::Connect)
    } else if id == MenuEntry::Disconnect.id_text() {
        Some(MenuEntry::Disconnect)
    } else {
        None
    }
}

/// Every entry of the menu is found by its own id.
pub proof fn lemma_entry_of_own_id(entry: MenuEntry)
    ensures
        entry_of_id(entry.id_text()) == Some(entry),
{
    match entry_of_id(entry.id_text()) {
        Some(found) => lemma_ids_differ(found, entry),
        None => {},
    }
}

/// An entry found by an id has that id, and where none is found no entry
/// has it.
pub proof fn lemma_entry_of_id_exact(id: Seq<char>)
    ensures
        match entry_of_id(id) {
            Some(entry) => entry.id_text() == id,
            None => forall|entry: MenuEntry| entry.id_text() != id,
        },
{
}

/// The entry of the menu that has the given id, where there is one.
pub fn entry_with_id(id: &str) -> (found: Option<MenuEntry>)
    ensures
        found == entry_of_id(id@),
{
    if same_text(id, MenuEntry::Quit.id()) {
        Some(MenuEntry::Quit)
    } else if same_text(id, MenuEntry::Show.id()) {
        Some(MenuEntry::Show)
    } else if same_text(id, MenuEntry::Connect.id()) {
        Some(MenuEntry::Connect)
    } else if same_text(id, MenuEntry::Disconnect.id()) {
        Some(MenuEntry::Disconnect)
    } else {
        None
    }
}

/// What an event leads to.
///
/// The choice of a menu entry leads to that entry's effect, and an id that
/// no entry has to nothing. A click on the tray icon brings the window
/// back. A request to close the window hides it instead.
pub open spec fn effect_of(event: Event) -> Effect {
    match event {
        Event::MenuChosen(id) => match entry_of_id(id@) {
            Some(entry) => entry.effect_of_choice(),
            None => Effect::Nothing,
        },
        Event::IconClicked => Effect::RevealWindow,
        Event::CloseRequested => Effect::HideWindow,
        Event::Other => Effect::Nothing,
    }
}

/// The only requests that an event ever starts are to connect and to
/// disconnect.
pub proof fn lemma_launches_connect_or_disconnect(event: Event)
    ensures
        effect_of(event) matches Effect::Launch(command) ==> command is Connect
            || command is Disconnect,
{
}

/// Decides what to do about an event.
pub fn react(event: &Event) -> (effect: Effect)
    ensures
        effect == effect_of(*event),
{
    match event {
        Event::MenuChosen(id) => match entry_with_id(id.as_str()) {
            Some(entry) => entry.effect(),
            None => Effect::Nothing,
        },
        Event::IconClicked => Effect::RevealWindow,
        Event::CloseRequested => Effect::HideWindow,
        Event::Other => Effect::Nothing,
    }
}

} // verus!

use warp_tray::command::WarpCommand;
use warp_tray::tray::{entry_with_id, main_window, menu, react, Effect, Event, MenuEntry};

fn chosen(id: &str) -> Event {
    Event::MenuChosen(id.to_string())
}

#[test]
fn menu_runs_from_show_to_quit() {
    assert_eq!(
        menu(),
        vec![MenuEntry::Show, MenuEntry::Connect, MenuEntry::Disconnect, MenuEntry::Quit]
    );
}

#[test]
fn entries_have_their_ids() {
    assert_eq!(MenuEntry::Show.id(), "show");
    assert_eq!(MenuEntry::Connect.id(), "connect");
    assert_eq!(MenuEntry::Disconnect.id(), "disconnect");
    assert_eq!(MenuEntry::Quit.id(), "quit");
}

#[test]
fn entries_have_their_labels() {
    assert_eq!(MenuEntry::Show.label(), "Show");
    assert_eq!(MenuEntry::Connect.label(), "Connect");
    assert_eq!(MenuEntry::Disconnect.label(), "Disconnect");
    assert_eq!(MenuEntry::Quit.label(), "Quit");
}

#[test]
fn every_entry_is_found_by_its_own_id() {
    for entry in menu() {
        assert_eq!(entry_with_id(entry.id()), Some(entry));
    }
}

#[test]
fn no_two_entries_share_an_id() {
    let entries = menu();
    for (i, a) in entries.iter().enumerate() {
        for (j, b) in entries.iter().enumerate() {
            assert_eq!(a.id() == b.id(), i == j);
        }
    }
}

#[test]
fn ids_are_matched_whole_and_by_case() {
    assert_eq!(entry_with_id(""), None);
    assert_eq!(entry_with_id("Quit"), None);
    assert_eq!(entry_with_id("qui"), None);
    assert_eq!(entry_with_id("quit "), None);
    assert_eq!(entry_with_id(" show"), None);
    assert_eq!(entry_with_id("connected"), None);
    assert_eq!(entry_with_id("dis"), None);
    assert_eq!(entry_with_id("status"), None);
}

#[test]
fn choosing_quit_leaves_with_code_zero() {
    assert_eq!(react(&chosen("quit")), Effect::Exit(0));
    assert_eq!(MenuEntry::Quit.effect(), Effect::Exit(0));
}

#[test]
fn choosing_show_brings_the_window_back() {
    assert_eq!(react(&chosen("show")), Effect::RevealWindow);
    assert_eq!(MenuEntry::Show.effect(), Effect::RevealWindow);
}

#[test]
fn choosing_connect_starts_connect() {
    assert_eq!(react(&chosen("connect")), Effect::Launch(WarpCommand::Connect));
    assert_eq!(MenuEntry::Connect.effect(), Effect::Launch(WarpCommand::Connect));
}

#[test]
fn choosing_disconnect_starts_disconnect() {
    assert_eq!(react(&chosen("disconnect")), Effect::Launch(WarpCommand::Disconnect));
    assert_eq!(MenuEntry::Disconnect.effect(), Effect::Launch(WarpCommand::Disconnect));
}

#[test]
fn choosing_an_unknown_id_does_nothing() {
    assert_eq!(react(&chosen("settings")), Effect::Nothing);
    assert_eq!(react(&chosen("")), Effect::Nothing);
    assert_eq!(react(&chosen("QUIT")), Effect::Nothing);
}

#[test]
fn clicking_the_icon_brings_the_window_back() {
    assert_eq!(react(&Event::IconClicked), Effect::RevealWindow);
}

#[test]
fn closing_the_window_hides_it() {
    assert_eq!(react(&Event::CloseRequested), Effect::HideWindow);
}

#[test]
fn other_events_do_nothing() {
    assert_eq!(react(&Event::Other), Effect::Nothing);
}

#[test]
fn only_connect_and_disconnect_are_ever_started() {
    let mut events = vec![Event::IconClicked, Event::CloseRequested, Event::Other];
    for id in ["show", "connect", "disconnect", "quit", "status", "settings", "mode"] {
        events.push(chosen(id));
    }
    for event in events {
        if let Effect::Launch(command) = react(&event) {
            assert!(command == WarpCommand::Connect || command == WarpCommand::Disconnect);
        }
    }
}

#[test]
fn main_window_is_called_main() {
    assert_eq!(main_window(), "main");
}

use tab_picker::state::{
    command_for, Action, BareKey, Command, Event, KeyModifiers, KeyWithModifier, State,
};
use tab_picker::tabs::TabInfo;

const NONE: KeyModifiers = KeyModifiers { ctrl: false, alt: false, shift: false, super_key: false };
const CTRL: KeyModifiers = KeyModifiers { ctrl: true, alt: false, shift: false, super_key: false };
const ALT: KeyModifiers = KeyModifiers { ctrl: false, alt: true, shift: false, super_key: false };
const CTRL_ALT: KeyModifiers = KeyModifiers { ctrl: true, alt: true, shift: false, super_key: false };

fn key(bare_key: BareKey, key_modifiers: KeyModifiers) -> KeyWithModifier {
    KeyWithModifier { bare_key, key_modifiers }
}

fn tabs() -> Vec<TabInfo> {
    vec![
        TabInfo { position: 0, name: "shell".to_string(), active: true },
        TabInfo { position: 1, name: "editor".to_string(), active: false },
        TabInfo { position: 2, name: "logs".to_string(), active: false },
    ]
}

#[test]
fn plain_keys_have_their_meaning() {
    assert_eq!(command_for(&key(BareKey::Esc, NONE)), Command::Dismiss);
    assert_eq!(command_for(&key(BareKey::Up, NONE)), Command::MoveUp);
    assert_eq!(command_for(&key(BareKey::Down, NONE)), Command::MoveDown);
    assert_eq!(command_for(&key(BareKey::Backspace, NONE)), Command::Backspace);
    assert_eq!(command_for(&key(BareKey::Enter, NONE)), Command::Commit);
    assert_eq!(command_for(&key(BareKey::Char('g'), NONE)), Command::Type('g'));
    assert_eq!(command_for(&key(BareKey::Char(' '), NONE)), Command::Type(' '));
    assert_eq!(command_for(&key(BareKey::Other, NONE)), Command::Ignore);
}

#[test]
fn control_combinations_stand_for_plain_keys() {
    assert_eq!(command_for(&key(BareKey::Char('g'), CTRL)), Command::Dismiss);
    assert_eq!(command_for(&key(BareKey::Char('c'), CTRL)), Command::Dismiss);
    assert_eq!(command_for(&key(BareKey::Char('p'), CTRL)), Command::MoveUp);
    assert_eq!(command_for(&key(BareKey::Char('k'), CTRL)), Command::MoveUp);
    assert_eq!(command_for(&key(BareKey::Char('n'), CTRL)), Command::MoveDown);
    assert_eq!(command_for(&key(BareKey::Char('j'), CTRL)), Command::MoveDown);
    assert_eq!(command_for(&key(BareKey::Char('j'), CTRL_ALT)), Command::MoveDown);
}

#[test]
fn other_combinations_are_ignored() {
    assert_eq!(command_for(&key(BareKey::Char('x'), CTRL)), Command::Ignore);
    assert_eq!(command_for(&key(BareKey::Char('p'), ALT)), Command::Ignore);
    assert_eq!(command_for(&key(BareKey::Esc, CTRL)), Command::Ignore);
    assert_eq!(command_for(&key(BareKey::Up, ALT)), Command::Ignore);
    assert_eq!(command_for(&key(BareKey::Down, CTRL)), Command::Ignore);
    assert_eq!(command_for(&key(BareKey::Backspace, ALT)), Command::Ignore);
    assert_eq!(command_for(&key(BareKey::Enter, CTRL)), Command::Ignore);
    assert_eq!(command_for(&key(BareKey::Other, CTRL)), Command::Ignore);
    assert!(key(BareKey::Up, NONE).has_no_modifiers());
    assert!(!key(BareKey::Up, ALT).has_no_modifiers());
    assert!(key(BareKey::Up, CTRL_ALT).has_ctrl());
}

#[test]
fn keys_drive_the_list() {
    let mut state = State::default();
    assert_eq!(state.update(Event::TabUpdate(tabs())), (true, Action::Nothing));
    assert_eq!(state.update(Event::Other), (false, Action::Nothing));
    assert_eq!(state.handle_key(key(BareKey::Enter, NONE)), (true, Action::Nothing));
    assert_eq!(state.handle_key(key(BareKey::Down, NONE)), (true, Action::Nothing));
    assert_eq!(state.tabs.selected_index(), Some(0));
    assert_eq!(state.handle_key(key(BareKey::Enter, NONE)), (true, Action::Focus(1)));
    assert_eq!(state.handle_key(key(BareKey::Char('k'), CTRL)), (true, Action::Nothing));
    assert_eq!(state.tabs.selected_index(), None);
    assert_eq!(state.handle_key(key(BareKey::Up, NONE)), (true, Action::Nothing));
    assert_eq!(state.update(Event::Key(key(BareKey::Enter, NONE))), (true, Action::Focus(0)));
    assert_eq!(state.handle_key(key(BareKey::Esc, NONE)), (false, Action::Hide));
    assert_eq!(state.handle_key(key(BareKey::Char('c'), CTRL)), (false, Action::Hide));
    assert_eq!(state.handle_key(key(BareKey::Other, NONE)), (false, Action::Nothing));
    assert_eq!(state.tabs.selected_index(), Some(2));
}

#[test]
fn typing_searches_and_backspace_goes_back() {
    let mut state = State::default();
    state.update(Event::TabUpdate(tabs()));
    assert_eq!(state.handle_key(key(BareKey::Char('l'), NONE)), (true, Action::Nothing));
    assert!(state.tabs.is_searching());
    assert_eq!(state.tabs.search_term(), "l");
    assert_eq!(state.tabs.search_results().len(), 2);
    assert_eq!(state.handle_key(key(BareKey::Char('o'), NONE)), (true, Action::Nothing));
    assert_eq!(state.tabs.search_results().len(), 1);
    assert_eq!(state.handle_key(key(BareKey::Enter, NONE)), (true, Action::Focus(2)));
    assert_eq!(state.handle_key(key(BareKey::Backspace, NONE)), (true, Action::Nothing));
    assert_eq!(state.handle_key(key(BareKey::Backspace, NONE)), (true, Action::Nothing));
    assert!(!state.tabs.is_searching());
    assert_eq!(state.tabs.search_term(), "");
}

#[test]
fn new_tabs_while_searching_are_searched() {
    let mut state = State::default();
    state.update(Event::TabUpdate(tabs()));
    state.handle_key(key(BareKey::Char('e'), NONE));
    state.handle_key(key(BareKey::Down, NONE));
    assert_eq!(state.tabs.selected_search_index(), Some(1));
    let report = vec![TabInfo { position: 0, name: "shell".to_string(), active: true }];
    assert_eq!(state.update(Event::TabUpdate(report)), (true, Action::Nothing));
    assert_eq!(state.tabs.search_results().len(), 1);
    assert_eq!(state.tabs.selected_search_index(), Some(0));
    assert_eq!(state.handle_key(key(BareKey::Enter, NONE)), (true, Action::Focus(0)));
}

#[test]
fn new_tabs_while_browsing_bring_the_cursor_back() {
    let mut state = State::default();
    state.update(Event::TabUpdate(tabs()));
    state.handle_key(key(BareKey::Up, NONE));
    assert_eq!(state.tabs.selected_index(), Some(2));
    state.update(Event::TabUpdate(vec![
        TabInfo { position: 0, name: "a".to_string(), active: false },
        TabInfo { position: 1, name: "b".to_string(), active: true },
    ]));
    assert_eq!(state.tabs.selected_index(), Some(1));
    state.update(Event::TabUpdate(vec![]));
    assert_eq!(state.tabs.selected_index(), None);
}

#[test]
fn picker_takes_all_the_room() {
    let mut state = State::default();
    assert_eq!(state.main_menu_size(24, 80), (0, 0, 80, 24));
    state.update(Event::TabUpdate(tabs()));
    let frame = state.render(24, 80);
    assert_eq!((frame.search_x, frame.search_y), (0, 2));
    assert_eq!((frame.table_x, frame.table_y), (0, 3));
    assert_eq!((frame.table_columns, frame.table_rows), (80, 19));
    assert_eq!(frame.table.lines.len(), 4);
}

//! The picker as the host drives it: what each key and each report of the
//! tabs does to the list, and what the host is asked to do in return.

use crate::line::Frame;
use crate::cursor::{clamped, cursor_after_search};
use crate::ranking::is_ranking;
use crate::tab_list::{
    after_move_down, after_move_up, consistent, focus_target, frame_of, matches_of, searched,
    term_after_pop, TabList, TabListView,
};
use crate::tabs::{is_canonical_order, tab_views, TabInfo, TabInfoView};
use vstd::prelude::*;

verus! {

/// A key without its modifiers. Keys that the picker has no use for are
/// `Other`.
#[derive(Debug, Clone, Copy, PartialEq, Eq)]
pub enum BareKey {
    Esc,
    Up,
    Down,
    Backspace,
    Enter,
    Char(char),
    Other,
}

/// The modifiers that were held when a key was pressed.
#[derive(Debug, Clone, Copy, PartialEq, Eq)]
pub struct KeyModifiers {
    pub ctrl: bool,
    pub alt: bool,
    pub shift: bool,
    pub super_key: bool,
}

/// A key press.
#[derive(Debug, Clone, Copy, PartialEq, Eq)]
pub struct KeyWithModifier {
    pub bare_key: BareKey,
    pub key_modifiers: KeyModifiers,
}

impl KeyWithModifier {
    /// Whether the key was pressed alone.
    pub open spec fn no_modifiers(self) -> bool {
        !self.key_modifiers.ctrl && !self.key_modifiers.alt && !self.key_modifiers.shift
            && !self.key_modifiers.super_key
    }

    /// Whether the key was pressed alone.
    pub fn has_no_modifiers(&self) -> (r: bool)
        ensures
            r == self.no_modifiers(),
    {
        !self.key_modifiers.ctrl && !self.key_modifiers.alt && !self.key_modifiers.shift
            && !self.key_modifiers.super_key
    }

    /// Whether Ctrl was held, alone or with other modifiers.
    pub fn has_ctrl(&self) -> (r: bool)
        ensures
            r == self.key_modifiers.ctrl,
    {
        self.key_modifiers.ctrl
    }
}

/// What the host reports to the picker.
#[derive(Debug)]
pub enum Event {
    Key(KeyWithModifier),
    TabUpdate(Vec<TabInfo>),
    Other,
}

/// What the picker asks of the host after an event.
#[derive(Debug, Clone, Copy, PartialEq, Eq)]
pub enum Action {
    /// Nothing.
    Nothing,
    /// Hide the picker.
    Hide,
    /// Focus the tab at this position and dismiss the picker.
    Focus(usize),
}

/// What a key press means to the picker.
#[derive(Debug, Clone, Copy, PartialEq, Eq)]
pub enum Command {
    Dismiss,
    MoveUp,
    MoveDown,
    Backspace,
    Commit,
    Type(char),
    Ignore,
}

/// The meaning of a key press: the plain keys Esc, Up, Down, Backspace and
/// Enter; with Ctrl, g or c for Esc, p or k for Up and n or j for Down; and
/// every other character typed alone goes into the search term.
pub open spec fn command_of(key: KeyWithModifier) -> Command {
    match key.bare_key {
        BareKey::Esc => if key.no_modifiers() {
            Command::Dismiss
        } else {
            Command::Ignore
        },
        BareKey::Up => if key.no_modifiers() {
            Command::MoveUp
        } else {
            Command::Ignore
        },
        BareKey::Down => if key.no_modifiers() {
            Command::MoveDown
        } else {
            Command::Ignore
        },
        BareKey::Backspace => if key.no_modifiers() {
            Command::Backspace
        } else {
            Command::Ignore
        },
        BareKey::Enter => if key.no_modifiers() {
            Command::Commit
        } else {
            Command::Ignore
        },
        BareKey::Char(c) => if key.key_modifiers.ctrl && (c == 'g' || c == 'c') {
            Command::Dismiss
        } else if key.key_modifiers.ctrl && (c == 'p' || c == 'k') {
            Command::MoveUp
        } else if key.key_modifiers.ctrl && (c == 'n' || c == 'j') {
            Command::MoveDown
        } else if key.no_modifiers() {
            Command::Type(c)
        } else {
            Command::Ignore
        },
        BareKey::Other => Command::Ignore,
    }
}

/// Tells what a key press means.
pub fn command_for(key: &KeyWithModifier) -> (command: Command)
    ensures
        command == command_of(*key),
{
    match key.bare_key {
        BareKey::Esc => if key.has_no_modifiers() {
            Command::Dismiss
        } else {
            Command::Ignore
        },
        BareKey::Up => if key.has_no_modifiers() {
            Command::MoveUp
        } else {
            Command::Ignore
        },
        BareKey::Down => if key.has_no_modifiers() {
            Command::MoveDown
        } else {
            Command::Ignore
        },
        BareKey::Backspace => if key.has_no_modifiers() {
            Command::Backspace
        } else {
            Command::Ignore
        },
        BareKey::Enter => if key.has_no_modifiers() {
            Command::Commit
        } else {
            Command::Ignore
        },
        BareKey::Char(c) => if key.has_ctrl() && (c == 'g' || c == 'c') {
            Command::Dismiss
        } else if key.has_ctrl() && (c == 'p' || c == 'k') {
            Command::MoveUp
        } else if key.has_ctrl() && (c == 'n' || c == 'j') {
            Command::MoveDown
        } else if key.has_no_modifiers() {
            Command::Type(c)
        } else {
            Command::Ignore
        },
        BareKey::Other => Command::Ignore,
    }
}

/// What a command changes and asks for: `redraw` tells whether the picker is
/// to be drawn again and `action` what the host is asked to do.
pub open spec fn command_done(
    command: Command,
    before: TabListView,
    after: TabListView,
    redraw: bool,
    action: Action,
) -> bool {
    match command {
        Command::Dismiss => after == before && !redraw && action == Action::Hide,
        Command::MoveUp => after == after_move_up(before) && redraw && action == Action::Nothing,
        Command::MoveDown => after == after_move_down(before) && redraw && action == Action::Nothing,
        Command::Backspace => {
            &&& after.search_term == term_after_pop(before.search_term)
            &&& searched(before, after)
            &&& redraw
            &&& action == Action::Nothing
        },
        Command::Commit => {
            &&& after == before
            &&& redraw
            &&& action == match focus_target(before) {
                Some(position) => Action::Focus(position),
                None => Action::Nothing,
            }
        },
        Command::Type(c) => {
            &&& after.search_term == before.search_term.push(c)
            &&& searched(before, after)
            &&& redraw
            &&& action == Action::Nothing
        },
        Command::Ignore => after == before && !redraw && action == Action::Nothing,
    }
}

/// What a new report of the tabs changes: the tabs become the reported ones
/// in canonical order, the browsing cursor is brought back into them, and
/// while searching they are searched anew.
pub open spec fn tabs_replaced(
    before: TabListView,
    reported: Seq<TabInfoView>,
    after: TabListView,
) -> bool {
    &&& is_canonical_order(reported, after.tab_infos)
    &&& after.search_term == before.search_term
    &&& after.selected_index == clamped(before.selected_index, after.tab_infos.len())
    &&& after.is_searching == (before.is_searching && before.search_term.len() > 0)
    &&& if before.is_searching {
        &&& is_ranking(matches_of(after.tab_infos, after.search_term), after.search_results)
        &&& after.selected_search_index == cursor_after_search(
            before.selected_search_index,
            after.search_results.len(),
        )
    } else {
        &&& after.search_results == before.search_results
        &&& after.selected_search_index == before.selected_search_index
    }
}

/// The picker.
#[derive(Debug)]
pub struct State {
    pub tabs: TabList,
}

impl Default for State {
    /// A picker without tabs, browsing, with nothing selected.
    fn default() -> (state: State)
        ensures
            state.tabs@ == TabList::default_view(),
            consistent(state.tabs@),
    {
        State { tabs: TabList::default() }
    }
}

impl State {
    /// Takes an event from the host. Returns whether the picker is to be
    /// drawn again and what the host is asked to do.
    pub fn update(&mut self, event: Event) -> (outcome: (bool, Action))
        ensures
            match event {
                Event::Key(key) => command_done(
                    command_of(key),
                    old(self).tabs@,
                    final(self).tabs@,
                    outcome.0,
                    outcome.1,
                ),
                Event::TabUpdate(tab_infos) => tabs_replaced(
                    old(self).tabs@,
                    tab_views(tab_infos@),
                    final(self).tabs@,
                ) && outcome == (true, Action::Nothing),
                Event::Other => final(self).tabs@ == old(self).tabs@ && outcome == (
                    false,
                    Action::Nothing,
                ),
            },
            consistent(old(self).tabs@) ==> consistent(final(self).tabs@),
    {
        match event {
            Event::Key(key) => self.handle_key(key),
            Event::TabUpdate(tab_infos) => {
                self.tabs.update(tab_infos);
                self.tabs.refresh();
                (true, Action::Nothing)
            },
            Event::Other => (false, Action::Nothing),
        }
    }

    /// Draws the picker into `rows` by `cols` cells.
    pub fn render(&self, rows: usize, cols: usize) -> (frame: Frame)
        ensures
            frame@ == frame_of(self.tabs@, rows, cols, 0, 0),
    {
        let (x, y, width, height) = self.main_menu_size(rows, cols);
        self.tabs.render(height, width, x, y)
    }

    /// Where the picker is drawn: `(x, y, width, height)`. It takes all the
    /// room it is given.
    pub fn main_menu_size(&self, rows: usize, cols: usize) -> (size: (usize, usize, usize, usize))
        ensures
            size == (0usize, 0usize, cols, rows),
    {
        let width = cols;
        let x: usize = 0;
        let y: usize = 0;
        let height = rows - y;
        (x, y, width, height)
    }

    /// Takes a key press. Returns whether the picker is to be drawn again
    /// and what the host is asked to do.
    pub fn handle_key(&mut self, key: KeyWithModifier) -> (outcome: (bool, Action))
        ensures
            command_done(command_of(key), old(self).tabs@, final(self).tabs@, outcome.0, outcome.1),
            consistent(old(self).tabs@) ==> consistent(final(self).tabs@),
    {
        match command_for(&key) {
            Command::Dismiss => (false, Action::Hide),
            Command::MoveUp => {
                self.tabs.move_selection_up();
                (true, Action::Nothing)
            },
            Command::MoveDown => {
                self.tabs.move_selection_down();
                (true, Action::Nothing)
            },
            Command::Backspace => {
                self.tabs.pop_search_character();
                (true, Action::Nothing)
            },
            Command::Commit => {
                match self.tabs.go_to_selected_tab() {
                    Some(position) => (true, Action::Focus(position)),
                    None => (true, Action::Nothing),
                }
            },
            Command::Type(character) => {
                self.tabs.push_search_character(character);
                (true, Action::Nothing)
            },
            Command::Ignore => (false, Action::Nothing),
        }
    }
}

} // verus!

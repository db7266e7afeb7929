//! The list model: the tabs in their canonical order, the search term, the
//! ranked search results and the two selection cursors.

use crate::cursor::{
    clamp, clamped, cursor_after_search, cursor_in_range, settle_after_search, step_down, step_up,
    stepped_down, stepped_up,
};
use crate::line::{
    line_views, more_indication, plain_span, render_more_text, render_search_indication,
    render_title_line, search_indication_span, tab_info_span, tab_name_span, title_line, Coloring,
    Frame, FrameView, Line, LineView, Span, Table, NAME_WIDTH,
};
use crate::matcher::{ascending_below, fuzzy_indices, skim_match};
use crate::ranking::{descending, is_ranking, lemma_ranking_member, rank_by_score};
use crate::tabs::{canonical_order, is_canonical_order, tab_views, TabInfo, TabInfoView};
use crate::text::pad;
use crate::viewport::{
    anchor_of, deficit_for_rows, lemma_window_bounds, rows_deficit, window, window_end,
    window_start,
};
use vstd::prelude::*;
use vstd::string::StringExecFns;

verus! {

/// A tab that matches the search term.
#[derive(Debug)]
pub struct SearchResult {
    score: i64,
    indices: Vec<usize>,
    tab_name: String,
    tab_position: usize,
    is_current_tab: bool,
}

/// The mathematical value of a [`SearchResult`].
pub ghost struct SearchResultView {
    /// How well the tab's name matches; higher is better.
    pub score: i64,
    /// The offsets of the characters of the name that the match consumed.
    pub indices: Seq<usize>,
    pub tab_name: Seq<char>,
    pub tab_position: usize,
    pub is_current_tab: bool,
}

impl View for SearchResult {
    type V = SearchResultView;

    closed spec fn view(&self) -> SearchResultView {
        SearchResultView {
            score: self.score,
            indices: self.indices@,
            tab_name: self.tab_name@,
            tab_position: self.tab_position,
            is_current_tab: self.is_current_tab,
        }
    }
}

/// The values of a sequence of search results.
pub open spec fn result_views(results: Seq<SearchResult>) -> Seq<SearchResultView> {
    results.map_values(|r: SearchResult| r@)
}

/// The search result that a tab gives for a search term, if it matches.
pub open spec fn match_of(tab: TabInfoView, term: Seq<char>) -> Option<SearchResultView> {
    match skim_match(tab.name, term) {
        Some((score, indices)) => Some(
            SearchResultView {
                score,
                indices,
                tab_name: tab.name,
                tab_position: tab.position,
                is_current_tab: tab.active,
            },
        ),
        None => None,
    }
}

/// [`match_of`] for a fixed search term.
pub open spec fn matcher_for(term: Seq<char>) -> spec_fn(TabInfoView) -> Option<SearchResultView> {
    |tab: TabInfoView| match_of(tab, term)
}

/// The results of the tabs that match the term, in the order of the tabs.
pub open spec fn matches_of(tabs: Seq<TabInfoView>, term: Seq<char>) -> Seq<SearchResultView> {
    tabs.filter_map(matcher_for(term))
}

impl SearchResult {
    pub fn score(&self) -> (r: i64)
        ensures
            r == self@.score,
    {
        self.score
    }

    pub fn indices(&self) -> (r: &Vec<usize>)
        ensures
            r@ == self@.indices,
    {
        &self.indices
    }

    pub fn tab_name(&self) -> (r: &str)
        ensures
            r@ == self@.tab_name,
    {
        self.tab_name.as_str()
    }

    pub fn tab_position(&self) -> (r: usize)
        ensures
            r == self@.tab_position,
    {
        self.tab_position
    }

    pub fn is_current_tab(&self) -> (r: bool)
        ensures
            r == self@.is_current_tab,
    {
        self.is_current_tab
    }
}

/// The picker's list: the tabs, the search term, the search results and the
/// selection in each of the two.
#[derive(Debug)]
pub struct TabList {
    tab_infos: Vec<TabInfo>,
    selected_index: Option<usize>,
    selected_search_index: Option<usize>,
    search_results: Vec<SearchResult>,
    search_term: String,
    is_searching: bool,
}

/// The mathematical value of a [`TabList`].
pub ghost struct TabListView {
    /// The tabs, in canonical order.
    pub tab_infos: Seq<TabInfoView>,
    /// The selection among the tabs, used while browsing.
    pub selected_index: Option<usize>,
    /// The selection among the search results, used while searching.
    pub selected_search_index: Option<usize>,
    /// The tabs that match the search term, best first.
    pub search_results: Seq<SearchResultView>,
    pub search_term: Seq<char>,
    /// Whether the picker is searching rather than browsing.
    pub is_searching: bool,
}

impl View for TabList {
    type V = TabListView;

    closed spec fn view(&self) -> TabListView {
        TabListView {
            tab_infos: tab_views(self.tab_infos@),
            selected_index: self.selected_index,
            selected_search_index: self.selected_search_index,
            search_results: result_views(self.search_results@),
            search_term: self.search_term@,
            is_searching: self.is_searching,
        }
    }
}

/// The cursor that the keys move: the one of the list that is on display.
pub open spec fn live_cursor(list: TabListView) -> Option<usize> {
    if list.is_searching {
        list.selected_search_index
    } else {
        list.selected_index
    }
}

/// The length of the list that is on display.
pub open spec fn live_len(list: TabListView) -> nat {
    if list.is_searching {
        list.search_results.len()
    } else {
        list.tab_infos.len()
    }
}

/// What holds of a list whatever was done to it: it is searching exactly
/// when the search term is not empty, the results are ranked, and the
/// offsets of each result rise and lie inside the tab's name.
pub open spec fn well_formed(list: TabListView) -> bool {
    &&& list.is_searching == is_searching_for(list.search_term)
    &&& descending(list.search_results)
    &&& forall|i: int|
        0 <= i < list.search_results.len() ==> ascending_below(
            (#[trigger] list.search_results[i]).indices,
            list.search_results[i].tab_name.len(),
        )
}

/// What holds of a list between two events: it is well formed, each cursor is
/// unset or points into its list, and while searching the results are those
/// of the present tabs for the present term.
pub open spec fn consistent(list: TabListView) -> bool {
    &&& well_formed(list)
    &&& cursor_in_range(list.selected_index, list.tab_infos.len())
    &&& cursor_in_range(list.selected_search_index, list.search_results.len())
    &&& list.is_searching ==> is_ranking(
        matches_of(list.tab_infos, list.search_term),
        list.search_results,
    )
}

/// The list with its live cursor replaced.
pub open spec fn with_live_cursor(list: TabListView, cursor: Option<usize>) -> TabListView {
    if list.is_searching {
        TabListView { selected_search_index: cursor, ..list }
    } else {
        TabListView { selected_index: cursor, ..list }
    }
}

/// The list after the selection has moved down.
pub open spec fn after_move_down(list: TabListView) -> TabListView {
    with_live_cursor(list, stepped_down(live_cursor(list), live_len(list)))
}

/// The list after the selection has moved up.
pub open spec fn after_move_up(list: TabListView) -> TabListView {
    with_live_cursor(list, stepped_up(live_cursor(list), live_len(list), list.is_searching))
}

/// The position of the tab under the live cursor, if the cursor is on one.
pub open spec fn focus_target(list: TabListView) -> Option<usize> {
    match live_cursor(list) {
        Some(i) => if i < live_len(list) {
            if list.is_searching {
                Some(list.search_results[i as int].tab_position)
            } else {
                Some(list.tab_infos[i as int].position)
            }
        } else {
            None
        },
        None => None,
    }
}

/// Whether the picker searches when this is the search term: it does unless
/// the term is empty.
pub open spec fn is_searching_for(term: Seq<char>) -> bool {
    term.len() > 0
}

/// The search term after backspace.
pub open spec fn term_after_pop(term: Seq<char>) -> Seq<char> {
    if term.len() > 0 {
        term.drop_last()
    } else {
        term
    }
}

/// The search term after the characters of `typed` have been appended one
/// after the other.
pub open spec fn term_after_pushes(term: Seq<char>, typed: Seq<char>) -> Seq<char>
    decreases typed.len(),
{
    if typed.len() == 0 {
        term
    } else {
        term_after_pushes(term.push(typed[0]), typed.drop_first())
    }
}

/// The search term after `count` backspaces.
pub open spec fn term_after_pops(term: Seq<char>, count: nat) -> Seq<char>
    decreases count,
{
    if count == 0 {
        term
    } else {
        term_after_pops(term_after_pop(term), (count - 1) as nat)
    }
}

/// Typing some characters and then pressing backspace as many times gives
/// back the search term that was there before, and with it the mode: the
/// picker is searching afterwards exactly if it was searching before.
pub proof fn lemma_push_pop_round_trip(term: Seq<char>, typed: Seq<char>)
    ensures
        term_after_pops(term_after_pushes(term, typed), typed.len()) == term,
        is_searching_for(term_after_pops(term_after_pushes(term, typed), typed.len()))
            == is_searching_for(term),
    decreases typed.len(),
{
    if typed.len() > 0 {
        let first = typed[0];
        let rest = typed.drop_first();
        lemma_push_pop_round_trip(term.push(first), rest);
        lemma_pops_split(term_after_pushes(term, typed), rest.len(), 1);
        assert(term_after_pops(term.push(first), 1) == term) by {
            assert(term.push(first).drop_last() =~= term);
            assert(term_after_pops(term_after_pop(term.push(first)), 0) == term);
        }
    }
}

/// Pressing backspace `m + n` times is pressing it `m` times and then `n`
/// times.
pub proof fn lemma_pops_split(term: Seq<char>, m: nat, n: nat)
    ensures
        term_after_pops(term, m + n) == term_after_pops(term_after_pops(term, m), n),
    decreases m,
{
    if m > 0 {
        lemma_pops_split(term_after_pop(term), (m - 1) as nat, n);
    }
}

impl TabList {
    /// The list before the host has reported anything: no tabs, an empty
    /// search term, nothing selected.
    pub open spec fn default_view() -> TabListView {
        TabListView {
            tab_infos: Seq::empty(),
            selected_index: None,
            selected_search_index: None,
            search_results: Seq::empty(),
            search_term: Seq::empty(),
            is_searching: false,
        }
    }
}

impl Default for TabList {
    fn default() -> (list: TabList)
        ensures
            list@ == TabList::default_view(),
            consistent(list@),
    {
        let list = TabList {
            tab_infos: Vec::new(),
            selected_index: None,
            selected_search_index: None,
            search_results: Vec::new(),
            search_term: String::new(),
            is_searching: false,
        };
        assert(list@.tab_infos =~= Seq::empty());
        assert(list@.search_results =~= Seq::empty());
        list
    }
}

/// How a search changes the list: the results become the ranked matches of
/// the tabs for the term that the list now holds, the list is searching
/// exactly when that term is not empty, and the search cursor is brought into
/// the new results. The tabs and the browsing cursor stay.
pub open spec fn searched(before: TabListView, after: TabListView) -> bool {
    &&& after.tab_infos == before.tab_infos
    &&& after.selected_index == before.selected_index
    &&& after.is_searching == is_searching_for(after.search_term)
    &&& is_ranking(matches_of(after.tab_infos, after.search_term), after.search_results)
    &&& after.selected_search_index == cursor_after_search(
        before.selected_search_index,
        after.search_results.len(),
    )
    &&& well_formed(after)
    &&& cursor_in_range(before.selected_index, before.tab_infos.len()) ==> consistent(after)
}

impl TabList {
    /// Replaces the tabs by those of a new report from the host, put into
    /// canonical order. The cursors, the search term and the search results
    /// stay as they are.
    pub fn update(&mut self, tab_infos: Vec<TabInfo>)
        ensures
            is_canonical_order(tab_views(tab_infos@), final(self)@.tab_infos),
            final(self)@ == (TabListView { tab_infos: final(self)@.tab_infos, ..old(self)@ }),
            well_formed(old(self)@) ==> well_formed(final(self)@),
    {
        self.tab_infos = canonical_order(tab_infos);
    }

    /// Moves the selection one entry down the list that is on display.
    pub fn move_selection_down(&mut self)
        ensures
            final(self)@ == after_move_down(old(self)@),
            consistent(old(self)@) ==> consistent(final(self)@),
    {
        if self.is_searching {
            let len = self.search_results.len();
            self.selected_search_index = step_down(self.selected_search_index, len);
        } else {
            let len = self.tab_infos.len();
            self.selected_index = step_down(self.selected_index, len);
        }
    }

    /// Moves the selection one entry up the list that is on display.
    pub fn move_selection_up(&mut self)
        ensures
            final(self)@ == after_move_up(old(self)@),
            consistent(old(self)@) ==> consistent(final(self)@),
    {
        if self.is_searching {
            let len = self.search_results.len();
            self.selected_search_index = step_up(self.selected_search_index, len, true);
        } else {
            let len = self.tab_infos.len();
            self.selected_index = step_up(self.selected_index, len, false);
        }
    }

    /// The position of the selected tab, for the host to focus; `None` when
    /// nothing is selected.
    pub fn go_to_selected_tab(&self) -> (target: Option<usize>)
        ensures
            target == focus_target(self@),
    {
        if self.is_searching {
            match self.selected_search_index {
                Some(i) => if i < self.search_results.len() {
                    Some(self.search_results[i].tab_position)
                } else {
                    None
                },
                None => None,
            }
        } else {
            match self.selected_index {
                Some(i) => if i < self.tab_infos.len() {
                    Some(self.tab_infos[i].position)
                } else {
                    None
                },
                None => None,
            }
        }
    }

    /// Appends a character to the search term and searches anew.
    pub fn push_search_character(&mut self, character: char)
        ensures
            final(self)@.search_term == old(self)@.search_term.push(character),
            final(self)@.is_searching,
            searched(old(self)@, final(self)@),
            descending(final(self)@.search_results),
    {
        self.search_term.push(character);
        self.update_search_term();
    }

    /// Removes the last character of the search term, if it has one, and
    /// searches anew.
    pub fn pop_search_character(&mut self)
        ensures
            final(self)@.search_term == term_after_pop(old(self)@.search_term),
            searched(old(self)@, final(self)@),
            descending(final(self)@.search_results),
    {
        self.search_term.pop();
        self.update_search_term();
    }

    /// Searches the tabs for the search term: computes the results anew,
    /// ranks them, and brings the search cursor into the new results.
    pub fn update_search_term(&mut self)
        ensures
            final(self)@.search_term == old(self)@.search_term,
            searched(old(self)@, final(self)@),
            descending(final(self)@.search_results),
    {
        let mut found: Vec<SearchResult> = Vec::new();
        let mut i: usize = 0;
        let ghost tabs = tab_views(self.tab_infos@);
        let ghost term = self.search_term@;
        assert(tabs.take(0) =~= Seq::empty());
        assert(result_views(found@) =~= Seq::empty());
        while i < self.tab_infos.len()
            invariant
                i <= self.tab_infos.len(),
                tabs == tab_views(self.tab_infos@),
                term == self.search_term@,
                result_views(found@) == matches_of(tabs.take(i as int), term),
                forall|j: int|
                    0 <= j < found.len() ==> ascending_below(
                        (#[trigger] found[j]).indices@,
                        found[j].tab_name@.len(),
                    ),
            decreases self.tab_infos.len() - i,
        {
            let tab = &self.tab_infos[i];
            let ghost before = result_views(found@);
            proof {
                tabs.lemma_filter_map_take_succ(matcher_for(term), i as int);
                assert(tabs[i as int] == tab@);
            }
            match fuzzy_indices(tab.name.as_str(), self.search_term.as_str()) {
                Some((score, indices)) => {
                    let result = SearchResult {
                        score,
                        indices,
                        tab_name: tab.name.clone(),
                        tab_position: tab.position,
                        is_current_tab: tab.active,
                    };
                    assert(Some(result@) == match_of(tab@, term));
                    found.push(result);
                    assert(result_views(found@) =~= before + seq![result@]);
                },
                None => {
                    assert(result_views(found@) =~= before + Seq::empty());
                },
            }
            i += 1;
        }
        assert(tabs.take(i as int) =~= tabs);
        let ghost found_views = result_views(found@);
        self.search_results = rank_by_score(found);
        self.is_searching = !self.search_term.as_str().is_empty();
        let len = self.search_results.len();
        self.selected_search_index = settle_after_search(self.selected_search_index, len);
        proof {
            let ranked = result_views(self.search_results@);
            assert forall|j: int| 0 <= j < ranked.len() implies ascending_below(
                (#[trigger] ranked[j]).indices,
                ranked[j].tab_name.len(),
            ) by {
                lemma_ranking_member(found_views, ranked, j);
                let k = choose|k: int| 0 <= k < found_views.len() && found_views[k] == ranked[j];
                assert(found_views[k] == found[k]@);
            }
        }
    }
}

/// The line of the tab at index `i` while browsing, when the tabs from
/// `first` up to `last` are on display.
pub open spec fn browse_line(list: TabListView, i: int, first: int, last: int) -> LineView {
    let tab = list.tab_infos[i];
    let selected = list.selected_index == Some(i as usize);
    LineView {
        spans: seq![
            tab_info_span(tab.active),
            tab_name_span(tab.name, None),
            more_indication(i, first, last, list.tab_infos.len() as int, selected),
        ],
        selected,
    }
}

/// The line of the search result at index `i`, when the results from `first`
/// up to `last` are on display.
pub open spec fn search_line(list: TabListView, i: int, first: int, last: int) -> LineView {
    let result = list.search_results[i];
    let selected = list.selected_search_index == Some(i as usize);
    LineView {
        spans: seq![
            tab_info_span(result.is_current_tab),
            tab_name_span(result.tab_name, Some(result.indices)),
            more_indication(i, first, last, list.search_results.len() as int, selected),
        ],
        selected,
    }
}

/// The first entry on display when a list of `len` entries is drawn into
/// `table_rows` rows around the selection.
pub open spec fn first_to_render(table_rows: int, len: int, selected: Option<usize>) -> int {
    window_start(len, rows_deficit(table_rows, len), anchor_of(selected))
}

/// One past the last entry on display.
pub open spec fn last_to_render(table_rows: int, len: int, selected: Option<usize>) -> int {
    window_end(len, rows_deficit(table_rows, len), anchor_of(selected))
}

/// The table of the tabs while browsing: the title line, then the lines of
/// the tabs on display.
pub open spec fn browse_table(list: TabListView, table_rows: int) -> Seq<LineView> {
    let len = list.tab_infos.len() as int;
    let first = first_to_render(table_rows, len, list.selected_index);
    let last = last_to_render(table_rows, len, list.selected_index);
    seq![title_line()] + Seq::new(
        (last - first) as nat,
        |k: int| browse_line(list, first + k, first, last),
    )
}

/// The table of the search results: the title line, then the lines of the
/// results on display.
pub open spec fn search_table(list: TabListView, table_rows: int) -> Seq<LineView> {
    let len = list.search_results.len() as int;
    let first = first_to_render(table_rows, len, list.selected_search_index);
    let last = last_to_render(table_rows, len, list.selected_search_index);
    seq![title_line()] + Seq::new(
        (last - first) as nat,
        |k: int| search_line(list, first + k, first, last),
    )
}

/// The rows that are left for the table when the picker has `rows` rows: the
/// search line, the line below it and some padding take five.
pub open spec fn rows_for_table(rows: int) -> int {
    if rows > 5 {
        rows - 5
    } else {
        0
    }
}

/// The frame of a list drawn into `rows` by `columns` cells at `(x, y)`.
pub open spec fn frame_of(list: TabListView, rows: usize, columns: usize, x: usize, y: usize) -> FrameView {
    let table_rows = rows_for_table(rows as int);
    FrameView {
        search_indication: search_indication_span(list.search_term),
        search_x: if x > 0 {
            (x - 1) as usize
        } else {
            0
        },
        search_y: (y + 2) as usize,
        table: if list.is_searching {
            search_table(list, table_rows)
        } else {
            browse_table(list, table_rows)
        },
        table_x: x,
        table_y: (y + 3) as usize,
        table_columns: columns,
        table_rows: table_rows as usize,
    }
}

/// Whether a cursor is on the entry at index `i`.
fn is_on(cursor: Option<usize>, i: usize) -> (r: bool)
    ensures
        r == (cursor == Some(i)),
{
    match cursor {
        Some(at) => at == i,
        None => false,
    }
}

impl TabList {
    /// The tabs, in canonical order.
    pub fn tab_infos(&self) -> (tabs: &Vec<TabInfo>)
        ensures
            tab_views(tabs@) == self@.tab_infos,
    {
        &self.tab_infos
    }

    /// The selection among the tabs.
    pub fn selected_index(&self) -> (cursor: Option<usize>)
        ensures
            cursor == self@.selected_index,
    {
        self.selected_index
    }

    /// The selection among the search results.
    pub fn selected_search_index(&self) -> (cursor: Option<usize>)
        ensures
            cursor == self@.selected_search_index,
    {
        self.selected_search_index
    }

    /// The search results, best first.
    pub fn search_results(&self) -> (results: &Vec<SearchResult>)
        ensures
            result_views(results@) == self@.search_results,
    {
        &self.search_results
    }

    /// The search term.
    pub fn search_term(&self) -> (term: &str)
        ensures
            term@ == self@.search_term,
    {
        self.search_term.as_str()
    }

    /// Whether the picker is searching rather than browsing.
    pub fn is_searching(&self) -> (searching: bool)
        ensures
            searching == self@.is_searching,
    {
        self.is_searching
    }

    /// Brings the list back in step after the tabs have changed: the
    /// browsing cursor is brought back into the tabs, and while searching the
    /// tabs are searched anew.
    pub fn refresh(&mut self)
        ensures
            final(self)@.search_term == old(self)@.search_term,
            final(self)@.tab_infos == old(self)@.tab_infos,
            final(self)@.selected_index == clamped(
                old(self)@.selected_index,
                old(self)@.tab_infos.len(),
            ),
            final(self)@.is_searching == (old(self)@.is_searching && old(self)@.search_term.len()
                > 0),
            if old(self)@.is_searching {
                &&& is_ranking(
                    matches_of(final(self)@.tab_infos, final(self)@.search_term),
                    final(self)@.search_results,
                )
                &&& final(self)@.selected_search_index == cursor_after_search(
                    old(self)@.selected_search_index,
                    final(self)@.search_results.len(),
                )
            } else {
                &&& final(self)@.search_results == old(self)@.search_results
                &&& final(self)@.selected_search_index == old(self)@.selected_search_index
            },
            well_formed(old(self)@) && cursor_in_range(
                old(self)@.selected_search_index,
                old(self)@.search_results.len(),
            ) ==> consistent(final(self)@),
    {
        self.selected_index = clamp(self.selected_index, self.tab_infos.len());
        if self.is_searching {
            self.update_search_term();
        }
    }

    /// The entries to draw, from the first up to the second index, when a
    /// list of `results_len` entries goes into `table_rows` rows.
    pub fn range_to_render(
        &self,
        table_rows: usize,
        results_len: usize,
        selected_index: Option<usize>,
    ) -> (range: (usize, usize))
        ensures
            range.0 == first_to_render(table_rows as int, results_len as int, selected_index),
            range.1 == last_to_render(table_rows as int, results_len as int, selected_index),
            range.0 <= range.1 <= results_len,
    {
        let deficit = deficit_for_rows(table_rows, results_len);
        let (first, _, last, _) = window(results_len, deficit, selected_index);
        proof {
            lemma_window_bounds(results_len as int, deficit as int, anchor_of(selected_index));
        }
        (first, last)
    }

    /// The span that marks the tab which is focused in the host.
    pub fn render_tab_info(&self, is_current_tab: bool) -> (span: Span)
        ensures
            span@ == tab_info_span(is_current_tab),
    {
        let text = if is_current_tab {
            "\u{2588}"
        } else {
            " "
        };
        Span { text: String::from_str(text), coloring: Coloring::All { level: 0 } }
    }

    /// The span of a tab's name.
    pub fn render_tab_name(&self, tab_name: &str, indices: Option<Vec<usize>>) -> (span: Span)
        ensures
            span@ == tab_name_span(
                tab_name@,
                match indices {
                    Some(indices) => Some(indices@),
                    None => None,
                },
            ),
    {
        let text = pad(tab_name, NAME_WIDTH);
        match indices {
            Some(indices) => Span { text, coloring: Coloring::Indices { level: 2, indices } },
            None => Span { text, coloring: Coloring::Plain },
        }
    }

    /// The last span of a line: the key hint, the number of hidden entries,
    /// or a blank.
    pub fn render_more_indication_as_needed(
        &self,
        i: usize,
        first_row_index_to_render: usize,
        last_row_index_to_render: usize,
        results_len: usize,
        is_selected: bool,
    ) -> (span: Span)
        ensures
            span@ == more_indication(
                i as int,
                first_row_index_to_render as int,
                last_row_index_to_render as int,
                results_len as int,
                is_selected,
            ),
    {
        let last_row: usize = if last_row_index_to_render > 0 {
            last_row_index_to_render - 1
        } else {
            0
        };
        if is_selected {
            Span {
                text: String::from_str("<Enter> - Focus on Tab"),
                coloring: Coloring::Until { level: 2, end: 7 },
            }
        } else if i == first_row_index_to_render && i > 0 {
            Span {
                text: render_more_text(first_row_index_to_render),
                coloring: Coloring::All { level: 0 },
            }
        } else if i == last_row && last_row_index_to_render < results_len {
            Span {
                text: render_more_text(results_len - last_row_index_to_render),
                coloring: Coloring::All { level: 0 },
            }
        } else {
            plain_span(" ")
        }
    }

    /// The table of the tabs, for browsing.
    pub fn render_all_entries(&self, table_rows: usize, _table_columns: usize) -> (table: Table)
        ensures
            table@ == browse_table(self@, table_rows as int),
    {
        let mut lines: Vec<Line> = Vec::new();
        lines.push(render_title_line());
        let len = self.tab_infos.len();
        let (first, last) = self.range_to_render(table_rows, len, self.selected_index);
        let mut i: usize = first;
        assert(line_views(lines@) =~= seq![title_line()] + Seq::new(
            0,
            |k: int| browse_line(self@, first + k, first as int, last as int),
        ));
        while i < last
            invariant
                first <= i <= last <= len,
                len == self.tab_infos.len(),
                line_views(lines@) == seq![title_line()] + Seq::new(
                    (i - first) as nat,
                    |k: int| browse_line(self@, first + k, first as int, last as int),
                ),
            decreases last - i,
        {
            let tab = &self.tab_infos[i];
            let is_selected = is_on(self.selected_index, i);
            let mut spans: Vec<Span> = Vec::new();
            spans.push(self.render_tab_info(tab.active));
            spans.push(self.render_tab_name(tab.name.as_str(), None));
            spans.push(self.render_more_indication_as_needed(i, first, last, len, is_selected));
            let line = Line { spans, selected: is_selected };
            proof {
                assert(self@.tab_infos[i as int] == tab@);
                assert(line@.spans =~= browse_line(self@, i as int, first as int, last as int).spans);
                assert(line@ == browse_line(self@, i as int, first as int, last as int));
            }
            let ghost before = line_views(lines@);
            lines.push(line);
            assert(line_views(lines@) =~= before.push(line@));
            i += 1;
            assert(line_views(lines@) =~= seq![title_line()] + Seq::new(
                (i - first) as nat,
                |k: int| browse_line(self@, first + k, first as int, last as int),
            ));
        }
        Table { lines }
    }

    /// The table of the search results.
    pub fn render_search_results(&self, table_rows: usize, _table_columns: usize) -> (table: Table)
        ensures
            table@ == search_table(self@, table_rows as int),
    {
        let mut lines: Vec<Line> = Vec::new();
        lines.push(render_title_line());
        let len = self.search_results.len();
        let (first, last) = self.range_to_render(table_rows, len, self.selected_search_index);
        let mut i: usize = first;
        assert(line_views(lines@) =~= seq![title_line()] + Seq::new(
            0,
            |k: int| search_line(self@, first + k, first as int, last as int),
        ));
        while i < last
            invariant
                first <= i <= last <= len,
                len == self.search_results.len(),
                line_views(lines@) == seq![title_line()] + Seq::new(
                    (i - first) as nat,
                    |k: int| search_line(self@, first + k, first as int, last as int),
                ),
            decreases last - i,
        {
            let result = &self.search_results[i];
            let is_selected = is_on(self.selected_search_index, i);
            let mut spans: Vec<Span> = Vec::new();
            spans.push(self.render_tab_info(result.is_current_tab));
            spans.push(self.render_tab_name(result.tab_name.as_str(), Some(result.indices.clone())));
            spans.push(self.render_more_indication_as_needed(i, first, last, len, is_selected));
            let line = Line { spans, selected: is_selected };
            proof {
                assert(self@.search_results[i as int] == result@);
                assert(line@.spans =~= search_line(self@, i as int, first as int, last as int).spans);
                assert(line@ == search_line(self@, i as int, first as int, last as int));
            }
            let ghost before = line_views(lines@);
            lines.push(line);
            assert(line_views(lines@) =~= before.push(line@));
            i += 1;
            assert(line_views(lines@) =~= seq![title_line()] + Seq::new(
                (i - first) as nat,
                |k: int| search_line(self@, first + k, first as int, last as int),
            ));
        }
        Table { lines }
    }

    /// Draws the list into `rows` by `columns` cells whose corner is at
    /// `(x, y)`: the search line, and below it the table of the search
    /// results while searching, of the tabs while browsing.
    pub fn render(&self, rows: usize, columns: usize, x: usize, y: usize) -> (frame: Frame)
        requires
            y + 3 <= usize::MAX,
        ensures
            frame@ == frame_of(self@, rows, columns, x, y),
    {
        let search_indication = render_search_indication(self.search_term.as_str());
        let table_rows: usize = if rows > 5 {
            rows - 5
        } else {
            0
        };
        let table = if self.is_searching {
            self.render_search_results(table_rows, columns)
        } else {
            self.render_all_entries(table_rows, columns)
        };
        Frame {
            search_indication,
            search_x: if x > 0 {
                x - 1
            } else {
                0
            },
            search_y: y + 2,
            table,
            table_x: x,
            table_y: y + 3,
            table_columns: columns,
            table_rows,
        }
    }
}

} // verus!

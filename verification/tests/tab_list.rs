use tab_picker::ranking::rank_by_score;
use tab_picker::tab_list::TabList;
use tab_picker::tabs::{canonical_order, TabInfo};

fn tab(position: usize, name: &str, active: bool) -> TabInfo {
    TabInfo { position, name: name.to_string(), active }
}

fn names(list: &TabList) -> Vec<String> {
    list.tab_infos().iter().map(|t| t.name.clone()).collect()
}

fn result_names(list: &TabList) -> Vec<String> {
    list.search_results().iter().map(|r| r.tab_name().to_string()).collect()
}

fn type_term(list: &mut TabList, term: &str) {
    for c in term.chars() {
        list.push_search_character(c);
    }
}

#[test]
fn current_tab_sorts_last_despite_its_name() {
    let mut list = TabList::default();
    list.update(vec![tab(0, "zeta", false), tab(1, "alpha", true)]);
    assert_eq!(names(&list), vec!["zeta", "alpha"]);
    list.push_search_character('a');
    let results = list.search_results();
    assert_eq!(results.len(), 2);
    assert!(results[0].score() >= results[1].score());
    let mut found = result_names(&list);
    found.sort();
    assert_eq!(found, vec!["alpha", "zeta"]);
}

#[test]
fn other_tabs_ascend_by_name() {
    let mut list = TabList::default();
    list.update(vec![
        tab(0, "mail", false),
        tab(1, "build", true),
        tab(2, "zsh", false),
        tab(3, "Logs", false),
        tab(4, "editor", false),
    ]);
    assert_eq!(names(&list), vec!["Logs", "editor", "mail", "zsh", "build"]);
    let last = list.tab_infos().last().unwrap();
    assert!(last.active);
    assert_eq!(list.tab_infos().iter().filter(|t| t.active).count(), 1);
}

#[test]
fn order_does_not_depend_on_the_order_of_the_report() {
    let report = || vec![tab(0, "b", false), tab(1, "a", false), tab(2, "c", true), tab(3, "a", false)];
    let mut first = TabList::default();
    first.update(report());
    let mut reversed = report();
    reversed.reverse();
    let mut second = TabList::default();
    second.update(reversed);
    let key = |l: &TabList| -> Vec<(usize, String, bool)> {
        l.tab_infos().iter().map(|t| (t.position, t.name.clone(), t.active)).collect()
    };
    assert_eq!(key(&first), key(&second));
    assert_eq!(
        key(&first),
        vec![
            (1, "a".to_string(), false),
            (3, "a".to_string(), false),
            (0, "b".to_string(), false),
            (2, "c".to_string(), true),
        ]
    );
    let mut again = TabList::default();
    again.update(report());
    assert_eq!(key(&first), key(&again));
}

#[test]
fn names_compare_by_code_point_and_prefix() {
    let ordered = canonical_order(vec![
        tab(0, "ab", false),
        tab(1, "a", false),
        tab(2, "", false),
        tab(3, "\u{e9}", false),
        tab(4, "z", false),
        tab(5, "B", false),
    ]);
    let got: Vec<&str> = ordered.iter().map(|t| t.name.as_str()).collect();
    assert_eq!(got, vec!["", "B", "a", "ab", "z", "\u{e9}"]);
}

#[test]
fn update_of_an_empty_report() {
    let mut list = TabList::default();
    list.update(vec![tab(0, "a", true)]);
    list.update(vec![]);
    assert!(list.tab_infos().is_empty());
}

#[test]
fn update_leaves_cursors_and_term_alone() {
    let mut list = TabList::default();
    list.update(vec![tab(0, "a", false), tab(1, "b", false), tab(2, "c", true)]);
    list.move_selection_down();
    list.move_selection_down();
    list.update(vec![tab(0, "a", true)]);
    assert_eq!(list.selected_index(), Some(1));
    assert_eq!(list.search_term(), "");
    assert!(!list.is_searching());
    list.refresh();
    assert_eq!(list.selected_index(), Some(0));
    list.update(vec![]);
    list.refresh();
    assert_eq!(list.selected_index(), None);
}

#[test]
fn moving_down_while_browsing_wraps_to_nothing() {
    let mut list = TabList::default();
    list.update(vec![tab(0, "a", false), tab(1, "b", false), tab(2, "c", true)]);
    assert_eq!(list.selected_index(), None);
    list.move_selection_down();
    assert_eq!(list.selected_index(), Some(0));
    list.move_selection_down();
    assert_eq!(list.selected_index(), Some(1));
    list.move_selection_down();
    assert_eq!(list.selected_index(), Some(2));
    list.move_selection_down();
    assert_eq!(list.selected_index(), None);
}

#[test]
fn moving_up_while_browsing_starts_at_the_last_tab() {
    let mut list = TabList::default();
    list.update(vec![tab(0, "a", false), tab(1, "b", false), tab(2, "c", true)]);
    list.move_selection_up();
    assert_eq!(list.selected_index(), Some(2));
    list.move_selection_up();
    assert_eq!(list.selected_index(), Some(1));
    list.move_selection_up();
    assert_eq!(list.selected_index(), Some(0));
    list.move_selection_up();
    assert_eq!(list.selected_index(), None);
}

#[test]
fn moving_in_an_empty_list_changes_nothing() {
    let mut list = TabList::default();
    list.move_selection_down();
    assert_eq!(list.selected_index(), None);
    list.move_selection_up();
    assert_eq!(list.selected_index(), None);
    assert_eq!(list.go_to_selected_tab(), None);
}

#[test]
fn moving_while_searching_starts_at_the_first_result() {
    let mut list = TabList::default();
    list.update(vec![tab(0, "aa", false), tab(1, "ab", false), tab(2, "ac", true)]);
    list.push_search_character('a');
    assert_eq!(list.search_results().len(), 3);
    assert_eq!(list.selected_search_index(), Some(0));
    list.move_selection_up();
    assert_eq!(list.selected_search_index(), None);
    list.move_selection_up();
    assert_eq!(list.selected_search_index(), Some(0));
    list.move_selection_up();
    assert_eq!(list.selected_search_index(), None);
    list.move_selection_down();
    assert_eq!(list.selected_search_index(), Some(0));
    list.move_selection_down();
    assert_eq!(list.selected_search_index(), Some(1));
    list.move_selection_down();
    assert_eq!(list.selected_search_index(), Some(2));
    list.move_selection_down();
    assert_eq!(list.selected_search_index(), None);
    assert_eq!(list.selected_index(), None);
}

#[test]
fn typing_and_erasing_restores_the_term() {
    let mut list = TabList::default();
    list.update(vec![tab(0, "alpha", false), tab(1, "beta", true)]);
    assert!(!list.is_searching());
    type_term(&mut list, "al");
    assert_eq!(list.search_term(), "al");
    assert!(list.is_searching());
    type_term(&mut list, "xyz");
    for _ in 0..3 {
        list.pop_search_character();
    }
    assert_eq!(list.search_term(), "al");
    assert!(list.is_searching());
    list.pop_search_character();
    list.pop_search_character();
    assert_eq!(list.search_term(), "");
    assert!(!list.is_searching());
    list.pop_search_character();
    assert_eq!(list.search_term(), "");
    assert!(!list.is_searching());
}

#[test]
fn results_descend_by_score() {
    let mut list = TabList::default();
    list.update(vec![
        tab(0, "clippy", false),
        tab(1, "cargo build", false),
        tab(2, "xcb", false),
        tab(3, "docs", false),
        tab(4, "abc", true),
        tab(5, "a-b-c", false),
    ]);
    type_term(&mut list, "cb");
    let results = list.search_results();
    assert!(!results.is_empty());
    for pair in results.windows(2) {
        assert!(pair[0].score() >= pair[1].score());
    }
    let mut found = result_names(&list);
    found.sort();
    assert_eq!(found, vec!["cargo build", "xcb"]);
}

#[test]
fn results_of_equal_score_keep_the_order_of_the_tabs() {
    let mut list = TabList::default();
    list.update(vec![tab(7, "same", false), tab(3, "same", false), tab(5, "same", false)]);
    type_term(&mut list, "sa");
    let positions: Vec<usize> = list.search_results().iter().map(|r| r.tab_position()).collect();
    assert_eq!(positions, vec![3, 5, 7]);
}

#[test]
fn ranking_is_stable() {
    let mut list = TabList::default();
    list.update(vec![tab(0, "ab", false), tab(1, "xab", false), tab(2, "ab", false), tab(3, "xab", false)]);
    type_term(&mut list, "ab");
    let results = list.search_results();
    let got: Vec<(i64, usize)> = results.iter().map(|r| (r.score(), r.tab_position())).collect();
    let mut expected = got.clone();
    expected.sort_by(|a, b| b.0.cmp(&a.0).then(a.1.cmp(&b.1)));
    assert_eq!(got, expected);
    assert_eq!(got.len(), 4);
    let ranked = rank_by_score(Vec::new());
    assert!(ranked.is_empty());
}

#[test]
fn matched_offsets_are_the_matchers() {
    let mut list = TabList::default();
    list.update(vec![tab(0, "axbycz", false)]);
    type_term(&mut list, "abc");
    let results = list.search_results();
    assert_eq!(results.len(), 1);
    assert_eq!(results[0].indices(), &vec![0, 2, 4]);
    assert_eq!(results[0].tab_name(), "axbycz");
    assert_eq!(results[0].tab_position(), 0);
    assert!(!results[0].is_current_tab());
    assert!(results[0].score() > 0);
}

#[test]
fn terms_that_are_not_found_in_order_give_no_result() {
    let mut list = TabList::default();
    list.update(vec![tab(0, "abc", false), tab(1, "cab", true)]);
    type_term(&mut list, "abx");
    assert!(list.search_results().is_empty());
    assert_eq!(list.selected_search_index(), None);
    assert!(list.is_searching());
    list.pop_search_character();
    assert_eq!(list.search_results().len(), 2);
    list.pop_search_character();
    type_term(&mut list, "bc");
    assert_eq!(result_names(&list), vec!["abc"]);
    assert_eq!(list.selected_search_index(), Some(0));
}

#[test]
fn lower_case_terms_ignore_case_and_upper_case_terms_do_not() {
    let mut list = TabList::default();
    list.update(vec![tab(0, "Build", false), tab(1, "build", false)]);
    type_term(&mut list, "b");
    assert_eq!(list.search_results().len(), 2);
    list.pop_search_character();
    type_term(&mut list, "B");
    assert_eq!(result_names(&list), vec!["Build"]);
}

#[test]
fn empty_term_keeps_every_tab_in_order() {
    let mut list = TabList::default();
    list.update(vec![tab(0, "b", false), tab(1, "a", false), tab(2, "c", true)]);
    list.push_search_character('q');
    assert!(list.search_results().is_empty());
    list.pop_search_character();
    assert!(!list.is_searching());
    assert_eq!(result_names(&list), vec!["a", "b", "c"]);
    for r in list.search_results() {
        assert_eq!(r.score(), 0);
        assert!(r.indices().is_empty());
    }
}

#[test]
fn search_cursor_is_brought_back_into_the_results() {
    let mut list = TabList::default();
    list.update(vec![tab(0, "aa", false), tab(1, "ab", false), tab(2, "ac", false)]);
    list.push_search_character('a');
    list.move_selection_down();
    list.move_selection_down();
    assert_eq!(list.selected_search_index(), Some(2));
    list.push_search_character('b');
    assert_eq!(list.search_results().len(), 1);
    assert_eq!(list.selected_search_index(), Some(0));
    list.push_search_character('z');
    assert!(list.search_results().is_empty());
    assert_eq!(list.selected_search_index(), None);
    list.pop_search_character();
    assert_eq!(list.selected_search_index(), Some(0));
}

#[test]
fn search_cursor_stays_where_it_fits() {
    let mut list = TabList::default();
    list.update(vec![tab(0, "aab", false), tab(1, "abb", false), tab(2, "ac", false)]);
    list.push_search_character('a');
    list.move_selection_down();
    assert_eq!(list.selected_search_index(), Some(1));
    list.push_search_character('b');
    assert_eq!(list.search_results().len(), 2);
    assert_eq!(list.selected_search_index(), Some(1));
    list.pop_search_character();
    assert_eq!(list.selected_search_index(), Some(1));
}

#[test]
fn selected_tab_is_given_by_its_position() {
    let mut list = TabList::default();
    list.update(vec![tab(4, "b", false), tab(9, "a", false), tab(2, "c", true)]);
    assert_eq!(list.go_to_selected_tab(), None);
    list.move_selection_down();
    assert_eq!(list.go_to_selected_tab(), Some(9));
    list.move_selection_up();
    list.move_selection_up();
    assert_eq!(list.go_to_selected_tab(), Some(2));
    list.push_search_character('b');
    assert_eq!(list.go_to_selected_tab(), Some(4));
    list.move_selection_down();
    assert_eq!(list.go_to_selected_tab(), None);
}

#[test]
fn refresh_searches_the_new_tabs() {
    let mut list = TabList::default();
    list.update(vec![tab(0, "one", false), tab(1, "two", true)]);
    list.push_search_character('o');
    assert_eq!(list.search_results().len(), 2);
    list.move_selection_down();
    list.update(vec![tab(0, "one", true)]);
    assert_eq!(list.search_results().len(), 2);
    list.refresh();
    assert_eq!(result_names(&list), vec!["one"]);
    assert_eq!(list.selected_search_index(), Some(0));
    assert!(list.search_results()[0].is_current_tab());
}

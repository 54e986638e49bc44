use writer::search::{match_line, MatchLine, SearchState};

fn searched(text: &str, query: &str) -> SearchState {
    let mut s = SearchState::new();
    s.set_query(query.to_string(), text);
    s
}

#[test]
fn empty_query_finds_nothing() {
    for text in ["", "abc", "ababab", "  \n "] {
        let s = searched(text, "");
        assert!(s.results().is_empty());
        assert_eq!(s.current_match_index(), None);
    }
}

#[test]
fn ababab_cycles_through_three_matches() {
    let mut s = searched("ababab", "ab");
    assert_eq!(s.results(), &vec![0, 2, 4]);
    assert_eq!(s.current_match_index(), Some(0));
    s.find_next();
    assert_eq!(s.current_match_index(), Some(1));
    s.find_next();
    assert_eq!(s.current_match_index(), Some(2));
    s.find_next();
    assert_eq!(s.current_match_index(), Some(0));
}

#[test]
fn previous_wraps_to_last() {
    let mut s = searched("ababab", "ab");
    s.find_previous();
    assert_eq!(s.current_match_index(), Some(2));
    s.find_previous();
    assert_eq!(s.current_match_index(), Some(1));
}

#[test]
fn matches_do_not_overlap() {
    let s = searched("aaaa", "aa");
    assert_eq!(s.results(), &vec![0, 2]);
    let s = searched("aaa", "aa");
    assert_eq!(s.results(), &vec![0]);
}

#[test]
fn search_is_case_sensitive() {
    let s = searched("Ab ab AB", "ab");
    assert_eq!(s.results(), &vec![3]);
}

#[test]
fn no_match_leaves_no_cursor() {
    let mut s = searched("hello", "xyz");
    assert!(s.results().is_empty());
    assert_eq!(s.current_match_index(), None);
    s.find_next();
    s.find_previous();
    assert_eq!(s.current_match_index(), None);
}

#[test]
fn offsets_are_bytes() {
    let s = searched("é-é", "é");
    assert_eq!(s.results(), &vec![0, 3]);
}

#[test]
fn query_longer_than_text() {
    let s = searched("ab", "abc");
    assert!(s.results().is_empty());
}

#[test]
fn update_results_follows_new_text() {
    let mut s = searched("one two one", "one");
    assert_eq!(s.results(), &vec![0, 8]);
    s.find_next();
    s.update_results("two one");
    assert_eq!(s.query(), "one");
    assert_eq!(s.results(), &vec![4]);
    assert_eq!(s.current_match_index(), Some(0));
}

#[test]
fn close_forgets_query() {
    let mut s = searched("abc", "b");
    s.toggle_bar();
    assert!(s.show_bar());
    s.close();
    assert!(!s.show_bar());
    assert_eq!(s.query(), "");
    assert!(s.results().is_empty());
    assert_eq!(s.current_match_index(), None);
}

#[test]
fn match_line_counts_from_one() {
    let text = "first\nsecond line\nthird";
    assert_eq!(match_line(text, 0), MatchLine { number: 1, start: 0, end: 5 });
    assert_eq!(match_line(text, 9), MatchLine { number: 2, start: 6, end: 17 });
    assert_eq!(match_line(text, 18), MatchLine { number: 3, start: 18, end: 23 });
    assert_eq!(match_line("\n\nx", 2), MatchLine { number: 3, start: 2, end: 3 });
    assert_eq!(match_line("a\nb", 1), MatchLine { number: 1, start: 0, end: 1 });
}

use writer::highlight::{highlight_spans, matches_fit, Span, SpanKind};

fn span(start: usize, end: usize, kind: SpanKind) -> Span {
    Span { start, end, kind }
}

#[test]
fn no_matches_is_one_plain_span() {
    assert_eq!(highlight_spans(5, &vec![], 2, None), vec![span(0, 5, SpanKind::Plain)]);
}

#[test]
fn empty_query_is_one_plain_span() {
    assert_eq!(highlight_spans(5, &vec![1], 0, None), vec![span(0, 5, SpanKind::Plain)]);
}

#[test]
fn gaps_matches_and_tail() {
    let spans = highlight_spans(10, &vec![2, 6], 2, Some(1));
    assert_eq!(
        spans,
        vec![
            span(0, 2, SpanKind::Plain),
            span(2, 4, SpanKind::Match),
            span(4, 6, SpanKind::Plain),
            span(6, 8, SpanKind::Current),
            span(8, 10, SpanKind::Plain),
        ]
    );
}

#[test]
fn matches_at_both_ends_and_adjacent() {
    let spans = highlight_spans(6, &vec![0, 2, 4], 2, Some(0));
    assert_eq!(
        spans,
        vec![
            span(0, 2, SpanKind::Current),
            span(2, 4, SpanKind::Match),
            span(4, 6, SpanKind::Match),
        ]
    );
}

#[test]
fn fit_check() {
    assert!(matches_fit(&vec![0, 2, 4], 2, 6));
    assert!(!matches_fit(&vec![0, 2, 5], 2, 6));
    assert!(!matches_fit(&vec![0, 1], 2, 6));
    assert!(!matches_fit(&vec![3], 4, 2));
    assert!(matches_fit(&vec![], 4, 2));
}

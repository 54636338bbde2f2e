use picacg::pagination::EndPolicy;
use picacg::pagination::Page;
use picacg::pagination::PaginationCursor;
use picacg::pagination::resolve_end_policy;

/// Drive an enumeration, reading each visited page's reported `total_pages`
/// from `totals` (in fetch order), and collect the visited indices.
fn visit_all(start: u64, policy: EndPolicy, totals: &[u64]) -> Vec<u64> {
    let mut cursor = PaginationCursor::new(start, policy);
    let mut visited = Vec::new();
    let mut fetches: usize = 0;
    while fetches < totals.len() {
        visited.push(cursor.current);
        let observed = cursor.observe_total(totals[fetches]);
        fetches += 1;
        let (next, more) = observed.advance();
        if !more {
            break;
        }
        cursor = next;
    }
    visited
}

#[test]
fn fixed_policy_visits_each_page_once_in_order() {
    // Fixed(5) from 2: pages 2, 3, 4, 5, whatever the pages report.
    let visited = visit_all(2, EndPolicy::Fixed(5), &[9, 9, 9, 9, 9, 9]);
    assert_eq!(visited, vec![2, 3, 4, 5]);
}

#[test]
fn fixed_policy_single_page() {
    let visited = visit_all(7, EndPolicy::Fixed(7), &[3, 3, 3]);
    assert_eq!(visited, vec![7]);
}

#[test]
fn fixed_policy_start_past_end_still_fetches_start() {
    // The first page is always fetched; with the bound already passed the
    // enumeration stops after it.
    let visited = visit_all(9, EndPolicy::Fixed(3), &[100, 100]);
    assert_eq!(visited, vec![9]);
}

#[test]
fn until_exhausted_visits_up_to_reported_total() {
    // Every page reports 3 total pages: pages 1, 2, 3 are visited.
    let visited = visit_all(1, EndPolicy::UntilExhausted, &[3, 3, 3, 3]);
    assert_eq!(visited, vec![1, 2, 3]);
}

#[test]
fn until_exhausted_bound_can_grow() {
    // The listing grows while being walked: the bound is re-read each page.
    let visited = visit_all(1, EndPolicy::UntilExhausted, &[2, 3, 4, 4]);
    assert_eq!(visited, vec![1, 2, 3, 4]);
}

#[test]
fn until_exhausted_degenerate_report_stops_after_one_page() {
    // A listing that never reports its page count ends the walk after
    // exactly one page: the bound defaults to the start.
    let visited = visit_all(4, EndPolicy::UntilExhausted, &[0, 0, 0]);
    assert_eq!(visited, vec![4]);
}

#[test]
fn resolve_end_policy_cases() {
    assert_eq!(resolve_end_policy(3, Some(8), false), EndPolicy::Fixed(8));
    assert_eq!(resolve_end_policy(3, None, false), EndPolicy::Fixed(3));
    assert_eq!(resolve_end_policy(3, Some(8), true), EndPolicy::UntilExhausted);
    assert_eq!(resolve_end_policy(3, None, true), EndPolicy::UntilExhausted);
}

#[test]
fn page_reports_its_position() {
    let p: Page<u32> = Page::new(vec![10, 20, 30], 2, 5, 14);
    assert!(p.has_next());
    assert_eq!(p.next_index(), 3);
    assert_eq!(p.len(), 3);

    let last: Page<u32> = Page::new(vec![40], 5, 5, 14);
    assert!(!last.has_next());
}

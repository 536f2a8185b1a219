use mokuroku::media::{LookupMediaPagePageMedia, Title};
use mokuroku::paginator::MediaPaginator;
use mokuroku::source::{FlakyPageSource, VecSource};

fn item(id: i64) -> LookupMediaPagePageMedia {
    LookupMediaPagePageMedia {
        id,
        title: Some(Title {
            romaji: None,
            english: None,
            native: None,
            user_preferred: Some(format!("Item {}", id)),
        }),
    }
}

fn items(n: i64) -> Vec<LookupMediaPagePageMedia> {
    (0..n).map(item).collect()
}

fn current_id<S: mokuroku::source::PageSource>(p: &MediaPaginator<S>) -> i64 {
    p.current_item().expect("an item should be shown").id
}

#[test]
fn naruto_pagination_crosses_once() {
    // Twelve results at five per page: three pages of 5, 5 and 2 items.
    let source = VecSource::paginate(items(12), 5);
    let mut p = MediaPaginator::new(source).expect("first fetch succeeds");
    assert_eq!(p.fetches_made(), 1);
    assert_eq!(current_id(&p), 0);

    // Walking to overall offset 5 crosses into page 2 exactly once.
    for expected in 1..=5 {
        let it = p.next_item().expect("no fetch fails").expect("not at the end");
        assert_eq!(it.id, expected);
    }
    assert_eq!(p.fetches_made(), 2);
    assert_eq!(current_id(&p), 5);

    // One step back re-fetches page 1 (only one page is ever cached) and
    // lands on overall offset 4.
    let back = p.prev_item().expect("no fetch fails").expect("not at the start");
    assert_eq!(back.id, 4);
    assert_eq!(p.fetches_made(), 3);
    assert_eq!(current_id(&p), 4);
}

#[test]
fn next_then_prev_within_page() {
    let source = VecSource::paginate(items(12), 5);
    let mut p = MediaPaginator::new(source).expect("first fetch succeeds");
    let before = current_id(&p);
    p.next_item().unwrap().unwrap();
    let back = p.prev_item().unwrap().unwrap();
    assert_eq!(back.id, before);
    assert_eq!(current_id(&p), before);
    assert_eq!(p.fetches_made(), 1);
}

#[test]
fn next_then_prev_across_boundary() {
    let source = VecSource::paginate(items(12), 5);
    let mut p = MediaPaginator::new(source).expect("first fetch succeeds");
    for _ in 0..4 {
        p.next_item().unwrap().unwrap();
    }
    assert_eq!(current_id(&p), 4);
    let crossed = p.next_item().unwrap().unwrap();
    assert_eq!(crossed.id, 5);
    let back = p.prev_item().unwrap().unwrap();
    assert_eq!(back.id, 4);
    assert_eq!(current_id(&p), 4);
}

#[test]
fn prev_then_next_across_boundary() {
    let source = VecSource::paginate(items(12), 5);
    let mut p = MediaPaginator::new(source).expect("first fetch succeeds");
    for _ in 0..5 {
        p.next_item().unwrap().unwrap();
    }
    assert_eq!(current_id(&p), 5);
    let back = p.prev_item().unwrap().unwrap();
    assert_eq!(back.id, 4);
    let forward = p.next_item().unwrap().unwrap();
    assert_eq!(forward.id, 5);
    assert_eq!(current_id(&p), 5);
}

#[test]
fn boundary_next_returns_nothing_and_moves_nothing() {
    let source = VecSource::paginate(items(3), 5);
    let mut p = MediaPaginator::new(source).expect("first fetch succeeds");
    p.next_item().unwrap().unwrap();
    p.next_item().unwrap().unwrap();
    assert_eq!(current_id(&p), 2);
    assert!(!p.has_next());
    assert_eq!(p.next_item().unwrap(), None);
    assert_eq!(current_id(&p), 2);
    assert_eq!(p.fetches_made(), 1);
}

#[test]
fn boundary_prev_returns_nothing_and_moves_nothing() {
    let source = VecSource::paginate(items(3), 5);
    let mut p = MediaPaginator::new(source).expect("first fetch succeeds");
    assert!(!p.has_prev());
    assert_eq!(p.prev_item().unwrap(), None);
    assert_eq!(current_id(&p), 0);
    assert_eq!(p.fetches_made(), 1);
}

#[test]
fn empty_result_offers_nothing() {
    let source = VecSource::paginate(items(0), 5);
    let p = MediaPaginator::new(source).expect("construction still succeeds");
    assert_eq!(p.current_item(), None);
    assert_eq!(p.current_page(), None);
    assert!(!p.has_next());
    assert!(!p.has_prev());
}

#[test]
fn failed_fetch_rolls_back() {
    let inner = VecSource::paginate(items(12), 5);
    let source = FlakyPageSource::new(inner, vec![2]);
    let mut p = MediaPaginator::new(source).expect("page 1 is served");
    for _ in 0..4 {
        p.next_item().unwrap().unwrap();
    }
    assert_eq!(current_id(&p), 4);
    // Crossing needs page 2, which fails: the error surfaces and the cursor
    // stays exactly where it was, still offering the same step.
    assert!(p.next_item().is_err());
    assert_eq!(current_id(&p), 4);
    assert!(p.has_next());
    assert_eq!(p.fetches_made(), 2);
    // Navigation within the cached page still works afterwards.
    let back = p.prev_item().unwrap().unwrap();
    assert_eq!(back.id, 3);
}

#[test]
fn failed_first_fetch_fails_construction() {
    let inner = VecSource::paginate(items(12), 5);
    let source = FlakyPageSource::new(inner, vec![1]);
    assert!(MediaPaginator::new(source).is_err());
}

#[test]
fn paginate_metadata_matches_position() {
    let source = VecSource::paginate(items(12), 5);
    let mut p = MediaPaginator::new(source).expect("first fetch succeeds");
    assert!(p.has_next());
    assert!(!p.has_prev());
    for _ in 0..11 {
        p.next_item().unwrap().unwrap();
    }
    assert_eq!(current_id(&p), 11);
    assert!(!p.has_next());
    assert!(p.has_prev());
    assert_eq!(p.fetches_made(), 3);
}

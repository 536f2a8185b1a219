use mokuroku::media::{LookupMediaPagePageMedia, MediaType};
use mokuroku::store::MemoryWatchList;
use mokuroku::watchlist::{
    status_of_tag, status_tag, toggle_flag_record, toggle_status_record, WatchInfo,
    WatchListCollectionExt, WatchStatus,
};

fn media(id: i64) -> LookupMediaPagePageMedia {
    LookupMediaPagePageMedia { id, title: None }
}

fn record(status: WatchStatus, last: WatchStatus, suggests: bool) -> WatchInfo {
    WatchInfo {
        anilist_media_id: 21,
        discord_user_id: 7,
        media_type: MediaType::Anime,
        watch_status: status,
        last_watch_status: last,
        suggests,
        rating: None,
        updated_at: 100,
        created_at: 100,
    }
}

#[test]
fn fresh_toggle_consuming_then_revert() {
    let mut store = MemoryWatchList::new();
    let rec = store.toggle_consuming(&media(21), 7, 1000).unwrap();
    assert_eq!(rec.watch_status, WatchStatus::Consuming);
    assert_eq!(rec.last_watch_status, WatchStatus::NotSeen);
    assert!(!rec.suggests);
    assert_eq!(rec.created_at, 1000);
    assert_eq!(rec.updated_at, 1000);

    let rec = store.toggle_consuming(&media(21), 7, 2000).unwrap();
    assert_eq!(rec.watch_status, WatchStatus::NotSeen);
    assert_eq!(rec.last_watch_status, WatchStatus::Consuming);
    assert_eq!(rec.created_at, 1000, "creation stamp is kept");
    assert_eq!(rec.updated_at, 2000);
}

#[test]
fn toggle_status_double_press_reverts_for_every_target() {
    let statuses = [WatchStatus::NotSeen, WatchStatus::Consuming, WatchStatus::Finished];
    for &start in &statuses {
        for &last in &statuses {
            for &target in &statuses {
                let r = record(start, last, true);
                let once = toggle_status_record(r, target, 200);
                let twice = toggle_status_record(once, target, 300);
                assert_eq!(twice.watch_status, start, "two presses of {:?} must revert", target);
                assert!(twice.suggests, "the flag is untouched");
            }
        }
    }
}

#[test]
fn toggle_status_different_target_moves_and_remembers() {
    let r = record(WatchStatus::Consuming, WatchStatus::NotSeen, false);
    let after = toggle_status_record(r, WatchStatus::Finished, 200);
    assert_eq!(after.watch_status, WatchStatus::Finished);
    assert_eq!(after.last_watch_status, WatchStatus::Consuming);
    assert_eq!(after.updated_at, 200);
}

#[test]
fn toggle_flag_parity() {
    for initial in [false, true] {
        for n in 0..5 {
            let mut r = record(WatchStatus::Consuming, WatchStatus::NotSeen, initial);
            for _ in 0..n {
                r = toggle_flag_record(r, 500);
            }
            assert_eq!(r.suggests, initial ^ (n % 2 == 1), "after {} toggles from {}", n, initial);
            assert_eq!(r.watch_status, WatchStatus::Consuming, "status fields are untouched");
        }
    }
}

#[test]
fn concurrent_toggles_keep_one_write() {
    // The store serializes two toggles with different targets in one of the
    // two orders; either way the stored status is one of the two targets.
    let mut first_order = MemoryWatchList::new();
    first_order.toggle_consuming(&media(21), 7, 1000).unwrap();
    let rec = first_order.toggle_finish(&media(21), 7, 1001).unwrap();
    assert!(
        rec.watch_status == WatchStatus::Consuming || rec.watch_status == WatchStatus::Finished
    );
    assert_eq!(rec.watch_status, WatchStatus::Finished);

    let mut second_order = MemoryWatchList::new();
    second_order.toggle_finish(&media(21), 7, 1000).unwrap();
    let rec = second_order.toggle_consuming(&media(21), 7, 1001).unwrap();
    assert!(
        rec.watch_status == WatchStatus::Consuming || rec.watch_status == WatchStatus::Finished
    );
    assert_eq!(rec.watch_status, WatchStatus::Consuming);
}

#[test]
fn toggles_on_different_keys_stay_apart() {
    let mut store = MemoryWatchList::new();
    store.toggle_consuming(&media(21), 7, 1000).unwrap();
    store.toggle_finish(&media(22), 7, 1001).unwrap();
    let rec = store.toggle_consuming(&media(21), 8, 1002).unwrap();
    assert_eq!(rec.watch_status, WatchStatus::Consuming);
    assert_eq!(rec.last_watch_status, WatchStatus::NotSeen, "another user's key is fresh");
    let rec = store.toggle_consuming(&media(21), 7, 1003).unwrap();
    assert_eq!(rec.watch_status, WatchStatus::NotSeen, "the first user's record reverts");
}

#[test]
fn suggestion_toggle_is_independent_of_status() {
    let mut store = MemoryWatchList::new();
    store.toggle_finish(&media(21), 7, 1000).unwrap();
    let rec = store.toggle_suggestion(&media(21), 7, 1001).unwrap();
    assert!(rec.suggests);
    assert_eq!(rec.watch_status, WatchStatus::Finished, "status untouched by the flag");
    let rec = store.toggle_suggestion(&media(21), 7, 1002).unwrap();
    assert!(!rec.suggests);
}

#[test]
fn get_watching_lists_matching_ids() {
    let mut store = MemoryWatchList::new();
    store.toggle_consuming(&media(1), 7, 100).unwrap();
    store.toggle_finish(&media(2), 7, 101).unwrap();
    store.toggle_consuming(&media(3), 8, 102).unwrap();
    store.toggle_consuming(&media(4), 7, 103).unwrap();
    store.toggle_consuming(&media(4), 7, 104).unwrap(); // reverts to NotSeen

    // The default keeps finished and currently-consumed entries.
    assert_eq!(store.get_watching(7, None), vec![1, 2]);
    assert_eq!(store.get_watching(8, None), vec![3]);
    assert_eq!(
        store.get_watching(7, Some(vec![WatchStatus::NotSeen])),
        vec![4],
        "the reverted record is still stored"
    );
}

#[test]
fn get_suggesting_lists_flagged_ids() {
    let mut store = MemoryWatchList::new();
    store.toggle_suggestion(&media(1), 7, 100).unwrap();
    store.toggle_suggestion(&media(2), 7, 101).unwrap();
    store.toggle_suggestion(&media(2), 7, 102).unwrap(); // un-suggested again
    store.toggle_suggestion(&media(3), 9, 103).unwrap();
    assert_eq!(store.get_suggesting(7), vec![1]);
    assert_eq!(store.get_suggesting(9), vec![3]);
    assert_eq!(store.get_suggesting(5), Vec::<i64>::new());
}

#[test]
fn status_emoji_and_verb() {
    assert_eq!(WatchStatus::Finished.as_emoji(), "🏁");
    assert_eq!(WatchStatus::Consuming.as_emoji(), "👀");
    assert_eq!(WatchStatus::NotSeen.as_emoji(), "❓");
    assert_eq!(WatchStatus::Finished.as_verb(), "finished");
    assert_eq!(WatchStatus::Consuming.as_verb(), "are watching");
    assert_eq!(WatchStatus::NotSeen.as_verb(), "forgot");
}

#[test]
fn status_tags_round_trip() {
    for status in [WatchStatus::NotSeen, WatchStatus::Consuming, WatchStatus::Finished] {
        assert_eq!(status_of_tag(status_tag(status)), status);
    }
    assert_eq!(status_tag(WatchStatus::Finished), "FINISHED");
    assert_eq!(status_tag(WatchStatus::Consuming), "CONSUMING");
    assert_eq!(status_tag(WatchStatus::NotSeen), "NOT_SEEN");
    assert_eq!(status_of_tag("WATCHING"), WatchStatus::NotSeen, "unknown tags count as not seen");
    assert_eq!(status_of_tag(""), WatchStatus::NotSeen);
}

use mokuroku::media::{LookupMediaPagePageMedia, Title};
use mokuroku::paginator::MediaPaginator;
use mokuroku::session::{EventKind, InteractiveSession, RenderCommand, SessionStatus, UiEvent};
use mokuroku::source::VecSource;
use mokuroku::store::MemoryWatchList;

fn item(id: i64) -> LookupMediaPagePageMedia {
    LookupMediaPagePageMedia {
        id,
        title: Some(Title {
            romaji: None,
            english: None,
            native: None,
            user_preferred: Some(format!("Item {}", id)),
        }),
    }
}

fn session_over(
    n: i64,
    per_page: usize,
) -> InteractiveSession<VecSource, MemoryWatchList> {
    let source = VecSource::paginate((0..n).map(item).collect(), per_page);
    let paginator = MediaPaginator::new(source).expect("first fetch succeeds");
    InteractiveSession::new(paginator, MemoryWatchList::new(), 1_000, 60_000)
}

fn nav_next(actor: u64) -> UiEvent {
    UiEvent { kind: EventKind::NavNext, actor_id: actor }
}

#[test]
fn nav_event_replaces_view() {
    let mut s = session_over(12, 5);
    let out = s.handle_event(&nav_next(7), 2_000);
    assert!(out.store_failure.is_none());
    match out.command {
        RenderCommand::ReplaceView { item, has_prev, has_next } => {
            assert_eq!(item.id, 1);
            assert!(has_prev);
            assert!(has_next);
        },
        other => panic!("expected a view replacement, got {:?}", other),
    }
}

#[test]
fn nav_event_at_boundary_acknowledges() {
    let mut s = session_over(1, 5);
    let out = s.handle_event(&nav_next(7), 2_000);
    assert_eq!(out.command, RenderCommand::Ack);
    assert!(out.store_failure.is_none());
    let out = s.handle_event(&UiEvent { kind: EventKind::NavPrev, actor_id: 7 }, 2_001);
    assert_eq!(out.command, RenderCommand::Ack);
}

#[test]
fn toggle_watch_replies_with_status() {
    let mut s = session_over(12, 5);
    let out = s.handle_event(&UiEvent { kind: EventKind::ToggleWatch, actor_id: 7 }, 2_000);
    assert!(out.store_failure.is_none());
    assert_eq!(
        out.command,
        RenderCommand::EphemeralReply { text: "You are watching _it_ 👀".to_owned() }
    );
    // The same press again reverts and the reply says so.
    let out = s.handle_event(&UiEvent { kind: EventKind::ToggleWatch, actor_id: 7 }, 3_000);
    assert_eq!(
        out.command,
        RenderCommand::EphemeralReply { text: "You forgot _it_ ❓".to_owned() }
    );
}

#[test]
fn toggle_finish_replies_with_status() {
    let mut s = session_over(12, 5);
    let out = s.handle_event(&UiEvent { kind: EventKind::ToggleFinish, actor_id: 7 }, 2_000);
    assert_eq!(
        out.command,
        RenderCommand::EphemeralReply { text: "You finished _it_ 🏁".to_owned() }
    );
}

#[test]
fn toggle_suggest_replies_with_flag() {
    let mut s = session_over(12, 5);
    let out = s.handle_event(&UiEvent { kind: EventKind::ToggleSuggest, actor_id: 7 }, 2_000);
    assert_eq!(
        out.command,
        RenderCommand::EphemeralReply { text: "You are now suggesting _it_ 🌟".to_owned() }
    );
    let out = s.handle_event(&UiEvent { kind: EventKind::ToggleSuggest, actor_id: 7 }, 3_000);
    assert_eq!(
        out.command,
        RenderCommand::EphemeralReply { text: "You are no longer suggesting _it_ ".to_owned() }
    );
}

#[test]
fn status_reply_carries_suggestion_star() {
    let mut s = session_over(12, 5);
    s.handle_event(&UiEvent { kind: EventKind::ToggleSuggest, actor_id: 7 }, 2_000);
    let out = s.handle_event(&UiEvent { kind: EventKind::ToggleWatch, actor_id: 7 }, 3_000);
    assert_eq!(
        out.command,
        RenderCommand::EphemeralReply { text: "You are watching _it_ 👀 🌟".to_owned() }
    );
}

#[test]
fn expiry_clears_controls_exactly_once() {
    let mut s = session_over(12, 5);
    // The deadline is 1_000 + 60_000; before it nothing happens.
    assert_eq!(s.expire_if_due(60_999), None);
    // At the deadline the session expires and asks once to strip controls.
    assert_eq!(s.expire_if_due(61_000), Some(RenderCommand::ClearControls));
    // Never again.
    assert_eq!(s.expire_if_due(61_001), None);
    assert_eq!(s.expire_if_due(999_999), None);
}

#[test]
fn event_after_deadline_is_acknowledged_only() {
    let mut s = session_over(12, 5);
    assert_eq!(s.expire_if_due(61_000), Some(RenderCommand::ClearControls));
    let out = s.handle_event(&nav_next(7), 61_001);
    assert_eq!(out.command, RenderCommand::Ack);
    assert!(out.store_failure.is_none());
    // A toggle after expiry changes no record either: pressing watch later
    // on a fresh session of the same store would have seen it.
    let out = s.handle_event(&UiEvent { kind: EventKind::ToggleWatch, actor_id: 7 }, 61_002);
    assert_eq!(out.command, RenderCommand::Ack);
}

#[test]
fn closed_session_ignores_events_without_clearing() {
    let mut s = session_over(12, 5);
    s.close();
    let out = s.handle_event(&nav_next(7), 2_000);
    assert_eq!(out.command, RenderCommand::Ack);
    // Closing does not strip controls, and an elapsed deadline on a closed
    // session does not either.
    assert_eq!(s.expire_if_due(999_999), None);
}

#[test]
fn session_statuses_are_distinct() {
    assert_ne!(SessionStatus::Active, SessionStatus::Expired);
    assert_ne!(SessionStatus::Expired, SessionStatus::Closed);
}

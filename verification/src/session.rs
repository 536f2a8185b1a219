use vstd::prelude::*;

use vstd::string::StringExecFns;

use crate::media::{LookupMediaPagePageMedia, PageModel};
use crate::paginator::{
    crosses_backward, crosses_forward,
    has_next_at, has_prev_at, item_at, next_cursor, prev_cursor, Cursor, MediaPaginator,
};
use crate::source::PageSource;
use crate::watchlist::{
    status_emoji, status_verb, store_key, upsert_flag, upsert_status, StoreError, WatchInfo,
    WatchListCollectionExt, WatchStatus,
};

verus! {

/// What a user can press while a result view is shown, validated at the
/// system boundary before it reaches a session.
#[derive(Clone, Copy, Debug, PartialEq, Eq, Structural)]
pub enum EventKind {
    NavPrev,
    NavNext,
    ToggleWatch,
    ToggleFinish,
    ToggleSuggest,
}

/// One user interaction: what was pressed and by whom.
#[derive(Clone, Copy, Debug, PartialEq, Eq, Structural)]
pub struct UiEvent {
    pub kind: EventKind,
    pub actor_id: u64,
}

/// The stages of one interactive exchange. `Expired` and `Closed` are
/// terminal: no transition ever leaves them.
#[derive(Clone, Copy, Debug, PartialEq, Eq, Structural)]
pub enum SessionStatus {
    Active,
    Expired,
    Closed,
}

/// What the session asks the renderer to do: replace the shown item and its
/// navigation affordances, post a short reply only the actor sees, strip
/// the interactive controls, or acknowledge without any visible change.
#[derive(Debug, PartialEq, Eq)]
pub enum RenderCommand {
    ReplaceView { item: LookupMediaPagePageMedia, has_prev: bool, has_next: bool },
    EphemeralReply { text: String },
    ClearControls,
    Ack,
}

/// What handling one event produced: exactly one render command, and the
/// store failure to propagate when a toggle could not be carried out.
pub struct EventOutcome {
    pub command: RenderCommand,
    pub store_failure: Option<StoreError>,
}

/// The reply posted after a status toggle: the verb and emoji of the status
/// the record now has, with a star when the record also carries a
/// suggestion.
pub open spec fn status_reply_text(rec: WatchInfo) -> Seq<char> {
    "You "@ + status_verb(rec.watch_status) + " _it_ "@ + status_emoji(rec.watch_status) + if rec.suggests {
        " 🌟"@
    } else {
        Seq::<char>::empty()
    }
}

/// The reply posted after a suggestion toggle, describing the flag's new
/// state.
pub open spec fn suggest_reply_text(rec: WatchInfo) -> Seq<char> {
    "You are "@ + (if rec.suggests {
        "now"@
    } else {
        "no longer"@
    }) + " suggesting _it_ "@ + if rec.suggests {
        "🌟"@
    } else {
        Seq::<char>::empty()
    }
}

/// The reply posted when a toggle failed against the store.
pub open spec fn error_reply_text() -> Seq<char> {
    "There is an error‼"@
}

fn build_status_reply(rec: &WatchInfo) -> (t: String)
    ensures
        t@ == status_reply_text(*rec),
{
    let mut t = "You ".to_owned();
    t.append(rec.watch_status.as_verb());
    t.append(" _it_ ");
    t.append(rec.watch_status.as_emoji());
    if rec.suggests {
        t.append(" 🌟");
    }
    proof {
        assert(t@ =~= status_reply_text(*rec));
    }
    t
}

fn build_suggest_reply(rec: &WatchInfo) -> (t: String)
    ensures
        t@ == suggest_reply_text(*rec),
{
    let mut t = "You are ".to_owned();
    if rec.suggests {
        t.append("now");
    } else {
        t.append("no longer");
    }
    t.append(" suggesting _it_ ");
    if rec.suggests {
        t.append("🌟");
    }
    proof {
        assert(t@ =~= suggest_reply_text(*rec));
    }
    t
}

fn build_error_reply() -> (t: String)
    ensures
        t@ == error_reply_text(),
{
    "There is an error‼".to_owned()
}

/// One bounded interactive exchange: a cursor over a result set, a handle
/// on the record store, and a hard deadline. Events are consumed one at a
/// time; each produces exactly one render command. Once the deadline has
/// been noted or the session closed, every further event is acknowledged
/// and otherwise ignored.
pub struct InteractiveSession<S: PageSource, W: WatchListCollectionExt> {
    paginator: MediaPaginator<S>,
    store: W,
    status: SessionStatus,
    deadline: u64,
}

impl<S: PageSource, W: WatchListCollectionExt> InteractiveSession<S, W> {
    /// The stage the session is in.
    pub closed spec fn status(&self) -> SessionStatus {
        self.status
    }

    /// The instant the session stops reacting to events.
    pub closed spec fn deadline(&self) -> u64 {
        self.deadline
    }

    /// The result set the bound cursor walks.
    pub closed spec fn pages(&self) -> Seq<PageModel> {
        self.paginator.pages()
    }

    /// Where the bound cursor stands.
    pub closed spec fn pos(&self) -> Cursor {
        self.paginator.pos()
    }

    /// What the bound store holds.
    pub closed spec fn records(&self) -> Map<(int, int), WatchInfo> {
        self.store.records()
    }

    /// Whether the source behind the bound cursor may fail a fetch.
    pub closed spec fn src_may_fail(&self) -> bool {
        self.paginator.may_fail()
    }

    /// The structural invariant: the bound cursor keeps its own. It asks
    /// nothing of the source or the store, so it holds of every session the
    /// surrounding program can build, and no event can panic under it.
    pub closed spec fn inv(&self) -> bool {
        self.paginator.inv()
    }

    /// The model invariant: the cursor walks a well-formed result set and
    /// stands on an item — a session is only created for a result that
    /// showed something. Under it every event's outcome is exact.
    pub closed spec fn model_ok(&self) -> bool {
        &&& self.paginator.model_ok()
        &&& item_at(self.paginator.pages(), self.paginator.pos()) is Some
    }

    /// Bind a cursor and a store handle; the session is active until
    /// `now + lifetime`, a deadline fixed once and for all.
    pub fn new(paginator: MediaPaginator<S>, store: W, now: u64, lifetime: u64) -> (r:
        InteractiveSession<S, W>)
        requires
            paginator.inv(),
            now + lifetime <= u64::MAX,
        ensures
            r.inv(),
            r.status() == SessionStatus::Active,
            r.deadline() == now + lifetime,
            r.pages() == paginator.pages(),
            r.pos() == paginator.pos(),
            r.records() == store.records(),
            r.src_may_fail() == paginator.may_fail(),
            paginator.model_ok() && item_at(paginator.pages(), paginator.pos()) is Some
                ==> r.model_ok(),
    {
        InteractiveSession { paginator, store, status: SessionStatus::Active, deadline: now + lifetime }
    }

    /// Note the clock. When an active session's deadline has elapsed it
    /// expires and asks — this once, and never again — for its interactive
    /// controls to be stripped. At any other time nothing happens.
    pub fn expire_if_due(&mut self, now: u64) -> (r: Option<RenderCommand>)
        requires
            old(self).inv(),
        ensures
            final(self).inv(),
            old(self).model_ok() ==> final(self).model_ok(),
            final(self).deadline() == old(self).deadline(),
            final(self).pages() == old(self).pages(),
            final(self).pos() == old(self).pos(),
            final(self).records() == old(self).records(),
            old(self).status() == SessionStatus::Active && now >= old(self).deadline() ==> {
                &&& final(self).status() == SessionStatus::Expired
                &&& r matches Some(cmd) && cmd is ClearControls
            },
            old(self).status() == SessionStatus::Active && now < old(self).deadline() ==> {
                &&& final(self).status() == SessionStatus::Active
                &&& r is None
            },
            old(self).status() != SessionStatus::Active ==> {
                &&& final(self).status() == old(self).status()
                &&& r is None
            },
    {
        if self.status == SessionStatus::Active && now >= self.deadline {
            self.status = SessionStatus::Expired;
            Some(RenderCommand::ClearControls)
        } else {
            None
        }
    }

    /// Tear the session down because its rendered message is gone. An
    /// active session closes; an expired or closed one stays as it is, and
    /// nothing is asked of the renderer since there is nothing to update.
    pub fn close(&mut self)
        requires
            old(self).inv(),
        ensures
            final(self).inv(),
            old(self).model_ok() ==> final(self).model_ok(),
            final(self).deadline() == old(self).deadline(),
            final(self).pages() == old(self).pages(),
            final(self).pos() == old(self).pos(),
            final(self).records() == old(self).records(),
            old(self).status() == SessionStatus::Active ==> final(self).status()
                == SessionStatus::Closed,
            old(self).status() != SessionStatus::Active ==> final(self).status() == old(
                self,
            ).status(),
    {
        if self.status == SessionStatus::Active {
            self.status = SessionStatus::Closed;
        }
    }

    /// Dispatch one event.
    ///
    /// An event reaching a session that is no longer active is acknowledged
    /// and changes nothing. While active: a navigation event moves the
    /// cursor and replaces the view with the item it lands on and the
    /// affordances that hold there; an acknowledgement is allowed only at
    /// the ends of the result set or when the fetch behind a page crossing
    /// failed, and then everything stays as it was — over a source that
    /// cannot fail, a navigation event with somewhere to go always replaces
    /// the view. A toggle event runs the matching atomic upsert against the
    /// store keyed by the shown item and the acting user, and replies what
    /// the record now says; when the store failed it replies the error and
    /// hands the failure back to the caller, never dropping it silently.
    /// Exactly one command comes back for every event, and no event moves
    /// the session between stages.
    pub fn handle_event(&mut self, event: &UiEvent, now: u64) -> (r: EventOutcome)
        requires
            old(self).inv(),
        ensures
            final(self).inv(),
            old(self).model_ok() ==> final(self).model_ok(),
            final(self).status() == old(self).status(),
            final(self).deadline() == old(self).deadline(),
            final(self).pages() == old(self).pages(),
            final(self).src_may_fail() == old(self).src_may_fail(),
            old(self).status() != SessionStatus::Active ==> {
                &&& r.command is Ack
                &&& r.store_failure is None
                &&& final(self).pos() == old(self).pos()
                &&& final(self).records() == old(self).records()
            },
            old(self).status() == SessionStatus::Active ==> match event.kind {
                EventKind::NavNext => r.store_failure is None && final(self).records()
                    == old(self).records(),
                EventKind::NavPrev => r.store_failure is None && final(self).records()
                    == old(self).records(),
                _ => final(self).pos() == old(self).pos() && (r.store_failure is Some
                    ==> final(self).records() == old(self).records()),
            },
            old(self).status() == SessionStatus::Active && old(self).model_ok() ==> match event.kind {
                EventKind::NavNext => {
                    &&& (!has_next_at(old(self).pages(), old(self).pos()) ==> r.command is Ack)
                    &&& (!old(self).src_may_fail() && has_next_at(old(self).pages(), old(self).pos())
                        ==> r.command is ReplaceView)
                    &&& match r.command {
                        RenderCommand::ReplaceView { item, has_prev, has_next } => {
                            &&& final(self).pos() == next_cursor(old(self).pages(), old(self).pos())
                            &&& Some(item) == item_at(final(self).pages(), final(self).pos())
                            &&& has_prev == has_prev_at(final(self).pages(), final(self).pos())
                            &&& has_next == has_next_at(final(self).pages(), final(self).pos())
                        },
                        RenderCommand::Ack => final(self).pos() == old(self).pos() && (
                        !has_next_at(old(self).pages(), old(self).pos()) || crosses_forward(
                            old(self).pages(),
                            old(self).pos(),
                        )),
                        _ => false,
                    }
                },
                EventKind::NavPrev => {
                    &&& (!has_prev_at(old(self).pages(), old(self).pos()) ==> r.command is Ack)
                    &&& (!old(self).src_may_fail() && has_prev_at(old(self).pages(), old(self).pos())
                        ==> r.command is ReplaceView)
                    &&& match r.command {
                        RenderCommand::ReplaceView { item, has_prev, has_next } => {
                            &&& final(self).pos() == prev_cursor(old(self).pages(), old(self).pos())
                            &&& Some(item) == item_at(final(self).pages(), final(self).pos())
                            &&& has_prev == has_prev_at(final(self).pages(), final(self).pos())
                            &&& has_next == has_next_at(final(self).pages(), final(self).pos())
                        },
                        RenderCommand::Ack => final(self).pos() == old(self).pos() && (
                        !has_prev_at(old(self).pages(), old(self).pos()) || crosses_backward(
                            old(self).pages(),
                            old(self).pos(),
                        )),
                        _ => false,
                    }
                },
                EventKind::ToggleWatch => final(self).toggle_outcome_ok(
                    *old(self),
                    *event,
                    now,
                    r,
                    Some(WatchStatus::Consuming),
                ),
                EventKind::ToggleFinish => final(self).toggle_outcome_ok(
                    *old(self),
                    *event,
                    now,
                    r,
                    Some(WatchStatus::Finished),
                ),
                EventKind::ToggleSuggest => final(self).toggle_outcome_ok(*old(self), *event, now, r, None),
            },
    {
        if self.status != SessionStatus::Active {
            return EventOutcome { command: RenderCommand::Ack, store_failure: None };
        }
        match event.kind {
            EventKind::NavNext => {
                match self.paginator.next_item() {
                    Ok(Some(item)) => {
                        let has_prev = self.paginator.has_prev();
                        let has_next = self.paginator.has_next();
                        EventOutcome {
                            command: RenderCommand::ReplaceView { item, has_prev, has_next },
                            store_failure: None,
                        }
                    },
                    Ok(None) => EventOutcome { command: RenderCommand::Ack, store_failure: None },
                    Err(_) => EventOutcome { command: RenderCommand::Ack, store_failure: None },
                }
            },
            EventKind::NavPrev => {
                match self.paginator.prev_item() {
                    Ok(Some(item)) => {
                        let has_prev = self.paginator.has_prev();
                        let has_next = self.paginator.has_next();
                        EventOutcome {
                            command: RenderCommand::ReplaceView { item, has_prev, has_next },
                            store_failure: None,
                        }
                    },
                    Ok(None) => EventOutcome { command: RenderCommand::Ack, store_failure: None },
                    Err(_) => EventOutcome { command: RenderCommand::Ack, store_failure: None },
                }
            },
            EventKind::ToggleWatch => {
                match self.paginator.current_item() {
                    Some(item) => match self.store.toggle_consuming(&item, event.actor_id, now) {
                        Ok(rec) => EventOutcome {
                            command: RenderCommand::EphemeralReply {
                                text: build_status_reply(&rec),
                            },
                            store_failure: None,
                        },
                        Err(e) => EventOutcome {
                            command: RenderCommand::EphemeralReply { text: build_error_reply() },
                            store_failure: Some(e),
                        },
                    },
                    None => EventOutcome { command: RenderCommand::Ack, store_failure: None },
                }
            },
            EventKind::ToggleFinish => {
                match self.paginator.current_item() {
                    Some(item) => match self.store.toggle_finish(&item, event.actor_id, now) {
                        Ok(rec) => EventOutcome {
                            command: RenderCommand::EphemeralReply {
                                text: build_status_reply(&rec),
                            },
                            store_failure: None,
                        },
                        Err(e) => EventOutcome {
                            command: RenderCommand::EphemeralReply { text: build_error_reply() },
                            store_failure: Some(e),
                        },
                    },
                    None => EventOutcome { command: RenderCommand::Ack, store_failure: None },
                }
            },
            EventKind::ToggleSuggest => {
                match self.paginator.current_item() {
                    Some(item) => match self.store.toggle_suggestion(&item, event.actor_id, now) {
                        Ok(rec) => EventOutcome {
                            command: RenderCommand::EphemeralReply {
                                text: build_suggest_reply(&rec),
                            },
                            store_failure: None,
                        },
                        Err(e) => EventOutcome {
                            command: RenderCommand::EphemeralReply { text: build_error_reply() },
                            store_failure: Some(e),
                        },
                    },
                    None => EventOutcome { command: RenderCommand::Ack, store_failure: None },
                }
            },
        }
    }

    /// What a toggle event must have produced on a session whose cursor
    /// stood on an item: the paginator untouched, a reply describing the
    /// record the matching upsert stored — keyed by the shown item and the
    /// acting user — or the error reply with the failure handed back and
    /// the store untouched.
    pub open spec fn toggle_outcome_ok(
        &self,
        pre: Self,
        event: UiEvent,
        now: u64,
        r: EventOutcome,
        target: Option<WatchStatus>,
    ) -> bool {
        let media_id = item_at(pre.pages(), pre.pos()).unwrap().id;
        let rec = match target {
            Some(s) => upsert_status(pre.records(), media_id, event.actor_id, s, now),
            None => upsert_flag(pre.records(), media_id, event.actor_id, now),
        };
        &&& self.pos() == pre.pos()
        &&& match r.command {
            RenderCommand::EphemeralReply { text } => match r.store_failure {
                None => {
                    &&& self.records() == pre.records().insert(
                        store_key(media_id, event.actor_id),
                        rec,
                    )
                    &&& text@ == match target {
                        Some(_) => status_reply_text(rec),
                        None => suggest_reply_text(rec),
                    }
                },
                Some(_) => {
                    &&& self.records() == pre.records()
                    &&& text@ == error_reply_text()
                },
            },
            _ => false,
        }
    }
}

} // verus!

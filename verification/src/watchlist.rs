use vstd::prelude::*;

use vstd::string::StrSliceExecFns;

use crate::media::{LookupMediaPagePageMedia, MediaType};

verus! {

/// The three stages a tracked catalog entry can be in for one user.
#[derive(Clone, Copy, Debug, PartialEq, Eq, Structural)]
pub enum WatchStatus {
    NotSeen,
    Consuming,
    Finished,
}

/// The emoji shown for a status.
pub open spec fn status_emoji(s: WatchStatus) -> Seq<char> {
    match s {
        WatchStatus::Finished => "🏁"@,
        WatchStatus::Consuming => "👀"@,
        WatchStatus::NotSeen => "❓"@,
    }
}

/// The verb phrase a reply uses for a status.
pub open spec fn status_verb(s: WatchStatus) -> Seq<char> {
    match s {
        WatchStatus::Finished => "finished"@,
        WatchStatus::Consuming => "are watching"@,
        WatchStatus::NotSeen => "forgot"@,
    }
}

impl WatchStatus {
    pub fn as_emoji(&self) -> (r: &'static str)
        ensures
            r@ == status_emoji(*self),
    {
        match self {
            WatchStatus::Finished => "🏁",
            WatchStatus::Consuming => "👀",
            WatchStatus::NotSeen => "❓",
        }
    }

    pub fn as_verb(&self) -> (r: &'static str)
        ensures
            r@ == status_verb(*self),
    {
        match self {
            WatchStatus::Finished => "finished",
            WatchStatus::Consuming => "are watching",
            WatchStatus::NotSeen => "forgot",
        }
    }
}

/// The wire tag a status is stored under.
pub open spec fn status_tag_text(s: WatchStatus) -> Seq<char> {
    match s {
        WatchStatus::Finished => "FINISHED"@,
        WatchStatus::Consuming => "CONSUMING"@,
        WatchStatus::NotSeen => "NOT_SEEN"@,
    }
}

/// Encode a status as its wire tag.
pub fn status_tag(s: WatchStatus) -> (r: &'static str)
    ensures
        r@ == status_tag_text(s),
{
    match s {
        WatchStatus::Finished => "FINISHED",
        WatchStatus::Consuming => "CONSUMING",
        WatchStatus::NotSeen => "NOT_SEEN",
    }
}

/// What a wire tag decodes to: the two active tags map back, anything else
/// counts as not seen.
pub open spec fn status_of_tag_spec(t: Seq<char>) -> WatchStatus {
    if t == "FINISHED"@ {
        WatchStatus::Finished
    } else if t == "CONSUMING"@ {
        WatchStatus::Consuming
    } else {
        WatchStatus::NotSeen
    }
}

fn str_eq_chars(a: &str, b: &str) -> (r: bool)
    ensures
        r == (a@ == b@),
{
    let alen = a.unicode_len();
    let blen = b.unicode_len();
    if alen != blen {
        return false;
    }
    let mut i: usize = 0;
    while i < alen
        invariant
            alen == a@.len(),
            blen == b@.len(),
            alen == blen,
            i <= alen,
            forall|j: int| 0 <= j < i ==> a@[j] == b@[j],
        decreases alen - i,
    {
        if a.get_char(i) != b.get_char(i) {
            return false;
        }
        i = i + 1;
    }
    proof {
        assert(a@ =~= b@);
    }
    true
}

/// Decode a wire tag.
pub fn status_of_tag(tag: &str) -> (r: WatchStatus)
    ensures
        r == status_of_tag_spec(tag@),
{
    if str_eq_chars(tag, "FINISHED") {
        WatchStatus::Finished
    } else if str_eq_chars(tag, "CONSUMING") {
        WatchStatus::Consuming
    } else {
        WatchStatus::NotSeen
    }
}

/// Encoding a status and decoding the tag returns the status: the three
/// tags are distinct, and each decodes to the status that produced it.
pub proof fn lemma_status_tag_round_trip(s: WatchStatus)
    ensures
        status_of_tag_spec(status_tag_text(s)) == s,
{
    reveal_strlit("FINISHED");
    reveal_strlit("CONSUMING");
    reveal_strlit("NOT_SEEN");
    assert("NOT_SEEN"@[0] != "FINISHED"@[0]);
    assert("CONSUMING"@.len() != "FINISHED"@.len());
}

/// One user's record against one catalog entry. There is at most one record
/// per (entry, user) pair; it is created on first touch and never deleted,
/// and `last_watch_status` keeps the status that the current one replaced.
/// Instants are kept as plain milliseconds.
#[derive(Debug, PartialEq, Eq)]
pub struct WatchInfo {
    pub anilist_media_id: i64,
    pub discord_user_id: u64,
    pub media_type: MediaType,
    pub watch_status: WatchStatus,
    pub last_watch_status: WatchStatus,
    pub suggests: bool,
    pub rating: Option<u8>,
    pub updated_at: u64,
    pub created_at: u64,
}

impl Clone for WatchInfo {
    fn clone(&self) -> (res: Self)
        ensures
            res == *self,
    {
        WatchInfo {
            anilist_media_id: self.anilist_media_id,
            discord_user_id: self.discord_user_id,
            media_type: self.media_type.clone(),
            watch_status: self.watch_status,
            last_watch_status: self.last_watch_status,
            suggests: self.suggests,
            rating: self.rating,
            updated_at: self.updated_at,
            created_at: self.created_at,
        }
    }
}

/// The record a first touch creates, before any transformation runs: not
/// seen, nothing remembered, not suggested, unrated, both instants stamped
/// with the moment of creation.
pub open spec fn fresh_watch_info(media_id: i64, user_id: u64, now: u64) -> WatchInfo {
    WatchInfo {
        anilist_media_id: media_id,
        discord_user_id: user_id,
        media_type: MediaType::Anime,
        watch_status: WatchStatus::NotSeen,
        last_watch_status: WatchStatus::NotSeen,
        suggests: false,
        rating: None,
        updated_at: now,
        created_at: now,
    }
}

/// Build the record a first touch creates.
pub fn make_fresh_watch_info(media_id: i64, user_id: u64, now: u64) -> (r: WatchInfo)
    ensures
        r == fresh_watch_info(media_id, user_id, now),
{
    WatchInfo {
        anilist_media_id: media_id,
        discord_user_id: user_id,
        media_type: MediaType::Anime,
        watch_status: WatchStatus::NotSeen,
        last_watch_status: WatchStatus::NotSeen,
        suggests: false,
        rating: None,
        updated_at: now,
        created_at: now,
    }
}

/// The status toggle: pressing the status the record already has reverts to
/// whatever that status had replaced, pressing another status moves to it;
/// either way the replaced status is remembered and the record is
/// re-stamped. Everything else is untouched.
pub open spec fn toggle_status_spec(r: WatchInfo, target: WatchStatus, now: u64) -> WatchInfo {
    WatchInfo {
        watch_status: if r.watch_status == target {
            r.last_watch_status
        } else {
            target
        },
        last_watch_status: r.watch_status,
        updated_at: now,
        ..r
    }
}

/// The suggestion toggle: a plain negation of the flag, independent of the
/// status fields, with the record re-stamped.
pub open spec fn toggle_flag_spec(r: WatchInfo, now: u64) -> WatchInfo {
    WatchInfo { suggests: !r.suggests, updated_at: now, ..r }
}

/// Apply the status toggle to a record.
pub fn toggle_status_record(r: WatchInfo, target: WatchStatus, now: u64) -> (res: WatchInfo)
    ensures
        res == toggle_status_spec(r, target, now),
{
    let next = if r.watch_status == target {
        r.last_watch_status
    } else {
        target
    };
    WatchInfo {
        watch_status: next,
        last_watch_status: r.watch_status,
        updated_at: now,
        anilist_media_id: r.anilist_media_id,
        discord_user_id: r.discord_user_id,
        media_type: r.media_type,
        suggests: r.suggests,
        rating: r.rating,
        created_at: r.created_at,
    }
}

/// Apply the suggestion toggle to a record.
pub fn toggle_flag_record(r: WatchInfo, now: u64) -> (res: WatchInfo)
    ensures
        res == toggle_flag_spec(r, now),
{
    WatchInfo {
        suggests: !r.suggests,
        updated_at: now,
        anilist_media_id: r.anilist_media_id,
        discord_user_id: r.discord_user_id,
        media_type: r.media_type,
        watch_status: r.watch_status,
        last_watch_status: r.last_watch_status,
        rating: r.rating,
        created_at: r.created_at,
    }
}

/// Pressing the same status twice in a row returns the record to the status
/// it had before the first press, for every target status, and touches
/// neither the suggestion flag nor the identity of the record.
pub proof fn lemma_toggle_status_reversible(r: WatchInfo, s: WatchStatus, t1: u64, t2: u64)
    ensures
        toggle_status_spec(toggle_status_spec(r, s, t1), s, t2).watch_status == r.watch_status,
        toggle_status_spec(toggle_status_spec(r, s, t1), s, t2).suggests == r.suggests,
        toggle_status_spec(toggle_status_spec(r, s, t1), s, t2).anilist_media_id
            == r.anilist_media_id,
        toggle_status_spec(toggle_status_spec(r, s, t1), s, t2).discord_user_id
            == r.discord_user_id,
{
}

/// How many suggestion toggles in a row leave the flag: `n` presses flip it
/// exactly when `n` is odd, and nothing else of the record moves but the
/// stamp.
pub open spec fn toggle_flag_n_times(r: WatchInfo, n: nat, now: u64) -> WatchInfo
    decreases n,
{
    if n == 0 {
        r
    } else {
        toggle_flag_spec(toggle_flag_n_times(r, (n - 1) as nat, now), now)
    }
}

/// The flag after `n` consecutive suggestion toggles is the initial flag
/// flipped exactly when `n` is odd; the status fields never move.
pub proof fn lemma_toggle_flag_parity(r: WatchInfo, n: nat, now: u64)
    ensures
        toggle_flag_n_times(r, n, now).suggests == if n % 2 == 1 {
            !r.suggests
        } else {
            r.suggests
        },
        toggle_flag_n_times(r, n, now).watch_status == r.watch_status,
        toggle_flag_n_times(r, n, now).last_watch_status == r.last_watch_status,
    decreases n,
{
    if n > 0 {
        lemma_toggle_flag_parity(r, (n - 1) as nat, now);
    }
}

/// Two status toggles with different targets, serialized by the store in
/// whichever order, never lose a write: the status they leave behind is one
/// of the two targets, never anything merged or stale. (With equal targets
/// the second press is by design the revert of the first.)
pub proof fn lemma_concurrent_toggles_keep_a_write(
    r: WatchInfo,
    s1: WatchStatus,
    s2: WatchStatus,
    t1: u64,
    t2: u64,
)
    requires
        s1 != s2,
    ensures
        toggle_status_spec(toggle_status_spec(r, s1, t1), s2, t2).watch_status == s1
            || toggle_status_spec(toggle_status_spec(r, s1, t1), s2, t2).watch_status == s2,
{
}

/// How a toggle against the record store can fail: the store could not be
/// reached (nothing was changed), or its atomic primitive gave up retrying
/// under contention (nothing was changed either — a change is never
/// silently dropped).
#[derive(Clone, Copy, Debug, PartialEq, Eq, Structural)]
pub enum StoreError {
    StoreUnavailable,
    ConflictRetryExceeded,
}

/// The key a record is stored under: the catalog entry and the user.
pub open spec fn store_key(media_id: i64, user_id: u64) -> (int, int) {
    (media_id as int, user_id as int)
}

/// The record the upserting toggle starts from: the stored one, or on first
/// touch the fresh default, created atomically with the transformation.
pub open spec fn prev_or_fresh(
    m: Map<(int, int), WatchInfo>,
    media_id: i64,
    user_id: u64,
    now: u64,
) -> WatchInfo {
    if m.dom().contains(store_key(media_id, user_id)) {
        m[store_key(media_id, user_id)]
    } else {
        fresh_watch_info(media_id, user_id, now)
    }
}

/// What one atomic upserting status toggle stores and returns.
pub open spec fn upsert_status(
    m: Map<(int, int), WatchInfo>,
    media_id: i64,
    user_id: u64,
    target: WatchStatus,
    now: u64,
) -> WatchInfo {
    toggle_status_spec(prev_or_fresh(m, media_id, user_id, now), target, now)
}

/// What one atomic upserting suggestion toggle stores and returns.
pub open spec fn upsert_flag(
    m: Map<(int, int), WatchInfo>,
    media_id: i64,
    user_id: u64,
    now: u64,
) -> WatchInfo {
    toggle_flag_spec(prev_or_fresh(m, media_id, user_id, now), now)
}

/// A keyed store of watch records with the three atomic upserting toggles.
/// Each call either returns the record as stored after the change — the
/// store then holds exactly that record under its key and nothing else
/// moved — or fails with the store left untouched: a requested change is
/// never silently dropped.
pub trait WatchListCollectionExt: Sized {
    /// The records the store holds, by key. A store the verifier never sees
    /// (one the surrounding program implements over a remote database)
    /// keeps the default, which promises nothing.
    open spec fn records(&self) -> Map<(int, int), WatchInfo> {
        Map::empty()
    }

    /// Toggle the watching status for `media` and `user_id`, atomically,
    /// creating the record on first touch.
    fn toggle_consuming(&mut self, media: &LookupMediaPagePageMedia, user_id: u64, now: u64) -> (r:
        Result<WatchInfo, StoreError>)
        ensures
            match r {
                Ok(rec) => rec == upsert_status(
                    old(self).records(),
                    media.id,
                    user_id,
                    WatchStatus::Consuming,
                    now,
                ) && final(self).records() == old(self).records().insert(
                    store_key(media.id, user_id),
                    rec,
                ),
                Err(_) => final(self).records() == old(self).records(),
            },
    ;

    /// Toggle the finished status for `media` and `user_id`, atomically,
    /// creating the record on first touch.
    fn toggle_finish(&mut self, media: &LookupMediaPagePageMedia, user_id: u64, now: u64) -> (r:
        Result<WatchInfo, StoreError>)
        ensures
            match r {
                Ok(rec) => rec == upsert_status(
                    old(self).records(),
                    media.id,
                    user_id,
                    WatchStatus::Finished,
                    now,
                ) && final(self).records() == old(self).records().insert(
                    store_key(media.id, user_id),
                    rec,
                ),
                Err(_) => final(self).records() == old(self).records(),
            },
    ;

    /// Toggle the suggestion flag for `media` and `user_id`, atomically,
    /// creating the record on first touch.
    fn toggle_suggestion(&mut self, media: &LookupMediaPagePageMedia, user_id: u64, now: u64) -> (
        r: Result<WatchInfo, StoreError>)
        ensures
            match r {
                Ok(rec) => rec == upsert_flag(old(self).records(), media.id, user_id, now)
                    && final(self).records() == old(self).records().insert(
                    store_key(media.id, user_id),
                    rec,
                ),
                Err(_) => final(self).records() == old(self).records(),
            },
    ;
}

} // verus!

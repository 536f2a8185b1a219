use vstd::prelude::*;

use vstd::pervasive::VecAdditionalExecFns;

use crate::media::LookupMediaPagePageMedia;
use crate::watchlist::{
    make_fresh_watch_info, store_key, toggle_flag_record, toggle_status_record, upsert_flag,
    upsert_status, StoreError, WatchInfo, WatchListCollectionExt, WatchStatus,
};

verus! {

/// The key a record is stored under, read off the record itself.
pub open spec fn key_of(r: WatchInfo) -> (int, int) {
    (r.anilist_media_id as int, r.discord_user_id as int)
}

/// The keyed view of a sequence of records. Should two records ever share a
/// key, the earlier one wins, matching a search from the front.
pub open spec fn map_of(s: Seq<WatchInfo>) -> Map<(int, int), WatchInfo>
    decreases s.len(),
{
    if s.len() == 0 {
        Map::empty()
    } else {
        map_of(s.drop_first()).insert(key_of(s[0]), s[0])
    }
}

/// A key is in the keyed view exactly when some record carries it.
proof fn lemma_map_of_contains(s: Seq<WatchInfo>, k: (int, int))
    ensures
        map_of(s).dom().contains(k) <==> exists|j: int| 0 <= j < s.len() && key_of(s[j]) == k,
    decreases s.len(),
{
    if s.len() > 0 {
        lemma_map_of_contains(s.drop_first(), k);
        if key_of(s[0]) == k {
            assert(key_of(s[0]) == k && 0 < s.len());
        } else if map_of(s).dom().contains(k) {
            let j = choose|j: int| 0 <= j < s.drop_first().len() && key_of(s.drop_first()[j]) == k;
            assert(key_of(s[j + 1]) == k);
        } else {
            assert forall|j: int| 0 <= j < s.len() implies key_of(s[j]) != k by {
                if j > 0 {
                    assert(s.drop_first()[j - 1] == s[j]);
                }
            }
        }
    }
}

/// The keyed view maps a key to the first record that carries it.
proof fn lemma_map_of_first(s: Seq<WatchInfo>, i: int, k: (int, int))
    requires
        0 <= i < s.len(),
        key_of(s[i]) == k,
        forall|j: int| 0 <= j < i ==> key_of(s[j]) != k,
    ensures
        map_of(s).dom().contains(k),
        map_of(s)[k] == s[i],
    decreases s.len(),
{
    if i == 0 {
    } else {
        assert(s.drop_first()[i - 1] == s[i]);
        assert forall|j: int| 0 <= j < i - 1 implies key_of(s.drop_first()[j]) != k by {
            assert(s.drop_first()[j] == s[j + 1]);
        }
        lemma_map_of_first(s.drop_first(), i - 1, k);
        assert(key_of(s[0]) != k);
    }
}

/// Overwriting the first record that carries a key updates the keyed view
/// at that key and nowhere else.
proof fn lemma_map_of_update(s: Seq<WatchInfo>, i: int, r: WatchInfo, k: (int, int))
    requires
        0 <= i < s.len(),
        key_of(s[i]) == k,
        forall|j: int| 0 <= j < i ==> key_of(s[j]) != k,
        key_of(r) == k,
    ensures
        map_of(s.update(i, r)) == map_of(s).insert(k, r),
    decreases s.len(),
{
    let t = s.update(i, r);
    if i == 0 {
        assert(t.drop_first() =~= s.drop_first());
        assert(map_of(t) == map_of(s.drop_first()).insert(k, r));
        assert(map_of(s).insert(k, r) =~= map_of(s.drop_first()).insert(k, r));
    } else {
        assert(t.drop_first() =~= s.drop_first().update(i - 1, r));
        assert(s.drop_first()[i - 1] == s[i]);
        assert forall|j: int| 0 <= j < i - 1 implies key_of(s.drop_first()[j]) != k by {
            assert(s.drop_first()[j] == s[j + 1]);
        }
        lemma_map_of_update(s.drop_first(), i - 1, r, k);
        assert(t[0] == s[0]);
        assert(map_of(t) == map_of(s.drop_first()).insert(k, r).insert(key_of(s[0]), s[0]));
        assert(key_of(s[0]) != k);
        assert(map_of(s.drop_first()).insert(k, r).insert(key_of(s[0]), s[0])
            =~= map_of(s.drop_first()).insert(key_of(s[0]), s[0]).insert(k, r));
    }
}

/// Appending a record whose key no stored record carries adds exactly that
/// record to the keyed view.
proof fn lemma_map_of_push(s: Seq<WatchInfo>, r: WatchInfo)
    requires
        forall|j: int| 0 <= j < s.len() ==> key_of(s[j]) != key_of(r),
    ensures
        map_of(s.push(r)) == map_of(s).insert(key_of(r), r),
    decreases s.len(),
{
    if s.len() == 0 {
        let t = s.push(r);
        assert(t.len() == 1);
        assert(t[0] == r);
        assert(t.drop_first() =~= Seq::<WatchInfo>::empty());
        assert(map_of(t.drop_first()) == Map::<(int, int), WatchInfo>::empty());
        assert(map_of(t) == map_of(t.drop_first()).insert(key_of(t[0]), t[0]));
        assert(map_of(s) == Map::<(int, int), WatchInfo>::empty());
        assert(map_of(t) == map_of(s).insert(key_of(r), r));
    } else {
        assert(s.push(r).drop_first() =~= s.drop_first().push(r));
        assert forall|j: int| 0 <= j < s.drop_first().len() implies key_of(s.drop_first()[j])
            != key_of(r) by {
            assert(s.drop_first()[j] == s[j + 1]);
        }
        lemma_map_of_push(s.drop_first(), r);
        assert(s.push(r)[0] == s[0]);
        assert(map_of(s.push(r)) == map_of(s.drop_first()).insert(key_of(r), r).insert(
            key_of(s[0]),
            s[0],
        ));
        assert(key_of(s[0]) != key_of(r));
        assert(map_of(s.drop_first()).insert(key_of(r), r).insert(key_of(s[0]), s[0])
            =~= map_of(s.drop_first()).insert(key_of(s[0]), s[0]).insert(key_of(r), r));
    }
}

/// An in-memory record store. Its single vector plays the part of the
/// remote collection; every toggle is the atomic find-and-modify-with-
/// upsert the trait asks for, and in memory it cannot fail.
pub struct MemoryWatchList {
    records_vec: Vec<WatchInfo>,
}

impl MemoryWatchList {
    /// The stored records in storage order.
    pub closed spec fn entries(&self) -> Seq<WatchInfo> {
        self.records_vec@
    }

    /// An empty store.
    pub fn new() -> (r: MemoryWatchList)
        ensures
            r.records() == Map::<(int, int), WatchInfo>::empty(),
            r.entries() == Seq::<WatchInfo>::empty(),
    {
        MemoryWatchList { records_vec: Vec::new() }
    }

    /// The index of the record stored under the given key, if any.
    fn find_index(&self, media_id: i64, user_id: u64) -> (r: Option<usize>)
        ensures
            match r {
                Some(i) => {
                    &&& i < self.entries().len()
                    &&& key_of(self.entries()[i as int]) == store_key(media_id, user_id)
                    &&& forall|j: int|
                        0 <= j < i ==> key_of(self.entries()[j]) != store_key(media_id, user_id)
                },
                None => forall|j: int|
                    0 <= j < self.entries().len() ==> key_of(self.entries()[j]) != store_key(
                        media_id,
                        user_id,
                    ),
            },
    {
        let mut i: usize = 0;
        while i < self.records_vec.len()
            invariant
                i <= self.records_vec.len(),
                forall|j: int|
                    0 <= j < i ==> key_of(self.records_vec@[j]) != store_key(media_id, user_id),
            decreases self.records_vec.len() - i,
        {
            if self.records_vec[i].anilist_media_id == media_id
                && self.records_vec[i].discord_user_id == user_id {
                return Some(i);
            }
            i = i + 1;
        }
        None
    }

    /// One atomic status toggle against the vector: load or create the
    /// record under the key, transform it, store it back, return it.
    fn apply_status(&mut self, media_id: i64, user_id: u64, target: WatchStatus, now: u64) -> (rec:
        WatchInfo)
        ensures
            rec == upsert_status(old(self).records(), media_id, user_id, target, now),
            final(self).records() == old(self).records().insert(store_key(media_id, user_id), rec),
    {
        let ghost k = store_key(media_id, user_id);
        match self.find_index(media_id, user_id) {
            Some(i) => {
                proof {
                    lemma_map_of_first(self.entries(), i as int, k);
                }
                let prev = self.records_vec[i].clone();
                let updated = toggle_status_record(prev, target, now);
                let stored = updated.clone();
                proof {
                    lemma_map_of_update(self.entries(), i as int, stored, k);
                }
                self.records_vec.set(i, stored);
                updated
            },
            None => {
                proof {
                    lemma_map_of_contains(self.entries(), k);
                }
                let fresh = make_fresh_watch_info(media_id, user_id, now);
                let updated = toggle_status_record(fresh, target, now);
                let stored = updated.clone();
                proof {
                    lemma_map_of_push(self.entries(), stored);
                }
                self.records_vec.push(stored);
                updated
            },
        }
    }

    /// One atomic suggestion toggle against the vector.
    fn apply_flag(&mut self, media_id: i64, user_id: u64, now: u64) -> (rec: WatchInfo)
        ensures
            rec == upsert_flag(old(self).records(), media_id, user_id, now),
            final(self).records() == old(self).records().insert(store_key(media_id, user_id), rec),
    {
        let ghost k = store_key(media_id, user_id);
        match self.find_index(media_id, user_id) {
            Some(i) => {
                proof {
                    lemma_map_of_first(self.entries(), i as int, k);
                }
                let prev = self.records_vec[i].clone();
                let updated = toggle_flag_record(prev, now);
                let stored = updated.clone();
                proof {
                    lemma_map_of_update(self.entries(), i as int, stored, k);
                }
                self.records_vec.set(i, stored);
                updated
            },
            None => {
                proof {
                    lemma_map_of_contains(self.entries(), k);
                }
                let fresh = make_fresh_watch_info(media_id, user_id, now);
                let updated = toggle_flag_record(fresh, now);
                let stored = updated.clone();
                proof {
                    lemma_map_of_push(self.entries(), stored);
                }
                self.records_vec.push(stored);
                updated
            },
        }
    }
}

/// The entry ids a listing of `user_id`'s records returns when it keeps the
/// statuses in `statuses`: the ids of the matching records, in storage
/// order.
pub open spec fn watching_ids(
    s: Seq<WatchInfo>,
    user_id: u64,
    statuses: Seq<WatchStatus>,
) -> Seq<i64>
    decreases s.len(),
{
    if s.len() == 0 {
        Seq::empty()
    } else {
        let rest = watching_ids(s.drop_last(), user_id, statuses);
        if s.last().discord_user_id == user_id && statuses.contains(s.last().watch_status) {
            rest.push(s.last().anilist_media_id)
        } else {
            rest
        }
    }
}

/// The entry ids a listing of `user_id`'s suggestions returns: the ids of
/// the records whose suggestion flag is set, in storage order.
pub open spec fn suggesting_ids(s: Seq<WatchInfo>, user_id: u64) -> Seq<i64>
    decreases s.len(),
{
    if s.len() == 0 {
        Seq::empty()
    } else {
        let rest = suggesting_ids(s.drop_last(), user_id);
        if s.last().discord_user_id == user_id && s.last().suggests {
            rest.push(s.last().anilist_media_id)
        } else {
            rest
        }
    }
}

fn contains_status(v: &Vec<WatchStatus>, s: WatchStatus) -> (r: bool)
    ensures
        r == v@.contains(s),
{
    let mut i: usize = 0;
    while i < v.len()
        invariant
            i <= v.len(),
            forall|j: int| 0 <= j < i ==> v@[j] != s,
        decreases v.len() - i,
    {
        if v[i] == s {
            return true;
        }
        i = i + 1;
    }
    false
}

impl MemoryWatchList {
    /// The ids of the entries `user_id` has records for whose status is one
    /// of `statuses` — by default the finished and the currently-consumed
    /// ones.
    pub fn get_watching(&self, user_id: u64, statuses: Option<Vec<WatchStatus>>) -> (r: Vec<i64>)
        ensures
            r@ == watching_ids(
                self.entries(),
                user_id,
                match statuses {
                    Some(v) => v@,
                    None => seq![WatchStatus::Finished, WatchStatus::Consuming],
                },
            ),
    {
        let sts: Vec<WatchStatus> = match statuses {
            Some(v) => v,
            None => {
                let d = vec![WatchStatus::Finished, WatchStatus::Consuming];
                proof {
                    assert(d@ =~= seq![WatchStatus::Finished, WatchStatus::Consuming]);
                }
                d
            },
        };
        let mut out: Vec<i64> = Vec::new();
        let mut i: usize = 0;
        while i < self.records_vec.len()
            invariant
                i <= self.records_vec.len(),
                out@ == watching_ids(self.records_vec@.take(i as int), user_id, sts@),
            decreases self.records_vec.len() - i,
        {
            proof {
                assert(self.records_vec@.take(i + 1).drop_last() =~= self.records_vec@.take(
                    i as int,
                ));
                assert(self.records_vec@.take(i + 1).last() == self.records_vec@[i as int]);
            }
            if self.records_vec[i].discord_user_id == user_id && contains_status(
                &sts,
                self.records_vec[i].watch_status,
            ) {
                out.push(self.records_vec[i].anilist_media_id);
            }
            i = i + 1;
        }
        proof {
            assert(self.records_vec@.take(self.records_vec@.len() as int) =~= self.records_vec@);
        }
        out
    }

    /// The ids of the entries `user_id` suggests.
    pub fn get_suggesting(&self, user_id: u64) -> (r: Vec<i64>)
        ensures
            r@ == suggesting_ids(self.entries(), user_id),
    {
        let mut out: Vec<i64> = Vec::new();
        let mut i: usize = 0;
        while i < self.records_vec.len()
            invariant
                i <= self.records_vec.len(),
                out@ == suggesting_ids(self.records_vec@.take(i as int), user_id),
            decreases self.records_vec.len() - i,
        {
            proof {
                assert(self.records_vec@.take(i + 1).drop_last() =~= self.records_vec@.take(
                    i as int,
                ));
                assert(self.records_vec@.take(i + 1).last() == self.records_vec@[i as int]);
            }
            if self.records_vec[i].discord_user_id == user_id && self.records_vec[i].suggests {
                out.push(self.records_vec[i].anilist_media_id);
            }
            i = i + 1;
        }
        proof {
            assert(self.records_vec@.take(self.records_vec@.len() as int) =~= self.records_vec@);
        }
        out
    }
}

impl WatchListCollectionExt for MemoryWatchList {
    closed spec fn records(&self) -> Map<(int, int), WatchInfo> {
        map_of(self.records_vec@)
    }

    fn toggle_consuming(&mut self, media: &LookupMediaPagePageMedia, user_id: u64, now: u64) -> (r:
        Result<WatchInfo, StoreError>)
        ensures
            r is Ok,
    {
        Ok(self.apply_status(media.id, user_id, WatchStatus::Consuming, now))
    }

    fn toggle_finish(&mut self, media: &LookupMediaPagePageMedia, user_id: u64, now: u64) -> (r:
        Result<WatchInfo, StoreError>)
        ensures
            r is Ok,
    {
        Ok(self.apply_status(media.id, user_id, WatchStatus::Finished, now))
    }

    fn toggle_suggestion(&mut self, media: &LookupMediaPagePageMedia, user_id: u64, now: u64) -> (
        r: Result<WatchInfo, StoreError>)
        ensures
            r is Ok,
    {
        Ok(self.apply_flag(media.id, user_id, now))
    }
}

} // verus!

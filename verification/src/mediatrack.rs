use vstd::prelude::*;

use vstd::string::StringExecFns;

use crate::media::MediaType;

verus! {

/// The release season a tracked entry is grouped under, or the bucket for
/// entries whose release date is not known yet.
#[derive(Clone, Copy, Debug, PartialEq, Eq, Structural)]
pub enum Season {
    Spring(i32),
    Summer(i32),
    Fall(i32),
    Winter(i32),
    Upcomming,
}

/// The season a release month falls in, as the store's grouping arithmetic
/// computes it: February to April count as spring, May to July as summer,
/// August to October as fall, November and December as winter — and
/// January, through the truncation in that arithmetic, folds into spring.
pub open spec fn season_spec(year: i32, month: i32) -> Season {
    if 5 <= month <= 7 {
        Season::Summer(year)
    } else if 8 <= month <= 10 {
        Season::Fall(year)
    } else if 11 <= month <= 12 {
        Season::Winter(year)
    } else {
        Season::Spring(year)
    }
}

/// Group a release date into its season.
pub fn season_of(year: i32, month: i32) -> (r: Season)
    requires
        1 <= month <= 12,
    ensures
        r == season_spec(year, month),
{
    let m: u32 = month as u32;
    let idx: u32 = if m >= 2 {
        (m - 2) / 3
    } else {
        0
    };
    if idx == 1 {
        Season::Summer(year)
    } else if idx == 2 {
        Season::Fall(year)
    } else if idx == 3 {
        Season::Winter(year)
    } else {
        Season::Spring(year)
    }
}

/// One tracked entry as the season listing shows it.
#[derive(Debug, PartialEq, Eq)]
pub struct MediaTrack {
    pub title: String,
    pub suggests: bool,
    pub media_type: MediaType,
}

/// The line shown for a tracked entry: a marker that tells suggestions
/// apart, then the title.
pub open spec fn media_track_text(m: MediaTrack) -> Seq<char> {
    (if m.suggests {
        "🔸 "@
    } else {
        "▪ "@
    }) + m.title@
}

impl MediaTrack {
    /// The line shown for this tracked entry.
    pub fn text(&self) -> (t: String)
        ensures
            t@ == media_track_text(*self),
    {
        let mut t = if self.suggests {
            "🔸 ".to_owned()
        } else {
            "▪ ".to_owned()
        };
        t.append(self.title.as_str());
        t
    }
}

/// One group of the season listing: a season and the tracked entries that
/// fall in it.
#[derive(Debug, PartialEq, Eq)]
pub struct MediaTrackSeason {
    pub release_season: Season,
    pub media: Vec<MediaTrack>,
}

/// One stored record as the season listing reads it: the display title, the
/// suggestion flag, the kind, and what is known of the release date.
#[derive(Debug, PartialEq, Eq)]
pub struct TrackedRecord {
    pub title: String,
    pub suggests: bool,
    pub media_type: MediaType,
    pub release_year: Option<i32>,
    pub release_month: Option<i32>,
}

impl Clone for TrackedRecord {
    fn clone(&self) -> (res: Self)
        ensures
            res == *self,
    {
        TrackedRecord {
            title: self.title.clone(),
            suggests: self.suggests,
            media_type: self.media_type.clone(),
            release_year: self.release_year,
            release_month: self.release_month,
        }
    }
}

/// The season bucket a record falls in: the season of its release date, or
/// the not-yet-dated bucket when the year or the month is missing (a month
/// outside the calendar counts as missing).
pub open spec fn season_key_spec(r: TrackedRecord) -> Season {
    match (r.release_year, r.release_month) {
        (Some(y), Some(m)) => if 1 <= m <= 12 {
            season_spec(y, m)
        } else {
            Season::Upcomming
        },
        _ => Season::Upcomming,
    }
}

/// The season bucket a record falls in.
pub fn season_key(r: &TrackedRecord) -> (s: Season)
    ensures
        s == season_key_spec(*r),
{
    match (r.release_year, r.release_month) {
        (Some(y), Some(m)) => {
            if 1 <= m && m <= 12 {
                season_of(y, m)
            } else {
                Season::Upcomming
            }
        },
        _ => Season::Upcomming,
    }
}

/// Where a season sorts in the listing, as a rank triple compared
/// lexicographically: the not-yet-dated bucket above everything, then by
/// year, and within one year winter above fall above summer above spring —
/// the latest seasons first.
pub open spec fn season_rank(s: Season) -> (int, int, int) {
    match s {
        Season::Upcomming => (1, 0, 0),
        Season::Winter(y) => (0, y as int, 3),
        Season::Fall(y) => (0, y as int, 2),
        Season::Summer(y) => (0, y as int, 1),
        Season::Spring(y) => (0, y as int, 0),
    }
}

/// Whether season `a` is listed strictly before season `b`.
pub open spec fn season_before(a: Season, b: Season) -> bool {
    let ra = season_rank(a);
    let rb = season_rank(b);
    ra.0 > rb.0 || (ra.0 == rb.0 && (ra.1 > rb.1 || (ra.1 == rb.1 && ra.2 > rb.2)))
}

/// The listing order is total: two seasons are equal or one is listed
/// before the other, never both.
pub proof fn lemma_season_order_total(a: Season, b: Season)
    ensures
        a == b || season_before(a, b) || season_before(b, a),
        season_before(a, b) ==> !season_before(b, a),
        season_before(a, b) ==> a != b,
{
}

/// The listing order is transitive.
pub proof fn lemma_season_order_trans(a: Season, b: Season, c: Season)
    requires
        season_before(a, b),
        season_before(b, c),
    ensures
        season_before(a, c),
{
}

fn season_rank_parts(s: &Season) -> (r: (u8, i32, u8))
    ensures
        (r.0 as int, r.1 as int, r.2 as int) == season_rank(*s),
{
    match s {
        Season::Upcomming => (1u8, 0i32, 0u8),
        Season::Winter(y) => (0u8, *y, 3u8),
        Season::Fall(y) => (0u8, *y, 2u8),
        Season::Summer(y) => (0u8, *y, 1u8),
        Season::Spring(y) => (0u8, *y, 0u8),
    }
}

fn season_precedes(a: &Season, b: &Season) -> (r: bool)
    ensures
        r == season_before(*a, *b),
{
    let ra = season_rank_parts(a);
    let rb = season_rank_parts(b);
    ra.0 > rb.0 || (ra.0 == rb.0 && (ra.1 > rb.1 || (ra.1 == rb.1 && ra.2 > rb.2)))
}

/// A sequence of seasons in listing order, strictly, so without repeats.
pub open spec fn seasons_sorted(s: Seq<Season>) -> bool {
    forall|i: int, j: int| 0 <= i < j < s.len() ==> season_before(s[i], s[j])
}

/// The line entries for the records of `s` that fall in season `key`, in
/// their stored order.
pub open spec fn tracks_for(s: Seq<TrackedRecord>, key: Season) -> Seq<MediaTrack>
    decreases s.len(),
{
    if s.len() == 0 {
        Seq::empty()
    } else {
        let rest = tracks_for(s.drop_last(), key);
        if season_key_spec(s.last()) == key {
            rest.push(track_of(s.last()))
        } else {
            rest
        }
    }
}

/// The line entry a record contributes to its group.
pub open spec fn track_of(r: TrackedRecord) -> MediaTrack {
    MediaTrack { title: r.title, suggests: r.suggests, media_type: r.media_type }
}

/// A season has entries among some records exactly when a record falls in
/// it.
proof fn lemma_tracks_for_occurs(s: Seq<TrackedRecord>, key: Season)
    ensures
        tracks_for(s, key).len() > 0 <==> exists|j: int|
            0 <= j < s.len() && season_key_spec(s[j]) == key,
    decreases s.len(),
{
    if s.len() > 0 {
        lemma_tracks_for_occurs(s.drop_last(), key);
        if season_key_spec(s.last()) == key {
            assert(season_key_spec(s[s.len() - 1]) == key);
        } else if tracks_for(s, key).len() > 0 {
            let j = choose|j: int|
                0 <= j < s.drop_last().len() && season_key_spec(s.drop_last()[j]) == key;
            assert(season_key_spec(s[j]) == key);
        } else {
            assert forall|j: int| 0 <= j < s.len() implies season_key_spec(s[j]) != key by {
                if j < s.len() - 1 {
                    assert(s.drop_last()[j] == s[j]);
                }
            }
        }
    }
}

/// The records the listing considers: the first `limit` of them.
pub open spec fn considered(records: Seq<TrackedRecord>, limit: int) -> Seq<TrackedRecord> {
    if limit < records.len() {
        records.take(limit)
    } else {
        records
    }
}

/// Put `key` where it belongs in a sorted run of seasons, unless it is
/// already there.
fn insert_key(keys: &mut Vec<Season>, key: Season)
    requires
        seasons_sorted(old(keys)@),
    ensures
        seasons_sorted(final(keys)@),
        forall|x: Season|
            final(keys)@.contains(x) <==> (old(keys)@.contains(x) || x == key),
{
    let mut idx: usize = 0;
    while idx < keys.len() && season_precedes(&keys[idx], &key)
        invariant
            seasons_sorted(keys@),
            idx <= keys@.len(),
            forall|p: int| 0 <= p < idx ==> season_before(keys@[p], key),
        decreases keys@.len() - idx,
    {
        idx = idx + 1;
    }
    if idx < keys.len() && keys[idx] == key {
        return ;
    }
    proof {
        if idx < keys@.len() {
            lemma_season_order_total(keys@[idx as int], key);
            assert(season_before(key, keys@[idx as int]));
        }
    }
    let ghost before = keys@;
    keys.insert(idx, key);
    proof {
        let after = keys@;
        assert(after == before.insert(idx as int, key));
        assert forall|i: int, j: int| 0 <= i < j < after.len() implies season_before(
            after[i],
            after[j],
        ) by {
            if i < idx && j == idx {
            } else if i == idx && j > idx {
                assert(after[j] == before[j - 1]);
                if idx < before.len() {
                    if j - 1 > idx {
                        lemma_season_order_trans(key, before[idx as int], before[j - 1]);
                    }
                }
            } else if i < idx && j > idx {
                assert(after[i] == before[i] && after[j] == before[j - 1]);
                if j - 1 > i {
                } else {
                    assert(j - 1 == i && i < idx);
                    assert(season_before(before[i], key));
                    assert(false);
                }
            } else if i > idx && j > idx {
                assert(after[i] == before[i - 1] && after[j] == before[j - 1]);
            } else {
                assert(i < idx && j < idx);
                assert(after[i] == before[i] && after[j] == before[j]);
            }
        }
        assert forall|x: Season| after.contains(x) <==> (before.contains(x) || x == key) by {
            if after.contains(x) {
                let k = choose|k: int| 0 <= k < after.len() && after[k] == x;
                if k < idx {
                    assert(before[k] == x);
                } else if k == idx {
                } else {
                    assert(before[k - 1] == x);
                }
            }
            if before.contains(x) {
                let k = choose|k: int| 0 <= k < before.len() && before[k] == x;
                if k < idx {
                    assert(after[k] == x);
                } else {
                    assert(after[k + 1] == x);
                }
            }
            if x == key {
                assert(after[idx as int] == x);
            }
        }
    }
}

/// Group the first `limit` records by the season their release date falls
/// in. Each considered record lands in exactly one group — the one keyed by
/// its season — with the group's entries in stored order; the groups come
/// not-yet-dated first, then newest season first, and no group is empty.
pub fn group_by_season(records: Vec<TrackedRecord>, limit: usize) -> (r: Vec<MediaTrackSeason>)
    ensures
        seasons_sorted(r@.map_values(|g: MediaTrackSeason| g.release_season)),
        forall|i: int|
            0 <= i < r@.len() ==> (#[trigger] r@[i]).media@ == tracks_for(
                considered(records@, limit as int),
                r@[i].release_season,
            ) && r@[i].media@.len() > 0,
        forall|s: Season|
            tracks_for(considered(records@, limit as int), s).len() > 0 ==> exists|i: int|
                0 <= i < r@.len() && (#[trigger] r@[i]).release_season == s,
{
    let cut: usize = if limit < records.len() {
        limit
    } else {
        records.len()
    };
    let ghost cons = considered(records@, limit as int);
    proof {
        assert(cons =~= records@.take(cut as int));
    }
    let mut keys: Vec<Season> = Vec::new();
    let mut i: usize = 0;
    while i < cut
        invariant
            cut <= records@.len(),
            cons == records@.take(cut as int),
            i <= cut,
            seasons_sorted(keys@),
            forall|j: int|
                0 <= j < i ==> keys@.contains(season_key_spec(records@[j])),
            forall|k: int|
                0 <= k < keys@.len() ==> exists|j: int|
                    0 <= j < i && season_key_spec(records@[j]) == #[trigger] keys@[k],
        decreases cut - i,
    {
        let key = season_key(&records[i]);
        let ghost prev = keys@;
        insert_key(&mut keys, key);
        proof {
            assert forall|k: int| 0 <= k < keys@.len() implies exists|j: int|
                0 <= j < i + 1 && season_key_spec(records@[j]) == #[trigger] keys@[k] by {
                let x = keys@[k];
                assert(keys@.contains(x));
                if prev.contains(x) {
                    let k2 = choose|k2: int| 0 <= k2 < prev.len() && prev[k2] == x;
                    let j = choose|j: int| 0 <= j < i && season_key_spec(records@[j]) == prev[k2];
                    assert(season_key_spec(records@[j]) == x);
                } else {
                    assert(x == key);
                    assert(season_key_spec(records@[i as int]) == x);
                }
            }
        }
        i = i + 1;
    }
    let mut r: Vec<MediaTrackSeason> = Vec::new();
    let mut k: usize = 0;
    while k < keys.len()
        invariant
            cut <= records@.len(),
            cons == records@.take(cut as int),
            seasons_sorted(keys@),
            forall|j: int|
                0 <= j < cut ==> keys@.contains(season_key_spec(records@[j])),
            k <= keys@.len(),
            r@.len() == k,
            forall|p: int|
                0 <= p < k ==> (#[trigger] r@[p]).release_season == keys@[p],
            forall|p: int|
                0 <= p < k ==> (#[trigger] r@[p]).media@ == tracks_for(cons, keys@[p]),
        decreases keys@.len() - k,
    {
        let season = keys[k];
        let mut media: Vec<MediaTrack> = Vec::new();
        let mut j: usize = 0;
        while j < cut
            invariant
                cut <= records@.len(),
                j <= cut,
                media@ == tracks_for(records@.take(j as int), season),
            decreases cut - j,
        {
            proof {
                assert(records@.take(j + 1).drop_last() =~= records@.take(j as int));
                assert(records@.take(j + 1).last() == records@[j as int]);
            }
            if season_key(&records[j]) == season {
                media.push(
                    MediaTrack {
                        title: records[j].title.clone(),
                        suggests: records[j].suggests,
                        media_type: records[j].media_type.clone(),
                    },
                );
                proof {
                    assert(media@.last() == track_of(records@[j as int]));
                    assert(media@ =~= tracks_for(records@.take(j + 1), season));
                }
            }
            j = j + 1;
        }
        r.push(MediaTrackSeason { release_season: season, media });
        k = k + 1;
    }
    proof {
        let seasons = r@.map_values(|g: MediaTrackSeason| g.release_season);
        assert(seasons.len() == keys@.len());
        assert forall|p: int| 0 <= p < seasons.len() implies seasons[p] == keys@[p] by {}
        assert forall|i2: int, j2: int| 0 <= i2 < j2 < seasons.len() implies season_before(
            seasons[i2],
            seasons[j2],
        ) by {}
        assert forall|p: int| 0 <= p < r@.len() implies (#[trigger] r@[p]).media@.len() > 0 by {
            let key = keys@[p];
            let w = choose|j: int| 0 <= j < cut && season_key_spec(records@[j]) == key;
            assert(cons[w] == records@[w]);
            lemma_tracks_for_occurs(cons, key);
        }
        assert forall|s: Season|
            tracks_for(cons, s).len() > 0 implies exists|i2: int|
            0 <= i2 < r@.len() && (#[trigger] r@[i2]).release_season == s by {
            lemma_tracks_for_occurs(cons, s);
            let j = choose|j: int| 0 <= j < cons.len() && season_key_spec(cons[j]) == s;
            assert(cons[j] == records@[j]);
            assert(keys@.contains(s));
            let k2 = choose|k2: int| 0 <= k2 < keys@.len() && keys@[k2] == s;
            assert(r@[k2].release_season == s);
        }
    }
    r
}

} // verus!

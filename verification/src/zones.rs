//! The client's copy of the Core's zones: applying zone events, keeping the
//! list sorted by name, and choosing the selected zone.
use vstd::prelude::*;
use vstd::seq_lib::*;
use crate::sort::{Named, sort_by_name, sort_by_name_spec, sorted_by_name, lemma_sort_by_name_sorted, lemma_sort_by_name_contains};

verus! {

/// Playback state of a zone.
#[derive(Clone, Copy, Debug, PartialEq, Eq, Structural)]
pub enum PlayState {
    Playing,
    Paused,
    Loading,
    Stopped,
}

/// The name a play state is shown under (its `Debug` name).
pub open spec fn play_state_name_spec(s: PlayState) -> Seq<char> {
    match s {
        PlayState::Playing => "Playing"@,
        PlayState::Paused => "Paused"@,
        PlayState::Loading => "Loading"@,
        PlayState::Stopped => "Stopped"@,
    }
}

pub fn play_state_name(s: PlayState) -> (r: &'static str)
    ensures
        r@ == play_state_name_spec(s),
{
    match s {
        PlayState::Playing => "Playing",
        PlayState::Paused => "Paused",
        PlayState::Loading => "Loading",
        PlayState::Stopped => "Stopped",
    }
}

/// The three-line form of the now-playing text.
pub struct ThreeLine {
    pub line1: String,
    pub line2: Option<String>,
    pub line3: Option<String>,
}

/// What a zone is playing, as text.
pub struct NowPlayingText {
    pub one_line: String,
    pub three_line: Option<ThreeLine>,
    pub image_key: Option<String>,
}

/// A zone as far as the client's decisions read it.
pub struct ZoneInfo {
    pub zone_id: String,
    pub display_name: String,
    pub state: PlayState,
    /// The first output of the zone, which volume changes address.
    pub first_output_id: Option<String>,
    pub now_playing: Option<NowPlayingText>,
    pub is_next_allowed: bool,
    pub is_previous_allowed: bool,
}

impl Named for ZoneInfo {
    open spec fn name_of(&self) -> Seq<char> {
        self.display_name@
    }

    fn name_str(&self) -> (r: &str) {
        self.display_name.as_str()
    }
}

/// A zone subscription event.
pub enum ZoneEvent {
    /// The full list of zones at subscription time.
    Initial(Vec<ZoneInfo>),
    Added(Vec<ZoneInfo>),
    Changed(Vec<ZoneInfo>),
    /// Ids of zones that are gone.
    Removed(Vec<String>),
    /// Ids of zones whose seek position moved; positions are kept beside this list.
    Seeked(Vec<String>),
}

/// Index of the first zone with id `id`, or -1.
pub open spec fn index_of_id(zs: Seq<ZoneInfo>, id: Seq<char>) -> int
    decreases zs.len(),
{
    if zs.len() == 0 {
        -1
    } else if zs[0].zone_id@ == id {
        0
    } else {
        let r = index_of_id(zs.drop_first(), id);
        if r < 0 {
            -1
        } else {
            r + 1
        }
    }
}

/// Some zone of `zs` has id `id`.
pub open spec fn has_id(zs: Seq<ZoneInfo>, id: Seq<char>) -> bool {
    exists|i: int| 0 <= i < zs.len() && #[trigger] zs[i].zone_id@ == id
}

pub proof fn lemma_index_of_id(zs: Seq<ZoneInfo>, id: Seq<char>)
    ensures
        -1 <= index_of_id(zs, id) < zs.len(),
        index_of_id(zs, id) >= 0 ==> zs[index_of_id(zs, id)].zone_id@ == id,
        forall|k: int| 0 <= k < index_of_id(zs, id) ==> #[trigger] zs[k].zone_id@ != id,
        index_of_id(zs, id) < 0 <==> !has_id(zs, id),
    decreases zs.len(),
{
    if zs.len() > 0 {
        lemma_index_of_id(zs.drop_first(), id);
        if zs[0].zone_id@ != id {
            assert forall|k: int| 0 <= k < index_of_id(zs, id) implies #[trigger] zs[k].zone_id@
                != id by {
                if k > 0 {
                    assert(zs[k] == zs.drop_first()[k - 1]);
                }
            }
            if has_id(zs, id) {
                let i = choose|i: int| 0 <= i < zs.len() && #[trigger] zs[i].zone_id@ == id;
                assert(zs.drop_first()[i - 1].zone_id@ == id);
            }
            if has_id(zs.drop_first(), id) {
                let i = choose|i: int|
                    0 <= i < zs.drop_first().len() && #[trigger] zs.drop_first()[i].zone_id@ == id;
                assert(zs[i + 1].zone_id@ == id);
            }
        } else {
            assert(zs[0].zone_id@ == id);
        }
    }
}

proof fn lemma_index_of_id_is(zs: Seq<ZoneInfo>, id: Seq<char>, i: int)
    requires
        0 <= i <= zs.len(),
        forall|k: int| 0 <= k < i ==> #[trigger] zs[k].zone_id@ != id,
        i < zs.len() ==> zs[i].zone_id@ == id,
    ensures
        index_of_id(zs, id) == if i < zs.len() {
            i
        } else {
            -1
        },
    decreases i,
{
    if i > 0 {
        assert forall|k: int| 0 <= k < i - 1 implies #[trigger] zs.drop_first()[k].zone_id@
            != id by {
            assert(zs.drop_first()[k] == zs[k + 1]);
        }
        lemma_index_of_id_is(zs.drop_first(), id, i - 1);
    }
}

/// Replace the first zone with `z`'s id by `z`, or append `z`.
pub open spec fn upsert(zs: Seq<ZoneInfo>, z: ZoneInfo) -> Seq<ZoneInfo> {
    let i = index_of_id(zs, z.zone_id@);
    if i >= 0 {
        zs.update(i, z)
    } else {
        zs.push(z)
    }
}

/// Upsert every zone of `news`, in order.
pub open spec fn upsert_all(zs: Seq<ZoneInfo>, news: Seq<ZoneInfo>) -> Seq<ZoneInfo>
    decreases news.len(),
{
    if news.len() == 0 {
        zs
    } else {
        upsert(upsert_all(zs, news.drop_last()), news.last())
    }
}

/// The zones of `zs` whose id is not in `ids`, in order.
pub open spec fn without_ids(zs: Seq<ZoneInfo>, ids: Seq<Seq<char>>) -> Seq<ZoneInfo>
    decreases zs.len(),
{
    if zs.len() == 0 {
        zs
    } else if ids.contains(zs.last().zone_id@) {
        without_ids(zs.drop_last(), ids)
    } else {
        without_ids(zs.drop_last(), ids).push(zs.last())
    }
}

pub open spec fn ids_view(ids: Seq<String>) -> Seq<Seq<char>> {
    ids.map_values(|s: String| s@)
}

/// The zone list after `ev`, before sorting.
pub open spec fn apply_event_spec(zs: Seq<ZoneInfo>, ev: ZoneEvent) -> Seq<ZoneInfo> {
    match ev {
        ZoneEvent::Initial(v) => v@,
        ZoneEvent::Added(v) => upsert_all(zs, v@),
        ZoneEvent::Changed(v) => upsert_all(zs, v@),
        ZoneEvent::Removed(ids) => without_ids(zs, ids_view(ids@)),
        ZoneEvent::Seeked(_) => zs,
    }
}

/// The zone list after `ev`: updated, then sorted by name.
pub open spec fn zones_after(zs: Seq<ZoneInfo>, ev: ZoneEvent) -> Seq<ZoneInfo> {
    sort_by_name_spec(apply_event_spec(zs, ev))
}

/// The selected zone id after a change of `zs`: kept while some zone still
/// has it, else the first zone's id.
pub open spec fn reselect(zs: Seq<ZoneInfo>, sel: Option<Seq<char>>) -> Option<Seq<char>> {
    match sel {
        Some(id) => if has_id(zs, id) {
            sel
        } else if zs.len() > 0 {
            Some(zs[0].zone_id@)
        } else {
            None
        },
        None => if zs.len() > 0 {
            Some(zs[0].zone_id@)
        } else {
            None
        },
    }
}

/// Index of the selected zone, 0 when there is none.
pub open spec fn sel_index(zs: Seq<ZoneInfo>, sel: Option<Seq<char>>) -> int {
    match sel {
        Some(id) => if index_of_id(zs, id) >= 0 {
            index_of_id(zs, id)
        } else {
            0
        },
        None => 0,
    }
}

/// Index of the first zone with id `id`.
pub fn find_zone(zones: &Vec<ZoneInfo>, id: &String) -> (r: Option<usize>)
    ensures
        match r {
            Some(i) => i == index_of_id(zones@, id@) && i < zones@.len(),
            None => index_of_id(zones@, id@) == -1,
        },
{
    let mut i: usize = 0;
    while i < zones.len()
        invariant
            i <= zones@.len(),
            forall|k: int| 0 <= k < i ==> #[trigger] zones@[k].zone_id@ != id@,
        decreases zones.len() - i,
    {
        if zones[i].zone_id == *id {
            proof {
                lemma_index_of_id_is(zones@, id@, i as int);
            }
            return Some(i);
        }
        i = i + 1;
    }
    proof {
        lemma_index_of_id_is(zones@, id@, i as int);
    }
    None
}

fn upsert_exec(zones: &mut Vec<ZoneInfo>, z: ZoneInfo)
    ensures
        final(zones)@ == upsert(old(zones)@, z),
{
    match find_zone(zones, &z.zone_id) {
        Some(i) => {
            zones.set(i, z);
        },
        None => {
            zones.push(z);
        },
    }
}

fn contains_id(ids: &Vec<String>, id: &String) -> (r: bool)
    ensures
        r == ids_view(ids@).contains(id@),
{
    let mut j: usize = 0;
    while j < ids.len()
        invariant
            j <= ids@.len(),
            forall|k: int| 0 <= k < j ==> #[trigger] ids@[k]@ != id@,
        decreases ids.len() - j,
    {
        if ids[j] == *id {
            assert(ids_view(ids@)[j as int] == id@);
            return true;
        }
        j = j + 1;
    }
    assert forall|k: int| 0 <= k < ids_view(ids@).len() implies ids_view(ids@)[k] != id@ by {
        assert(ids_view(ids@)[k] == ids@[k]@);
    }
    false
}

/// Applies `ev` to `zones` and sorts them by name, stably.
pub fn apply_event(zones: &mut Vec<ZoneInfo>, ev: ZoneEvent)
    ensures
        final(zones)@ == zones_after(old(zones)@, ev),
{
    let ghost ev0 = ev;
    match ev {
        ZoneEvent::Initial(v) => {
            *zones = v;
        },
        ZoneEvent::Added(mut v) | ZoneEvent::Changed(mut v) => {
            let ghost orig = zones@;
            let ghost vs = v@;
            let n = v.len();
            let mut k: usize = 0;
            assert(vs.take(0) =~= Seq::<ZoneInfo>::empty());
            assert(vs.skip(0) =~= vs);
            while k < n
                invariant
                    n == vs.len(),
                    k <= n,
                    v@ == vs.skip(k as int),
                    zones@ == upsert_all(orig, vs.take(k as int)),
                decreases n - k,
            {
                let z = v.remove(0);
                proof {
                    assert(vs.take(k + 1).drop_last() =~= vs.take(k as int));
                    assert(vs.skip(k as int).drop_first() =~= vs.skip(k + 1));
                }
                upsert_exec(zones, z);
                k = k + 1;
            }
            assert(vs.take(n as int) =~= vs);
        },
        ZoneEvent::Removed(ids) => {
            let ghost orig = zones@;
            let mut rest: Vec<ZoneInfo> = Vec::new();
            std::mem::swap(zones, &mut rest);
            let n = rest.len();
            let mut k: usize = 0;
            assert(orig.take(0) =~= Seq::<ZoneInfo>::empty());
            assert(orig.skip(0) =~= orig);
            while k < n
                invariant
                    n == orig.len(),
                    k <= n,
                    rest@ == orig.skip(k as int),
                    zones@ == without_ids(orig.take(k as int), ids_view(ids@)),
                decreases n - k,
            {
                let z = rest.remove(0);
                proof {
                    assert(orig.take(k + 1).drop_last() =~= orig.take(k as int));
                    assert(orig.skip(k as int).drop_first() =~= orig.skip(k + 1));
                }
                if !contains_id(&ids, &z.zone_id) {
                    zones.push(z);
                }
                k = k + 1;
            }
            assert(orig.take(n as int) =~= orig);
        },
        ZoneEvent::Seeked(_) => {},
    }
    sort_by_name(zones);
}


/// Zone ids are pairwise distinct.
pub open spec fn distinct_ids(zs: Seq<ZoneInfo>) -> bool {
    forall|i: int, j: int|
        0 <= i < j < zs.len() ==> #[trigger] zs[i].zone_id@ != #[trigger] zs[j].zone_id@
}

/// After every zone event the list is sorted by display name.
pub proof fn law_zones_sorted(zs: Seq<ZoneInfo>, ev: ZoneEvent)
    ensures
        sorted_by_name(zones_after(zs, ev)),
{
    lemma_sort_by_name_sorted(apply_event_spec(zs, ev));
}

/// After every zone event the selection points into the list: while there
/// are zones, the selected id is that of a zone and the selected index is
/// that zone's; with no zones nothing is selected.
pub proof fn law_selection_valid(zs: Seq<ZoneInfo>, ev: ZoneEvent, sel: Option<Seq<char>>)
    ensures
        ({
            let after = zones_after(zs, ev);
            let s = reselect(after, sel);
            &&& after.len() > 0 ==> s is Some && has_id(after, s->0) && 0 <= sel_index(after, s)
                < after.len() && after[sel_index(after, s)].zone_id@ == s->0
            &&& after.len() == 0 ==> s is None
        }),
{
    let after = zones_after(zs, ev);
    let s = reselect(after, sel);
    if after.len() > 0 {
        assert(after[0].zone_id@ == after[0].zone_id@);
        assert(has_id(after, after[0].zone_id@));
        lemma_index_of_id(after, s->0);
    }
}

proof fn lemma_without_ids(zs: Seq<ZoneInfo>, ids: Seq<Seq<char>>, z: ZoneInfo)
    ensures
        without_ids(zs, ids).contains(z) <==> zs.contains(z) && !ids.contains(z.zone_id@),
    decreases zs.len(),
{
    if zs.len() > 0 {
        lemma_without_ids(zs.drop_last(), ids, z);
        let w = without_ids(zs.drop_last(), ids);
        if zs.contains(z) {
            let i = choose|i: int| 0 <= i < zs.len() && zs[i] == z;
            if i < zs.len() - 1 {
                assert(zs.drop_last()[i] == z);
            }
        }
        if zs.drop_last().contains(z) {
            let i = choose|i: int| 0 <= i < zs.drop_last().len() && zs.drop_last()[i] == z;
            assert(zs[i] == z);
        }
        if !ids.contains(zs.last().zone_id@) {
            assert(w.push(zs.last())[w.len() as int] == zs.last());
            if w.push(zs.last()).contains(z) {
                let i = choose|i: int| 0 <= i < w.push(zs.last()).len() && w.push(zs.last())[i] == z;
                if i < w.len() {
                    assert(w[i] == z);
                }
            }
            if w.contains(z) {
                let i = choose|i: int| 0 <= i < w.len() && w[i] == z;
                assert(w.push(zs.last())[i] == z);
            }
        }
    }
}

/// After `Removed(ids)` no zone with one of those ids is left, and every
/// other zone stays.
pub proof fn law_removed_zones_gone(zs: Seq<ZoneInfo>, ids: Vec<String>, z: ZoneInfo)
    ensures
        zones_after(zs, ZoneEvent::Removed(ids)).contains(z) <==> zs.contains(z)
            && !ids_view(ids@).contains(z.zone_id@),
{
    lemma_without_ids(zs, ids_view(ids@), z);
    lemma_sort_by_name_contains(without_ids(zs, ids_view(ids@)), z);
}

proof fn lemma_upsert_keeps(zs: Seq<ZoneInfo>, z: ZoneInfo, y: ZoneInfo)
    requires
        zs.contains(y),
        y.zone_id@ != z.zone_id@,
    ensures
        upsert(zs, z).contains(y),
{
    lemma_index_of_id(zs, z.zone_id@);
    let i = choose|i: int| 0 <= i < zs.len() && zs[i] == y;
    let p = index_of_id(zs, z.zone_id@);
    if p >= 0 {
        assert(zs.update(p, z)[i] == y);
    } else {
        assert(zs.push(z)[i] == y);
    }
}

proof fn lemma_upsert_has(zs: Seq<ZoneInfo>, z: ZoneInfo)
    ensures
        upsert(zs, z).contains(z),
{
    lemma_index_of_id(zs, z.zone_id@);
    let p = index_of_id(zs, z.zone_id@);
    if p >= 0 {
        assert(zs.update(p, z)[p] == z);
    } else {
        assert(zs.push(z)[zs.len() as int] == z);
    }
}

proof fn lemma_upsert_all_has(zs: Seq<ZoneInfo>, news: Seq<ZoneInfo>, k: int)
    requires
        0 <= k < news.len(),
        forall|j: int| k < j < news.len() ==> #[trigger] news[j].zone_id@ != news[k].zone_id@,
    ensures
        upsert_all(zs, news).contains(news[k]),
    decreases news.len(),
{
    if k == news.len() - 1 {
        lemma_upsert_has(upsert_all(zs, news.drop_last()), news.last());
    } else {
        assert forall|j: int| k < j < news.drop_last().len() implies #[trigger] news.drop_last()[j].zone_id@
            != news.drop_last()[k].zone_id@ by {
            assert(news.drop_last()[j] == news[j]);
        }
        lemma_upsert_all_has(zs, news.drop_last(), k);
        assert(news.drop_last()[k] == news[k]);
        assert(news[news.len() - 1].zone_id@ != news[k].zone_id@);
        lemma_upsert_keeps(upsert_all(zs, news.drop_last()), news.last(), news[k]);
    }
}

/// After `Added(v)` or `Changed(v)` every zone of `v` is in the list, as
/// sent, unless a later zone of `v` carries the same id (the later one wins).
pub proof fn law_changed_zones_present(zs: Seq<ZoneInfo>, v: Vec<ZoneInfo>, k: int)
    requires
        0 <= k < v@.len(),
        forall|j: int| k < j < v@.len() ==> #[trigger] v@[j].zone_id@ != v@[k].zone_id@,
    ensures
        zones_after(zs, ZoneEvent::Changed(v)).contains(v@[k]),
        zones_after(zs, ZoneEvent::Added(v)).contains(v@[k]),
{
    lemma_upsert_all_has(zs, v@, k);
    lemma_sort_by_name_contains(upsert_all(zs, v@), v@[k]);
}

proof fn lemma_id_not_in(zs: Seq<ZoneInfo>, id: Seq<char>, sub: Seq<ZoneInfo>)
    requires
        forall|i: int| 0 <= i < zs.len() ==> #[trigger] zs[i].zone_id@ != id,
        forall|y: ZoneInfo| sub.contains(y) ==> zs.contains(y),
    ensures
        forall|i: int| 0 <= i < sub.len() ==> #[trigger] sub[i].zone_id@ != id,
{
    assert forall|i: int| 0 <= i < sub.len() implies #[trigger] sub[i].zone_id@ != id by {
        assert(sub.contains(sub[i]));
        let k = choose|k: int| 0 <= k < zs.len() && zs[k] == sub[i];
    }
}

proof fn lemma_insert_distinct(s: Seq<ZoneInfo>, p: int, x: ZoneInfo)
    requires
        0 <= p <= s.len(),
        distinct_ids(s),
        forall|i: int| 0 <= i < s.len() ==> #[trigger] s[i].zone_id@ != x.zone_id@,
    ensures
        distinct_ids(s.insert(p, x)),
{
    let r = s.insert(p, x);
    assert forall|i: int, j: int| 0 <= i < j < r.len() implies #[trigger] r[i].zone_id@
        != #[trigger] r[j].zone_id@ by {
        if j < p {
            assert(r[i] == s[i] && r[j] == s[j]);
        } else if j == p {
            assert(r[i] == s[i]);
        } else if i == p {
            assert(r[j] == s[j - 1]);
        } else if i < p {
            assert(r[i] == s[i] && r[j] == s[j - 1]);
        } else {
            assert(r[i] == s[i - 1] && r[j] == s[j - 1]);
        }
    }
}

proof fn lemma_sort_distinct(s: Seq<ZoneInfo>)
    requires
        distinct_ids(s),
    ensures
        distinct_ids(sort_by_name_spec(s)),
    decreases s.len(),
{
    if s.len() > 0 {
        let d = s.drop_last();
        let t = sort_by_name_spec(d);
        let x = s.last();
        assert forall|i: int, j: int| 0 <= i < j < d.len() implies #[trigger] d[i].zone_id@
            != #[trigger] d[j].zone_id@ by {
            assert(d[i] == s[i] && d[j] == s[j]);
        }
        lemma_sort_distinct(d);
        assert forall|i: int| 0 <= i < d.len() implies #[trigger] d[i].zone_id@ != x.zone_id@ by {
            assert(d[i] == s[i]);
        }
        assert forall|y: ZoneInfo| t.contains(y) implies d.contains(y) by {
            lemma_sort_by_name_contains(d, y);
        }
        lemma_id_not_in(d, x.zone_id@, t);
        crate::sort::lemma_insert_pos(t, x);
        lemma_insert_distinct(t, crate::sort::insert_pos(t, x) as int, x);
    }
}

proof fn lemma_upsert_distinct(zs: Seq<ZoneInfo>, z: ZoneInfo)
    requires
        distinct_ids(zs),
    ensures
        distinct_ids(upsert(zs, z)),
{
    lemma_index_of_id(zs, z.zone_id@);
    let p = index_of_id(zs, z.zone_id@);
    if p >= 0 {
        let r = zs.update(p, z);
        assert forall|i: int, j: int| 0 <= i < j < r.len() implies #[trigger] r[i].zone_id@
            != #[trigger] r[j].zone_id@ by {
            if i == p {
                assert(zs[i].zone_id@ == z.zone_id@);
            }
            if j == p {
                assert(zs[j].zone_id@ == z.zone_id@);
            }
        }
    } else {
        assert forall|i: int| 0 <= i < zs.len() implies #[trigger] zs[i].zone_id@ != z.zone_id@ by {
            if zs[i].zone_id@ == z.zone_id@ {
                assert(has_id(zs, z.zone_id@));
            }
        }
        assert(zs.push(z) =~= zs.insert(zs.len() as int, z));
        lemma_insert_distinct(zs, zs.len() as int, z);
    }
}

proof fn lemma_upsert_all_distinct(zs: Seq<ZoneInfo>, news: Seq<ZoneInfo>)
    requires
        distinct_ids(zs),
    ensures
        distinct_ids(upsert_all(zs, news)),
    decreases news.len(),
{
    if news.len() > 0 {
        lemma_upsert_all_distinct(zs, news.drop_last());
        lemma_upsert_distinct(upsert_all(zs, news.drop_last()), news.last());
    }
}

proof fn lemma_without_ids_distinct(zs: Seq<ZoneInfo>, ids: Seq<Seq<char>>)
    requires
        distinct_ids(zs),
    ensures
        distinct_ids(without_ids(zs, ids)),
    decreases zs.len(),
{
    if zs.len() > 0 {
        let d = zs.drop_last();
        assert forall|i: int, j: int| 0 <= i < j < d.len() implies #[trigger] d[i].zone_id@
            != #[trigger] d[j].zone_id@ by {
            assert(d[i] == zs[i] && d[j] == zs[j]);
        }
        lemma_without_ids_distinct(d, ids);
        let w = without_ids(d, ids);
        if !ids.contains(zs.last().zone_id@) {
            assert forall|i: int| 0 <= i < d.len() implies #[trigger] d[i].zone_id@
                != zs.last().zone_id@ by {
                assert(d[i] == zs[i]);
            }
            assert forall|y: ZoneInfo| w.contains(y) implies d.contains(y) by {
                lemma_without_ids(d, ids, y);
            }
            lemma_id_not_in(d, zs.last().zone_id@, w);
            assert(w.push(zs.last()) =~= w.insert(w.len() as int, zs.last()));
            lemma_insert_distinct(w, w.len() as int, zs.last());
        }
    }
}

/// Zone ids stay distinct: a list with distinct ids keeps them through every
/// event, provided an `Initial` list itself has distinct ids.
pub proof fn law_ids_stay_distinct(zs: Seq<ZoneInfo>, ev: ZoneEvent)
    requires
        distinct_ids(zs),
        ev matches ZoneEvent::Initial(v) ==> distinct_ids(v@),
    ensures
        distinct_ids(zones_after(zs, ev)),
{
    match ev {
        ZoneEvent::Initial(v) => {},
        ZoneEvent::Added(v) => {
            lemma_upsert_all_distinct(zs, v@);
        },
        ZoneEvent::Changed(v) => {
            lemma_upsert_all_distinct(zs, v@);
        },
        ZoneEvent::Removed(ids) => {
            lemma_without_ids_distinct(zs, ids_view(ids@));
        },
        ZoneEvent::Seeked(_) => {},
    }
    lemma_sort_distinct(apply_event_spec(zs, ev));
}

} // verus!

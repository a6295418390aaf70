//! The recently-used list: bounded, keyed by `(kind, path)`, newest first.

use crate::clock::now_epoch;
use vstd::prelude::*;

verus! {

/// How many entries the list keeps; older ones fall off the end.
pub const MAX_RECENTS: usize = 10;

/// One remembered document.
#[derive(Clone, Debug, PartialEq, Eq)]
pub struct RecentItem {
    pub kind: String,
    pub path: String,
    pub name: Option<String>,
    pub updated_at: u64,
}

/// What a [`RecentItem`] holds, as mathematical values.
pub struct RecentEntry {
    pub kind: Seq<char>,
    pub path: Seq<char>,
    pub name: Option<Seq<char>>,
    pub updated_at: u64,
}

impl DeepView for RecentItem {
    type V = RecentEntry;

    open spec fn deep_view(&self) -> RecentEntry {
        RecentEntry {
            kind: self.kind@,
            path: self.path@,
            name: self.name.deep_view(),
            updated_at: self.updated_at,
        }
    }
}

impl View for RecentItem {
    type V = RecentEntry;

    open spec fn view(&self) -> RecentEntry {
        self.deep_view()
    }
}

/// Whether `entry` is the one remembered for `(kind, path)`.
pub open spec fn is_entry_for(entry: RecentEntry, kind: Seq<char>, path: Seq<char>) -> bool {
    entry.kind == kind && entry.path == path
}

/// `list` without any entry for `(kind, path)`, the rest in their old order.
pub open spec fn others(list: Seq<RecentEntry>, kind: Seq<char>, path: Seq<char>) -> Seq<
    RecentEntry,
> {
    list.filter(|entry: RecentEntry| !is_entry_for(entry, kind, path))
}

/// The list after `(kind, path)` was used at time `now` under `name`: the
/// fresh entry first, then the other entries in their old order, cut to
/// [`MAX_RECENTS`].
pub open spec fn touched(
    list: Seq<RecentEntry>,
    kind: Seq<char>,
    path: Seq<char>,
    name: Option<Seq<char>>,
    now: u64,
) -> Seq<RecentEntry> {
    let fresh = RecentEntry { kind, path, name, updated_at: now };
    let all = seq![fresh] + others(list, kind, path);
    if all.len() > MAX_RECENTS {
        all.take(MAX_RECENTS as int)
    } else {
        all
    }
}

/// Drops every entry for `(kind, path)` from `recents`, keeping the order of
/// the rest.
fn forget(recents: &mut Vec<RecentItem>, kind: &String, path: &String)
    ensures
        final(recents).deep_view() == others(old(recents).deep_view(), kind@, path@),
{
    let ghost before = recents.deep_view();
    let ghost keep = |entry: RecentEntry| !is_entry_for(entry, kind@, path@);
    let mut i: usize = 0;
    let mut seen: Ghost<int> = Ghost(0);
    proof {
        assert(before.take(0).filter(keep) =~= Seq::<RecentEntry>::empty()) by {
            reveal(Seq::filter);
        }
        assert(recents.deep_view().take(0) =~= Seq::<RecentEntry>::empty());
        assert(recents.deep_view().skip(0) =~= before.skip(0));
    }
    while i < recents.len()
        invariant
            0 <= seen@ <= before.len(),
            i <= recents.len(),
            recents.len() - i == before.len() - seen@,
            recents.deep_view().take(i as int) == before.take(seen@).filter(keep),
            recents.deep_view().skip(i as int) == before.skip(seen@),
            keep == |entry: RecentEntry| !is_entry_for(entry, kind@, path@),
        decreases recents.len() - i,
    {
        let ghost current = recents.deep_view();
        proof {
            assert(current[i as int] == current.skip(i as int)[0]);
            assert(before[seen@] == before.skip(seen@)[0]);
            assert(before.take(seen@ + 1) =~= before.take(seen@).push(before[seen@]));
            before.take(seen@).lemma_filter_push(before[seen@], keep);
        }
        if recents[i].kind == *kind && recents[i].path == *path {
            recents.remove(i);
            proof {
                assert(recents.deep_view() =~= current.remove(i as int));
                assert(recents.deep_view().take(i as int) =~= current.take(i as int));
                assert(recents.deep_view().skip(i as int) =~= current.skip(i as int).skip(1));
                assert(before.skip(seen@ + 1) =~= before.skip(seen@).skip(1));
                seen@ = seen@ + 1;
            }
        } else {
            proof {
                assert(current.take(i as int + 1) =~= current.take(i as int).push(
                    current[i as int],
                ));
                assert(current.skip(i as int + 1) =~= current.skip(i as int).skip(1));
                assert(before.skip(seen@ + 1) =~= before.skip(seen@).skip(1));
                seen@ = seen@ + 1;
            }
            i = i + 1;
        }
    }
    proof {
        assert(recents.deep_view().take(i as int) =~= recents.deep_view());
        assert(before.take(seen@) =~= before);
    }
}

/// Records that `(kind, path)` was used at time `now` under `name`.
pub fn touch(
    recents: Vec<RecentItem>,
    kind: &str,
    path: &str,
    name: Option<String>,
    now: u64,
) -> (updated: Vec<RecentItem>)
    ensures
        updated.deep_view() == touched(
            recents.deep_view(),
            kind@,
            path@,
            name.deep_view(),
            now,
        ),
{
    let mut updated = recents;
    let kind = kind.to_owned();
    let path = path.to_owned();
    forget(&mut updated, &kind, &path);
    let ghost rest = updated.deep_view();
    let fresh = RecentItem { kind, path, name, updated_at: now };
    updated.insert(0, fresh);
    assert(updated.deep_view() =~= seq![fresh.deep_view()] + rest);
    if updated.len() > MAX_RECENTS {
        let ghost all = updated.deep_view();
        updated.truncate(MAX_RECENTS);
        assert(updated.deep_view() =~= all.take(MAX_RECENTS as int));
    }
    updated
}

/// Records that `(kind, path)` was used just now under `name`, reading the
/// time from the system clock.
///
/// Whatever the clock said stands in the first entry; the rest of the result
/// is fixed by it.
pub fn update_recents(
    recents: Vec<RecentItem>,
    kind: &str,
    path: &str,
    name: Option<String>,
) -> (updated: Vec<RecentItem>)
    ensures
        updated.len() > 0,
        updated.deep_view() == touched(
            recents.deep_view(),
            kind@,
            path@,
            name.deep_view(),
            updated[0].updated_at,
        ),
{
    let now = now_epoch();
    touch(recents, kind, path, name, now)
}

/// What the backing store gave when asked for the list.
#[derive(Clone, Debug, PartialEq, Eq)]
pub enum Stored {
    /// There is no list yet, or it could not be read.
    Absent,
    /// Something is stored, but it is not a list of entries.
    Malformed,
    /// The stored entries, in stored order.
    List(Vec<RecentItem>),
}

/// The list to show for what the store gave: the stored entries as they are,
/// and no history at all where the store is absent or malformed.
pub fn load_recents(stored: Stored) -> (list: Vec<RecentItem>)
    ensures
        match stored {
            Stored::List(items) => list == items,
            Stored::Absent | Stored::Malformed => list@ == Seq::<RecentItem>::empty(),
        },
{
    match stored {
        Stored::List(items) => items,
        Stored::Absent => Vec::new(),
        Stored::Malformed => Vec::new(),
    }
}

/// No two entries of `list` share a `(kind, path)` pair.
pub open spec fn distinct_keys(list: Seq<RecentEntry>) -> bool {
    forall|i: int, j: int|
        0 <= i < j < list.len() ==> !is_entry_for(#[trigger] list[i], (#[trigger] list[j]).kind, list[j].path)
}

/// The invariant of a stored list: bounded, and one entry per document.
pub open spec fn well_formed(list: Seq<RecentEntry>) -> bool {
    list.len() <= MAX_RECENTS && distinct_keys(list)
}

/// Entries stand in order of descending time of use.
pub open spec fn newest_first(list: Seq<RecentEntry>) -> bool {
    forall|i: int, j: int|
        0 <= i < j < list.len() ==> (#[trigger] list[i]).updated_at >= (#[trigger] list[j]).updated_at
}

/// No entry of `list` was used after `now`.
pub open spec fn none_after(list: Seq<RecentEntry>, now: u64) -> bool {
    forall|i: int| 0 <= i < list.len() ==> (#[trigger] list[i]).updated_at <= now
}

/// One use of a document, as [`touched`] takes it.
pub struct Use {
    pub kind: Seq<char>,
    pub path: Seq<char>,
    pub name: Option<Seq<char>>,
    pub at: u64,
}

/// The list that a history of uses builds, starting from no list at all.
pub open spec fn replay(history: Seq<Use>) -> Seq<RecentEntry>
    decreases history.len(),
{
    if history.len() == 0 {
        Seq::empty()
    } else {
        let last = history.last();
        touched(replay(history.drop_last()), last.kind, last.path, last.name, last.at)
    }
}

/// What filtering keeps: every kept entry was in the list and is not for
/// `(kind, path)`; distinct keys and descending times survive; and a list
/// with distinct keys loses exactly one entry when it holds one for the pair.
proof fn lemma_others(list: Seq<RecentEntry>, kind: Seq<char>, path: Seq<char>)
    ensures
        others(list, kind, path).len() <= list.len(),
        forall|k: int|
            0 <= k < others(list, kind, path).len() ==> {
                &&& list.contains(#[trigger] others(list, kind, path)[k])
                &&& !is_entry_for(others(list, kind, path)[k], kind, path)
            },
        distinct_keys(list) ==> distinct_keys(others(list, kind, path)),
        newest_first(list) ==> newest_first(others(list, kind, path)),
        forall|now: u64| none_after(list, now) ==> none_after(others(list, kind, path), now),
        distinct_keys(list) && (exists|i: int|
            0 <= i < list.len() && is_entry_for(#[trigger] list[i], kind, path))
            ==> others(list, kind, path).len() == list.len() - 1,
        (forall|i: int| 0 <= i < list.len() ==> !is_entry_for(#[trigger] list[i], kind, path))
            ==> others(list, kind, path) == list,
    decreases list.len(),
{
    reveal(Seq::filter);
    let keep = |entry: RecentEntry| !is_entry_for(entry, kind, path);
    if list.len() == 0 {
        assert(others(list, kind, path) =~= list);
    } else {
        let front = list.drop_last();
        let last = list.last();
        lemma_others(front, kind, path);
        let kept = others(front, kind, path);
        let out = others(list, kind, path);
        assert(out == if keep(last) { kept.push(last) } else { kept });
        assert forall|k: int| 0 <= k < kept.len() implies list.contains(#[trigger] kept[k])
            && exists|i: int| 0 <= i < front.len() && front[i] == kept[k] by {
            assert(front.contains(kept[k]));
            let i = choose|i: int| 0 <= i < front.len() && front[i] == kept[k];
            assert(list[i] == kept[k]);
        }
        assert forall|k: int| 0 <= k < out.len() implies list.contains(#[trigger] out[k])
            && !is_entry_for(out[k], kind, path) by {
            if k < kept.len() {
                assert(out[k] == kept[k]);
            } else {
                assert(out[k] == last);
                assert(list[list.len() - 1] == last);
            }
        }
        if distinct_keys(list) {
            assert(distinct_keys(front)) by {
                assert forall|i: int, j: int| 0 <= i < j < front.len() implies !is_entry_for(
                    #[trigger] front[i],
                    (#[trigger] front[j]).kind,
                    front[j].path,
                ) by {
                    assert(front[i] == list[i] && front[j] == list[j]);
                }
            }
            assert forall|a: int, b: int| 0 <= a < b < out.len() implies !is_entry_for(
                #[trigger] out[a],
                (#[trigger] out[b]).kind,
                out[b].path,
            ) by {
                if b < kept.len() {
                    assert(out[a] == kept[a] && out[b] == kept[b]);
                } else {
                    assert(out[b] == last);
                    assert(out[a] == kept[a]);
                    let i = choose|i: int| 0 <= i < front.len() && front[i] == kept[a];
                    assert(list[i] == kept[a]);
                    assert(list[list.len() - 1] == last);
                }
            }
            if exists|i: int| 0 <= i < list.len() && is_entry_for(#[trigger] list[i], kind, path) {
                let i = choose|i: int|
                    0 <= i < list.len() && is_entry_for(#[trigger] list[i], kind, path);
                if i < front.len() {
                    assert(is_entry_for(front[i], kind, path));
                    assert(!is_entry_for(list[i], list[list.len() - 1].kind, list[list.len() - 1].path));
                    assert(keep(last));
                } else {
                    assert(!keep(last));
                    assert forall|m: int| 0 <= m < front.len() implies !is_entry_for(
                        #[trigger] front[m],
                        kind,
                        path,
                    ) by {
                        assert(front[m] == list[m]);
                        assert(!is_entry_for(list[m], list[list.len() - 1].kind, list[list.len() - 1].path));
                    }
                    assert(kept == front);
                }
            }
        }
        if newest_first(list) {
            assert(newest_first(front)) by {
                assert forall|i: int, j: int| 0 <= i < j < front.len() implies (
                #[trigger] front[i]).updated_at >= (#[trigger] front[j]).updated_at by {
                    assert(front[i] == list[i] && front[j] == list[j]);
                }
            }
            assert forall|a: int, b: int| 0 <= a < b < out.len() implies (
            #[trigger] out[a]).updated_at >= (#[trigger] out[b]).updated_at by {
                if b < kept.len() {
                    assert(out[a] == kept[a] && out[b] == kept[b]);
                } else {
                    assert(out[b] == last);
                    assert(out[a] == kept[a]);
                    let i = choose|i: int| 0 <= i < front.len() && front[i] == kept[a];
                    assert(list[i] == kept[a]);
                    assert(list[list.len() - 1] == last);
                }
            }
        }
        assert forall|now: u64| none_after(list, now) implies none_after(out, now) by {
            assert forall|k: int| 0 <= k < out.len() implies (#[trigger] out[k]).updated_at
                <= now by {
                assert(list.contains(out[k]));
                let i = choose|i: int| 0 <= i < list.len() && list[i] == out[k];
                assert(list[i].updated_at <= now);
            }
        }
        if forall|i: int| 0 <= i < list.len() ==> !is_entry_for(#[trigger] list[i], kind, path) {
            assert forall|m: int| 0 <= m < front.len() implies !is_entry_for(
                #[trigger] front[m],
                kind,
                path,
            ) by {
                assert(front[m] == list[m]);
            }
            assert(keep(list[list.len() - 1]));
            assert(out =~= list);
        }
    }
}

/// After any use the list is bounded, and a list with one entry per document
/// still has one entry per document.
pub proof fn touched_keeps_invariant(
    list: Seq<RecentEntry>,
    kind: Seq<char>,
    path: Seq<char>,
    name: Option<Seq<char>>,
    now: u64,
)
    ensures
        1 <= touched(list, kind, path, name, now).len() <= MAX_RECENTS,
        distinct_keys(list) ==> well_formed(touched(list, kind, path, name, now)),
{
    lemma_others(list, kind, path);
    let rest = others(list, kind, path);
    let fresh = RecentEntry { kind, path, name, updated_at: now };
    let all = seq![fresh] + rest;
    let out = touched(list, kind, path, name, now);
    if distinct_keys(list) {
        assert forall|a: int, b: int| 0 <= a < b < out.len() implies !is_entry_for(
            #[trigger] out[a],
            (#[trigger] out[b]).kind,
            out[b].path,
        ) by {
            assert(out[a] == all[a] && out[b] == all[b]);
            assert(all[b] == rest[b - 1]);
            if a == 0 {
                assert(all[a] == fresh);
                assert(!is_entry_for(rest[b - 1], kind, path));
            } else {
                assert(all[a] == rest[a - 1]);
            }
        }
    }
}

/// Whatever sequence of uses built it, a list holds at most [`MAX_RECENTS`]
/// entries and never two for the same `(kind, path)`.
pub proof fn every_history_is_well_formed(history: Seq<Use>)
    ensures
        well_formed(replay(history)),
    decreases history.len(),
{
    if history.len() > 0 {
        let last = history.last();
        every_history_is_well_formed(history.drop_last());
        touched_keeps_invariant(
            replay(history.drop_last()),
            last.kind,
            last.path,
            last.name,
            last.at,
        );
    }
}

/// The document just used stands first, under the name and time given. Its
/// time is no earlier than any the list held for it before, provided the
/// clock has not been set back behind those.
pub proof fn touched_entry_comes_first(
    list: Seq<RecentEntry>,
    kind: Seq<char>,
    path: Seq<char>,
    name: Option<Seq<char>>,
    now: u64,
)
    requires
        forall|i: int|
            0 <= i < list.len() && is_entry_for(#[trigger] list[i], kind, path)
                ==> list[i].updated_at <= now,
    ensures
        touched(list, kind, path, name, now)[0] == (RecentEntry {
            kind,
            path,
            name,
            updated_at: now,
        }),
        forall|i: int|
            0 <= i < list.len() && is_entry_for(#[trigger] list[i], kind, path) ==> touched(
                list,
                kind,
                path,
                name,
                now,
            )[0].updated_at >= list[i].updated_at,
{
}

/// Using a document that a well-formed list already holds renames it and
/// moves it to the front: the list keeps its length, holds the document
/// once, and the other entries follow in their old order.
pub proof fn retouching_moves_to_front(
    list: Seq<RecentEntry>,
    kind: Seq<char>,
    path: Seq<char>,
    name: Option<Seq<char>>,
    now: u64,
)
    requires
        well_formed(list),
        exists|i: int| 0 <= i < list.len() && is_entry_for(#[trigger] list[i], kind, path),
    ensures
        touched(list, kind, path, name, now).len() == list.len(),
        touched(list, kind, path, name, now)[0].name == name,
        touched(list, kind, path, name, now).skip(1) == others(list, kind, path),
        forall|k: int|
            1 <= k < list.len() ==> !is_entry_for(
                #[trigger] touched(list, kind, path, name, now)[k],
                kind,
                path,
            ),
{
    lemma_others(list, kind, path);
    let rest = others(list, kind, path);
    let out = touched(list, kind, path, name, now);
    assert(out.skip(1) =~= rest);
    assert forall|k: int| 1 <= k < list.len() implies !is_entry_for(
        #[trigger] out[k],
        kind,
        path,
    ) by {
        assert(out[k] == rest[k - 1]);
    }
}

/// Using a document that the list does not hold puts it in front of all the
/// old entries, of which only the first `MAX_RECENTS - 1` stay.
pub proof fn first_touch_pushes_front(
    list: Seq<RecentEntry>,
    kind: Seq<char>,
    path: Seq<char>,
    name: Option<Seq<char>>,
    now: u64,
)
    requires
        forall|i: int| 0 <= i < list.len() ==> !is_entry_for(#[trigger] list[i], kind, path),
    ensures
        touched(list, kind, path, name, now).skip(1) == if list.len() >= MAX_RECENTS {
            list.take(MAX_RECENTS - 1)
        } else {
            list
        },
{
    lemma_others(list, kind, path);
    let out = touched(list, kind, path, name, now);
    if list.len() >= MAX_RECENTS {
        assert(out.skip(1) =~= list.take(MAX_RECENTS - 1));
    } else {
        assert(out.skip(1) =~= list);
    }
}

/// A list in descending order of use stays so, provided the clock has not
/// been set back behind any entry.
pub proof fn touched_stays_newest_first(
    list: Seq<RecentEntry>,
    kind: Seq<char>,
    path: Seq<char>,
    name: Option<Seq<char>>,
    now: u64,
)
    requires
        newest_first(list),
        none_after(list, now),
    ensures
        newest_first(touched(list, kind, path, name, now)),
        none_after(touched(list, kind, path, name, now), now),
{
    lemma_others(list, kind, path);
    let rest = others(list, kind, path);
    let fresh = RecentEntry { kind, path, name, updated_at: now };
    let all = seq![fresh] + rest;
    let out = touched(list, kind, path, name, now);
    assert(none_after(rest, now));
    assert forall|k: int| 0 <= k < out.len() implies (#[trigger] out[k]).updated_at <= now by {
        assert(out[k] == all[k]);
        if k > 0 {
            assert(all[k] == rest[k - 1]);
        }
    }
    assert forall|a: int, b: int| 0 <= a < b < out.len() implies (#[trigger] out[a]).updated_at
        >= (#[trigger] out[b]).updated_at by {
        assert(out[a] == all[a] && out[b] == all[b]);
        assert(all[b] == rest[b - 1]);
        if a > 0 {
            assert(all[a] == rest[a - 1]);
        }
    }
}


/// Using the same document twice in a row leaves what using it once, the
/// second time, would have left: the first use is replaced, not kept.
pub proof fn retouching_replaces_the_entry(
    list: Seq<RecentEntry>,
    kind: Seq<char>,
    path: Seq<char>,
    first: (Option<Seq<char>>, u64),
    second: (Option<Seq<char>>, u64),
)
    ensures
        touched(touched(list, kind, path, first.0, first.1), kind, path, second.0, second.1)
            == touched(list, kind, path, second.0, second.1),
{
    lemma_others(list, kind, path);
    let keep = |entry: RecentEntry| !is_entry_for(entry, kind, path);
    let rest = others(list, kind, path);
    let earlier = RecentEntry { kind, path, name: first.0, updated_at: first.1 };
    let once = touched(list, kind, path, first.0, first.1);
    let kept = if rest.len() >= MAX_RECENTS {
        rest.take(MAX_RECENTS - 1)
    } else {
        rest
    };
    assert(once =~= seq![earlier] + kept);
    assert(others(kept, kind, path) == kept) by {
        assert forall|i: int| 0 <= i < kept.len() implies !is_entry_for(
            #[trigger] kept[i],
            kind,
            path,
        ) by {
            assert(kept[i] == rest[i]);
        }
        lemma_others(kept, kind, path);
    }
    assert(others(once, kind, path) == kept) by {
        Seq::filter_distributes_over_add(seq![earlier], kept, keep);
        assert(seq![earlier].filter(keep) =~= Seq::<RecentEntry>::empty()) by {
            reveal_with_fuel(Seq::filter, 2);
            assert(seq![earlier].drop_last() =~= Seq::<RecentEntry>::empty());
        }
        assert(Seq::<RecentEntry>::empty() + kept =~= kept);
    }
    let later = RecentEntry { kind, path, name: second.0, updated_at: second.1 };
    let again = touched(once, kind, path, second.0, second.1);
    let direct = touched(list, kind, path, second.0, second.1);
    if rest.len() >= MAX_RECENTS {
        assert(again =~= seq![later] + kept);
        assert(direct =~= seq![later] + kept);
    } else {
        assert(again =~= direct);
    }
}

} // verus!

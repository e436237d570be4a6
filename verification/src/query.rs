//! Selecting, ordering and paginating ledger entries: conjunctive filtering,
//! a deterministic sort by timestamp descending (ties keep store order), and
//! offset/limit pagination applied after the sort.

use vstd::prelude::*;
use vstd::multiset::Multiset;

use crate::types::{entry_views, matches_query, matches_spec, AuditEntry, AuditEntryView, AuditQuery};

verus! {

/// The position at which an entry with timestamp `ts` is placed into a list
/// ordered by timestamp descending: after every entry whose timestamp is at
/// least `ts`, so that earlier-stored entries keep their place among equals.
pub open spec fn insert_pos_desc(s: Seq<AuditEntryView>, ts: u64) -> int
    decreases s.len(),
{
    if s.len() == 0 {
        0
    } else if s[0].timestamp < ts {
        0
    } else {
        1 + insert_pos_desc(s.skip(1), ts)
    }
}

/// The entries of `s` ordered by timestamp descending, entries with equal
/// timestamps keeping the order they have in `s`.
pub open spec fn sort_desc(s: Seq<AuditEntryView>) -> Seq<AuditEntryView>
    decreases s.len(),
{
    if s.len() == 0 {
        Seq::empty()
    } else {
        let rest = sort_desc(s.drop_last());
        rest.insert(insert_pos_desc(rest, s.last().timestamp), s.last())
    }
}

/// The insertion position is within bounds, every entry before it has a
/// timestamp at least `ts`, and the entry at it (when any) a smaller one.
proof fn lemma_insert_pos(s: Seq<AuditEntryView>, ts: u64)
    ensures
        0 <= insert_pos_desc(s, ts) <= s.len(),
        forall|k: int| 0 <= k < insert_pos_desc(s, ts) ==> s[k].timestamp >= ts,
        insert_pos_desc(s, ts) < s.len() ==> s[insert_pos_desc(s, ts)].timestamp < ts,
    decreases s.len(),
{
    if s.len() > 0 && s[0].timestamp >= ts {
        lemma_insert_pos(s.skip(1), ts);
        assert forall|k: int| 0 <= k < insert_pos_desc(s, ts) implies s[k].timestamp >= ts by {
            if k > 0 {
                assert(s.skip(1)[k - 1] == s[k]);
            }
        }
        if insert_pos_desc(s, ts) < s.len() {
            assert(s.skip(1)[insert_pos_desc(s, ts) - 1] == s[insert_pos_desc(s, ts)]);
        }
    }
}

/// Sorting neither drops nor duplicates entries.
pub proof fn lemma_sort_desc_len(s: Seq<AuditEntryView>)
    ensures
        sort_desc(s).len() == s.len(),
    decreases s.len(),
{
    if s.len() > 0 {
        lemma_sort_desc_len(s.drop_last());
        lemma_insert_pos(sort_desc(s.drop_last()), s.last().timestamp);
    }
}

/// Orders entries by timestamp descending; entries with equal timestamps
/// keep the order of the input.
pub fn sort_entries_desc(entries: Vec<AuditEntry>) -> (r: Vec<AuditEntry>)
    ensures
        entry_views(r@) == sort_desc(entry_views(entries@)),
{
    let ghost input = entry_views(entries@);
    let mut sorted: Vec<AuditEntry> = Vec::new();
    let mut i: usize = 0;
    while i < entries.len()
        invariant
            i <= entries@.len(),
            input == entry_views(entries@),
            entry_views(sorted@) == sort_desc(input.take(i as int)),
        decreases entries@.len() - i,
    {
        let e = entries[i].clone();
        let ghost sv = entry_views(sorted@);
        let ghost ts = e@.timestamp;
        proof {
            lemma_insert_pos(sv, ts);
        }
        let mut j: usize = 0;
        while j < sorted.len() && sorted[j].timestamp >= e.timestamp
            invariant
                j <= sorted@.len(),
                sv == entry_views(sorted@),
                ts == e@.timestamp,
                forall|k: int| 0 <= k < j ==> sv[k].timestamp >= ts,
            decreases sorted@.len() - j,
        {
            proof {
                assert(sv[j as int].timestamp == sorted@[j as int]@.timestamp);
            }
            j = j + 1;
        }
        proof {
            if j < sorted@.len() {
                assert(sv[j as int].timestamp == sorted@[j as int]@.timestamp);
            }
            if (j as int) < insert_pos_desc(sv, ts) {
                assert(sv[j as int].timestamp >= ts);
                assert(false);
            }
            if (j as int) > insert_pos_desc(sv, ts) {
                assert(sv[insert_pos_desc(sv, ts)].timestamp < ts);
                assert(false);
            }
            assert(j as int == insert_pos_desc(sv, ts));
        }
        sorted.insert(j, e);
        proof {
            assert(entry_views(sorted@) =~= sv.insert(j as int, entries@[i as int]@));
            assert(input.take(i + 1 as int).drop_last() =~= input.take(i as int));
            assert(input.take(i + 1 as int).last() == entries@[i as int]@);
        }
        i = i + 1;
    }
    proof {
        assert(input.take(input.len() as int) =~= input);
    }
    sorted
}

/// The page of a result list selected by an optional offset and limit:
/// `offset` entries are skipped (an offset past the end leaves nothing),
/// then at most `limit` entries are taken.
pub open spec fn page(s: Seq<AuditEntryView>, offset: Option<u32>, limit: Option<u32>) -> Seq<
    AuditEntryView,
> {
    let off = match offset {
        Some(o) => if o as int >= s.len() {
            s.len() as int
        } else {
            o as int
        },
        None => 0,
    };
    let after = s.skip(off);
    match limit {
        Some(l) => if (l as int) <= after.len() {
            after.take(l as int)
        } else {
            after
        },
        None => after,
    }
}

/// Selects the page of `sorted` given by the optional offset and limit.
pub fn page_entries(sorted: &Vec<AuditEntry>, offset: Option<u32>, limit: Option<u32>) -> (r: Vec<
    AuditEntry,
>)
    ensures
        entry_views(r@) == page(entry_views(sorted@), offset, limit),
{
    let ghost s = entry_views(sorted@);
    let n = sorted.len();
    let start: usize = match offset {
        Some(o) => if o as usize >= n {
            n
        } else {
            o as usize
        },
        None => 0,
    };
    let end: usize = match limit {
        Some(l) => if (l as usize) >= n - start {
            n
        } else {
            start + (l as usize)
        },
        None => n,
    };
    let mut r: Vec<AuditEntry> = Vec::new();
    let mut k: usize = start;
    while k < end
        invariant
            start <= k <= end <= sorted@.len(),
            s == entry_views(sorted@),
            entry_views(r@) == s.subrange(start as int, k as int),
        decreases end - k,
    {
        let e = sorted[k].clone();
        let ghost rv0 = entry_views(r@);
        proof {
            assert(e@ == s[k as int]);
        }
        r.push(e);
        proof {
            assert(entry_views(r@) =~= rv0.push(s[k as int]));
            assert(s.subrange(start as int, k as int).push(s[k as int]) =~= s.subrange(
                start as int,
                k + 1 as int,
            ));
        }
        k = k + 1;
    }
    proof {
        assert(s.subrange(start as int, end as int) =~= page(s, offset, limit));
    }
    r
}

/// The entries of `s` that satisfy `query`, in store order.
pub open spec fn filtered(s: Seq<AuditEntryView>, q: crate::types::AuditQueryView) -> Seq<
    AuditEntryView,
> {
    s.filter(|e: AuditEntryView| matches_spec(e, q))
}

/// Keeps the entries that satisfy every criterion of `query`, in store
/// order.
pub fn filter_entries(entries: &Vec<AuditEntry>, query: &AuditQuery) -> (r: Vec<AuditEntry>)
    ensures
        entry_views(r@) == filtered(entry_views(entries@), query@),
{
    let ghost s = entry_views(entries@);
    let ghost pred = |e: AuditEntryView| matches_spec(e, query@);
    let mut r: Vec<AuditEntry> = Vec::new();
    let mut i: usize = 0;
    while i < entries.len()
        invariant
            i <= entries@.len(),
            s == entry_views(entries@),
            pred == (|e: AuditEntryView| matches_spec(e, query@)),
            entry_views(r@) == s.take(i as int).filter(pred),
        decreases entries@.len() - i,
    {
        let keep = matches_query(&entries[i], query);
        proof {
            reveal(Seq::filter);
            assert(s.take(i + 1 as int).drop_last() =~= s.take(i as int));
            assert(s.take(i + 1 as int).last() == entries@[i as int]@);
        }
        if keep {
            r.push(entries[i].clone());
            proof {
                assert(entry_views(r@) =~= s.take(i as int).filter(pred).push(
                    entries@[i as int]@,
                ));
            }
        }
        i = i + 1;
    }
    proof {
        assert(s.take(s.len() as int) =~= s);
    }
    r
}

/// Ordered by timestamp descending: no entry is followed by a later one.
pub open spec fn sorted_by_timestamp_desc(s: Seq<AuditEntryView>) -> bool {
    forall|i: int, j: int| 0 <= i <= j < s.len() ==> s[i].timestamp >= s[j].timestamp
}

/// Inserting an entry adds exactly that entry to the sequence's contents.
proof fn lemma_insert_to_multiset(s: Seq<AuditEntryView>, i: int, e: AuditEntryView)
    requires
        0 <= i <= s.len(),
    ensures
        s.insert(i, e).to_multiset() == s.to_multiset().insert(e),
{
    broadcast use vstd::seq_lib::group_seq_properties;

    let t = s.insert(i, e);
    let left = s.subrange(0, i);
    let right = s.subrange(i, s.len() as int);
    assert(t =~= left + (seq![e] + right));
    vstd::seq_lib::lemma_multiset_commutative(left, seq![e] + right);
    vstd::seq_lib::lemma_multiset_commutative(seq![e], right);
    assert(s =~= left + right);
    vstd::seq_lib::lemma_multiset_commutative(left, right);
    assert(seq![e] =~= Seq::<AuditEntryView>::empty().push(e));
    Seq::<AuditEntryView>::empty().to_multiset_ensures();
    assert(Seq::<AuditEntryView>::empty().to_multiset() =~= Multiset::<AuditEntryView>::empty());
    assert(seq![e].to_multiset() =~= Multiset::<AuditEntryView>::empty().insert(e));
    assert(t.to_multiset() =~= s.to_multiset().insert(e));
}

/// Sorting neither drops, duplicates nor invents entries: the result holds
/// exactly the entries of the input.
pub proof fn lemma_sort_desc_multiset(s: Seq<AuditEntryView>)
    ensures
        sort_desc(s).to_multiset() == s.to_multiset(),
    decreases s.len(),
{
    if s.len() > 0 {
        let rest = sort_desc(s.drop_last());
        let e = s.last();
        let pos = insert_pos_desc(rest, e.timestamp);
        lemma_sort_desc_multiset(s.drop_last());
        lemma_insert_pos(rest, e.timestamp);
        lemma_insert_to_multiset(rest, pos, e);
        assert(sort_desc(s) == rest.insert(pos, e));
        assert(sort_desc(s).to_multiset() == s.drop_last().to_multiset().insert(e));
        s.drop_last().to_multiset_ensures();
        assert(s.drop_last().push(e).to_multiset() =~= s.drop_last().to_multiset().insert(e));
        assert(s.drop_last().push(e) =~= s);
        assert(s.to_multiset() == s.drop_last().to_multiset().insert(e));
    } else {
        assert(s =~= Seq::<AuditEntryView>::empty());
    }
}

/// Sorting orders the entries by timestamp descending.
pub proof fn lemma_sort_desc_sorted(s: Seq<AuditEntryView>)
    ensures
        sorted_by_timestamp_desc(sort_desc(s)),
    decreases s.len(),
{
    if s.len() > 0 {
        let rest = sort_desc(s.drop_last());
        let e = s.last();
        let pos = insert_pos_desc(rest, e.timestamp);
        lemma_sort_desc_sorted(s.drop_last());
        lemma_insert_pos(rest, e.timestamp);
        let t = rest.insert(pos, e);
        assert forall|i: int, j: int| 0 <= i <= j < t.len() implies t[i].timestamp
            >= t[j].timestamp by {
            if i < pos {
                assert(t[i] == rest[i]);
            }
            if j < pos {
                assert(t[j] == rest[j]);
            }
            if i > pos {
                assert(t[i] == rest[i - 1]);
            }
            if j > pos {
                assert(t[j] == rest[j - 1]);
            }
            if i == pos {
                assert(t[i] == e);
            }
            if j == pos {
                assert(t[j] == e);
            }
            if i == pos && j > pos {
                assert(rest[pos].timestamp < e.timestamp);
                assert(rest[j - 1].timestamp <= rest[pos].timestamp);
            }
        }
    }
}

/// Filter correctness, stated of the whole pipeline without pagination: the
/// results hold exactly the stored entries that satisfy every supplied
/// criterion — among them, for a time window, exactly those with
/// `t0 <= timestamp <= t1` — nothing missing, nothing added, nothing
/// duplicated, ordered by timestamp descending.
pub proof fn lemma_query_results_exact(s: Seq<AuditEntryView>, q: crate::types::AuditQueryView)
    requires
        q.offset is None,
        q.limit is None,
    ensures
        query_results(s, q).to_multiset() == filtered(s, q).to_multiset(),
        sorted_by_timestamp_desc(query_results(s, q)),
{
    let sorted = sort_desc(filtered(s, q));
    assert(page(sorted, None, None) =~= sorted);
    lemma_sort_desc_multiset(filtered(s, q));
    lemma_sort_desc_sorted(filtered(s, q));
}

/// Pagination: the page is the slice `[offset, offset + limit)` of the
/// sorted results, clipped to their end, and an offset at or past the end
/// leaves nothing.
pub proof fn lemma_page_slices(s: Seq<AuditEntryView>, offset: u32, limit: u32)
    ensures
        offset as int >= s.len() ==> page(s, Some(offset), Some(limit)) == Seq::<
            AuditEntryView,
        >::empty(),
        offset as int + limit as int <= s.len() ==> page(s, Some(offset), Some(limit))
            == s.subrange(offset as int, offset as int + limit as int),
        offset as int <= s.len() < offset as int + limit as int ==> page(s, Some(offset), Some(limit))
            == s.subrange(offset as int, s.len() as int),
{
    if offset as int >= s.len() {
        assert(page(s, Some(offset), Some(limit)) =~= Seq::<AuditEntryView>::empty());
    } else if offset as int + limit as int <= s.len() {
        assert(page(s, Some(offset), Some(limit)) =~= s.subrange(
            offset as int,
            offset as int + limit as int,
        ));
    } else {
        assert(page(s, Some(offset), Some(limit)) =~= s.subrange(offset as int, s.len() as int));
    }
}

/// The full query pipeline over a store: filter, order by timestamp
/// descending, then paginate.
pub open spec fn query_results(s: Seq<AuditEntryView>, q: crate::types::AuditQueryView) -> Seq<
    AuditEntryView,
> {
    page(sort_desc(filtered(s, q)), q.offset, q.limit)
}

/// Runs the full query pipeline over a store of entries.
pub fn run_query(entries: &Vec<AuditEntry>, query: &AuditQuery) -> (r: Vec<AuditEntry>)
    ensures
        entry_views(r@) == query_results(entry_views(entries@), query@),
{
    let matches = filter_entries(entries, query);
    let sorted = sort_entries_desc(matches);
    page_entries(&sorted, query.offset, query.limit)
}

} // verus!

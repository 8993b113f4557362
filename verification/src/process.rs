//! The process table: which entries of a snapshot are shown, and in what
//! order.
//!
//! The table is a projection of three values: the latest snapshot, the sort
//! order and the filter text. Entries are filtered first, then sorted, then
//! cut to [`DISPLAY_LIMIT`] rows, so the limit never hides a match behind
//! entries that the filter rejects.

use crate::text::{
    chars_of, contains_chars, contains_text, decimal_digits, decimal_string, lowercased, to_lowercase,
};
use vstd::prelude::*;

verus! {

/// How many rows the process table shows at most.
pub const DISPLAY_LIMIT: usize = 12;

/// One process of a snapshot.
#[derive(Debug, PartialEq, Eq)]
pub struct ProcessEntry {
    pub pid: u32,
    pub name: String,
    /// Processor load in tenths of a percent.
    pub cpu_tenths: u32,
    /// Memory in use, in the unit the snapshot was taken in.
    pub memory: u64,
    pub status: String,
}

/// A [`ProcessEntry`] with its texts as sequences of characters.
pub struct ProcessModel {
    pub pid: u32,
    pub name: Seq<char>,
    pub cpu_tenths: u32,
    pub memory: u64,
    pub status: Seq<char>,
}

impl View for ProcessEntry {
    type V = ProcessModel;

    open spec fn view(&self) -> ProcessModel {
        ProcessModel {
            pid: self.pid,
            name: self.name@,
            cpu_tenths: self.cpu_tenths,
            memory: self.memory,
            status: self.status@,
        }
    }
}

impl DeepView for ProcessEntry {
    type V = ProcessModel;

    open spec fn deep_view(&self) -> ProcessModel {
        self@
    }
}

impl Clone for ProcessEntry {
    fn clone(&self) -> (copy: Self)
        ensures
            copy == *self,
    {
        ProcessEntry {
            pid: self.pid,
            name: self.name.clone(),
            cpu_tenths: self.cpu_tenths,
            memory: self.memory,
            status: self.status.clone(),
        }
    }
}

/// The column by which the process table is ordered, largest first.
#[derive(Debug, Clone, Copy, PartialEq, Eq, Structural)]
pub enum SortBy {
    Cpu,
    Memory,
}

/// The number by which `entry` is ordered under `order`.
pub open spec fn sort_key(entry: ProcessModel, order: SortBy) -> int {
    match order {
        SortBy::Cpu => entry.cpu_tenths as int,
        SortBy::Memory => entry.memory as int,
    }
}

/// Whether an entry with this lower-cased name and this id passes a filter
/// whose lower-cased text is `needle`: the needle is part of the name or of
/// the id written in decimal.
pub open spec fn matches_needle(name_lower: Seq<char>, pid: u32, needle: Seq<char>) -> bool {
    contains_text(name_lower, needle) || contains_text(decimal_digits(pid as nat), needle)
}

/// Whether `entry` passes the filter `filter`, letter case set aside.
pub open spec fn matches_filter(entry: ProcessModel, filter: Seq<char>) -> bool {
    matches_needle(lowercased(entry.name), entry.pid, lowercased(filter))
}

/// The entries of `cache` that pass `filter`, in the order of the snapshot.
pub open spec fn matching(cache: Seq<ProcessModel>, filter: Seq<char>) -> Seq<ProcessModel> {
    cache.filter(|entry: ProcessModel| matches_filter(entry, filter))
}

/// Whether `rows` run from the largest key to the smallest.
pub open spec fn is_descending(rows: Seq<ProcessModel>, order: SortBy) -> bool {
    forall|a: int, b: int|
        0 <= a < b < rows.len() ==> sort_key(#[trigger] rows[a], order) >= sort_key(
            #[trigger] rows[b],
            order,
        )
}

/// Where an entry with key `key` goes into `rows`: behind every entry whose
/// key is at least `key`, so that among equals the one that comes later in
/// the snapshot stays later.
pub open spec fn insertion_point(rows: Seq<ProcessModel>, key: int, order: SortBy) -> int
    decreases rows.len(),
{
    if rows.len() == 0 || sort_key(rows.last(), order) >= key {
        rows.len() as int
    } else {
        insertion_point(rows.drop_last(), key, order)
    }
}

/// `rows` with `entry` put in at its [`insertion_point`].
pub open spec fn insert_descending(rows: Seq<ProcessModel>, entry: ProcessModel, order: SortBy) -> Seq<
    ProcessModel,
> {
    rows.insert(insertion_point(rows, sort_key(entry, order), order), entry)
}

/// `entries` ordered by key, largest first; entries with equal keys keep the
/// order they came in.
pub open spec fn sort_descending(entries: Seq<ProcessModel>, order: SortBy) -> Seq<ProcessModel>
    decreases entries.len(),
{
    if entries.len() == 0 {
        Seq::empty()
    } else {
        insert_descending(sort_descending(entries.drop_last(), order), entries.last(), order)
    }
}

/// The first [`DISPLAY_LIMIT`] of `rows`, or all of them if there are fewer.
pub open spec fn first_rows(rows: Seq<ProcessModel>) -> Seq<ProcessModel> {
    if rows.len() <= DISPLAY_LIMIT {
        rows
    } else {
        rows.take(DISPLAY_LIMIT as int)
    }
}

/// The rows of the process table: the entries of `cache` that pass `filter`,
/// ordered by `order`, cut to the display limit.
pub open spec fn shown_processes(cache: Seq<ProcessModel>, order: SortBy, filter: Seq<char>) -> Seq<
    ProcessModel,
> {
    first_rows(sort_descending(matching(cache, filter), order))
}

/// What [`insertion_point`] finds: a position in `rows` with only smaller
/// keys from it on and, if it is not the first, a key at least as large just
/// before it.
pub proof fn lemma_insertion_point(rows: Seq<ProcessModel>, key: int, order: SortBy)
    ensures
        0 <= insertion_point(rows, key, order) <= rows.len(),
        forall|j: int|
            insertion_point(rows, key, order) <= j < rows.len() ==> sort_key(
                #[trigger] rows[j],
                order,
            ) < key,
        insertion_point(rows, key, order) > 0 ==> sort_key(
            rows[insertion_point(rows, key, order) - 1],
            order,
        ) >= key,
    decreases rows.len(),
{
    if rows.len() > 0 && sort_key(rows.last(), order) < key {
        let rest = rows.drop_last();
        lemma_insertion_point(rest, key, order);
        assert forall|j: int| insertion_point(rows, key, order) <= j < rows.len() implies sort_key(
            #[trigger] rows[j],
            order,
        ) < key by {
            if j < rest.len() {
                assert(rows[j] == rest[j]);
            }
        }
        if insertion_point(rows, key, order) > 0 {
            assert(rows[insertion_point(rows, key, order) - 1] == rest[insertion_point(
                rest,
                key,
                order,
            ) - 1]);
        }
    }
}

/// The insertion point is the only position of which all that
/// [`lemma_insertion_point`] states holds.
pub proof fn lemma_insertion_point_unique(
    rows: Seq<ProcessModel>,
    key: int,
    order: SortBy,
    at: int,
)
    requires
        0 <= at <= rows.len(),
        forall|j: int| at <= j < rows.len() ==> sort_key(#[trigger] rows[j], order) < key,
        at > 0 ==> sort_key(rows[at - 1], order) >= key,
    ensures
        insertion_point(rows, key, order) == at,
{
    lemma_insertion_point(rows, key, order);
    let found = insertion_point(rows, key, order);
    if found < at {
        assert(sort_key(rows[at - 1], order) < key);
    } else if at < found {
        assert(sort_key(rows[found - 1], order) < key);
    }
}

/// Putting an entry into descending rows leaves them descending.
pub proof fn lemma_insert_keeps_descending(rows: Seq<ProcessModel>, entry: ProcessModel, order: SortBy)
    requires
        is_descending(rows, order),
    ensures
        is_descending(insert_descending(rows, entry, order), order),
        insert_descending(rows, entry, order).len() == rows.len() + 1,
        insert_descending(rows, entry, order).to_multiset() == rows.to_multiset().insert(entry),
{
    let key = sort_key(entry, order);
    let at = insertion_point(rows, key, order);
    lemma_insertion_point(rows, key, order);
    let after = insert_descending(rows, entry, order);
    assert forall|a: int, b: int| 0 <= a < b < after.len() implies sort_key(
        #[trigger] after[a],
        order,
    ) >= sort_key(#[trigger] after[b], order) by {
        if a < at {
            assert(sort_key(rows[a], order) >= sort_key(rows[at - 1], order));
        }
        if b > at {
            assert(after[b] == rows[b - 1]);
        }
        if a > at {
            assert(after[a] == rows[a - 1]);
        }
        if b < at {
            assert(after[b] == rows[b]);
        }
    }
    broadcast use vstd::seq_lib::group_to_multiset_ensures;
    assert(after.to_multiset().count(entry) > 0) by {
        assert(after[at] == entry);
    }
}

/// Sorting orders the entries, largest key first, and neither adds nor drops
/// one.
pub proof fn lemma_sort_descending(entries: Seq<ProcessModel>, order: SortBy)
    ensures
        is_descending(sort_descending(entries, order), order),
        sort_descending(entries, order).len() == entries.len(),
        sort_descending(entries, order).to_multiset() == entries.to_multiset(),
    decreases entries.len(),
{
    broadcast use vstd::seq_lib::group_to_multiset_ensures;
    if entries.len() == 0 {
        assert(entries =~= Seq::empty());
    } else {
        let rest = entries.drop_last();
        lemma_sort_descending(rest, order);
        lemma_insert_keeps_descending(sort_descending(rest, order), entries.last(), order);
        assert(rest.push(entries.last()) =~= entries);
    }
}

/// The entries of `rows` whose key is `key`, in their order.
pub open spec fn with_key(rows: Seq<ProcessModel>, key: int, order: SortBy) -> Seq<ProcessModel> {
    rows.filter(|entry: ProcessModel| sort_key(entry, order) == key)
}

/// Putting an entry in places it behind the entries of its own key and
/// leaves the entries of every key in the order they had.
pub proof fn lemma_insert_keeps_order_among_equals(
    rows: Seq<ProcessModel>,
    entry: ProcessModel,
    order: SortBy,
    key: int,
)
    ensures
        with_key(insert_descending(rows, entry, order), key, order) == if sort_key(entry, order)
            == key {
            with_key(rows, key, order).push(entry)
        } else {
            with_key(rows, key, order)
        },
{
    let pred = |e: ProcessModel| sort_key(e, order) == key;
    let own = sort_key(entry, order);
    let at = insertion_point(rows, own, order);
    lemma_insertion_point(rows, own, order);
    let front = rows.subrange(0, at);
    let back = rows.subrange(at, rows.len() as int);
    let one = seq![entry];
    assert(rows =~= front + back);
    assert(insert_descending(rows, entry, order) =~= (front + one) + back);
    Seq::filter_distributes_over_add(front, back, pred);
    Seq::filter_distributes_over_add(front, one, pred);
    Seq::filter_distributes_over_add(front + one, back, pred);
    assert(one.filter(pred) =~= if own == key {
        one
    } else {
        Seq::empty()
    }) by {
        reveal(Seq::filter);
        assert(one.drop_last().filter(pred) =~= Seq::<ProcessModel>::empty());
    }
    if own == key {
        assert forall|j: int| 0 <= j < back.len() implies !pred(#[trigger] back[j]) by {
            assert(back[j] == rows[at + j]);
        }
        back.lemma_all_neg_filter_empty(pred);
        assert(front.filter(pred) + one + back.filter(pred) =~= (front.filter(pred) + back.filter(
            pred,
        )).push(entry));
    } else {
        assert(front.filter(pred) + Seq::<ProcessModel>::empty() + back.filter(pred)
            =~= front.filter(pred) + back.filter(pred));
    }
}

/// Sorting is stable: the entries of any one key come out in the order they
/// went in.
pub proof fn lemma_sort_is_stable(entries: Seq<ProcessModel>, order: SortBy, key: int)
    ensures
        with_key(sort_descending(entries, order), key, order) == with_key(entries, key, order),
    decreases entries.len(),
{
    reveal(Seq::filter);
    if entries.len() == 0 {
        assert(sort_descending(entries, order) =~= entries);
    } else {
        let rest = entries.drop_last();
        lemma_sort_is_stable(rest, order, key);
        lemma_insert_keeps_order_among_equals(
            sort_descending(rest, order),
            entries.last(),
            order,
            key,
        );
    }
}

/// Cutting to the display limit before an entry is put in changes nothing
/// of what is shown afterwards: rows beyond the limit never come back.
pub proof fn lemma_insert_then_cut(rows: Seq<ProcessModel>, entry: ProcessModel, order: SortBy)
    requires
        is_descending(rows, order),
    ensures
        first_rows(insert_descending(rows, entry, order)) == first_rows(
            insert_descending(first_rows(rows), entry, order),
        ),
{
    if rows.len() > DISPLAY_LIMIT {
        let limit = DISPLAY_LIMIT as int;
        let key = sort_key(entry, order);
        let at = insertion_point(rows, key, order);
        let head = rows.take(limit);
        lemma_insertion_point(rows, key, order);
        if at <= limit {
            assert forall|j: int| at <= j < head.len() implies sort_key(#[trigger] head[j], order)
                < key by {
                assert(head[j] == rows[j]);
            }
            if at > 0 {
                assert(head[at - 1] == rows[at - 1]);
            }
            lemma_insertion_point_unique(head, key, order, at);
        } else {
            assert(sort_key(head[limit - 1], order) >= key) by {
                assert(sort_key(rows[limit - 1], order) >= sort_key(rows[at - 1], order));
            }
            lemma_insertion_point_unique(head, key, order, limit);
        }
    }
}

/// Every row of the process table passes the filter, in its name or in its
/// id, and is an entry of the snapshot: nothing that fails the filter is
/// shown.
pub proof fn lemma_shown_rows_match(cache: Seq<ProcessModel>, order: SortBy, filter: Seq<char>)
    ensures
        forall|i: int|
            0 <= i < shown_processes(cache, order, filter).len() ==> {
                &&& matches_filter(#[trigger] shown_processes(cache, order, filter)[i], filter)
                &&& cache.contains(shown_processes(cache, order, filter)[i])
            },
{
    broadcast use vstd::seq_lib::group_to_multiset_ensures;

    let pred = |entry: ProcessModel| matches_filter(entry, filter);
    let kept = matching(cache, filter);
    let sorted = sort_descending(kept, order);
    let shown = shown_processes(cache, order, filter);
    lemma_sort_descending(kept, order);
    assert forall|i: int| 0 <= i < shown.len() implies matches_filter(#[trigger] shown[i], filter)
        && cache.contains(shown[i]) by {
        assert(kept.to_multiset().count(shown[i]) > 0);
        let at = choose|at: int| 0 <= at < kept.len() && kept[at] == shown[i];
        cache.lemma_filter_pred(pred, at);
        cache.lemma_filter_contains_rev(pred, shown[i]);
    }
}

/// The rows of the process table run from the largest key to the smallest:
/// by processor load under [`SortBy::Cpu`], by memory under
/// [`SortBy::Memory`].
pub proof fn lemma_shown_rows_descend(cache: Seq<ProcessModel>, order: SortBy, filter: Seq<char>)
    ensures
        is_descending(shown_processes(cache, order, filter), order),
{
    let sorted = sort_descending(matching(cache, filter), order);
    let shown = shown_processes(cache, order, filter);
    lemma_sort_descending(matching(cache, filter), order);
    assert forall|a: int, b: int| 0 <= a < b < shown.len() implies sort_key(
        #[trigger] shown[a],
        order,
    ) >= sort_key(#[trigger] shown[b], order) by {
        assert(shown[b] == sorted[b]);
    }
}

/// The display limit counts matches only. As long as fewer entries pass the
/// filter than the limit allows, all of them are shown; and an entry that
/// passes the filter but is not shown is left out for a full table of
/// entries that all pass it too and whose keys are at least as large.
pub proof fn lemma_limit_applies_after_filter(
    cache: Seq<ProcessModel>,
    order: SortBy,
    filter: Seq<char>,
)
    ensures
        shown_processes(cache, order, filter).len() == if matching(cache, filter).len()
            <= DISPLAY_LIMIT {
            matching(cache, filter).len()
        } else {
            DISPLAY_LIMIT as nat
        },
        forall|j: int|
            0 <= j < cache.len() && matches_filter(#[trigger] cache[j], filter)
                && !shown_processes(cache, order, filter).contains(cache[j]) ==> {
                &&& shown_processes(cache, order, filter).len() == DISPLAY_LIMIT
                &&& forall|k: int|
                    0 <= k < shown_processes(cache, order, filter).len() ==> sort_key(
                        #[trigger] shown_processes(cache, order, filter)[k],
                        order,
                    ) >= sort_key(cache[j], order)
            },
{
    broadcast use vstd::seq_lib::group_to_multiset_ensures;

    let pred = |entry: ProcessModel| matches_filter(entry, filter);
    let kept = matching(cache, filter);
    let sorted = sort_descending(kept, order);
    let shown = shown_processes(cache, order, filter);
    lemma_sort_descending(kept, order);
    assert forall|j: int|
        0 <= j < cache.len() && matches_filter(#[trigger] cache[j], filter) && !shown.contains(
            cache[j],
        ) implies shown.len() == DISPLAY_LIMIT && forall|k: int|
        0 <= k < shown.len() ==> sort_key(#[trigger] shown[k], order) >= sort_key(
            cache[j],
            order,
        ) by {
        cache.lemma_filter_contains(pred, j);
        assert(sorted.to_multiset().count(cache[j]) > 0);
        let at = choose|at: int| 0 <= at < sorted.len() && sorted[at] == cache[j];
        if at < shown.len() {
            assert(shown[at] == cache[j]);
        }
        assert forall|k: int| 0 <= k < shown.len() implies sort_key(#[trigger] shown[k], order)
            >= sort_key(cache[j], order) by {
            assert(shown[k] == sorted[k]);
        }
    }
}

/// The entries of `cache` at the positions `picked`, in that order.
spec fn rows_at(cache: Seq<ProcessModel>, picked: Seq<usize>) -> Seq<ProcessModel> {
    Seq::new(picked.len(), |k: int| cache[picked[k] as int])
}

fn key_of(entry: &ProcessEntry, order: SortBy) -> (key: u64)
    ensures
        key == sort_key(entry@, order),
{
    match order {
        SortBy::Cpu => entry.cpu_tenths as u64,
        SortBy::Memory => entry.memory,
    }
}

/// Tests an entry against a filter, both already in lower case: `needle` must
/// be part of the name or of `pid` written in decimal.
pub fn matches_lowered(name_lower: &str, pid: u32, needle: &Vec<char>) -> (hit: bool)
    ensures
        hit == matches_needle(name_lower@, pid, needle@),
{
    let name = chars_of(name_lower);
    if contains_chars(&name, needle) {
        return true;
    }
    let id_text = decimal_string(pid as u64);
    let id = chars_of(id_text.as_str());
    contains_chars(&id, needle)
}

/// Tests an entry against a filter text, letter case set aside.
pub fn entry_matches(entry: &ProcessEntry, filter: &str) -> (hit: bool)
    ensures
        hit == matches_filter(entry@, filter@),
{
    let lowered = to_lowercase(filter);
    let needle = chars_of(lowered.as_str());
    let name_lower = to_lowercase(entry.name.as_str());
    matches_lowered(name_lower.as_str(), entry.pid, &needle)
}

fn find_insertion_point(cache: &Vec<ProcessEntry>, picked: &Vec<usize>, key: u64, order: SortBy) -> (at:
    usize)
    requires
        forall|k: int| 0 <= k < picked.len() ==> picked[k] < cache.len(),
    ensures
        at == insertion_point(rows_at(cache.deep_view(), picked@), key as int, order),
{
    let ghost rows = rows_at(cache.deep_view(), picked@);
    let mut at: usize = picked.len();
    while at > 0
        invariant
            at <= picked.len(),
            rows == rows_at(cache.deep_view(), picked@),
            forall|k: int| 0 <= k < picked.len() ==> picked[k] < cache.len(),
            forall|j: int| at <= j < rows.len() ==> sort_key(#[trigger] rows[j], order) < key,
        decreases at,
    {
        let before: u64 = key_of(&cache[picked[at - 1]], order);
        if before >= key {
            proof {
                lemma_insertion_point_unique(rows, key as int, order, at as int);
            }
            return at;
        }
        at -= 1;
    }
    proof {
        lemma_insertion_point_unique(rows, key as int, order, 0);
    }
    at
}

/// The rows of the process table for a snapshot, a sort order and a filter
/// text.
pub fn visible_processes(cache: &Vec<ProcessEntry>, order: SortBy, filter: &str) -> (rows: Vec<
    ProcessEntry,
>)
    ensures
        rows.deep_view() == shown_processes(cache.deep_view(), order, filter@),
{
    let lowered = to_lowercase(filter);
    let needle = chars_of(lowered.as_str());
    let ghost models = cache.deep_view();
    let mut picked: Vec<usize> = Vec::new();
    let mut i: usize = 0;
    proof {
        reveal(Seq::filter);
    }
    while i < cache.len()
        invariant
            i <= cache.len(),
            models == cache.deep_view(),
            needle@ == lowercased(filter@),
            picked.len() <= DISPLAY_LIMIT,
            forall|k: int| 0 <= k < picked.len() ==> picked[k] < i,
            rows_at(models, picked@) == first_rows(
                sort_descending(matching(models.take(i as int), filter@), order),
            ),
        decreases cache.len() - i,
    {
        let entry = &cache[i];
        let name_lower = to_lowercase(entry.name.as_str());
        let hit = matches_lowered(name_lower.as_str(), entry.pid, &needle);
        let ghost seen = matching(models.take(i as int), filter@);
        let ghost sorted = sort_descending(seen, order);
        let ghost before = rows_at(models, picked@);
        proof {
            reveal(Seq::filter);
            assert(models.take(i + 1).drop_last() =~= models.take(i as int));
        }
        if hit {
            let key: u64 = key_of(entry, order);
            let at: usize = find_insertion_point(cache, &picked, key, order);
            proof {
                assert(seen.push(entry@).drop_last() =~= seen);
                lemma_sort_descending(seen, order);
                lemma_insert_then_cut(sorted, entry@, order);
                lemma_insertion_point(before, key as int, order);
            }
            if at < DISPLAY_LIMIT {
                picked.insert(at, i);
                proof {
                    assert(rows_at(models, picked@) =~= before.insert(at as int, entry@));
                }
                if picked.len() > DISPLAY_LIMIT {
                    picked.pop();
                    proof {
                        assert(rows_at(models, picked@) =~= before.insert(at as int, entry@).take(
                            DISPLAY_LIMIT as int,
                        ));
                    }
                }
            } else {
                proof {
                    assert(before.insert(at as int, entry@).take(DISPLAY_LIMIT as int) =~= before);
                }
            }
        } else {
            proof {
                assert(matching(models.take(i + 1), filter@) == seen);
            }
        }
        i += 1;
    }
    proof {
        assert(models.take(i as int) =~= models);
    }
    let mut rows: Vec<ProcessEntry> = Vec::new();
    let mut k: usize = 0;
    while k < picked.len()
        invariant
            k <= picked.len(),
            rows.len() == k,
            models == cache.deep_view(),
            forall|j: int| 0 <= j < picked.len() ==> picked[j] < cache.len(),
            forall|j: int| 0 <= j < k ==> (#[trigger] rows[j])@ == models[picked[j] as int],
        decreases picked.len() - k,
    {
        let copy = cache[picked[k]].clone();
        rows.push(copy);
        k += 1;
    }
    proof {
        assert(rows.deep_view() =~= rows_at(models, picked@));
    }
    rows
}

} // verus!

use crate::entry::{names_of, Entry};
use crate::matcher::{fuzzy_accepts, skim_indices, skim_match};
use vstd::prelude::*;

verus! {

/// One row of the filtered view: an index into the entry list, the match
/// score, and the character positions of the name that matched.
#[derive(Clone, Debug)]
pub struct FilteredEntry {
    pub index: usize,
    pub score: i64,
    pub positions: Vec<usize>,
}

/// A row of the view in mathematical form.
pub type Row = (int, i64, Seq<usize>);

impl FilteredEntry {
    pub open spec fn row(&self) -> Row {
        (self.index as int, self.score, self.positions@)
    }
}

pub open spec fn rows_of(v: Seq<FilteredEntry>) -> Seq<Row> {
    v.map_values(|f: FilteredEntry| f.row())
}

/// Every entry, in order, unscored.
pub open spec fn identity_rows(n: int) -> Seq<Row> {
    Seq::new(n as nat, |i: int| (i, 0i64, Seq::<usize>::empty()))
}

/// The entries that the matcher accepts, in list order, with their scores and positions.
pub open spec fn candidates(names: Seq<Seq<char>>, query: Seq<char>) -> Seq<Row>
    decreases names.len(),
{
    if names.len() == 0 {
        Seq::empty()
    } else {
        let prev = candidates(names.drop_last(), query);
        match skim_indices(names.last(), query) {
            Some((score, positions)) => prev.push((names.len() - 1, score, positions)),
            None => prev,
        }
    }
}

/// Where a row of score `score` goes in `s`: after every leading row that scores at least as much.
pub open spec fn insert_pos(s: Seq<Row>, score: i64) -> int
    decreases s.len(),
{
    if s.len() == 0 {
        0
    } else if s[0].1 >= score {
        1 + insert_pos(s.drop_first(), score)
    } else {
        0
    }
}

/// `rows` sorted by score, highest first; rows of equal score keep their order.
pub open spec fn ranked(rows: Seq<Row>) -> Seq<Row>
    decreases rows.len(),
{
    if rows.len() == 0 {
        Seq::empty()
    } else {
        let prev = ranked(rows.drop_last());
        prev.insert(insert_pos(prev, rows.last().1), rows.last())
    }
}

/// The filtered view of `names` for `query`.
pub open spec fn filter_view(names: Seq<Seq<char>>, query: Seq<char>) -> Seq<Row> {
    if query.len() == 0 {
        identity_rows(names.len() as int)
    } else {
        ranked(candidates(names, query))
    }
}

pub open spec fn holds_index(rows: Seq<Row>, i: int) -> bool {
    exists|k: int| 0 <= k < rows.len() && (#[trigger] rows[k]).0 == i
}

/// Scores never increase along the rows, and rows of equal score have increasing indices.
pub open spec fn is_ranked(rows: Seq<Row>) -> bool {
    forall|a: int, b: int|
        0 <= a < b < rows.len() ==> (#[trigger] rows[a]).1 > (#[trigger] rows[b]).1 || (
        rows[a].1 == rows[b].1 && rows[a].0 < rows[b].0)
}

proof fn lemma_insert_pos_bounds(s: Seq<Row>, score: i64)
    ensures
        0 <= insert_pos(s, score) <= s.len(),
        forall|k: int| 0 <= k < insert_pos(s, score) ==> (#[trigger] s[k]).1 >= score,
        insert_pos(s, score) < s.len() ==> s[insert_pos(s, score)].1 < score,
    decreases s.len(),
{
    if s.len() > 0 && s[0].1 >= score {
        lemma_insert_pos_bounds(s.drop_first(), score);
        assert forall|k: int| 0 <= k < insert_pos(s, score) implies (#[trigger] s[k]).1 >= score by {
            if k > 0 {
                assert(s[k] == s.drop_first()[k - 1]);
            }
        }
    }
}

proof fn lemma_insert_pos_unique(s: Seq<Row>, score: i64, j: int)
    requires
        0 <= j <= s.len(),
        forall|k: int| 0 <= k < j ==> (#[trigger] s[k]).1 >= score,
        j < s.len() ==> s[j].1 < score,
    ensures
        insert_pos(s, score) == j,
    decreases s.len(),
{
    if j > 0 {
        assert(s[0].1 >= score);
        let t = s.drop_first();
        assert forall|k: int| 0 <= k < j - 1 implies (#[trigger] t[k]).1 >= score by {
            assert(t[k] == s[k + 1]);
        }
        lemma_insert_pos_unique(t, score, j - 1);
    }
}

/// Every row of the candidates names a valid index, in increasing order, and
/// an index is present exactly when the matcher gave it a result.
proof fn lemma_candidates(names: Seq<Seq<char>>, query: Seq<char>)
    ensures
        forall|k: int|
            0 <= k < candidates(names, query).len() ==> 0 <= (#[trigger] candidates(
                names,
                query,
            )[k]).0 < names.len(),
        forall|a: int, b: int|
            0 <= a < b < candidates(names, query).len() ==> (#[trigger] candidates(names, query)[a]).0
                < (#[trigger] candidates(names, query)[b]).0,
        forall|i: int|
            0 <= i < names.len() ==> (holds_index(candidates(names, query), i) <==> (#[trigger] skim_indices(
                names[i],
                query,
            )) is Some),
    decreases names.len(),
{
    if names.len() > 0 {
        let init = names.drop_last();
        lemma_candidates(init, query);
        let prev = candidates(init, query);
        let c = candidates(names, query);
        assert forall|i: int| 0 <= i < names.len() implies (holds_index(c, i) <==> (#[trigger] skim_indices(
            names[i],
            query,
        )) is Some) by {
            if i < names.len() - 1 {
                assert(names[i] == init[i]);
                if holds_index(prev, i) {
                    let k = choose|k: int| 0 <= k < prev.len() && (#[trigger] prev[k]).0 == i;
                    assert(c[k] == prev[k]);
                }
                if holds_index(c, i) {
                    let k = choose|k: int| 0 <= k < c.len() && (#[trigger] c[k]).0 == i;
                    assert(k < prev.len());
                    assert(c[k] == prev[k]);
                }
            } else {
                if skim_indices(names.last(), query) is Some {
                    assert(c[prev.len() as int].0 == i);
                }
            }
        }
    }
}

/// Inserting at the rank position keeps rows ranked, given that the new row's
/// index is above all others.
proof fn lemma_insert_keeps_ranked(s: Seq<Row>, x: Row)
    requires
        is_ranked(s),
        forall|k: int| 0 <= k < s.len() ==> (#[trigger] s[k]).0 < x.0,
    ensures
        is_ranked(s.insert(insert_pos(s, x.1), x)),
{
    lemma_insert_pos_bounds(s, x.1);
    let p = insert_pos(s, x.1);
    let t = s.insert(p, x);
    assert forall|a: int, b: int| 0 <= a < b < t.len() implies (#[trigger] t[a]).1 > (
    #[trigger] t[b]).1 || (t[a].1 == t[b].1 && t[a].0 < t[b].0) by {
        if a < p && b == p {
        } else if a == p && b > p {
            assert(t[b] == s[b - 1]);
        } else {
            let sa = if a < p { a } else { a - 1 };
            let sb = if b < p { b } else { b - 1 };
            assert(t[a] == s[sa]);
            assert(t[b] == s[sb]);
        }
    }
}

/// Inserting a row keeps the indices held, and adds the new one.
proof fn lemma_insert_holds(s: Seq<Row>, p: int, x: Row, i: int)
    requires
        0 <= p <= s.len(),
    ensures
        holds_index(s.insert(p, x), i) <==> (holds_index(s, i) || x.0 == i),
{
    let t = s.insert(p, x);
    if holds_index(t, i) {
        let k = choose|k: int| 0 <= k < t.len() && (#[trigger] t[k]).0 == i;
        if k < p {
            assert(t[k] == s[k]);
        } else if k > p {
            assert(t[k] == s[k - 1]);
        }
    }
    if holds_index(s, i) {
        let j = choose|j: int| 0 <= j < s.len() && (#[trigger] s[j]).0 == i;
        if j < p {
            assert(t[j] == s[j]);
        } else {
            assert(t[j + 1] == s[j]);
        }
    }
    if x.0 == i {
        assert(t[p] == x);
    }
}

/// Dropping the last row keeps every other index held.
proof fn lemma_drop_last_holds(rows: Seq<Row>, i: int)
    requires
        rows.len() > 0,
    ensures
        holds_index(rows, i) <==> (holds_index(rows.drop_last(), i) || rows.last().0 == i),
{
    let init = rows.drop_last();
    if holds_index(rows, i) {
        let k = choose|k: int| 0 <= k < rows.len() && (#[trigger] rows[k]).0 == i;
        if k < rows.len() - 1 {
            assert(init[k] == rows[k]);
        }
    }
    if holds_index(init, i) {
        let k = choose|k: int| 0 <= k < init.len() && (#[trigger] init[k]).0 == i;
        assert(init[k] == rows[k]);
    }
}

/// What ranking keeps: ranked rows are ranked, and hold the same indices.
proof fn lemma_ranked(rows: Seq<Row>)
    requires
        forall|a: int, b: int| 0 <= a < b < rows.len() ==> (#[trigger] rows[a]).0 < (#[trigger] rows[b]).0,
    ensures
        ranked(rows).len() == rows.len(),
        is_ranked(ranked(rows)),
        forall|i: int| holds_index(ranked(rows), i) <==> holds_index(rows, i),
    decreases rows.len(),
{
    if rows.len() > 0 {
        let init = rows.drop_last();
        assert forall|a: int, b: int| 0 <= a < b < init.len() implies (#[trigger] init[a]).0 < (
        #[trigger] init[b]).0 by {
            assert(init[a] == rows[a] && init[b] == rows[b]);
        }
        lemma_ranked(init);
        let prev = ranked(init);
        let x = rows.last();
        lemma_insert_pos_bounds(prev, x.1);
        let p = insert_pos(prev, x.1);
        assert forall|k: int| 0 <= k < prev.len() implies (#[trigger] prev[k]).0 < x.0 by {
            assert(holds_index(prev, prev[k].0));
            assert(holds_index(init, prev[k].0));
            let m = choose|m: int| 0 <= m < init.len() && (#[trigger] init[m]).0 == prev[k].0;
            assert(init[m] == rows[m]);
        }
        lemma_insert_keeps_ranked(prev, x);
        assert forall|i: int| holds_index(ranked(rows), i) <==> holds_index(rows, i) by {
            lemma_insert_holds(prev, p, x, i);
            lemma_drop_last_holds(rows, i);
        }
    }
}

/// The position at which a row of score `score` is inserted into the ranked `rows`.
fn rank_position(rows: &Vec<FilteredEntry>, score: i64) -> (j: usize)
    ensures
        j as int == insert_pos(rows_of(rows@), score),
        j <= rows@.len(),
{
    let mut j: usize = 0;
    while j < rows.len() && rows[j].score >= score
        invariant
            j <= rows.len(),
            forall|k: int| 0 <= k < j ==> (#[trigger] rows_of(rows@)[k]).1 >= score,
        decreases rows.len() - j,
    {
        j = j + 1;
    }
    proof {
        lemma_insert_pos_unique(rows_of(rows@), score, j as int);
    }
    j
}

/// Builds the filtered view of `entries` for `query`: every entry in order when
/// the query is empty; otherwise the entries that the matcher accepts, best
/// score first, entries of equal score in list order.
pub fn filter_entries(entries: &Vec<Entry>, query: &str) -> (r: Vec<FilteredEntry>)
    ensures
        rows_of(r@) == filter_view(names_of(entries@), query@),
        forall|k: int| 0 <= k < r@.len() ==> (#[trigger] r@[k]).index < entries@.len(),
        query@.len() > 0 ==> is_ranked(rows_of(r@)),
        query@.len() > 0 ==> forall|i: int|
            0 <= i < entries@.len() ==> (holds_index(rows_of(r@), i) <==> fuzzy_accepts(
                #[trigger] entries@[i].name@,
                query@,
            )),
{
    let ghost names = names_of(entries@);
    let mut out: Vec<FilteredEntry> = Vec::new();
    if query.is_empty() {
        let mut i: usize = 0;
        while i < entries.len()
            invariant
                i <= entries@.len(),
                rows_of(out@) =~= identity_rows(i as int),
                forall|k: int| 0 <= k < out@.len() ==> (#[trigger] out@[k]).index < i,
            decreases entries.len() - i,
        {
            let ghost before = rows_of(out@);
            let e = FilteredEntry { index: i, score: 0, positions: Vec::new() };
            assert(e.row() == (i as int, 0i64, Seq::<usize>::empty()));
            out.push(e);
            assert(rows_of(out@) =~= before.push(e.row()));
            i = i + 1;
        }
        return out;
    }
    let mut i: usize = 0;
    while i < entries.len()
        invariant
            i <= entries@.len(),
            names == names_of(entries@),
            rows_of(out@) == ranked(candidates(names.subrange(0, i as int), query@)),
            forall|j: int|
                0 <= j < i ==> ((#[trigger] skim_indices(names[j], query@)) is Some <==> fuzzy_accepts(
                    names[j],
                    query@,
                )),
        decreases entries.len() - i,
    {
        let m = skim_match(entries[i].name.as_str(), query);
        let ghost sub = names.subrange(0, i + 1);
        let ghost cand = candidates(names.subrange(0, i as int), query@);
        assert(sub.drop_last() =~= names.subrange(0, i as int));
        assert(sub.last() == entries@[i as int].name@);
        match m {
            Some((score, positions)) => {
                let j = rank_position(&out, score);
                let ghost before = rows_of(out@);
                let x = FilteredEntry { index: i, score, positions };
                out.insert(j, x);
                assert(rows_of(out@) =~= before.insert(j as int, x.row()));
                assert(cand.push(x.row()).drop_last() =~= cand);
            },
            None => {},
        }
        i = i + 1;
    }
    proof {
        assert(names.subrange(0, entries@.len() as int) =~= names);
        let c = candidates(names, query@);
        lemma_candidates(names, query@);
        lemma_ranked(c);
        assert forall|k: int| 0 <= k < out@.len() implies (#[trigger] out@[k]).index
            < entries@.len() by {
            assert(rows_of(out@)[k].0 == out@[k].index);
            assert(holds_index(ranked(c), out@[k].index as int));
            assert(holds_index(c, out@[k].index as int));
        }
        assert forall|i: int| 0 <= i < entries@.len() implies (holds_index(rows_of(out@), i)
            <==> fuzzy_accepts(#[trigger] entries@[i].name@, query@)) by {
            assert(names[i] == entries@[i].name@);
            assert(holds_index(ranked(c), i) <==> holds_index(c, i));
            assert(holds_index(c, i) <==> skim_indices(names[i], query@) is Some);
        }
    }
    out
}

/// The filtered view is a function of the entries' names and the query: two
/// views built from the same names and query are the same rows in the same order.
pub proof fn lemma_filter_deterministic(
    names: Seq<Seq<char>>,
    query: Seq<char>,
    first: Seq<Row>,
    second: Seq<Row>,
)
    requires
        first == filter_view(names, query),
        second == filter_view(names, query),
    ensures
        first.len() == second.len(),
        forall|k: int| 0 <= k < first.len() ==> #[trigger] first[k] == second[k],
{
}

/// With an empty query the view holds every entry once, in list order, with
/// score `0` and no matched positions.
pub proof fn lemma_empty_query_identity(names: Seq<Seq<char>>, query: Seq<char>)
    requires
        query.len() == 0,
    ensures
        filter_view(names, query).len() == names.len(),
        forall|k: int|
            0 <= k < names.len() ==> #[trigger] filter_view(names, query)[k] == (
                k,
                0i64,
                Seq::<usize>::empty(),
            ),
{
}

/// With a non-empty query the view holds each accepted entry exactly once,
/// ranked by score with ties in list order.
pub proof fn lemma_filter_ranked(names: Seq<Seq<char>>, query: Seq<char>)
    requires
        query.len() > 0,
    ensures
        is_ranked(filter_view(names, query)),
        forall|i: int|
            0 <= i < names.len() ==> (holds_index(filter_view(names, query), i) <==> (
            #[trigger] skim_indices(names[i], query)) is Some),
        forall|k: int|
            0 <= k < filter_view(names, query).len() ==> 0 <= (#[trigger] filter_view(
                names,
                query,
            )[k]).0 < names.len(),
{
    let c = candidates(names, query);
    lemma_candidates(names, query);
    lemma_ranked(c);
    assert forall|k: int| 0 <= k < filter_view(names, query).len() implies 0 <= (
    #[trigger] filter_view(names, query)[k]).0 < names.len() by {
        let i = filter_view(names, query)[k].0;
        assert(holds_index(ranked(c), i));
        assert(holds_index(c, i));
        let m = choose|m: int| 0 <= m < c.len() && (#[trigger] c[m]).0 == i;
    }
}

} // verus!

//! Ranking of rows by sort key.
//!
//! A row is ranked by a key of three integers, larger keys first. Rows with
//! equal keys keep the order in which they were given, so the ranking of a
//! table is unique whatever the table holds.

use vstd::prelude::*;

verus! {

/// The sort key of one row: the value of the requested order, then the
/// creation time, then the row's identifier.
#[derive(Clone, Copy, Debug, PartialEq, Eq, Structural)]
pub struct RankKey {
    pub primary: i64,
    pub published: i64,
    pub id: i64,
}

impl RankKey {
    /// `self` is listed strictly before `other`: it is larger in the first
    /// component in which the two differ.
    pub open spec fn outranks(self, other: RankKey) -> bool {
        ||| self.primary > other.primary
        ||| self.primary == other.primary && self.published > other.published
        ||| self.primary == other.primary && self.published == other.published && self.id
            > other.id
    }

    /// Whether `self` is listed strictly before `other`.
    pub fn beats(&self, other: &RankKey) -> (wins: bool)
        ensures
            wins == self.outranks(*other),
    {
        self.primary > other.primary || (self.primary == other.primary && (self.published
            > other.published || (self.published == other.published && self.id > other.id)))
    }
}

/// What a ranking reads of one row of a table: its sort key, and whether
/// the query admits it.
#[derive(Clone, Copy, Debug, PartialEq, Eq, Structural)]
pub struct Candidate {
    pub key: RankKey,
    pub admitted: bool,
}

/// Row `i` is listed before row `j`: its key is larger, or the keys are
/// equal and it was given first.
pub open spec fn comes_before(rows: Seq<Candidate>, i: int, j: int) -> bool {
    rows[i].key.outranks(rows[j].key) || (rows[i].key == rows[j].key && i < j)
}

/// Each entry of `order` is listed before all later entries.
pub open spec fn strictly_ordered(rows: Seq<Candidate>, order: Seq<int>) -> bool {
    forall|a: int, b: int|
        0 <= a < b < order.len() ==> comes_before(rows, #[trigger] order[a], #[trigger] order[b])
}

/// `order` lists exactly the admitted rows, each once, best first.
pub open spec fn is_ranking(rows: Seq<Candidate>, order: Seq<int>) -> bool {
    &&& forall|k: int|
        0 <= k < order.len() ==> 0 <= #[trigger] order[k] < rows.len() && rows[order[k]].admitted
    &&& forall|i: int| 0 <= i < rows.len() && (#[trigger] rows[i]).admitted ==> order.contains(i)
    &&& strictly_ordered(rows, order)
}

/// The admitted rows in the order in which they are listed.
pub open spec fn ranking(rows: Seq<Candidate>) -> Seq<int> {
    choose|order: Seq<int>| is_ranking(rows, order)
}

/// The row numbers held by a vector of indices.
pub open spec fn as_ints(indices: Seq<usize>) -> Seq<int> {
    indices.map_values(|i: usize| i as int)
}

/// Two strictly ordered lists with the same members are the same list.
pub proof fn lemma_ordered_lists_agree(rows: Seq<Candidate>, x: Seq<int>, y: Seq<int>)
    requires
        strictly_ordered(rows, x),
        strictly_ordered(rows, y),
        forall|i: int| x.contains(i) <==> y.contains(i),
    ensures
        x == y,
    decreases x.len(),
{
    if x.len() == 0 {
        if y.len() > 0 {
            assert(y.contains(y[0]));
            assert(x.contains(y[0]));
        }
        assert(x =~= y);
    } else {
        assert(x.contains(x[0]));
        assert(y.contains(x[0]));
        let p = choose|p: int| 0 <= p < y.len() && y[p] == x[0];
        assert(y.contains(y[0]));
        assert(x.contains(y[0]));
        let q = choose|q: int| 0 <= q < x.len() && x[q] == y[0];
        if p > 0 && q > 0 {
            assert(comes_before(rows, y[0], y[p]));
            assert(comes_before(rows, x[0], x[q]));
        }
        assert(x[0] == y[0]);
        let xs = x.drop_first();
        let ys = y.drop_first();
        assert forall|i: int| xs.contains(i) <==> ys.contains(i) by {
            if xs.contains(i) {
                let k = choose|k: int| 0 <= k < xs.len() && xs[k] == i;
                assert(x[k + 1] == i);
                assert(comes_before(rows, x[0], x[k + 1]));
                assert(x.contains(i));
                let m = choose|m: int| 0 <= m < y.len() && y[m] == i;
                assert(m > 0);
                assert(ys[m - 1] == i);
            }
            if ys.contains(i) {
                let k = choose|k: int| 0 <= k < ys.len() && ys[k] == i;
                assert(y[k + 1] == i);
                assert(comes_before(rows, y[0], y[k + 1]));
                assert(y.contains(i));
                let m = choose|m: int| 0 <= m < x.len() && x[m] == i;
                assert(m > 0);
                assert(xs[m - 1] == i);
            }
        }
        assert forall|a: int, b: int| 0 <= a < b < xs.len() implies comes_before(
            rows,
            #[trigger] xs[a],
            #[trigger] xs[b],
        ) by {
            assert(comes_before(rows, x[a + 1], x[b + 1]));
        }
        assert forall|a: int, b: int| 0 <= a < b < ys.len() implies comes_before(
            rows,
            #[trigger] ys[a],
            #[trigger] ys[b],
        ) by {
            assert(comes_before(rows, y[a + 1], y[b + 1]));
        }
        lemma_ordered_lists_agree(rows, xs, ys);
        assert(x =~= seq![x[0]] + xs);
        assert(y =~= seq![y[0]] + ys);
    }
}

/// A table has one ranking only.
pub proof fn lemma_ranking_is_unique(rows: Seq<Candidate>, x: Seq<int>, y: Seq<int>)
    requires
        is_ranking(rows, x),
        is_ranking(rows, y),
    ensures
        x == y,
{
    assert forall|i: int| x.contains(i) <==> y.contains(i) by {
        if x.contains(i) {
            let k = choose|k: int| 0 <= k < x.len() && x[k] == i;
            assert(rows[x[k]].admitted);
        }
        if y.contains(i) {
            let k = choose|k: int| 0 <= k < y.len() && y[k] == i;
            assert(rows[y[k]].admitted);
        }
    }
    lemma_ordered_lists_agree(rows, x, y);
}

/// The first place in `order`, from `from` on, that holds a row which `key`
/// outranks, or the length of `order` if there is none.
pub open spec fn slot(rows: Seq<Candidate>, order: Seq<int>, key: RankKey, from: int) -> int
    decreases order.len() - from,
{
    if from >= order.len() || key.outranks(rows[order[from]].key) {
        from
    } else {
        slot(rows, order, key, from + 1)
    }
}

/// `slot` finds the first row that `key` outranks.
pub proof fn lemma_slot(rows: Seq<Candidate>, order: Seq<int>, key: RankKey, from: int)
    requires
        0 <= from <= order.len(),
    ensures
        from <= slot(rows, order, key, from) <= order.len(),
        forall|k: int|
            from <= k < slot(rows, order, key, from) ==> !key.outranks(
                rows[#[trigger] order[k]].key,
            ),
        slot(rows, order, key, from) < order.len() ==> key.outranks(
            rows[order[slot(rows, order, key, from)]].key,
        ),
    decreases order.len() - from,
{
    if from < order.len() && !key.outranks(rows[order[from]].key) {
        lemma_slot(rows, order, key, from + 1);
    }
}

/// Every table has a ranking.
pub proof fn lemma_ranking_exists(rows: Seq<Candidate>)
    ensures
        is_ranking(rows, ranking(rows)),
    decreases rows.len(),
{
    if rows.len() == 0 {
        assert(is_ranking(rows, Seq::<int>::empty()));
    } else {
        let rest = rows.drop_last();
        let last = rows.len() - 1;
        lemma_ranking_exists(rest);
        let before = ranking(rest);
        assert forall|a: int, b: int| 0 <= a < b < before.len() implies comes_before(
            rows,
            #[trigger] before[a],
            #[trigger] before[b],
        ) by {
            assert(comes_before(rest, before[a], before[b]));
        }
        if !rows[last].admitted {
            assert forall|i: int| 0 <= i < rows.len() && (#[trigger] rows[i]).admitted implies before.contains(
                i,
            ) by {
                assert(rest[i].admitted);
            }
            assert forall|k: int| 0 <= k < before.len() implies 0 <= #[trigger] before[k]
                < rows.len() && rows[before[k]].admitted by {
                assert(rest[before[k]].admitted);
            }
            assert(is_ranking(rows, before));
        } else {
            let key = rows[last].key;
            lemma_slot(rows, before, key, 0);
            let p = slot(rows, before, key, 0);
            let after = before.insert(p, last);
            assert forall|k: int| 0 <= k < after.len() implies 0 <= #[trigger] after[k]
                < rows.len() && rows[after[k]].admitted by {
                if k < p {
                    assert(after[k] == before[k]);
                    assert(rest[before[k]].admitted);
                } else if k > p {
                    assert(after[k] == before[k - 1]);
                    assert(rest[before[k - 1]].admitted);
                }
            }
            assert forall|i: int| 0 <= i < rows.len() && (#[trigger] rows[i]).admitted implies after.contains(
                i,
            ) by {
                if i == last {
                    assert(after[p] == i);
                } else {
                    assert(rest[i].admitted);
                    let k = choose|k: int| 0 <= k < before.len() && before[k] == i;
                    if k < p {
                        assert(after[k] == i);
                    } else {
                        assert(after[k + 1] == i);
                    }
                }
            }
            assert forall|a: int, b: int| 0 <= a < b < after.len() implies comes_before(
                rows,
                #[trigger] after[a],
                #[trigger] after[b],
            ) by {
                let ka = if a < p { a } else { a - 1 };
                let kb = if b < p { b } else { b - 1 };
                if a == p {
                    assert(after[b] == before[kb]);
                    if kb > p {
                        assert(comes_before(rows, before[p], before[kb]));
                    }
                } else if b == p {
                    assert(after[a] == before[ka]);
                    assert(before[ka] < last);
                } else {
                    assert(after[a] == before[ka]);
                    assert(after[b] == before[kb]);
                }
            }
            assert(is_ranking(rows, after));
        }
    }
}

/// The place in `order` at which row `i` belongs: behind every row that it
/// does not outrank.
fn slot_for(rows: &Vec<Candidate>, order: &Vec<usize>, i: usize) -> (p: usize)
    requires
        i < rows.len(),
        forall|k: int| 0 <= k < order.len() ==> #[trigger] order@[k] < rows.len(),
    ensures
        p <= order.len(),
        forall|k: int|
            0 <= k < p ==> !rows@[i as int].key.outranks(rows@[#[trigger] order@[k] as int].key),
        p < order.len() ==> rows@[i as int].key.outranks(rows@[order@[p as int] as int].key),
{
    let mut p: usize = 0;
    while p < order.len()
        invariant
            p <= order.len(),
            i < rows.len(),
            forall|k: int| 0 <= k < order.len() ==> #[trigger] order@[k] < rows.len(),
            forall|k: int|
                0 <= k < p ==> !rows@[i as int].key.outranks(rows@[#[trigger] order@[k] as int].key),
        decreases order.len() - p,
    {
        if rows[i].key.beats(&rows[order[p]].key) {
            return p;
        }
        p += 1;
    }
    p
}

/// Ranks the admitted rows of a table.
pub fn rank(rows: &Vec<Candidate>) -> (order: Vec<usize>)
    ensures
        as_ints(order@) == ranking(rows@),
        is_ranking(rows@, ranking(rows@)),
{
    let mut order: Vec<usize> = Vec::new();
    let mut i: usize = 0;
    while i < rows.len()
        invariant
            i <= rows.len(),
            forall|k: int|
                0 <= k < order.len() ==> #[trigger] order@[k] < i && rows@[order@[k] as int].admitted,
            forall|j: int|
                0 <= j < i && (#[trigger] rows@[j]).admitted ==> exists|k: int|
                    0 <= k < order.len() && order@[k] == j,
            forall|a: int, b: int|
                0 <= a < b < order.len() ==> comes_before(
                    rows@,
                    #[trigger] order@[a] as int,
                    #[trigger] order@[b] as int,
                ),
        decreases rows.len() - i,
    {
        if rows[i].admitted {
            let p = slot_for(rows, &order, i);
            let ghost before = order@;
            order.insert(p, i);
            proof {
                let after = order@;
                assert(after == before.insert(p as int, i));
                assert forall|k: int| 0 <= k < after.len() implies #[trigger] after[k] < i + 1
                    && rows@[after[k] as int].admitted by {
                    if k < p {
                        assert(after[k] == before[k]);
                    } else if k > p {
                        assert(after[k] == before[k - 1]);
                    }
                }
                assert forall|j: int| 0 <= j < i + 1 && (#[trigger] rows@[j]).admitted implies exists|
                    k: int,
                | 0 <= k < after.len() && after[k] == j by {
                    if j == i {
                        assert(after[p as int] == j);
                    } else {
                        let k = choose|k: int| 0 <= k < before.len() && before[k] == j;
                        if k < p {
                            assert(after[k] == j);
                        } else {
                            assert(after[k + 1] == j);
                        }
                    }
                }
                assert forall|a: int, b: int| 0 <= a < b < after.len() implies comes_before(
                    rows@,
                    #[trigger] after[a] as int,
                    #[trigger] after[b] as int,
                ) by {
                    let ka = if a < p { a } else { a - 1 };
                    let kb = if b < p { b } else { b - 1 };
                    if a == p {
                        assert(after[b] == before[kb]);
                        if kb > p {
                            assert(comes_before(rows@, before[p as int] as int, before[kb] as int));
                        }
                    } else if b == p {
                        assert(after[a] == before[ka]);
                    } else {
                        assert(after[a] == before[ka]);
                        assert(after[b] == before[kb]);
                    }
                }
            }
        }
        i += 1;
    }
    proof {
        let found = as_ints(order@);
        assert forall|j: int| 0 <= j < rows.len() && (#[trigger] rows@[j]).admitted implies found.contains(
            j,
        ) by {
            let k = choose|k: int| 0 <= k < order.len() && order@[k] == j;
            assert(found[k] == j);
        }
        assert forall|a: int, b: int| 0 <= a < b < found.len() implies comes_before(
            rows@,
            #[trigger] found[a],
            #[trigger] found[b],
        ) by {
            assert(comes_before(rows@, order@[a] as int, order@[b] as int));
        }
        assert(is_ranking(rows@, found));
        lemma_ranking_is_unique(rows@, found, ranking(rows@));
    }
    order
}

} // verus!

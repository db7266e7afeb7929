//! Ranking search results: best score first, and results of equal score in
//! the order in which they were found.

use crate::tab_list::{result_views, SearchResult, SearchResultView};
use vstd::prelude::*;

verus! {

/// The results with a given score.
pub open spec fn with_score(score: i64) -> spec_fn(SearchResultView) -> bool {
    |r: SearchResultView| r.score == score
}

/// Whether no result has a higher score than a result before it.
pub open spec fn descending(results: Seq<SearchResultView>) -> bool {
    forall|i: int, j: int|
        0 <= i < j < results.len() ==> (#[trigger] results[i]).score >= (#[trigger] results[j]).score
}

/// Whether `ranked` is `found` sorted by score, best first, with results of
/// equal score left in the order in which they were found.
pub open spec fn is_ranking(found: Seq<SearchResultView>, ranked: Seq<SearchResultView>) -> bool {
    &&& ranked.len() == found.len()
    &&& descending(ranked)
    &&& forall|score: i64| #[trigger]
        ranked.filter(with_score(score)) == found.filter(with_score(score))
}

/// A predicate that holds of no element filters everything away.
proof fn lemma_filter_nothing<A>(s: Seq<A>, pred: spec_fn(A) -> bool)
    requires
        forall|i: int| 0 <= i < s.len() ==> !pred(#[trigger] s[i]),
    ensures
        s.filter(pred) == Seq::<A>::empty(),
    decreases s.len(),
{
    reveal(Seq::filter);
    if s.len() > 0 {
        lemma_filter_nothing(s.drop_last(), pred);
    }
}

/// Filtering a sequence of one element.
proof fn lemma_filter_one<A>(a: A, pred: spec_fn(A) -> bool)
    ensures
        seq![a].filter(pred) == if pred(a) {
            seq![a]
        } else {
            Seq::<A>::empty()
        },
{
    reveal_with_fuel(Seq::filter, 2);
    assert(seq![a].drop_last() =~= Seq::<A>::empty());
    assert(Seq::<A>::empty().push(a) =~= seq![a]);
}

/// Putting a result in front of the ranked results that do not beat it keeps
/// the results of every score in the order in which they were found.
proof fn lemma_rank_step(
    waiting: Seq<SearchResultView>,
    r: SearchResultView,
    ranked: Seq<SearchResultView>,
    k: int,
    score: i64,
)
    requires
        0 <= k <= ranked.len(),
        forall|i: int| 0 <= i < k ==> (#[trigger] ranked[i]).score > r.score,
    ensures
        waiting.filter(with_score(score)) + ranked.insert(k, r).filter(with_score(score))
            == waiting.push(r).filter(with_score(score)) + ranked.filter(with_score(score)),
{
    let p = with_score(score);
    let head = ranked.subrange(0, k);
    let tail = ranked.subrange(k, ranked.len() as int);
    assert(ranked =~= head + tail);
    assert(ranked.insert(k, r) =~= (head + seq![r]) + tail);
    assert(waiting.push(r) =~= waiting + seq![r]);
    Seq::filter_distributes_over_add(head, tail, p);
    Seq::filter_distributes_over_add(head, seq![r], p);
    Seq::filter_distributes_over_add(head + seq![r], tail, p);
    Seq::filter_distributes_over_add(waiting, seq![r], p);
    lemma_filter_one(r, p);
    if r.score == score {
        lemma_filter_nothing(head, p);
        assert(waiting.filter(p) + ((head.filter(p) + seq![r]) + tail.filter(p)) =~= (waiting.filter(p)
            + seq![r]) + (head.filter(p) + tail.filter(p)));
    } else {
        assert(head.filter(p) + Seq::<SearchResultView>::empty() =~= head.filter(p));
        assert(waiting.filter(p) + Seq::<SearchResultView>::empty() =~= waiting.filter(p));
    }
}

/// Sorts search results by score, best first. Results of equal score stay in
/// the order in which they were found.
pub fn rank_by_score(found: Vec<SearchResult>) -> (ranked: Vec<SearchResult>)
    ensures
        is_ranking(result_views(found@), result_views(ranked@)),
{
    let ghost all = result_views(found@);
    let mut waiting = found;
    let mut ranked: Vec<SearchResult> = Vec::new();
    proof {
        assert forall|score: i64| #[trigger]
            result_views(waiting@).filter(with_score(score)) + result_views(ranked@).filter(
                with_score(score),
            ) == all.filter(with_score(score)) by {
            lemma_filter_nothing(result_views(ranked@), with_score(score));
            assert(all.filter(with_score(score)) + Seq::<SearchResultView>::empty() =~= all.filter(
                with_score(score),
            ));
        }
    }
    while waiting.len() > 0
        invariant
            waiting.len() + ranked.len() == all.len(),
            descending(result_views(ranked@)),
            forall|score: i64| #[trigger]
                result_views(waiting@).filter(with_score(score)) + result_views(ranked@).filter(
                    with_score(score),
                ) == all.filter(with_score(score)),
        decreases waiting.len(),
    {
        let ghost waiting_before = result_views(waiting@);
        let ghost ranked_before = result_views(ranked@);
        let r = waiting.pop().unwrap();
        let mut k: usize = 0;
        while k < ranked.len() && ranked[k].score() > r.score()
            invariant
                k <= ranked.len(),
                ranked_before == result_views(ranked@),
                forall|i: int| 0 <= i < k ==> (#[trigger] ranked_before[i]).score > r@.score,
            decreases ranked.len() - k,
        {
            k += 1;
        }
        ranked.insert(k, r);
        proof {
            let after = result_views(ranked@);
            assert(after =~= ranked_before.insert(k as int, r@));
            assert(waiting_before =~= result_views(waiting@).push(r@));
            assert forall|i: int, j: int| 0 <= i < j < after.len() implies (#[trigger] after[i]).score
                >= (#[trigger] after[j]).score by {
                let i0 = if i < k { i } else { i - 1 };
                let j0 = if j < k { j } else { j - 1 };
                if i != k && j != k {
                    assert(ranked_before[i0].score >= ranked_before[j0].score);
                } else if i == k {
                    if j0 > k {
                        assert(ranked_before[k as int].score >= ranked_before[j0].score);
                    }
                }
            }
            assert forall|score: i64| #[trigger]
                result_views(waiting@).filter(with_score(score)) + after.filter(with_score(score))
                    == all.filter(with_score(score)) by {
                lemma_rank_step(result_views(waiting@), r@, ranked_before, k as int, score);
                assert(waiting_before.filter(with_score(score)) + ranked_before.filter(
                    with_score(score),
                ) == all.filter(with_score(score)));
            }
        }
    }
    proof {
        assert forall|score: i64| #[trigger]
            result_views(ranked@).filter(with_score(score)) == all.filter(with_score(score)) by {
            lemma_filter_nothing(result_views(waiting@), with_score(score));
            assert(result_views(waiting@).filter(with_score(score)) + result_views(ranked@).filter(
                with_score(score),
            ) == all.filter(with_score(score)));
            assert(Seq::<SearchResultView>::empty() + result_views(ranked@).filter(
                with_score(score),
            ) =~= result_views(ranked@).filter(with_score(score)));
        }
    }
    ranked
}

/// Every ranked result is one of the results that were found.
pub proof fn lemma_ranking_member(
    found: Seq<SearchResultView>,
    ranked: Seq<SearchResultView>,
    i: int,
)
    requires
        is_ranking(found, ranked),
        0 <= i < ranked.len(),
    ensures
        found.contains(ranked[i]),
{
    let p = with_score(ranked[i].score);
    assert(p(ranked[i]));
    ranked.lemma_filter_contains(p, i);
    assert(ranked.filter(p) == found.filter(p));
    found.lemma_filter_contains_rev(p, ranked[i]);
}

/// A score that occurs among the results is not below the score of the last
/// of them, when they descend.
proof fn lemma_last_is_lowest(results: Seq<SearchResultView>, score: i64)
    requires
        descending(results),
        results.filter(with_score(score)).len() > 0,
    ensures
        results.len() > 0,
        results.last().score <= score,
{
    let p = with_score(score);
    let kept = results.filter(p);
    results.lemma_filter_pred(p, 0);
    assert(kept.contains(kept[0]));
    results.lemma_filter_contains_rev(p, kept[0]);
    let i = choose|i: int| 0 <= i < results.len() && results[i] == kept[0];
    if i < results.len() - 1 {
        assert(results[i].score >= results[results.len() - 1].score);
    }
}

/// The ranking is determined by what was found: two rankings of the same
/// results are the same sequence.
pub proof fn lemma_ranking_unique(
    found: Seq<SearchResultView>,
    first: Seq<SearchResultView>,
    second: Seq<SearchResultView>,
)
    requires
        is_ranking(found, first),
        is_ranking(found, second),
    ensures
        first == second,
{
    assert forall|score: i64| #[trigger]
        first.filter(with_score(score)) == second.filter(with_score(score)) by {
        assert(first.filter(with_score(score)) == found.filter(with_score(score)));
        assert(second.filter(with_score(score)) == found.filter(with_score(score)));
    }
    lemma_same_groups_same_order(first, second);
}

/// Two descending sequences of one length that agree on the results of
/// every score are the same sequence.
proof fn lemma_same_groups_same_order(a: Seq<SearchResultView>, b: Seq<SearchResultView>)
    requires
        a.len() == b.len(),
        descending(a),
        descending(b),
        forall|score: i64| #[trigger] a.filter(with_score(score)) == b.filter(with_score(score)),
    ensures
        a == b,
    decreases a.len(),
{
    reveal(Seq::filter);
    if a.len() == 0 {
        assert(a =~= b);
    } else {
        let low_a = a.last().score;
        let low_b = b.last().score;
        assert(a.filter(with_score(low_a)).len() > 0);
        assert(b.filter(with_score(low_b)).len() > 0);
        assert(a.filter(with_score(low_a)) == b.filter(with_score(low_a)));
        assert(a.filter(with_score(low_b)) == b.filter(with_score(low_b)));
        lemma_last_is_lowest(b, low_a);
        lemma_last_is_lowest(a, low_b);
        assert(low_a == low_b);
        assert(a.filter(with_score(low_a)).last() == a.last());
        assert(b.filter(with_score(low_a)).last() == b.last());
        let shorter_a = a.drop_last();
        let shorter_b = b.drop_last();
        assert forall|score: i64| #[trigger]
            shorter_a.filter(with_score(score)) == shorter_b.filter(with_score(score)) by {
            assert(a.filter(with_score(score)) == b.filter(with_score(score)));
            if score == low_a {
                assert(shorter_a.filter(with_score(score)) =~= a.filter(with_score(score)).drop_last());
                assert(shorter_b.filter(with_score(score)) =~= b.filter(with_score(score)).drop_last());
            }
        }
        assert(descending(shorter_a)) by {
            assert forall|i: int, j: int| 0 <= i < j < shorter_a.len() implies (
            #[trigger] shorter_a[i]).score >= (#[trigger] shorter_a[j]).score by {
                assert(a[i].score >= a[j].score);
            }
        }
        assert(descending(shorter_b)) by {
            assert forall|i: int, j: int| 0 <= i < j < shorter_b.len() implies (
            #[trigger] shorter_b[i]).score >= (#[trigger] shorter_b[j]).score by {
                assert(b[i].score >= b[j].score);
            }
        }
        lemma_same_groups_same_order(shorter_a, shorter_b);
        assert(a =~= shorter_a.push(a.last()));
        assert(b =~= shorter_b.push(b.last()));
    }
}

} // verus!

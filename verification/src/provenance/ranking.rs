//! Deterministic ranking of competing candidates.

use vstd::multiset::Multiset;
use vstd::prelude::*;

use crate::text::{insert_to_multiset, text_before, text_lt, text_order_is_by_first_difference};
use crate::text::{text_lt_asymmetric, text_lt_irreflexive, text_lt_total, text_lt_transitive};

verus! {

/// Candidate ranking entry in selection decisions.
#[derive(Debug, PartialEq, Eq)]
pub struct CandidateRankingEntry {
    pub candidate_id: String,
    pub agent_id: String,
    pub is_approved: bool,
    pub approved_count: usize,
    pub valid_count: usize,
    pub issue_count: usize,
}

impl Clone for CandidateRankingEntry {
    fn clone(&self) -> (r: Self)
        ensures
            r == *self,
    {
        CandidateRankingEntry {
            candidate_id: self.candidate_id.clone(),
            agent_id: self.agent_id.clone(),
            is_approved: self.is_approved,
            approved_count: self.approved_count,
            valid_count: self.valid_count,
            issue_count: self.issue_count,
        }
    }
}

/// Whether `a` ranks strictly before `b`: more approvals, then more valid
/// votes, then fewer issues, then the smaller candidate id.
pub open spec fn ranks_before(a: CandidateRankingEntry, b: CandidateRankingEntry) -> bool {
    if a.approved_count != b.approved_count {
        a.approved_count > b.approved_count
    } else if a.valid_count != b.valid_count {
        a.valid_count > b.valid_count
    } else if a.issue_count != b.issue_count {
        a.issue_count < b.issue_count
    } else {
        text_lt(a.candidate_id@, b.candidate_id@)
    }
}

/// Whether neither of two candidates ranks before the other.
pub open spec fn ranks_equal(a: CandidateRankingEntry, b: CandidateRankingEntry) -> bool {
    !ranks_before(a, b) && !ranks_before(b, a)
}

/// Whether no candidate ranks before one that stands earlier.
pub open spec fn ranked(list: Seq<CandidateRankingEntry>) -> bool {
    forall|i: int, j: int|
        0 <= i < j < list.len() ==> !ranks_before(#[trigger] list[j], #[trigger] list[i])
}

/// The approved candidates, in the order given.
pub open spec fn approved(list: Seq<CandidateRankingEntry>) -> Seq<CandidateRankingEntry> {
    list.filter(|c: CandidateRankingEntry| c.is_approved)
}

/// The candidates that rank equal with `c`, in the order given.
pub open spec fn tied_with(list: Seq<CandidateRankingEntry>, c: CandidateRankingEntry) -> Seq<
    CandidateRankingEntry,
> {
    list.filter(|d: CandidateRankingEntry| ranks_equal(c, d))
}

proof fn ranks_before_transitive(
    a: CandidateRankingEntry,
    b: CandidateRankingEntry,
    c: CandidateRankingEntry,
)
    requires
        ranks_before(a, b),
        ranks_before(b, c),
    ensures
        ranks_before(a, c),
{
    if text_lt(a.candidate_id@, b.candidate_id@) && text_lt(b.candidate_id@, c.candidate_id@) {
        text_lt_transitive(a.candidate_id@, b.candidate_id@, c.candidate_id@);
    }
}

proof fn ranks_before_asymmetric(a: CandidateRankingEntry, b: CandidateRankingEntry)
    requires
        ranks_before(a, b),
    ensures
        !ranks_before(b, a),
{
    if text_lt(a.candidate_id@, b.candidate_id@) {
        text_lt_asymmetric(a.candidate_id@, b.candidate_id@);
    }
}

/// Candidates with different ids never tie.
pub proof fn different_ids_never_tie(a: CandidateRankingEntry, b: CandidateRankingEntry)
    requires
        a.candidate_id@ != b.candidate_id@,
    ensures
        ranks_before(a, b) || ranks_before(b, a),
{
    text_lt_total(a.candidate_id@, b.candidate_id@);
}

/// If `b` does not rank before `a` and `c` does not rank before `b`, then `c`
/// does not rank before `a`.
proof fn not_before_transitive(
    a: CandidateRankingEntry,
    b: CandidateRankingEntry,
    c: CandidateRankingEntry,
)
    requires
        !ranks_before(b, a),
        !ranks_before(c, b),
    ensures
        !ranks_before(c, a),
{
    if ranks_before(c, a) {
        if a.candidate_id@ == b.candidate_id@ {
            text_lt_irreflexive(a.candidate_id@);
        } else {
            text_lt_total(a.candidate_id@, b.candidate_id@);
        }
        if ranks_before(a, b) {
            ranks_before_transitive(c, a, b);
        }
    }
}

fn goes_before(a: &CandidateRankingEntry, b: &CandidateRankingEntry) -> (r: bool)
    ensures
        r == ranks_before(*a, *b),
{
    if a.approved_count != b.approved_count {
        a.approved_count > b.approved_count
    } else if a.valid_count != b.valid_count {
        a.valid_count > b.valid_count
    } else if a.issue_count != b.issue_count {
        a.issue_count < b.issue_count
    } else {
        text_before(a.candidate_id.as_str(), b.candidate_id.as_str())
    }
}

proof fn filter_push<A>(s: Seq<A>, a: A, f: spec_fn(A) -> bool)
    ensures
        s.push(a).filter(f) == (if f(a) {
            s.filter(f).push(a)
        } else {
            s.filter(f)
        }),
{
    reveal(Seq::filter);
    assert(s.push(a).drop_last() =~= s);
}

proof fn filter_concat<A>(s: Seq<A>, t: Seq<A>, f: spec_fn(A) -> bool)
    ensures
        (s + t).filter(f) == s.filter(f) + t.filter(f),
    decreases t.len(),
{
    reveal(Seq::filter);
    if t.len() == 0 {
        assert(s + t =~= s);
        assert(s.filter(f) + t.filter(f) =~= s.filter(f));
    } else {
        let r = t.drop_last();
        filter_concat(s, r, f);
        assert(s + t =~= (s + r).push(t.last()));
        assert(t =~= r.push(t.last()));
        filter_push(s + r, t.last(), f);
        filter_push(r, t.last(), f);
        assert((s + t).filter(f) =~= s.filter(f) + t.filter(f));
    }
}

proof fn filter_none<A>(s: Seq<A>, f: spec_fn(A) -> bool)
    requires
        forall|i: int| 0 <= i < s.len() ==> !f(#[trigger] s[i]),
    ensures
        s.filter(f) == Seq::<A>::empty(),
    decreases s.len(),
{
    reveal(Seq::filter);
    if s.len() > 0 {
        filter_none(s.drop_last(), f);
        assert(!f(s[s.len() - 1]));
    }
}

fn insert_ranked(list: &mut Vec<CandidateRankingEntry>, entry: CandidateRankingEntry)
    requires
        ranked(old(list)@),
    ensures
        ranked(final(list)@),
        final(list)@.to_multiset() == old(list)@.to_multiset().insert(entry),
        forall|c: CandidateRankingEntry|
            #[trigger] tied_with(final(list)@, c) == tied_with(old(list)@.push(entry), c),
{
    let ghost before = list@;
    let mut i: usize = list.len();
    while i > 0 && goes_before(&entry, &list[i - 1])
        invariant
            i <= list@.len(),
            list@ == before,
            forall|j: int| i <= j < before.len() ==> ranks_before(entry, #[trigger] before[j]),
        decreases i,
    {
        i -= 1;
    }
    proof {
        let after = before.insert(i as int, entry);
        insert_to_multiset(before, i as int, entry);
        assert forall|p: int, q: int| 0 <= p < q < after.len() implies !ranks_before(
            #[trigger] after[q],
            #[trigger] after[p],
        ) by {
            if q < i {
                assert(after[p] == before[p] && after[q] == before[q]);
            } else if q == i {
                assert(after[p] == before[p]);
                if p < i - 1 {
                    not_before_transitive(before[p], before[i - 1], entry);
                }
            } else if p == i {
                assert(after[q] == before[q - 1]);
                ranks_before_asymmetric(entry, before[q - 1]);
            } else if p < i {
                assert(after[p] == before[p] && after[q] == before[q - 1]);
            } else {
                assert(after[p] == before[p - 1] && after[q] == before[q - 1]);
            }
        }
        assert forall|c: CandidateRankingEntry|
            #[trigger] tied_with(after, c) == tied_with(before.push(entry), c) by {
            let f = |d: CandidateRankingEntry| ranks_equal(c, d);
            let head = before.take(i as int);
            let tail = before.skip(i as int);
            assert(before =~= head + tail);
            assert(after =~= head.push(entry) + tail);
            filter_concat(head, tail, f);
            filter_concat(head.push(entry), tail, f);
            filter_push(head, entry, f);
            filter_push(before, entry, f);
            if f(entry) {
                assert forall|k: int| 0 <= k < tail.len() implies !f(#[trigger] tail[k]) by {
                    let d = tail[k];
                    assert(d == before[i + k]);
                    assert(ranks_before(entry, before[i + k]));
                    if f(d) {
                        not_before_transitive(entry, c, d);
                        not_before_transitive(d, c, entry);
                    }
                }
                filter_none(tail, f);
                assert(after.filter(f) =~= before.push(entry).filter(f));
            } else {
                assert(after.filter(f) =~= before.push(entry).filter(f));
            }
        }
    }
    list.insert(i, entry);
}

/// Deterministic selection ranking: the approved candidates only, by
/// approvals descending, valid votes descending, issues ascending, candidate
/// id ascending. Candidates that tie in all four keep their order.
pub fn rank_candidates(candidates: &[CandidateRankingEntry]) -> (r: Vec<CandidateRankingEntry>)
    ensures
        ranked(r@),
        r@.to_multiset() == approved(candidates@).to_multiset(),
        forall|c: CandidateRankingEntry|
            #[trigger] tied_with(r@, c) == tied_with(approved(candidates@), c),
        forall|i: int, j: int|
            0 <= i < j < r@.len() ==> {
                let a = #[trigger] r@[i];
                let b = #[trigger] r@[j];
                &&& a.approved_count >= b.approved_count
                &&& a.approved_count == b.approved_count ==> a.valid_count >= b.valid_count
                &&& a.approved_count == b.approved_count && a.valid_count == b.valid_count
                    ==> a.issue_count <= b.issue_count
                &&& a.approved_count == b.approved_count && a.valid_count == b.valid_count
                    && a.issue_count == b.issue_count ==> !text_lt(
                    b.candidate_id@,
                    a.candidate_id@,
                )
            },
        forall|i: int| 0 <= i < r@.len() ==> (#[trigger] r@[i]).is_approved,
        forall|i: int|
            0 <= i < candidates@.len() && (#[trigger] candidates@[i]).is_approved ==> r@.contains(
                candidates@[i],
            ),
{
    let mut eligible: Vec<CandidateRankingEntry> = Vec::new();
    let mut i: usize = 0;
    proof {
        reveal(Seq::filter);
        assert(candidates@.take(0) =~= Seq::<CandidateRankingEntry>::empty());
    }
    while i < candidates.len()
        invariant
            i <= candidates@.len(),
            ranked(eligible@),
            eligible@.to_multiset() == approved(candidates@.take(i as int)).to_multiset(),
            forall|c: CandidateRankingEntry|
                #[trigger] tied_with(eligible@, c) == tied_with(
                    approved(candidates@.take(i as int)),
                    c,
                ),
        decreases candidates.len() - i,
    {
        let ghost done = approved(candidates@.take(i as int));
        let ghost held = eligible@;
        proof {
            assert(candidates@.take(i + 1) =~= candidates@.take(i as int).push(
                candidates@[i as int],
            ));
            filter_push(
                candidates@.take(i as int),
                candidates@[i as int],
                |c: CandidateRankingEntry| c.is_approved,
            );
        }
        if candidates[i].is_approved {
            let entry = candidates[i].clone();
            insert_ranked(&mut eligible, entry);
            proof {
                done.to_multiset_ensures();
                assert(done.push(entry).to_multiset() =~= done.to_multiset().insert(entry));
                assert forall|c: CandidateRankingEntry|
                    #[trigger] tied_with(eligible@, c) == tied_with(done.push(entry), c) by {
                    let f = |d: CandidateRankingEntry| ranks_equal(c, d);
                    filter_push(held, entry, f);
                    filter_push(done, entry, f);
                    assert(tied_with(held, c) == tied_with(done, c));
                }
            }
        }
        i += 1;
    }
    assert(candidates@.take(i as int) =~= candidates@);
    proof {
        ranking_holds_the_approved(candidates@, eligible@);
        assert forall|k: int| 0 <= k < eligible@.len() implies (
        #[trigger] eligible@[k]).is_approved by {
            assert(eligible@.contains(eligible@[k]));
        }
        assert forall|k: int|
            0 <= k < candidates@.len() && (
            #[trigger] candidates@[k]).is_approved implies eligible@.contains(candidates@[k]) by {
            assert(candidates@.contains(candidates@[k]));
        }
    }
    eligible
}

/// What a ranking is by: of two ranked candidates the earlier one has no fewer
/// approvals; with as many approvals no fewer valid votes; with as many of both
/// no more issues; and with all three equal its id is the same or smaller, by
/// the first place where the ids differ.
pub proof fn ranking_is_by_approvals_votes_issues_and_id(
    ranking: Seq<CandidateRankingEntry>,
    i: int,
    j: int,
    k: int,
)
    requires
        ranked(ranking),
        0 <= i < j < ranking.len(),
    ensures
        ranking[i].approved_count >= ranking[j].approved_count,
        ranking[i].approved_count == ranking[j].approved_count ==> ranking[i].valid_count
            >= ranking[j].valid_count,
        ranking[i].approved_count == ranking[j].approved_count && ranking[i].valid_count
            == ranking[j].valid_count ==> ranking[i].issue_count <= ranking[j].issue_count,
        ({
            let x = ranking[i].candidate_id@;
            let y = ranking[j].candidate_id@;
            &&& ranking[i].approved_count == ranking[j].approved_count
            &&& ranking[i].valid_count == ranking[j].valid_count
            &&& ranking[i].issue_count == ranking[j].issue_count
            &&& 0 <= k < x.len() && k <= y.len()
            &&& x.take(k) == y.take(k)
        }) ==> k < ranking[j].candidate_id@.len() && ranking[i].candidate_id@[k]
            <= ranking[j].candidate_id@[k],
{
    let a = ranking[i];
    let b = ranking[j];
    assert(!ranks_before(b, a));
    let x = a.candidate_id@;
    let y = b.candidate_id@;
    if 0 <= k < x.len() && k <= y.len() && x.take(k) == y.take(k) {
        assert forall|n: int| 0 <= n < k implies y[n] == x[n] by {
            assert(x.take(k)[n] == x[n]);
            assert(y.take(k)[n] == y[n]);
        }
        if k == y.len() || x[k] != y[k] {
            text_order_is_by_first_difference(y, x, k);
        }
    }
}

/// A ranking ranks every listed candidate and only approved ones.
pub proof fn ranking_holds_the_approved(
    candidates: Seq<CandidateRankingEntry>,
    ranking: Seq<CandidateRankingEntry>,
)
    requires
        ranking.to_multiset() == approved(candidates).to_multiset(),
    ensures
        ranking.len() == approved(candidates).len(),
        forall|c: CandidateRankingEntry|
            ranking.contains(c) <==> candidates.contains(c) && c.is_approved,
{
    let a = approved(candidates);
    a.to_multiset_ensures();
    ranking.to_multiset_ensures();
    broadcast use vstd::seq_lib::group_filter_ensures;
    assert forall|c: CandidateRankingEntry|
        ranking.contains(c) <==> candidates.contains(c) && c.is_approved by {
        assert(ranking.contains(c) <==> ranking.to_multiset().count(c) > 0);
        assert(a.contains(c) <==> a.to_multiset().count(c) > 0);
        if a.contains(c) {
            let k = choose|k: int| 0 <= k < a.len() && a[k] == c;
            candidates.lemma_filter_contains_rev(|c: CandidateRankingEntry| c.is_approved, c);
            assert(a[k].is_approved);
        }
        if candidates.contains(c) && c.is_approved {
            let k = choose|k: int| 0 <= k < candidates.len() && candidates[k] == c;
            assert(a.contains(candidates[k]));
        }
    }
}

/// With distinct candidate ids the ranking depends only on which candidates
/// are approved, not on the order in which they are listed.
pub proof fn ranking_ignores_input_order(
    a: Seq<CandidateRankingEntry>,
    b: Seq<CandidateRankingEntry>,
)
    requires
        ranked(a),
        ranked(b),
        a.to_multiset() == b.to_multiset(),
        forall|i: int, j: int|
            0 <= i < j < a.len() ==> (#[trigger] a[i]).candidate_id@ != (
            #[trigger] a[j]).candidate_id@,
    ensures
        a == b,
    decreases a.len(),
{
    a.to_multiset_ensures();
    b.to_multiset_ensures();
    assert(a.len() == a.to_multiset().len());
    assert(b.len() == b.to_multiset().len());
    if a.len() == 0 {
        assert(a =~= b);
    } else {
        let x = a.last();
        let y = b.last();
        assert(a.contains(a[a.len() - 1]));
        assert(b.contains(b[b.len() - 1]));
        assert(b.to_multiset().count(x) > 0);
        assert(a.to_multiset().count(y) > 0);
        assert(b.contains(x));
        assert(a.contains(y));
        let i = choose|i: int| 0 <= i < a.len() && a[i] == y;
        let j = choose|j: int| 0 <= j < b.len() && b[j] == x;
        if x != y {
            assert(i < a.len() - 1);
            assert(j < b.len() - 1);
            assert(a[i].candidate_id@ != a[a.len() - 1].candidate_id@);
            assert(!ranks_before(a[a.len() - 1], a[i]));
            assert(!ranks_before(b[b.len() - 1], b[j]));
            different_ids_never_tie(x, y);
        }
        let ra = a.drop_last();
        let rb = b.drop_last();
        assert(a =~= ra.push(x));
        assert(b =~= rb.push(x));
        ra.to_multiset_ensures();
        rb.to_multiset_ensures();
        assert(ra.to_multiset() =~= a.to_multiset().remove(x));
        assert(rb.to_multiset() =~= b.to_multiset().remove(x));
        assert forall|p: int, q: int| 0 <= p < q < ra.len() implies (
        #[trigger] ra[p]).candidate_id@ != (#[trigger] ra[q]).candidate_id@ by {
            assert(ra[p] == a[p] && ra[q] == a[q]);
        }
        ranking_ignores_input_order(ra, rb);
    }
}

} // verus!

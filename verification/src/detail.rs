use vstd::prelude::*;
use crate::chord::PersonCard;
use crate::model::{rep_dim, rep_dim_at, rep_score, OceanScores, RepDim, RepScores, REP_DIM_COUNT};
use crate::people::{matches_query, name_matches};
use crate::prediction::Prediction;
use crate::relationship::Relationship;
use crate::text::{lowercase, text_eq, to_lowercase_text};

verus! {

/// How many predictions are resolved.
pub open spec fn resolved_count(ps: Seq<Prediction>) -> nat
    decreases ps.len(),
{
    if ps.len() == 0 {
        0
    } else {
        resolved_count(ps.drop_last()) + if ps.last().resolved {
            1nat
        } else {
            0nat
        }
    }
}

/// The sum of the accuracy grades of the resolved predictions that have
/// one.
pub open spec fn accuracy_sum(ps: Seq<Prediction>) -> nat
    decreases ps.len(),
{
    if ps.len() == 0 {
        0
    } else {
        accuracy_sum(ps.drop_last()) + match (ps.last().resolved, ps.last().accuracy) {
            (true, Some(a)) => a as nat,
            _ => 0nat,
        }
    }
}

/// The track record shown above a person's predictions.
pub struct PredictionStats {
    pub resolved: usize,
    pub total: usize,
    /// The summed grades divided by the resolved count taken modulo 256,
    /// in whole points.
    pub average: u8,
}

/// The track record of a person's predictions: how many are resolved, out
/// of how many, and the average grade; nothing before the first is
/// resolved. The grades are summed in a byte and divided by the resolved
/// count as a byte, so the sum must stay within a byte and the count must
/// not be a positive multiple of 256.
pub fn prediction_stats(preds: &Vec<Prediction>) -> (r: Option<PredictionStats>)
    requires
        accuracy_sum(preds@) <= 255,
        resolved_count(preds@) % 256 != 0 || resolved_count(preds@) == 0,
    ensures
        resolved_count(preds@) == 0 <==> r is None,
        r matches Some(st) ==> st.resolved == resolved_count(preds@) && st.total == preds@.len()
            && st.average as nat == accuracy_sum(preds@) / (resolved_count(preds@) % 256),
{
    let mut n: usize = 0;
    let mut sum: u8 = 0;
    let mut i: usize = 0;
    while i < preds.len()
        invariant
            i <= preds@.len(),
            n == resolved_count(preds@.subrange(0, i as int)),
            sum == accuracy_sum(preds@.subrange(0, i as int)),
            accuracy_sum(preds@) <= 255,
            n <= i,
        decreases preds@.len() - i,
    {
        proof {
            let next = preds@.subrange(0, i + 1);
            assert(next.drop_last() =~= preds@.subrange(0, i as int));
            assert(next.last() == preds@[i as int]);
            lemma_accuracy_sum_prefix(preds@, i + 1);
        }
        let p = &preds[i];
        if p.resolved {
            n = n + 1;
            match p.accuracy {
                Some(a) => {
                    sum = sum + a;
                },
                None => {},
            }
        }
        i = i + 1;
    }
    assert(preds@.subrange(0, i as int) =~= preds@);
    if n == 0 {
        None
    } else {
        let d = (n % 256) as u8;
        Some(PredictionStats { resolved: n, total: preds.len(), average: sum / d })
    }
}

proof fn lemma_accuracy_sum_prefix(ps: Seq<Prediction>, k: int)
    requires
        0 <= k <= ps.len(),
    ensures
        accuracy_sum(ps.subrange(0, k)) <= accuracy_sum(ps),
    decreases ps.len() - k,
{
    if k < ps.len() {
        assert(ps.drop_last().subrange(0, k) =~= ps.subrange(0, k));
        lemma_accuracy_sum_prefix(ps.drop_last(), k);
    } else {
        assert(ps.subrange(0, k) =~= ps);
    }
}

/// The OCEAN scores that are set, added up.
pub open spec fn ocean_total(o: OceanScores) -> nat {
    (match o.openness {
        Some(v) => v as nat,
        None => 0nat,
    }) + (match o.conscientiousness {
        Some(v) => v as nat,
        None => 0nat,
    }) + (match o.extraversion {
        Some(v) => v as nat,
        None => 0nat,
    }) + (match o.agreeableness {
        Some(v) => v as nat,
        None => 0nat,
    }) + (match o.neuroticism {
        Some(v) => v as nat,
        None => 0nat,
    })
}

/// How many OCEAN scores are set, at least one.
pub open spec fn ocean_divisor(o: OceanScores) -> nat {
    let n = (if o.openness is Some { 1nat } else { 0nat }) + (if o.conscientiousness is Some {
        1nat
    } else {
        0nat
    }) + (if o.extraversion is Some { 1nat } else { 0nat }) + (if o.agreeableness is Some {
        1nat
    } else {
        0nat
    }) + (if o.neuroticism is Some { 1nat } else { 0nat });
    if n == 0 {
        1
    } else {
        n
    }
}

fn score_or_zero(v: Option<u8>) -> (r: (u8, usize))
    ensures
        r.0 == (match v {
            Some(x) => x,
            None => 0,
        }),
        r.1 == (if v is Some { 1usize } else { 0usize }),
{
    match v {
        Some(x) => (x, 1),
        None => (0, 0),
    }
}

/// The average shown under the OCEAN chart: the set scores added up (in a
/// byte, so they must add up to at most 255) and divided by how many are
/// set (at least one).
pub fn ocean_average(o: &OceanScores) -> (r: u8)
    requires
        ocean_total(*o) <= 255,
    ensures
        r as nat == ocean_total(*o) / ocean_divisor(*o),
{
    let (a, na) = score_or_zero(o.openness);
    let (b, nb) = score_or_zero(o.conscientiousness);
    let (c, nc) = score_or_zero(o.extraversion);
    let (d, nd) = score_or_zero(o.agreeableness);
    let (e, ne) = score_or_zero(o.neuroticism);
    let total: u8 = a + b + c + d + e;
    let mut count: usize = na + nb + nc + nd + ne;
    if count == 0 {
        count = 1;
    }
    total / (count as u8)
}

/// The reputation dimensions that are scored, in display order, with their
/// scores, among the first `k` dimensions.
pub open spec fn scored_dims(r: RepScores, k: nat) -> Seq<(RepDim, u8)>
    decreases k,
{
    if k == 0 {
        Seq::empty()
    } else {
        let prev = scored_dims(r, (k - 1) as nat);
        match rep_score(r, rep_dim_at(k - 1)) {
            Some(v) => prev.push((rep_dim_at(k - 1), v)),
            None => prev,
        }
    }
}

/// The scored reputation dimensions of a person, in display order.
pub fn rep_items(r: &RepScores) -> (items: Vec<(RepDim, u8)>)
    ensures
        items@ == scored_dims(*r, REP_DIM_COUNT as nat),
{
    let mut items: Vec<(RepDim, u8)> = Vec::new();
    let mut i: usize = 0;
    while i < REP_DIM_COUNT
        invariant
            i <= REP_DIM_COUNT,
            items@ == scored_dims(*r, i as nat),
        decreases REP_DIM_COUNT - i,
    {
        let d = rep_dim(i);
        match r.score(d) {
            Some(v) => items.push((d, v)),
            None => {},
        }
        i = i + 1;
    }
    items
}

/// Whether a relationship involves the person `id`.
pub open spec fn involves(r: Relationship, id: Seq<char>) -> bool {
    r.source_id@ == id || r.target_id@ == id
}

/// The relationships that involve the person `id`, in order.
pub open spec fn rels_involving(rels: Seq<Relationship>, id: Seq<char>) -> Seq<Relationship>
    decreases rels.len(),
{
    if rels.len() == 0 {
        Seq::empty()
    } else {
        let prev = rels_involving(rels.drop_last(), id);
        if involves(rels.last(), id) {
            prev.push(rels.last())
        } else {
            prev
        }
    }
}

/// The relationships of a person, in their stored order.
pub fn relationships_of(rels: Vec<Relationship>, person_id: &str) -> (r: Vec<Relationship>)
    ensures
        r@ == rels_involving(rels@, person_id@),
{
    let ghost all = rels@;
    let mut rest = rels;
    let total = rest.len();
    let mut kept: Vec<Relationship> = Vec::new();
    let mut i: usize = 0;
    assert(all.subrange(0, 0) =~= Seq::<Relationship>::empty());
    while rest.len() > 0
        invariant
            i + rest@.len() == all.len(),
            all.len() == total,
            rest@ == all.subrange(i as int, all.len() as int),
            kept@ == rels_involving(all.subrange(0, i as int), person_id@),
        decreases rest@.len(),
    {
        let ghost before = rest@;
        let rel = rest.remove(0);
        assert(rel == all[i as int]) by {
            assert(before[0] == all[i as int]);
        }
        assert(rest@ =~= all.subrange(i + 1, all.len() as int));
        let ghost next = all.subrange(0, i + 1);
        assert(next.drop_last() =~= all.subrange(0, i as int));
        assert(next.last() == rel);
        if text_eq(rel.source_id.as_str(), person_id) || text_eq(rel.target_id.as_str(), person_id) {
            kept.push(rel);
        }
        i = i + 1;
    }
    assert(all.subrange(0, i as int) =~= all);
    kept
}

/// The positions, among the first `n` people, of those offered when adding
/// a relationship to the person `id`: everyone else whose name the
/// lower-cased search `q` finds.
pub open spec fn candidate_list(persons: Seq<PersonCard>, id: Seq<char>, q: Seq<char>, n: int) -> Seq<
    usize,
>
    decreases n,
{
    if n <= 0 {
        Seq::empty()
    } else {
        let prev = candidate_list(persons, id, q, n - 1);
        if persons[n - 1].id@ != id && name_matches(persons[n - 1].name@, q) {
            prev.push((n - 1) as usize)
        } else {
            prev
        }
    }
}

/// The people offered when adding a relationship to the person `id`, by
/// their positions: everyone else whose name the search (ignoring case)
/// finds.
pub fn relationship_candidates(persons: &Vec<PersonCard>, person_id: &str, search: &str) -> (r: Vec<
    usize,
>)
    ensures
        r@ == candidate_list(persons@, person_id@, lowercase(search@), persons@.len() as int),
{
    let q = to_lowercase_text(search);
    let mut out: Vec<usize> = Vec::new();
    let mut k: usize = 0;
    while k < persons.len()
        invariant
            k <= persons@.len(),
            out@ == candidate_list(persons@, person_id@, q@, k as int),
        decreases persons@.len() - k,
    {
        if !text_eq(persons[k].id.as_str(), person_id) && matches_query(
            persons[k].name.as_str(),
            q.as_str(),
        ) {
            out.push(k);
        }
        k = k + 1;
    }
    out
}

} // verus!

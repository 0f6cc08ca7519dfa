use vstd::prelude::*;
use crate::ranking::{sort_desc, sorted_desc, Ranked};
use crate::text::{contains_text, is_infix, lowercase, replace_text, replaced, to_lowercase_text};

verus! {

/// A line of the people table: who, and their overall profile score.
pub struct PeopleRow {
    pub id: String,
    pub name: String,
    pub avatar: String,
    pub total: u8,
}

impl Ranked for PeopleRow {
    open spec fn rank(&self) -> int {
        self.total as int
    }

    fn rank_key(&self) -> (k: i64) {
        self.total as i64
    }
}

/// Whether a name is found by a lower-cased search text: an empty search
/// finds everyone, otherwise the lower-cased name must contain it.
pub open spec fn name_matches(name: Seq<char>, q: Seq<char>) -> bool {
    q.len() == 0 || is_infix(q, lowercase(name))
}

/// Whether `name` is found by the lower-cased search text `q`.
pub fn matches_query(name: &str, q: &str) -> (r: bool)
    ensures
        r == name_matches(name@, q@),
{
    if q.is_empty() {
        return true;
    }
    let lower = to_lowercase_text(name);
    contains_text(lower.as_str(), q)
}

/// The rows whose name is found by `q`, in their original order.
pub open spec fn matching(rows: Seq<PeopleRow>, q: Seq<char>) -> Seq<PeopleRow>
    decreases rows.len(),
{
    if rows.len() == 0 {
        Seq::empty()
    } else {
        let prev = matching(rows.drop_last(), q);
        if name_matches(rows.last().name@, q) {
            prev.push(rows.last())
        } else {
            prev
        }
    }
}

/// The people table: the rows whose name the search finds (ignoring case),
/// from the highest score down, rows of equal score in their given order.
pub fn people_rows(rows: Vec<PeopleRow>, search: &str) -> (r: Vec<PeopleRow>)
    ensures
        r@ == sorted_desc(matching(rows@, lowercase(search@))),
{
    let q = to_lowercase_text(search);
    let ghost all = rows@;
    let mut rest = rows;
    let total = rest.len();
    let mut kept: Vec<PeopleRow> = Vec::new();
    let mut i: usize = 0;
    assert(all.subrange(0, 0) =~= Seq::<PeopleRow>::empty());
    while rest.len() > 0
        invariant
            i + rest@.len() == all.len(),
            all.len() == total,
            rest@ == all.subrange(i as int, all.len() as int),
            kept@ == matching(all.subrange(0, i as int), q@),
        decreases rest@.len(),
    {
        let ghost before = rest@;
        let row = rest.remove(0);
        assert(row == all[i as int]) by {
            assert(before[0] == all[i as int]);
        }
        assert(rest@ =~= all.subrange(i + 1, all.len() as int));
        let ghost next = all.subrange(0, i + 1);
        assert(next.drop_last() =~= all.subrange(0, i as int));
        assert(next.last() == row);
        if matches_query(row.name.as_str(), q.as_str()) {
            kept.push(row);
        }
        i = i + 1;
    }
    assert(all.subrange(0, i as int) =~= all);
    sort_desc(kept)
}

/// The message of an empty table: `no_people` when nothing is searched,
/// otherwise `no_results` with each "{0}" replaced by the search text.
pub fn empty_people_message(search: &str, no_people: &str, no_results: &str) -> (r: String)
    ensures
        lowercase(search@).len() == 0 ==> r@ == no_people@,
        lowercase(search@).len() > 0 ==> r@ == replaced(no_results@, "{0}"@, search@),
{
    let q = to_lowercase_text(search);
    if q.as_str().is_empty() {
        no_people.to_owned()
    } else {
        proof {
            reveal_strlit("{0}");
        }
        replace_text(no_results, "{0}", search)
    }
}

/// The style class of a score in the people table: tension, friction,
/// moderate, good or strong by the band it falls in; moderate outside every
/// band.
pub open spec fn score_class_text(band: Option<usize>) -> Seq<char> {
    match band {
        Some(0) => "ps-tension"@,
        Some(1) => "ps-friction"@,
        Some(2) => "ps-moderate"@,
        Some(3) => "ps-good"@,
        Some(4) => "ps-strong"@,
        _ => "ps-moderate"@,
    }
}

/// The style class of a score in the people table; the bands are the five
/// compatibility bands.
pub fn score_class(band: Option<usize>) -> (r: &'static str)
    requires
        band matches Some(i) ==> i < 5,
    ensures
        r@ == score_class_text(band),
{
    match band {
        Some(0) => "ps-tension",
        Some(1) => "ps-friction",
        Some(2) => "ps-moderate",
        Some(3) => "ps-good",
        Some(4) => "ps-strong",
        _ => "ps-moderate",
    }
}

} // verus!

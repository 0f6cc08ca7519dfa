use vstd::prelude::*;
use crate::person::{InteractionEntry, Person, Replicate};
use crate::ranking::{lemma_sorted_desc_laws, sort_desc, sorted_desc, Ranked};
use crate::text::text_eq;

verus! {

/// One line of the timeline: an interaction with the person it concerns.
pub struct TimelineEntry {
    pub person_id: String,
    pub name: String,
    pub emoji: String,
    pub entry: InteractionEntry,
}

impl Ranked for TimelineEntry {
    open spec fn rank(&self) -> int {
        self.entry.timestamp as int
    }

    fn rank_key(&self) -> (k: i64) {
        self.entry.timestamp
    }
}

/// The timeline line of interaction `e` with person `p`.
pub open spec fn entry_of(p: Person, e: InteractionEntry) -> TimelineEntry {
    TimelineEntry { person_id: p.id, name: p.name, emoji: p.avatar_emoji, entry: e }
}

/// The timeline lines of one person, in the order of their history.
pub open spec fn entries_of(p: Person) -> Seq<TimelineEntry> {
    p.log@.map_values(|e: InteractionEntry| entry_of(p, e))
}

/// The timeline lines of all the people, person after person.
pub open spec fn all_entries(ps: Seq<Person>) -> Seq<TimelineEntry>
    decreases ps.len(),
{
    if ps.len() == 0 {
        Seq::empty()
    } else {
        all_entries(ps.drop_last()) + entries_of(ps.last())
    }
}

fn push_entries(out: &mut Vec<TimelineEntry>, p: &Person)
    ensures
        final(out)@ == old(out)@ + entries_of(*p),
{
    let ghost start = out@;
    let mut k: usize = 0;
    while k < p.log.len()
        invariant
            k <= p.log@.len(),
            out@ == start + entries_of(*p).subrange(0, k as int),
        decreases p.log@.len() - k,
    {
        let e = p.log[k].replicate();
        let line = TimelineEntry {
            person_id: p.id.clone(),
            name: p.name.clone(),
            emoji: p.avatar_emoji.clone(),
            entry: e,
        };
        out.push(line);
        k = k + 1;
        assert(out@ =~= start + entries_of(*p).subrange(0, k as int));
    }
    assert(entries_of(*p).subrange(0, k as int) =~= entries_of(*p));
}

/// The timeline: every interaction of every person, the latest first;
/// interactions at the same time keep the order of the people and of their
/// histories.
pub fn timeline(persons: &Vec<Person>) -> (r: Vec<TimelineEntry>)
    ensures
        r@ == sorted_desc(all_entries(persons@)),
{
    let mut lines: Vec<TimelineEntry> = Vec::new();
    let mut i: usize = 0;
    assert(persons@.subrange(0, 0) =~= Seq::<Person>::empty());
    while i < persons.len()
        invariant
            i <= persons@.len(),
            lines@ == all_entries(persons@.subrange(0, i as int)),
        decreases persons@.len() - i,
    {
        push_entries(&mut lines, &persons[i]);
        proof {
            let next = persons@.subrange(0, i + 1);
            assert(next.drop_last() =~= persons@.subrange(0, i as int));
            assert(next.last() == persons@[i as int]);
        }
        i = i + 1;
    }
    assert(persons@.subrange(0, i as int) =~= persons@);
    sort_desc(lines)
}

/// The timeline holds every interaction of every person, each as often as
/// it was recorded, and lists them from the latest to the earliest.
pub proof fn lemma_timeline_complete_and_ordered(ps: Seq<Person>)
    ensures
        sorted_desc(all_entries(ps)).to_multiset() == all_entries(ps).to_multiset(),
        forall|i: int, j: int|
            0 <= i < j < all_entries(ps).len() ==> sorted_desc(all_entries(ps))[i].entry.timestamp
                >= sorted_desc(all_entries(ps))[j].entry.timestamp,
{
    lemma_sorted_desc_laws(all_entries(ps));
}

/// A history with the entry `id` removed (every entry with that id).
pub open spec fn log_without(log: Seq<InteractionEntry>, id: Seq<char>) -> Seq<InteractionEntry>
    decreases log.len(),
{
    if log.len() == 0 {
        log
    } else {
        let prev = log_without(log.drop_last(), id);
        if log.last().id@ == id {
            prev
        } else {
            prev.push(log.last())
        }
    }
}

/// Deletes the interaction `id` from a person's history; nothing else of
/// the person changes.
pub fn remove_log_entry(p: &mut Person, id: &str)
    ensures
        final(p)@ == (crate::person::PersonView { log: log_without(old(p)@.log, id@), ..old(p)@ }),
{
    let ghost orig = p@;
    let mut rest: Vec<InteractionEntry> = Vec::new();
    std::mem::swap(&mut rest, &mut p.log);
    let ghost all = rest@;
    let total = rest.len();
    let mut i: usize = 0;
    assert(all.subrange(0, 0) =~= Seq::<InteractionEntry>::empty());
    while rest.len() > 0
        invariant
            i + rest@.len() == all.len(),
            all.len() == total,
            rest@ == all.subrange(i as int, all.len() as int),
            p.log@ == log_without(all.subrange(0, i as int), id@),
            p@ == (crate::person::PersonView { log: p@.log, ..orig }),
            all == orig.log,
        decreases rest@.len(),
    {
        let ghost before = rest@;
        let e = rest.remove(0);
        assert(e == all[i as int]) by {
            assert(before[0] == all[i as int]);
        }
        assert(rest@ =~= all.subrange(i + 1, all.len() as int));
        let ghost next = all.subrange(0, i + 1);
        assert(next.drop_last() =~= all.subrange(0, i as int));
        assert(next.last() == e);
        if !text_eq(e.id.as_str(), id) {
            p.log.push(e);
        }
        i = i + 1;
    }
    assert(all.subrange(0, i as int) =~= all);
}

/// Records an interaction at the end of a person's history; an empty text
/// records nothing. Tells whether it was recorded.
pub fn add_log_entry(p: &mut Person, id: String, timestamp: i64, text: String) -> (added: bool)
    ensures
        added == (text@.len() > 0),
        added ==> final(p)@ == (crate::person::PersonView {
            log: old(p)@.log.push(InteractionEntry { id, timestamp, text }),
            ..old(p)@
        }),
        !added ==> final(p)@ == old(p)@,
{
    if text.as_str().is_empty() {
        return false;
    }
    p.log.push(InteractionEntry { id, timestamp, text });
    true
}

} // verus!

use vstd::prelude::*;
use crate::text::text_eq;

verus! {

/// How two people are related.
#[derive(Clone, Copy, Debug, PartialEq, Eq, Structural)]
pub enum RelationType {
    Manages,
    ReportsTo,
    Friends,
    Family,
    Partner,
    Mentors,
    Collaborates,
    WorksWith,
}

/// A directed relationship from `source_id` to `target_id`, with a strength
/// from 1 to 10.
pub struct Relationship {
    pub id: String,
    pub source_id: String,
    pub target_id: String,
    pub rtype: RelationType,
    pub strength: u8,
    pub notes: String,
    pub created_at: i64,
}

/// The strength a relationship is given by the comparison page's slider:
/// kept within 1 to 10.
pub fn clamp_strength(v: u8) -> (r: u8)
    ensures
        r == (if v < 1 { 1 } else if v > 10 { 10 } else { v }),
{
    if v < 1 {
        1
    } else if v > 10 {
        10
    } else {
        v
    }
}

/// The positions of the selected people other than the person themself, in
/// order.
pub open spec fn other_positions(targets: Seq<String>, person_id: Seq<char>) -> Seq<int>
    decreases targets.len(),
{
    if targets.len() == 0 {
        Seq::empty()
    } else {
        let prev = other_positions(targets.drop_last(), person_id);
        if targets.last()@ == person_id {
            prev
        } else {
            prev.push(targets.len() - 1)
        }
    }
}

/// The relationships added from a person to the people selected: one per
/// selected person other than the person themself, in the order selected,
/// each of type `rtype` with `notes`, created at `now`, at the neutral
/// strength 5, and identified by the new id at the same position in
/// `new_ids`.
pub fn relationships_to_add(
    person_id: &str,
    targets: &Vec<String>,
    new_ids: &Vec<String>,
    rtype: RelationType,
    notes: &str,
    now: i64,
) -> (r: Vec<Relationship>)
    requires
        new_ids@.len() == targets@.len(),
    ensures
        r@.len() == other_positions(targets@, person_id@).len(),
        forall|i: int|
            0 <= i < r@.len() ==> {
                let k = other_positions(targets@, person_id@)[i];
                &&& 0 <= k < targets@.len()
                &&& (#[trigger] r@[i]).id@ == new_ids@[k]@
                &&& r@[i].source_id@ == person_id@
                &&& r@[i].target_id@ == targets@[k]@
                &&& r@[i].rtype == rtype
                &&& r@[i].strength == 5
                &&& r@[i].notes@ == notes@
                &&& r@[i].created_at == now
            },
{
    let mut out: Vec<Relationship> = Vec::new();
    let mut k: usize = 0;
    while k < targets.len()
        invariant
            k <= targets@.len(),
            new_ids@.len() == targets@.len(),
            out@.len() == other_positions(targets@.subrange(0, k as int), person_id@).len(),
            forall|i: int|
                0 <= i < out@.len() ==> {
                    let j = other_positions(targets@.subrange(0, k as int), person_id@)[i];
                    &&& 0 <= j < k
                    &&& (#[trigger] out@[i]).id@ == new_ids@[j]@
                    &&& out@[i].source_id@ == person_id@
                    &&& out@[i].target_id@ == targets@[j]@
                    &&& out@[i].rtype == rtype
                    &&& out@[i].strength == 5
                    &&& out@[i].notes@ == notes@
                    &&& out@[i].created_at == now
                },
        decreases targets@.len() - k,
    {
        let ghost before = targets@.subrange(0, k as int);
        let ghost after = targets@.subrange(0, k + 1);
        assert(after.drop_last() =~= before);
        assert(after.last() == targets@[k as int]);
        if !text_eq(targets[k].as_str(), person_id) {
            let rel = Relationship {
                id: new_ids[k].clone(),
                source_id: person_id.to_string(),
                target_id: targets[k].clone(),
                rtype,
                strength: 5,
                notes: notes.to_string(),
                created_at: now,
            };
            out.push(rel);
        }
        k = k + 1;
    }
    assert(targets@.subrange(0, targets@.len() as int) =~= targets@);
    out
}

/// The position of the first relationship with id `id`, if any.
pub open spec fn position_of_id(rels: Seq<Relationship>, id: Seq<char>) -> Option<int> {
    if exists|i: int| 0 <= i < rels.len() && rels[i].id@ == id {
        Some(choose|i: int| 0 <= i < rels.len() && rels[i].id@ == id && forall|j: int| 0 <= j < i ==> rels[j].id@ != id)
    } else {
        None
    }
}

/// Saving the edit of a relationship: nothing when no relationship is being
/// edited (`id` empty) or none has that id; otherwise the first relationship
/// with that id, with its type and notes replaced and all else kept.
pub fn edited_relationship(rels: &Vec<Relationship>, id: &str, rtype: RelationType, notes: &str) -> (r: Option<Relationship>)
    ensures
        id@.len() == 0 ==> r is None,
        id@.len() > 0 ==> (r is None <==> position_of_id(rels@, id@) is None),
        r matches Some(e) ==> ({
            let k = position_of_id(rels@, id@)->0;
            &&& e.id == rels@[k].id
            &&& e.source_id == rels@[k].source_id
            &&& e.target_id == rels@[k].target_id
            &&& e.strength == rels@[k].strength
            &&& e.created_at == rels@[k].created_at
            &&& e.rtype == rtype
            &&& e.notes@ == notes@
        }),
{
    proof {
        reveal_strlit("");
    }
    if text_eq(id, "") {
        return None;
    }
    assert(id@.len() > 0) by {
        if id@.len() == 0 {
            assert(id@ =~= ""@);
        }
    }
    let mut k: usize = 0;
    while k < rels.len()
        invariant
            id@.len() > 0,
            k <= rels@.len(),
            forall|j: int| 0 <= j < k ==> rels@[j].id@ != id@,
        decreases rels@.len() - k,
    {
        if text_eq(rels[k].id.as_str(), id) {
            proof {
                let f = choose|i: int| 0 <= i < rels@.len() && rels@[i].id@ == id@ && forall|j: int| 0 <= j < i ==> rels@[j].id@ != id@;
                assert(0 <= f < rels@.len() && rels@[f].id@ == id@ && forall|j: int| 0 <= j < f ==> rels@[j].id@ != id@);
                if f < k {
                    assert(rels@[f].id@ != id@);
                }
                if (k as int) < f {
                    assert(rels@[k as int].id@ != id@);
                }
                assert(position_of_id(rels@, id@) == Some(k as int));
            }
            let old = &rels[k];
            return Some(Relationship {
                id: old.id.clone(),
                source_id: old.source_id.clone(),
                target_id: old.target_id.clone(),
                rtype,
                strength: old.strength,
                notes: notes.to_string(),
                created_at: old.created_at,
            });
        }
        k = k + 1;
    }
    None
}

/// The relation type a stored name stands for; unknown names stand for
/// "works with".
pub open spec fn relation_named(s: Seq<char>) -> RelationType {
    if s == "Manages"@ {
        RelationType::Manages
    } else if s == "ReportsTo"@ {
        RelationType::ReportsTo
    } else if s == "Friends"@ {
        RelationType::Friends
    } else if s == "Family"@ {
        RelationType::Family
    } else if s == "Partner"@ {
        RelationType::Partner
    } else if s == "Mentors"@ {
        RelationType::Mentors
    } else if s == "Collaborates"@ {
        RelationType::Collaborates
    } else {
        RelationType::WorksWith
    }
}

/// The stored name of a relation type.
pub open spec fn relation_name(t: RelationType) -> Seq<char> {
    match t {
        RelationType::Manages => "Manages"@,
        RelationType::ReportsTo => "ReportsTo"@,
        RelationType::Friends => "Friends"@,
        RelationType::Family => "Family"@,
        RelationType::Partner => "Partner"@,
        RelationType::Mentors => "Mentors"@,
        RelationType::Collaborates => "Collaborates"@,
        RelationType::WorksWith => "WorksWith"@,
    }
}

impl RelationType {
    /// The stored name of the relation type.
    pub fn name(self) -> (r: &'static str)
        ensures
            r@ == relation_name(self),
    {
        match self {
            RelationType::Manages => "Manages",
            RelationType::ReportsTo => "ReportsTo",
            RelationType::Friends => "Friends",
            RelationType::Family => "Family",
            RelationType::Partner => "Partner",
            RelationType::Mentors => "Mentors",
            RelationType::Collaborates => "Collaborates",
            RelationType::WorksWith => "WorksWith",
        }
    }
}

/// A relation type is read back from its stored name.
pub proof fn lemma_name_round_trip(t: RelationType)
    ensures
        relation_named(relation_name(t)) == t,
{
    reveal_strlit("Manages");
    reveal_strlit("ReportsTo");
    reveal_strlit("Friends");
    reveal_strlit("Family");
    reveal_strlit("Partner");
    reveal_strlit("Mentors");
    reveal_strlit("Collaborates");
    reveal_strlit("WorksWith");
    match t {
        RelationType::Manages => {

        },
        RelationType::ReportsTo => {
            assert("ReportsTo"@.len() != "Manages"@.len());
        },
        RelationType::Friends => {
            assert("Friends"@[0] != "Manages"@[0]);
            assert("Friends"@.len() != "ReportsTo"@.len());
        },
        RelationType::Family => {
            assert("Family"@.len() != "Manages"@.len());
            assert("Family"@.len() != "ReportsTo"@.len());
            assert("Family"@.len() != "Friends"@.len());
        },
        RelationType::Partner => {
            assert("Partner"@[0] != "Manages"@[0]);
            assert("Partner"@.len() != "ReportsTo"@.len());
            assert("Partner"@[0] != "Friends"@[0]);
            assert("Partner"@.len() != "Family"@.len());
        },
        RelationType::Mentors => {
            assert("Mentors"@[1] != "Manages"@[1]);
            assert("Mentors"@.len() != "ReportsTo"@.len());
            assert("Mentors"@[0] != "Friends"@[0]);
            assert("Mentors"@.len() != "Family"@.len());
            assert("Mentors"@[0] != "Partner"@[0]);
        },
        RelationType::Collaborates => {
            assert("Collaborates"@.len() != "Manages"@.len());
            assert("Collaborates"@.len() != "ReportsTo"@.len());
            assert("Collaborates"@.len() != "Friends"@.len());
            assert("Collaborates"@.len() != "Family"@.len());
            assert("Collaborates"@.len() != "Partner"@.len());
            assert("Collaborates"@.len() != "Mentors"@.len());
        },
        RelationType::WorksWith => {
            assert("WorksWith"@.len() != "Manages"@.len());
            assert("WorksWith"@[0] != "ReportsTo"@[0]);
            assert("WorksWith"@.len() != "Friends"@.len());
            assert("WorksWith"@.len() != "Family"@.len());
            assert("WorksWith"@.len() != "Partner"@.len());
            assert("WorksWith"@.len() != "Mentors"@.len());
            assert("WorksWith"@.len() != "Collaborates"@.len());
        },
    }
}

/// The relation type named `s`.
pub fn match_type(s: &str) -> (r: RelationType)
    ensures
        r == relation_named(s@),
{
    if text_eq(s, "Manages") {
        RelationType::Manages
    } else if text_eq(s, "ReportsTo") {
        RelationType::ReportsTo
    } else if text_eq(s, "Friends") {
        RelationType::Friends
    } else if text_eq(s, "Family") {
        RelationType::Family
    } else if text_eq(s, "Partner") {
        RelationType::Partner
    } else if text_eq(s, "Mentors") {
        RelationType::Mentors
    } else if text_eq(s, "Collaborates") {
        RelationType::Collaborates
    } else {
        RelationType::WorksWith
    }
}

/// Whether `r` links the two people, in either direction.
pub open spec fn links(r: Relationship, id1: Seq<char>, id2: Seq<char>) -> bool {
    (r.source_id@ == id1 && r.target_id@ == id2) || (r.source_id@ == id2 && r.target_id@ == id1)
}

/// The relationship selector's initial value for a pair of people: the type
/// and strength of the first relationship linking them (either direction),
/// or no type and strength 5.
pub fn prefill_rel_from(rels: &Vec<Relationship>, id1: &str, id2: &str) -> (r: (
    Option<RelationType>,
    u8,
))
    ensures
        r.0 is None ==> r.1 == 5 && forall|i: int| 0 <= i < rels@.len() ==> !links(
            #[trigger] rels@[i],
            id1@,
            id2@,
        ),
        r.0 is Some ==> exists|i: int|
            0 <= i < rels@.len() && links(#[trigger] rels@[i], id1@, id2@) && (forall|j: int|
                0 <= j < i ==> !links(#[trigger] rels@[j], id1@, id2@)) && r.0 == Some(
                rels@[i].rtype,
            ) && r.1 == rels@[i].strength,
{
    let mut i: usize = 0;
    while i < rels.len()
        invariant
            i <= rels@.len(),
            forall|j: int| 0 <= j < i ==> !links(#[trigger] rels@[j], id1@, id2@),
        decreases rels@.len() - i,
    {
        let r = &rels[i];
        if (text_eq(r.source_id.as_str(), id1) && text_eq(r.target_id.as_str(), id2)) || (text_eq(
            r.source_id.as_str(),
            id2,
        ) && text_eq(r.target_id.as_str(), id1)) {
            assert(links(rels@[i as int], id1@, id2@));
            return (Some(r.rtype), r.strength);
        }
        i = i + 1;
    }
    (None, 5)
}

/// The relationship selector is prefilled the same whichever of the two
/// people is named first: a relationship links them in one order exactly
/// when it links them in the other.
pub proof fn lemma_prefill_symmetric(rels: Seq<Relationship>, id1: Seq<char>, id2: Seq<char>)
    ensures
        forall|i: int| 0 <= i < rels.len() ==> (links(#[trigger] rels[i], id1, id2) == links(
            rels[i],
            id2,
            id1,
        )),
{
}

/// Grouping loses no relationship: every relationship's type has a group,
/// and every relationship is among the entries of its type.
pub proof fn lemma_grouping_complete(rels: Seq<Relationship>, person_id: Seq<char>, i: int)
    requires
        0 <= i < rels.len(),
    ensures
        types_in_order(rels).contains(rels[i].rtype),
        entries_of_type(rels, person_id, rels[i].rtype).contains(edge_entry(rels[i], person_id)),
    decreases rels.len(),
{
    let prev = rels.drop_last();
    if i < rels.len() - 1 {
        assert(prev[i] == rels[i]);
        lemma_grouping_complete(prev, person_id, i);
        let k = choose|k: int|
            0 <= k < types_in_order(prev).len() && types_in_order(prev)[k] == rels[i].rtype;
        assert(types_in_order(rels)[k] == rels[i].rtype);
        let e = entries_of_type(prev, person_id, rels[i].rtype);
        let j = choose|j: int| 0 <= j < e.len() && e[j] == edge_entry(rels[i], person_id);
        assert(entries_of_type(rels, person_id, rels[i].rtype)[j] == edge_entry(
            rels[i],
            person_id,
        ));
    } else {
        let tp = types_in_order(prev);
        if !tp.contains(rels.last().rtype) {
            assert(types_in_order(rels)[tp.len() as int] == rels[i].rtype);
        }
        let e = entries_of_type(rels, person_id, rels[i].rtype);
        assert(e[e.len() - 1] == edge_entry(rels[i], person_id));
    }
}

/// One relationship as seen from a person: its id, the other person's id,
/// and whether it goes out from the person.
pub open spec fn edge_entry(r: Relationship, person_id: Seq<char>) -> (String, String, bool) {
    if r.source_id@ == person_id {
        (r.id, r.target_id, true)
    } else {
        (r.id, r.source_id, false)
    }
}

/// The entries, in order, of the relationships of type `t`.
pub open spec fn entries_of_type(rels: Seq<Relationship>, person_id: Seq<char>, t: RelationType) -> Seq<
    (String, String, bool),
>
    decreases rels.len(),
{
    if rels.len() == 0 {
        Seq::empty()
    } else {
        let prev = entries_of_type(rels.drop_last(), person_id, t);
        if rels.last().rtype == t {
            prev.push(edge_entry(rels.last(), person_id))
        } else {
            prev
        }
    }
}

/// The relation types occurring in `rels`, each once, in order of first
/// occurrence.
pub open spec fn types_in_order(rels: Seq<Relationship>) -> Seq<RelationType>
    decreases rels.len(),
{
    if rels.len() == 0 {
        Seq::empty()
    } else {
        let prev = types_in_order(rels.drop_last());
        if prev.contains(rels.last().rtype) {
            prev
        } else {
            prev.push(rels.last().rtype)
        }
    }
}

/// A person's relationships grouped by type: one group per type, in order
/// of the type's first occurrence, each holding the entries of that type in
/// their original order.
pub fn group_relationships(rels: Vec<Relationship>, person_id: &str) -> (r: Vec<
    (RelationType, Vec<(String, String, bool)>),
>)
    ensures
        r@.len() == types_in_order(rels@).len(),
        forall|k: int|
            0 <= k < r@.len() ==> (#[trigger] r@[k]).0 == types_in_order(rels@)[k] && r@[k].1@
                == entries_of_type(rels@, person_id@, r@[k].0),
{
    let ghost all = rels@;
    let mut groups: Vec<(RelationType, Vec<(String, String, bool)>)> = Vec::new();
    let mut rest = rels;
    let total = rest.len();
    assert(all.len() == total);
    assert(all.subrange(0, all.len() as int) =~= all);
    let mut i: usize = 0;
    while rest.len() > 0
        invariant
            i + rest@.len() == all.len(),
            all.len() <= usize::MAX,
            rest@ == all.subrange(i as int, all.len() as int),
            groups@.len() == types_in_order(all.subrange(0, i as int)).len(),
            forall|k: int|
                0 <= k < groups@.len() ==> (#[trigger] groups@[k]).0 == types_in_order(
                    all.subrange(0, i as int),
                )[k] && groups@[k].1@ == entries_of_type(
                    all.subrange(0, i as int),
                    person_id@,
                    groups@[k].0,
                ),
        decreases rest@.len(),
    {
        let rel = rest.remove(0);
        let ghost prefix = all.subrange(0, i as int);
        let ghost next = all.subrange(0, i + 1);
        assert(rel == all[i as int]);
        assert(next.drop_last() =~= prefix);
        assert(next.last() == rel);
        let Relationship { id, source_id, target_id, rtype, strength, notes, created_at } = rel;
        let is_outgoing = text_eq(source_id.as_str(), person_id);
        let entry = if is_outgoing {
            (id, target_id, true)
        } else {
            (id, source_id, false)
        };
        assert(entry == edge_entry(rel, person_id@));
        let mut pos: usize = 0;
        while pos < groups.len() && groups[pos].0 != rtype
            invariant
                pos <= groups@.len(),
                forall|k: int| 0 <= k < pos ==> (#[trigger] groups@[k]).0 != rtype,
            decreases groups@.len() - pos,
        {
            pos = pos + 1;
        }
        let ghost old_groups = groups@;
        proof {
            assert forall|k: int| 0 <= k < old_groups.len() implies #[trigger] old_groups[k].0
                == types_in_order(prefix)[k] by {}
        }
        if pos < groups.len() {
            assert(types_in_order(prefix)[pos as int] == rtype);
            assert(types_in_order(prefix).contains(rtype));
            let mut g = groups.remove(pos);
            let ghost old_entries = g.1@;
            assert(old_entries == entries_of_type(prefix, person_id@, rtype));
            g.1.push(entry);
            let ghost new_group = g;
            groups.insert(pos, g);
            assert(groups@ =~= old_groups.update(pos as int, new_group));
            assert(types_in_order(next) == types_in_order(prefix));
            assert(entries_of_type(next, person_id@, rtype) == old_entries.push(entry));
            assert forall|k: int| 0 <= k < groups@.len() implies (#[trigger] groups@[k]).0
                == types_in_order(next)[k] && groups@[k].1@ == entries_of_type(
                next,
                person_id@,
                groups@[k].0,
            ) by {
                if k != pos {
                    assert(groups@[k] == old_groups[k]);
                    assert(old_groups[k].0 != rtype) by {
                        if old_groups[k].0 == rtype {
                            assert(types_in_order(prefix)[k] == types_in_order(prefix)[pos as int]);
                            lemma_types_distinct(prefix, k, pos as int);
                        }
                    }
                }
            }
        } else {
            assert(!types_in_order(prefix).contains(rtype)) by {
                if types_in_order(prefix).contains(rtype) {
                    let k = choose|k: int|
                        0 <= k < types_in_order(prefix).len() && types_in_order(prefix)[k]
                            == rtype;
                    assert(old_groups[k].0 == rtype);
                }
            }
            proof {
                lemma_no_entries_for_absent_type(prefix, person_id@, rtype);
            }
            let mut v: Vec<(String, String, bool)> = Vec::new();
            v.push(entry);
            groups.push((rtype, v));
            assert forall|k: int| 0 <= k < groups@.len() implies (#[trigger] groups@[k]).0
                == types_in_order(next)[k] && groups@[k].1@ == entries_of_type(
                next,
                person_id@,
                groups@[k].0,
            ) by {
                if k < old_groups.len() {
                    assert(groups@[k] == old_groups[k]);
                    assert(old_groups[k].0 != rtype);
                } else {
                    assert(groups@[k].1@ =~= seq![entry]);
                }
            }
        }
        i = i + 1;
    }
    assert(all.subrange(0, i as int) =~= all);
    groups
}

/// Each type occurs once among the types in order of first occurrence.
proof fn lemma_types_distinct(rels: Seq<Relationship>, i: int, j: int)
    requires
        0 <= i < types_in_order(rels).len(),
        0 <= j < types_in_order(rels).len(),
        types_in_order(rels)[i] == types_in_order(rels)[j],
    ensures
        i == j,
    decreases rels.len(),
{
    if rels.len() > 0 {
        let prev = types_in_order(rels.drop_last());
        if prev.contains(rels.last().rtype) {
            lemma_types_distinct(rels.drop_last(), i, j);
        } else {
            if i < prev.len() && j < prev.len() {
                lemma_types_distinct(rels.drop_last(), i, j);
            } else if i < prev.len() {
                assert(prev[i] == rels.last().rtype);
            } else if j < prev.len() {
                assert(prev[j] == rels.last().rtype);
            }
        }
    }
}

/// The number of entries in the groups of the types `ts`.
pub open spec fn grouped_count(rels: Seq<Relationship>, person_id: Seq<char>, ts: Seq<RelationType>) -> int
    decreases ts.len(),
{
    if ts.len() == 0 {
        0
    } else {
        grouped_count(rels, person_id, ts.drop_last()) + entries_of_type(
            rels,
            person_id,
            ts.last(),
        ).len()
    }
}

/// Where a relation type first occurs among the relationships.
pub open spec fn first_position(rels: Seq<Relationship>, t: RelationType) -> int
    decreases rels.len(),
{
    if rels.len() == 0 {
        -1
    } else if types_in_order(rels.drop_last()).contains(t) {
        first_position(rels.drop_last(), t)
    } else if rels.last().rtype == t {
        rels.len() - 1
    } else {
        -1
    }
}

proof fn lemma_count_after_one_more(rels: Seq<Relationship>, person_id: Seq<char>, ts: Seq<RelationType>)
    requires
        rels.len() > 0,
        ts.no_duplicates(),
    ensures
        grouped_count(rels, person_id, ts) == grouped_count(rels.drop_last(), person_id, ts) + (if ts.contains(
            rels.last().rtype,
        ) {
            1int
        } else {
            0
        }),
    decreases ts.len(),
{
    if ts.len() > 0 {
        let init = ts.drop_last();
        assert(init.no_duplicates());
        lemma_count_after_one_more(rels, person_id, init);
        if ts.last() == rels.last().rtype {
            assert(!init.contains(rels.last().rtype)) by {
                if init.contains(rels.last().rtype) {
                    let k = choose|k: int| 0 <= k < init.len() && init[k] == rels.last().rtype;
                    assert(ts[k] == ts[ts.len() - 1]);
                }
            }
        }
        assert(ts.contains(rels.last().rtype) == (init.contains(rels.last().rtype) || ts.last()
            == rels.last().rtype)) by {
            if ts.contains(rels.last().rtype) {
                let k = choose|k: int| 0 <= k < ts.len() && ts[k] == rels.last().rtype;
                if k < ts.len() - 1 {
                    assert(init[k] == ts[k]);
                }
            }
            if init.contains(rels.last().rtype) {
                let k = choose|k: int| 0 <= k < init.len() && init[k] == rels.last().rtype;
                assert(ts[k] == init[k]);
            }
        }
    }
}

/// Grouping a person's relationships: the groups have distinct types, each
/// type occurring in the relationships, listed in order of their first
/// occurrence; and together the groups hold exactly one entry per
/// relationship.
pub proof fn lemma_grouping_law(rels: Seq<Relationship>, person_id: Seq<char>)
    ensures
        types_in_order(rels).no_duplicates(),
        forall|k: int|
            0 <= k < types_in_order(rels).len() ==> 0 <= #[trigger] first_position(rels, types_in_order(rels)[k])
                < rels.len() && rels[first_position(rels, types_in_order(rels)[k])].rtype == types_in_order(
                rels,
            )[k],
        forall|k1: int, k2: int|
            0 <= k1 < k2 < types_in_order(rels).len() ==> #[trigger] first_position(rels, types_in_order(rels)[k1])
                < #[trigger] first_position(rels, types_in_order(rels)[k2]),
        grouped_count(rels, person_id, types_in_order(rels)) == rels.len(),
    decreases rels.len(),
{
    let ts = types_in_order(rels);
    assert forall|i: int, j: int| 0 <= i < ts.len() && 0 <= j < ts.len() && i != j implies ts[i] != ts[j] by {
        if ts[i] == ts[j] {
            lemma_types_distinct(rels, i, j);
        }
    }
    if rels.len() > 0 {
        let prev = rels.drop_last();
        let pt = types_in_order(prev);
        let t = rels.last().rtype;
        lemma_grouping_law(prev, person_id);
        assert forall|k: int| 0 <= k < pt.len() implies #[trigger] first_position(rels, pt[k]) == first_position(prev, pt[k]) by {
            assert(pt.contains(pt[k]));
        }
        lemma_count_after_one_more(rels, person_id, pt);
        if pt.contains(t) {
            assert(ts == pt);
        } else {
            assert(ts == pt.push(t));
            assert(first_position(rels, t) == rels.len() - 1);
            assert(ts.drop_last() =~= pt);
            lemma_no_entries_for_absent_type(prev, person_id, t);
            assert(entries_of_type(rels, person_id, t).len() == 1);
            assert forall|k: int| 0 <= k < pt.len() implies first_position(prev, pt[k]) < prev.len() by {}
            assert forall|k: int| 0 <= k < ts.len() implies 0 <= #[trigger] first_position(rels, ts[k]) < rels.len()
                && rels[first_position(rels, ts[k])].rtype == ts[k] by {
                if k < pt.len() {
                    assert(ts[k] == pt[k]);
                    assert(rels[first_position(prev, pt[k])] == prev[first_position(prev, pt[k])]);
                }
            }
        }
        if pt.contains(t) {
            assert forall|k: int| 0 <= k < ts.len() implies 0 <= #[trigger] first_position(rels, ts[k]) < rels.len()
                && rels[first_position(rels, ts[k])].rtype == ts[k] by {
                assert(rels[first_position(prev, pt[k])] == prev[first_position(prev, pt[k])]);
            }
        }
    }
}

/// A type that does not occur among the relationships has no entries.
proof fn lemma_no_entries_for_absent_type(
    rels: Seq<Relationship>,
    person_id: Seq<char>,
    t: RelationType,
)
    requires
        !types_in_order(rels).contains(t),
    ensures
        entries_of_type(rels, person_id, t) == Seq::<(String, String, bool)>::empty(),
    decreases rels.len(),
{
    if rels.len() > 0 {
        let prev = types_in_order(rels.drop_last());
        if !prev.contains(rels.last().rtype) {
            assert(types_in_order(rels)[prev.len() as int] == rels.last().rtype);
        }
        assert(!prev.contains(t)) by {
            if prev.contains(t) {
                let k = choose|k: int| 0 <= k < prev.len() && prev[k] == t;
                assert(types_in_order(rels)[k] == t);
            }
        }
        lemma_no_entries_for_absent_type(rels.drop_last(), person_id, t);
        if rels.last().rtype == t {
            assert(types_in_order(rels).contains(t)) by {
                if prev.contains(t) {
                } else {
                    assert(types_in_order(rels)[prev.len() as int] == t);
                }
            }
        }
    }
}

} // verus!

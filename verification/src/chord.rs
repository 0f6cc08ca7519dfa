use vstd::prelude::*;
use crate::people::{matches_query, name_matches};
use crate::relationship::{RelationType, Relationship};
use crate::text::{lowercase, text_eq, to_lowercase_text};

verus! {

/// The relation types in display order.
pub const ALL_RELATION_TYPES: [RelationType; 8] = [
    RelationType::Manages,
    RelationType::ReportsTo,
    RelationType::Friends,
    RelationType::Family,
    RelationType::Partner,
    RelationType::Mentors,
    RelationType::Collaborates,
    RelationType::WorksWith,
];

/// The position of a relation type in display order.
pub open spec fn type_position(t: RelationType) -> nat {
    match t {
        RelationType::Manages => 0,
        RelationType::ReportsTo => 1,
        RelationType::Friends => 2,
        RelationType::Family => 3,
        RelationType::Partner => 4,
        RelationType::Mentors => 5,
        RelationType::Collaborates => 6,
        RelationType::WorksWith => 7,
    }
}

/// The position of a relation type in display order.
pub fn type_index(t: RelationType) -> (r: usize)
    ensures
        r == type_position(t),
        ALL_RELATION_TYPES@[r as int] == t,
{
    match t {
        RelationType::Manages => 0,
        RelationType::ReportsTo => 1,
        RelationType::Friends => 2,
        RelationType::Family => 3,
        RelationType::Partner => 4,
        RelationType::Mentors => 5,
        RelationType::Collaborates => 6,
        RelationType::WorksWith => 7,
    }
}

/// The colour a relation type is drawn in.
pub open spec fn type_color_text(t: RelationType) -> Seq<char> {
    match t {
        RelationType::Manages => "var(--cyan)"@,
        RelationType::ReportsTo => "var(--orange)"@,
        RelationType::Friends => "var(--green)"@,
        RelationType::Family => "var(--pink)"@,
        RelationType::Partner => "var(--purple)"@,
        RelationType::Mentors => "var(--gold)"@,
        RelationType::Collaborates => "var(--teal)"@,
        RelationType::WorksWith => "var(--blue)"@,
    }
}

/// The colour a relation type is drawn in.
pub fn type_color(t: RelationType) -> (r: &'static str)
    ensures
        r@ == type_color_text(t),
{
    match t {
        RelationType::Manages => "var(--cyan)",
        RelationType::ReportsTo => "var(--orange)",
        RelationType::Friends => "var(--green)",
        RelationType::Family => "var(--pink)",
        RelationType::Partner => "var(--purple)",
        RelationType::Mentors => "var(--gold)",
        RelationType::Collaborates => "var(--teal)",
        RelationType::WorksWith => "var(--blue)",
    }
}

/// Whether a type is another one than `t`.
pub open spec fn other_than(t: RelationType) -> spec_fn(RelationType) -> bool {
    |x: RelationType| x != t
}

/// The selected types with `t` switched: removed (every copy) when it was
/// selected, appended when it was not.
pub open spec fn types_toggled(active: Seq<RelationType>, t: RelationType) -> Seq<RelationType> {
    if active.contains(t) {
        active.filter(other_than(t))
    } else {
        active.push(t)
    }
}

/// Switches a relation type of the filter chips on or off.
pub fn toggle_type(active: &mut Vec<RelationType>, t: RelationType)
    ensures
        final(active)@ == types_toggled(old(active)@, t),
{
    let ghost all = active@;
    let mut present = false;
    let mut i: usize = 0;
    while i < active.len()
        invariant
            i <= all.len(),
            active@ == all,
            present == (exists|k: int| 0 <= k < i && all[k] == t),
        decreases all.len() - i,
    {
        if active[i] == t {
            present = true;
        }
        i = i + 1;
    }
    assert(present == all.contains(t));
    if !present {
        active.push(t);
        return;
    }
    let mut kept: Vec<RelationType> = Vec::new();
    let mut j: usize = 0;
    assert(all.subrange(0, 0).filter(other_than(t)) =~= Seq::<RelationType>::empty())
        by {
        reveal(Seq::filter);
    }
    while j < active.len()
        invariant
            j <= all.len(),
            active@ == all,
            kept@ == all.subrange(0, j as int).filter(other_than(t)),
        decreases all.len() - j,
    {
        let x = active[j];
        proof {
            let next = all.subrange(0, j + 1);
            assert(next.drop_last() =~= all.subrange(0, j as int));
            assert(next.last() == x);
            reveal(Seq::filter);
        }
        if x != t {
            kept.push(x);
        }
        j = j + 1;
    }
    assert(all.subrange(0, j as int) =~= all);
    *active = kept;
}

/// Whether the text `a` sorts before `b` (compared character by
/// character, a proper prefix first), as `<` orders Rust strings.
pub open spec fn text_less(a: Seq<char>, b: Seq<char>) -> bool
    decreases a.len(),
{
    if a.len() == 0 {
        b.len() > 0
    } else if b.len() == 0 {
        false
    } else if (a[0] as u32) != (b[0] as u32) {
        (a[0] as u32) < (b[0] as u32)
    } else {
        text_less(a.drop_first(), b.drop_first())
    }
}

proof fn lemma_text_less_at(a: Seq<char>, b: Seq<char>, k: int)
    requires
        0 <= k <= a.len(),
        k <= b.len(),
        forall|j: int| 0 <= j < k ==> a[j] == b[j],
    ensures
        text_less(a, b) == text_less(a.subrange(k, a.len() as int), b.subrange(k, b.len() as int)),
    decreases k,
{
    if k == 0 {
        assert(a.subrange(0, a.len() as int) =~= a);
        assert(b.subrange(0, b.len() as int) =~= b);
    } else {
        let a1 = a.drop_first();
        let b1 = b.drop_first();
        assert forall|j: int| 0 <= j < k - 1 implies a1[j] == b1[j] by {
            assert(a1[j] == a[j + 1] && b1[j] == b[j + 1]);
        }
        lemma_text_less_at(a1, b1, k - 1);
        assert(a1.subrange(k - 1, a1.len() as int) =~= a.subrange(k, a.len() as int));
        assert(b1.subrange(k - 1, b1.len() as int) =~= b.subrange(k, b.len() as int));
    }
}

/// Whether the text `a` sorts before `b`.
pub fn text_lt(a: &str, b: &str) -> (r: bool)
    ensures
        r == text_less(a@, b@),
{
    let an = a.unicode_len();
    let bn = b.unicode_len();
    let mut k: usize = 0;
    while k < an && k < bn && a.get_char(k) == b.get_char(k)
        invariant
            an == a@.len(),
            bn == b@.len(),
            k <= an && k <= bn,
            forall|j: int| 0 <= j < k ==> a@[j] == b@[j],
        decreases an - k,
    {
        k = k + 1;
    }
    proof {
        lemma_text_less_at(a@, b@, k as int);
        let ra = a@.subrange(k as int, an as int);
        let rb = b@.subrange(k as int, bn as int);
        if k < an && k < bn {
            assert(ra[0] == a@[k as int] && rb[0] == b@[k as int]);
        }
    }
    if k == an {
        k < bn
    } else if k == bn {
        false
    } else {
        (a.get_char(k) as u32) < (b.get_char(k) as u32)
    }
}

/// A person as shown on the relationship map.
pub struct PersonCard {
    pub id: String,
    pub name: String,
    pub emoji: String,
}

/// A drawn person: their place in the list of people, and whether the
/// search finds them.
pub struct ChordNode {
    pub index: usize,
    pub matched: bool,
}

/// Whether some person whose name the search finds has the id `id`.
pub open spec fn matched_id(persons: Seq<PersonCard>, q: Seq<char>, id: Seq<char>) -> bool {
    exists|k: int|
        0 <= k < persons.len() && persons[k].id@ == id && name_matches(
            #[trigger] persons[k].name@,
            q,
        )
}

/// Whether a relationship is drawn: its type is selected and, when
/// something is searched, one of its ends is a person the search finds.
pub open spec fn rel_shown(
    persons: Seq<PersonCard>,
    active: Seq<RelationType>,
    q: Seq<char>,
    r: Relationship,
) -> bool {
    active.contains(r.rtype) && (q.len() == 0 || matched_id(persons, q, r.source_id@) || matched_id(
        persons,
        q,
        r.target_id@,
    ))
}

/// Whether a relationship is drawn, as a predicate.
pub open spec fn shown_pred(
    persons: Seq<PersonCard>,
    active: Seq<RelationType>,
    q: Seq<char>,
) -> spec_fn(Relationship) -> bool {
    |r: Relationship| rel_shown(persons, active, q, r)
}

/// The drawn relationships, in order.
pub open spec fn shown_rels(
    persons: Seq<PersonCard>,
    rels: Seq<Relationship>,
    active: Seq<RelationType>,
    q: Seq<char>,
) -> Seq<Relationship> {
    rels.filter(shown_pred(persons, active, q))
}

/// Whether one of the relationships `vs` has an end with the id `id`.
pub open spec fn has_end(vs: Seq<Relationship>, id: Seq<char>) -> bool {
    exists|i: int|
        0 <= i < vs.len() && ((#[trigger] vs[i]).source_id@ == id || vs[i].target_id@ == id)
}

/// Whether a person is drawn: everyone when nothing is searched, otherwise
/// the people the search finds and the ends of the drawn relationships.
pub open spec fn person_shown(
    persons: Seq<PersonCard>,
    rels: Seq<Relationship>,
    active: Seq<RelationType>,
    q: Seq<char>,
    id: Seq<char>,
) -> bool {
    q.len() == 0 || matched_id(persons, q, id) || has_end(shown_rels(persons, rels, active, q), id)
}

/// The drawn people among the first `n`, in order, each with whether the
/// search finds them.
pub open spec fn node_list(
    persons: Seq<PersonCard>,
    rels: Seq<Relationship>,
    active: Seq<RelationType>,
    q: Seq<char>,
    n: int,
) -> Seq<ChordNode>
    decreases n,
{
    if n <= 0 {
        Seq::empty()
    } else {
        let prev = node_list(persons, rels, active, q, n - 1);
        if person_shown(persons, rels, active, q, persons[n - 1].id@) {
            prev.push(ChordNode { index: (n - 1) as usize, matched: matched_id(persons, q, persons[n - 1].id@) })
        } else {
            prev
        }
    }
}

/// The unordered pair of people a relationship links, the smaller id
/// first.
pub open spec fn pair_key(r: Relationship) -> (Seq<char>, Seq<char>) {
    if text_less(r.source_id@, r.target_id@) {
        (r.source_id@, r.target_id@)
    } else {
        (r.target_id@, r.source_id@)
    }
}

/// The distinct pairs of `vs`, in order of first appearance.
pub open spec fn pair_keys(vs: Seq<Relationship>) -> Seq<(Seq<char>, Seq<char>)>
    decreases vs.len(),
{
    if vs.len() == 0 {
        Seq::empty()
    } else {
        let prev = pair_keys(vs.drop_last());
        if prev.contains(pair_key(vs.last())) {
            prev
        } else {
            prev.push(pair_key(vs.last()))
        }
    }
}

/// Whether some relationship of `vs` of type `t` links the pair `key`, as
/// a predicate on `t`.
pub open spec fn links_with(vs: Seq<Relationship>, key: (Seq<char>, Seq<char>)) -> spec_fn(
    RelationType,
) -> bool {
    |t: RelationType| exists|i: int| 0 <= i < vs.len() && #[trigger] pair_key(vs[i]) == key && vs[i].rtype == t
}

/// The types linking a pair among `vs`, each once, in display order.
pub open spec fn pair_types(vs: Seq<Relationship>, key: (Seq<char>, Seq<char>)) -> Seq<
    RelationType,
> {
    ALL_RELATION_TYPES@.filter(links_with(vs, key))
}

/// The drawn links between two people (`a` sorts before `b`, or they are
/// the same), with their types in display order.
pub struct ChordPair {
    pub a: String,
    pub b: String,
    pub types: Vec<RelationType>,
}

/// What the relationship map draws.
pub struct ChordView {
    pub nodes: Vec<ChordNode>,
    pub pairs: Vec<ChordPair>,
}

/// Every drawn relationship has both its ends drawn, and a person the
/// search finds is drawn.
pub proof fn lemma_drawn_links_have_drawn_ends(
    persons: Seq<PersonCard>,
    rels: Seq<Relationship>,
    active: Seq<RelationType>,
    q: Seq<char>,
    i: int,
)
    requires
        0 <= i < shown_rels(persons, rels, active, q).len(),
    ensures
        person_shown(persons, rels, active, q, shown_rels(persons, rels, active, q)[i].source_id@),
        person_shown(persons, rels, active, q, shown_rels(persons, rels, active, q)[i].target_id@),
{
    let vs = shown_rels(persons, rels, active, q);
    assert(has_end(vs, vs[i].source_id@));
    assert(has_end(vs, vs[i].target_id@));
}

proof fn lemma_filter_all<A>(s: Seq<A>, p: spec_fn(A) -> bool)
    requires
        forall|i: int| 0 <= i < s.len() ==> p(#[trigger] s[i]),
    ensures
        s.filter(p) == s,
    decreases s.len(),
{
    reveal(Seq::filter);
    if s.len() > 0 {
        lemma_filter_all(s.drop_last(), p);
        assert(s.drop_last().push(s.last()) =~= s);
    }
}

/// With nothing searched and every type selected, the map draws every
/// relationship and every person.
pub proof fn lemma_unfiltered_map_shows_all(
    persons: Seq<PersonCard>,
    rels: Seq<Relationship>,
    active: Seq<RelationType>,
    id: Seq<char>,
)
    requires
        forall|t: RelationType| active.contains(t),
    ensures
        shown_rels(persons, rels, active, Seq::empty()) == rels,
        person_shown(persons, rels, active, Seq::empty(), id),
{
    let p = shown_pred(persons, active, Seq::<char>::empty());
    assert forall|i: int| 0 <= i < rels.len() implies p(#[trigger] rels[i]) by {
        assert(active.contains(rels[i].rtype));
    }
    lemma_filter_all(rels, p);
}

fn copy_rel(r: &Relationship) -> (c: Relationship)
    ensures
        c == *r,
{
    Relationship {
        id: r.id.clone(),
        source_id: r.source_id.clone(),
        target_id: r.target_id.clone(),
        rtype: r.rtype,
        strength: r.strength,
        notes: r.notes.clone(),
        created_at: r.created_at,
    }
}

fn name_flags(persons: &Vec<PersonCard>, q: &str) -> (m: Vec<bool>)
    ensures
        m@.len() == persons@.len(),
        forall|k: int| 0 <= k < m@.len() ==> m@[k] == name_matches(persons@[k].name@, q@),
{
    let mut m: Vec<bool> = Vec::new();
    let mut k: usize = 0;
    while k < persons.len()
        invariant
            k <= persons@.len(),
            m@.len() == k,
            forall|j: int| 0 <= j < k ==> m@[j] == name_matches(persons@[j].name@, q@),
        decreases persons@.len() - k,
    {
        let f = matches_query(persons[k].name.as_str(), q);
        m.push(f);
        k = k + 1;
    }
    m
}

fn is_matched_id(persons: &Vec<PersonCard>, m: &Vec<bool>, q: &str, id: &str) -> (r: bool)
    requires
        m@.len() == persons@.len(),
        forall|k: int| 0 <= k < m@.len() ==> m@[k] == name_matches(persons@[k].name@, q@),
    ensures
        r == matched_id(persons@, q@, id@),
{
    let mut k: usize = 0;
    while k < persons.len()
        invariant
            k <= persons@.len(),
            m@.len() == persons@.len(),
            forall|j: int| 0 <= j < m@.len() ==> m@[j] == name_matches(persons@[j].name@, q@),
            forall|j: int|
                0 <= j < k ==> !(persons@[j].id@ == id@ && name_matches(persons@[j].name@, q@)),
        decreases persons@.len() - k,
    {
        if m[k] && text_eq(persons[k].id.as_str(), id) {
            assert(name_matches(persons@[k as int].name@, q@));
            return true;
        }
        k = k + 1;
    }
    false
}

fn type_selected(active: &Vec<RelationType>, t: RelationType) -> (r: bool)
    ensures
        r == active@.contains(t),
{
    let mut i: usize = 0;
    while i < active.len()
        invariant
            i <= active@.len(),
            forall|j: int| 0 <= j < i ==> active@[j] != t,
        decreases active@.len() - i,
    {
        if active[i] == t {
            return true;
        }
        i = i + 1;
    }
    false
}

fn shown_relationships(
    persons: &Vec<PersonCard>,
    m: &Vec<bool>,
    q: &str,
    rels: &Vec<Relationship>,
    active: &Vec<RelationType>,
) -> (vis: Vec<Relationship>)
    requires
        m@.len() == persons@.len(),
        forall|k: int| 0 <= k < m@.len() ==> m@[k] == name_matches(persons@[k].name@, q@),
    ensures
        vis@ == shown_rels(persons@, rels@, active@, q@),
{
    let ghost pred = shown_pred(persons@, active@, q@);
    let mut vis: Vec<Relationship> = Vec::new();
    let mut i: usize = 0;
    assert(rels@.subrange(0, 0).filter(pred) =~= Seq::<Relationship>::empty()) by {
        reveal(Seq::filter);
    }
    while i < rels.len()
        invariant
            i <= rels@.len(),
            m@.len() == persons@.len(),
            forall|k: int| 0 <= k < m@.len() ==> m@[k] == name_matches(persons@[k].name@, q@),
            pred == shown_pred(persons@, active@, q@),
            vis@ == rels@.subrange(0, i as int).filter(pred),
        decreases rels@.len() - i,
    {
        let r = &rels[i];
        let shown = type_selected(active, r.rtype) && (q.is_empty() || is_matched_id(
            persons,
            m,
            q,
            r.source_id.as_str(),
        ) || is_matched_id(persons, m, q, r.target_id.as_str()));
        proof {
            let next = rels@.subrange(0, i + 1);
            assert(next.drop_last() =~= rels@.subrange(0, i as int));
            assert(next.last() == rels@[i as int]);
            assert(shown == pred(rels@[i as int]));
            reveal(Seq::filter);
        }
        if shown {
            vis.push(copy_rel(r));
        }
        i = i + 1;
    }
    assert(rels@.subrange(0, i as int) =~= rels@);
    vis
}

fn has_end_exec(vis: &Vec<Relationship>, id: &str) -> (r: bool)
    ensures
        r == has_end(vis@, id@),
{
    let mut i: usize = 0;
    while i < vis.len()
        invariant
            i <= vis@.len(),
            forall|j: int|
                0 <= j < i ==> !((#[trigger] vis@[j]).source_id@ == id@ || vis@[j].target_id@ == id@),
        decreases vis@.len() - i,
    {
        if text_eq(vis[i].source_id.as_str(), id) || text_eq(vis[i].target_id.as_str(), id) {
            return true;
        }
        i = i + 1;
    }
    false
}

fn rel_key(r: &Relationship) -> (k: (String, String))
    ensures
        (k.0@, k.1@) == pair_key(*r),
{
    if text_lt(r.source_id.as_str(), r.target_id.as_str()) {
        (r.source_id.clone(), r.target_id.clone())
    } else {
        (r.target_id.clone(), r.source_id.clone())
    }
}

/// The views of a list of pairs of ids.
pub open spec fn key_views(keys: Seq<(String, String)>) -> Seq<(Seq<char>, Seq<char>)> {
    keys.map_values(|k: (String, String)| (k.0@, k.1@))
}

fn distinct_keys(vis: &Vec<Relationship>) -> (keys: Vec<(String, String)>)
    ensures
        key_views(keys@) == pair_keys(vis@),
{
    let mut keys: Vec<(String, String)> = Vec::new();
    let mut i: usize = 0;
    assert(vis@.subrange(0, 0) =~= Seq::<Relationship>::empty());
    assert(key_views(keys@) =~= pair_keys(vis@.subrange(0, 0)));
    while i < vis.len()
        invariant
            i <= vis@.len(),
            key_views(keys@) == pair_keys(vis@.subrange(0, i as int)),
        decreases vis@.len() - i,
    {
        let k = rel_key(&vis[i]);
        let mut j: usize = 0;
        while j < keys.len() && !(text_eq(keys[j].0.as_str(), k.0.as_str()) && text_eq(
            keys[j].1.as_str(),
            k.1.as_str(),
        ))
            invariant
                j <= keys@.len(),
                forall|x: int| 0 <= x < j ==> key_views(keys@)[x] != (k.0@, k.1@),
            decreases keys@.len() - j,
        {
            j = j + 1;
        }
        let found = j < keys.len();
        proof {
            let next = vis@.subrange(0, i + 1);
            assert(next.drop_last() =~= vis@.subrange(0, i as int));
            assert(next.last() == vis@[i as int]);
            if found {
                assert(key_views(keys@)[j as int] == (k.0@, k.1@));
            } else {
                assert(!key_views(keys@).contains((k.0@, k.1@)));
            }
        }
        if !found {
            let ghost before = keys@;
            keys.push(k);
            assert(key_views(keys@) =~= key_views(before).push((k.0@, k.1@)));
        }
        i = i + 1;
    }
    assert(vis@.subrange(0, i as int) =~= vis@);
    keys
}

fn links_with_exec(vis: &Vec<Relationship>, key: &(String, String), t: RelationType) -> (r: bool)
    ensures
        r == links_with(vis@, (key.0@, key.1@))(t),
{
    let mut i: usize = 0;
    while i < vis.len()
        invariant
            i <= vis@.len(),
            forall|j: int|
                0 <= j < i ==> !(#[trigger] pair_key(vis@[j]) == (key.0@, key.1@) && vis@[j].rtype
                    == t),
        decreases vis@.len() - i,
    {
        let k = rel_key(&vis[i]);
        if vis[i].rtype == t && text_eq(k.0.as_str(), key.0.as_str()) && text_eq(
            k.1.as_str(),
            key.1.as_str(),
        ) {
            return true;
        }
        i = i + 1;
    }
    false
}

fn types_of(vis: &Vec<Relationship>, key: &(String, String)) -> (ts: Vec<RelationType>)
    ensures
        ts@ == pair_types(vis@, (key.0@, key.1@)),
{
    let ghost pred = links_with(vis@, (key.0@, key.1@));
    let ghost all = ALL_RELATION_TYPES@;
    let mut ts: Vec<RelationType> = Vec::new();
    let mut i: usize = 0;
    assert(all.subrange(0, 0).filter(pred) =~= Seq::<RelationType>::empty()) by {
        reveal(Seq::filter);
    }
    while i < 8
        invariant
            i <= 8,
            all == ALL_RELATION_TYPES@,
            all.len() == 8,
            pred == links_with(vis@, (key.0@, key.1@)),
            ts@ == all.subrange(0, i as int).filter(pred),
        decreases 8 - i,
    {
        let t = ALL_RELATION_TYPES[i];
        let has = links_with_exec(vis, key, t);
        proof {
            let next = all.subrange(0, i + 1);
            assert(next.drop_last() =~= all.subrange(0, i as int));
            assert(next.last() == t);
            reveal(Seq::filter);
        }
        if has {
            ts.push(t);
        }
        i = i + 1;
    }
    assert(all.subrange(0, 8) =~= all);
    ts
}

/// What the relationship map draws for a search text and the selected
/// relation types: the drawn people in order (with whether the search,
/// ignoring case, finds them), and for each pair of people linked by a
/// drawn relationship, in order of first appearance, the types linking
/// them in display order.
pub fn chord_view(
    persons: &Vec<PersonCard>,
    rels: &Vec<Relationship>,
    search: &str,
    active: &Vec<RelationType>,
) -> (r: ChordView)
    ensures
        r.nodes@ == node_list(persons@, rels@, active@, lowercase(search@), persons@.len() as int),
        r.pairs@.len() == pair_keys(shown_rels(persons@, rels@, active@, lowercase(search@))).len(),
        forall|k: int|
            0 <= k < r.pairs@.len() ==> {
                let shown = shown_rels(persons@, rels@, active@, lowercase(search@));
                &&& ((#[trigger] r.pairs@[k]).a@, r.pairs@[k].b@) == pair_keys(shown)[k]
                &&& r.pairs@[k].types@ == pair_types(shown, pair_keys(shown)[k])
            },
{
    let q = to_lowercase_text(search);
    let m = name_flags(persons, q.as_str());
    let vis = shown_relationships(persons, &m, q.as_str(), rels, active);
    let mut nodes: Vec<ChordNode> = Vec::new();
    let mut k: usize = 0;
    while k < persons.len()
        invariant
            k <= persons@.len(),
            m@.len() == persons@.len(),
            forall|j: int| 0 <= j < m@.len() ==> m@[j] == name_matches(persons@[j].name@, q@),
            vis@ == shown_rels(persons@, rels@, active@, q@),
            nodes@ == node_list(persons@, rels@, active@, q@, k as int),
        decreases persons@.len() - k,
    {
        let id = persons[k].id.as_str();
        let matched = is_matched_id(persons, &m, q.as_str(), id);
        let shown = q.as_str().is_empty() || matched || has_end_exec(&vis, id);
        if shown {
            nodes.push(ChordNode { index: k, matched });
        }
        k = k + 1;
    }
    let keys = distinct_keys(&vis);
    let mut pairs: Vec<ChordPair> = Vec::new();
    let mut i: usize = 0;
    while i < keys.len()
        invariant
            i <= keys@.len(),
            key_views(keys@) == pair_keys(vis@),
            pairs@.len() == i,
            forall|x: int|
                0 <= x < i ==> ((#[trigger] pairs@[x]).a@, pairs@[x].b@) == pair_keys(vis@)[x]
                    && pairs@[x].types@ == pair_types(vis@, pair_keys(vis@)[x]),
            vis@ == shown_rels(persons@, rels@, active@, q@),
            q@ == lowercase(search@),
        decreases keys@.len() - i,
    {
        let key = &keys[i];
        let types = types_of(&vis, key);
        assert(key_views(keys@)[i as int] == (key.0@, key.1@));
        let pair = ChordPair { a: key.0.clone(), b: key.1.clone(), types };
        let ghost before = pairs@;
        pairs.push(pair);
        assert(pairs@[i as int] == pair);
        assert forall|x: int| 0 <= x < i implies #[trigger] pairs@[x] == before[x] by {}
        i = i + 1;
    }
    ChordView { nodes, pairs }
}

} // verus!

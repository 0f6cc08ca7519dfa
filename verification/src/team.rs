use vstd::prelude::*;
use crate::text::{decimal, push_decimal_u64, replace_text, replaced, text_eq, trim_text, trimmed};

verus! {

/// A named group of people.
pub struct Team {
    pub id: String,
    pub name: String,
    pub icon: String,
    pub member_ids: Vec<String>,
    pub created_at: i64,
}

/// The icon shown for a team: its own, or 🎯 when it has none.
pub fn team_icon(t: &Team) -> (r: String)
    ensures
        r@ == (if t.icon@.len() == 0 {
            "🎯"@
        } else {
            t.icon@
        }),
{
    if t.icon.as_str().is_empty() {
        String::from_str("🎯")
    } else {
        t.icon.clone()
    }
}

/// The decimal notation of a count.
pub open spec fn count_text(n: nat) -> Seq<char> {
    decimal(n)
}

/// A localised count label: `template` with every "{0}" replaced by `count`.
pub fn count_label(template: &str, count: usize) -> (r: String)
    ensures
        r@ == replaced(template@, "{0}"@, decimal(count as nat)),
{
    let mut n = String::new();
    push_decimal_u64(&mut n, count as u64);
    assert(n@ =~= decimal(count as nat));
    proof {
        reveal_strlit("{0}");
    }
    replace_text(template, "{0}", n.as_str())
}


/// The icon shown for a team that may not exist: its own icon, or 🎯 when
/// it has none or there is no such team.
pub fn display_icon(t: Option<&Team>) -> (r: String)
    ensures
        r@ == (match t {
            Some(team) => if team.icon@.len() == 0 {
                "🎯"@
            } else {
                team.icon@
            },
            None => "🎯"@,
        }),
{
    match t {
        Some(team) => team_icon(team),
        None => String::from_str("🎯"),
    }
}

/// The ids, by their views.
pub open spec fn id_views(ids: Seq<String>) -> Seq<Seq<char>> {
    ids.map_values(|x: String| x@)
}

/// Whether `pid` is among the member ids.
pub fn is_member(member_ids: &Vec<String>, pid: &str) -> (r: bool)
    ensures
        r == id_views(member_ids@).contains(pid@),
{
    let mut i: usize = 0;
    while i < member_ids.len()
        invariant
            i <= member_ids@.len(),
            forall|k: int| 0 <= k < i ==> member_ids@[k]@ != pid@,
        decreases member_ids@.len() - i,
    {
        if text_eq(member_ids[i].as_str(), pid) {
            assert(id_views(member_ids@)[i as int] == pid@);
            return true;
        }
        i = i + 1;
    }
    proof {
        if id_views(member_ids@).contains(pid@) {
            let k = choose|k: int| 0 <= k < id_views(member_ids@).len() && id_views(member_ids@)[k] == pid@;
            assert(member_ids@[k]@ == pid@);
        }
    }
    false
}

/// The ids other than `pid`, in order.
pub open spec fn without(ids: Seq<Seq<char>>, pid: Seq<char>) -> Seq<Seq<char>>
    decreases ids.len(),
{
    if ids.len() == 0 {
        Seq::empty()
    } else {
        let prev = without(ids.drop_last(), pid);
        if ids.last() == pid {
            prev
        } else {
            prev.push(ids.last())
        }
    }
}

/// After unticking, the person is no longer a member, and every other
/// member stays.
pub proof fn lemma_without_removes(ids: Seq<Seq<char>>, pid: Seq<char>)
    ensures
        !without(ids, pid).contains(pid),
        forall|x: Seq<char>| x != pid && ids.contains(x) ==> without(ids, pid).contains(x),
    decreases ids.len(),
{
    if ids.len() > 0 {
        let prev = ids.drop_last();
        lemma_without_removes(prev, pid);
        assert forall|x: Seq<char>| x != pid && ids.contains(x) implies without(ids, pid).contains(
            x,
        ) by {
            let k = choose|k: int| 0 <= k < ids.len() && ids[k] == x;
            if k < ids.len() - 1 {
                assert(prev[k] == x);
                assert(prev.contains(x));
                let w = without(prev, pid);
                assert(w.contains(x));
                let j = choose|j: int| 0 <= j < w.len() && w[j] == x;
                if ids.last() != pid {
                    assert(without(ids, pid)[j] == x);
                }
            } else {
                let w = without(prev, pid);
                assert(without(ids, pid)[w.len() as int] == x);
            }
        }
        if ids.last() != pid {
            let w = without(prev, pid);
            assert forall|j: int| 0 <= j < without(ids, pid).len() implies without(ids, pid)[j]
                != pid by {
                if j < w.len() {
                    assert(without(ids, pid)[j] == w[j]);
                }
            }
        }
    }
}

/// Ticks or unticks a person as a team member: ticking appends the id
/// unless it is already there; unticking removes every occurrence.
pub fn set_membership(member_ids: &mut Vec<String>, pid: &str, checked: bool)
    ensures
        checked && id_views(old(member_ids)@).contains(pid@) ==> id_views(final(member_ids)@)
            == id_views(old(member_ids)@),
        checked && !id_views(old(member_ids)@).contains(pid@) ==> id_views(final(member_ids)@)
            == id_views(old(member_ids)@).push(pid@),
        !checked ==> id_views(final(member_ids)@) == without(id_views(old(member_ids)@), pid@),
{
    if checked {
        if !is_member(member_ids, pid) {
            let ghost before = member_ids@;
            member_ids.push(pid.to_owned());
            assert(id_views(member_ids@) =~= id_views(before).push(pid@));
        }
    } else {
        let mut rest: Vec<String> = Vec::new();
        std::mem::swap(&mut rest, member_ids);
        let ghost all = id_views(rest@);
        let ghost all_ids = rest@;
        let total = rest.len();
        let mut i: usize = 0;
        assert(all.subrange(0, 0) =~= Seq::<Seq<char>>::empty());
        assert(id_views(member_ids@) =~= without(all.subrange(0, 0), pid@));
        while rest.len() > 0
            invariant
                i + rest@.len() == all.len(),
                all.len() == total,
                all == id_views(all_ids),
                rest@ == all_ids.subrange(i as int, all_ids.len() as int),
                id_views(member_ids@) == without(all.subrange(0, i as int), pid@),
            decreases rest@.len(),
        {
            let id = rest.remove(0);
            let ghost before = all.subrange(0, i as int);
            let ghost after = all.subrange(0, i + 1);
            assert(after.drop_last() =~= before);
            assert(after.last() == id@);
            let ghost kept = member_ids@;
            if !text_eq(id.as_str(), pid) {
                member_ids.push(id);
                assert(id_views(member_ids@) =~= id_views(kept).push(after.last()));
            }
            i = i + 1;
        }
        assert(all.subrange(0, i as int) =~= all);
    }
}

/// The positions, among the first `n` people (by id), of the members of a
/// team: everyone for the team of all people, otherwise those whose id is
/// among the member ids.
pub open spec fn member_list(ids: Seq<Seq<char>>, members: Seq<Seq<char>>, all: bool, n: int) -> Seq<
    usize,
>
    decreases n,
{
    if n <= 0 {
        Seq::empty()
    } else {
        let prev = member_list(ids, members, all, n - 1);
        if all || members.contains(ids[n - 1]) {
            prev.push((n - 1) as usize)
        } else {
            prev
        }
    }
}

/// The people shown on a team page, by their positions in `person_ids`.
pub fn team_member_positions(person_ids: &Vec<String>, member_ids: &Vec<String>, all: bool) -> (r:
    Vec<usize>)
    ensures
        r@ == member_list(id_views(person_ids@), id_views(member_ids@), all, person_ids@.len() as int),
{
    let mut out: Vec<usize> = Vec::new();
    let mut k: usize = 0;
    while k < person_ids.len()
        invariant
            k <= person_ids@.len(),
            out@ == member_list(id_views(person_ids@), id_views(member_ids@), all, k as int),
        decreases person_ids@.len() - k,
    {
        if all || is_member(member_ids, person_ids[k].as_str()) {
            out.push(k);
        }
        k = k + 1;
    }
    out
}

/// The title of a team page: `all_label` for the team of all people,
/// otherwise the team's name, or `fallback` when there is no such team.
pub fn team_title(all: bool, all_label: &str, team_name: Option<&str>, fallback: &str) -> (r: String)
    ensures
        r@ == (if all {
            all_label@
        } else {
            match team_name {
                Some(n) => n@,
                None => fallback@,
            }
        }),
{
    if all {
        all_label.to_owned()
    } else {
        match team_name {
            Some(n) => n.to_owned(),
            None => fallback.to_owned(),
        }
    }
}

/// The name a new team is saved under: the typed name trimmed of white
/// space; `None` (nothing saved) when that leaves it empty.
pub fn new_team_name(typed: &str) -> (r: Option<String>)
    ensures
        trimmed(typed@).len() == 0 <==> r is None,
        r matches Some(n) ==> n@ == trimmed(typed@),
{
    let name = trim_text(typed);
    if name.as_str().is_empty() {
        None
    } else {
        Some(name)
    }
}

} // verus!

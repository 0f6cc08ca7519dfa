use vstd::prelude::*;
use crate::model::{FacetKind, OceanScores, RepScores};
use crate::person::{
    mask_of, mask_spec, opt_seq, or_five, put_slot, replicate_mask, replicate_vec, take_slot,
    with_slot, BehavioralPattern, Bias, MaskView, Motivation, Person, PersonView, PersonalStyle,
    Value,
};
use crate::person_edit::{apply_list_op, op_applicable, op_applied, ListOp};

verus! {

/// The items of an optional list bucket; an undefined bucket reads as empty.
pub open spec fn bucket_list<T>(b: Option<Seq<T>>) -> Seq<T> {
    match b {
        Some(s) => s,
        None => Seq::empty(),
    }
}

fn apply_to_bucket<T>(b: &mut Option<Vec<T>>, op: ListOp<T>)
    requires
        op_applicable(bucket_list(opt_seq(*old(b))).len(), op),
    ensures
        opt_seq(*final(b)) == Some(op_applied(bucket_list(opt_seq(*old(b))), op)),
{
    match b {
        Some(v) => apply_list_op(v, op),
        None => {
            let mut v: Vec<T> = Vec::new();
            apply_list_op(&mut v, op);
            *b = Some(v);
        },
    }
}

/// The OCEAN scores shown in arena `facet`: the persona's override when it has
/// one, otherwise the base profile's.
pub open spec fn ocean_in(p: PersonView, facet: FacetKind) -> OceanScores {
    match mask_spec(p, facet) {
        Some(m) => match m.ocean {
            Some(v) => v,
            None => p.ocean,
        },
        None => p.ocean,
    }
}

/// The OCEAN scores shown in arena `facet`.
pub fn ocean_for(p: &Person, facet: FacetKind) -> (r: OceanScores)
    ensures
        r == ocean_in(p@, facet),
{
    match mask_of(p, facet) {
        Some(m) => match m.ocean {
            Some(v) => v,
            None => p.ocean,
        },
        None => p.ocean,
    }
}

/// The person after the OCEAN scores shown in arena `facet` is set to `v`: an
/// arena with a persona gets the override, otherwise the base profile
/// changes.
pub open spec fn ocean_written(p: PersonView, facet: FacetKind, v: OceanScores) -> PersonView {
    match mask_spec(p, facet) {
        Some(m) => with_slot(p, facet, Some(MaskView { ocean: Some(v), ..m })),
        None => PersonView { ocean: v, ..p },
    }
}

/// Sets the OCEAN scores shown in arena `facet`.
pub fn write_ocean(p: &mut Person, facet: FacetKind, v: OceanScores)
    ensures
        final(p)@ == ocean_written(old(p)@, facet, v),
{
    if facet != p.primary_facet {
        match take_slot(p, facet) {
            Some(mut m) => {
                m.ocean = Some(v);
                put_slot(p, facet, Some(m));
            },
            None => {
                put_slot(p, facet, None);
                p.ocean = v;
            },
        }
    } else {
        p.ocean = v;
    }
}

/// The reputation scores shown in arena `facet`: the persona's override when it has
/// one, otherwise the base profile's.
pub open spec fn reputation_in(p: PersonView, facet: FacetKind) -> RepScores {
    match mask_spec(p, facet) {
        Some(m) => match m.rep_scores {
            Some(v) => v,
            None => p.rep_scores,
        },
        None => p.rep_scores,
    }
}

/// The reputation scores shown in arena `facet`.
pub fn reputation_for(p: &Person, facet: FacetKind) -> (r: RepScores)
    ensures
        r == reputation_in(p@, facet),
{
    match mask_of(p, facet) {
        Some(m) => match m.rep_scores {
            Some(v) => v,
            None => p.rep_scores,
        },
        None => p.rep_scores,
    }
}

/// The person after the reputation scores shown in arena `facet` is set to `v`: an
/// arena with a persona gets the override, otherwise the base profile
/// changes.
pub open spec fn reputation_written(p: PersonView, facet: FacetKind, v: RepScores) -> PersonView {
    match mask_spec(p, facet) {
        Some(m) => with_slot(p, facet, Some(MaskView { rep_scores: Some(v), ..m })),
        None => PersonView { rep_scores: v, ..p },
    }
}

/// Sets the reputation scores shown in arena `facet`.
pub fn write_reputation(p: &mut Person, facet: FacetKind, v: RepScores)
    ensures
        final(p)@ == reputation_written(old(p)@, facet, v),
{
    if facet != p.primary_facet {
        match take_slot(p, facet) {
            Some(mut m) => {
                m.rep_scores = Some(v);
                put_slot(p, facet, Some(m));
            },
            None => {
                put_slot(p, facet, None);
                p.rep_scores = v;
            },
        }
    } else {
        p.rep_scores = v;
    }
}

/// The resilience shown in arena `facet`: the persona's override, else the
/// base profile's value, else 5.
pub open spec fn resilience_in(p: PersonView, facet: FacetKind) -> u8 {
    match mask_spec(p, facet) {
        Some(m) => match m.resilience {
            Some(v) => v,
            None => or_five(p.resilience),
        },
        None => or_five(p.resilience),
    }
}

/// The resilience shown in arena `facet`.
pub fn resilience_for(p: &Person, facet: FacetKind) -> (r: u8)
    ensures
        r == resilience_in(p@, facet),
{
    let base = match p.resilience {
        Some(v) => v,
        None => 5,
    };
    match mask_of(p, facet) {
        Some(m) => match m.resilience {
            Some(v) => v,
            None => base,
        },
        None => base,
    }
}

/// The person after the resilience shown in arena `facet` is set to `v`.
pub open spec fn resilience_written(p: PersonView, facet: FacetKind, v: u8) -> PersonView {
    match mask_spec(p, facet) {
        Some(m) => with_slot(p, facet, Some(MaskView { resilience: Some(v), ..m })),
        None => PersonView { resilience: Some(v), ..p },
    }
}

/// Sets the resilience shown in arena `facet`.
pub fn write_resilience(p: &mut Person, facet: FacetKind, v: u8)
    ensures
        final(p)@ == resilience_written(old(p)@, facet, v),
{
    if facet != p.primary_facet {
        match take_slot(p, facet) {
            Some(mut m) => {
                m.resilience = Some(v);
                put_slot(p, facet, Some(m));
            },
            None => {
                put_slot(p, facet, None);
                p.resilience = Some(v);
            },
        }
    } else {
        p.resilience = Some(v);
    }
}

/// The risk appetite shown in arena `facet`: the persona's override, else the
/// base profile's value, else 5.
pub open spec fn risk_appetite_in(p: PersonView, facet: FacetKind) -> u8 {
    match mask_spec(p, facet) {
        Some(m) => match m.risk_appetite {
            Some(v) => v,
            None => or_five(p.risk_appetite),
        },
        None => or_five(p.risk_appetite),
    }
}

/// The risk appetite shown in arena `facet`.
pub fn risk_appetite_for(p: &Person, facet: FacetKind) -> (r: u8)
    ensures
        r == risk_appetite_in(p@, facet),
{
    let base = match p.risk_appetite {
        Some(v) => v,
        None => 5,
    };
    match mask_of(p, facet) {
        Some(m) => match m.risk_appetite {
            Some(v) => v,
            None => base,
        },
        None => base,
    }
}

/// The person after the risk appetite shown in arena `facet` is set to `v`.
pub open spec fn risk_appetite_written(p: PersonView, facet: FacetKind, v: u8) -> PersonView {
    match mask_spec(p, facet) {
        Some(m) => with_slot(p, facet, Some(MaskView { risk_appetite: Some(v), ..m })),
        None => PersonView { risk_appetite: Some(v), ..p },
    }
}

/// Sets the risk appetite shown in arena `facet`.
pub fn write_risk_appetite(p: &mut Person, facet: FacetKind, v: u8)
    ensures
        final(p)@ == risk_appetite_written(old(p)@, facet, v),
{
    if facet != p.primary_facet {
        match take_slot(p, facet) {
            Some(mut m) => {
                m.risk_appetite = Some(v);
                put_slot(p, facet, Some(m));
            },
            None => {
                put_slot(p, facet, None);
                p.risk_appetite = Some(v);
            },
        }
    } else {
        p.risk_appetite = Some(v);
    }
}

/// The motivations shown in arena `facet`: the persona's list when it
/// overrides them, otherwise the base profile's.
pub open spec fn motivations_in(p: PersonView, facet: FacetKind) -> Seq<Motivation> {
    match mask_spec(p, facet) {
        Some(m) => match m.motivations {
            Some(s) => s,
            None => p.motivations,
        },
        None => p.motivations,
    }
}

/// The motivations shown in arena `facet`.
pub fn shown_motivations(p: &Person, facet: FacetKind) -> (r: Vec<Motivation>)
    ensures
        r@ == motivations_in(p@, facet),
{
    match mask_of(p, facet) {
        Some(m) => match &m.motivations {
            Some(v) => replicate_vec(v),
            None => replicate_vec(&p.motivations),
        },
        None => replicate_vec(&p.motivations),
    }
}

/// The list an edit of the motivations in arena `facet` applies to: the
/// persona's bucket (empty until its first edit) when the arena has a
/// persona, otherwise the base profile's list.
pub open spec fn motivations_target(p: PersonView, facet: FacetKind) -> Seq<Motivation> {
    match mask_spec(p, facet) {
        Some(m) => bucket_list(m.motivations),
        None => p.motivations,
    }
}

/// The person after an edit of the motivations in arena `facet`.
pub open spec fn motivations_edited(p: PersonView, facet: FacetKind, op: ListOp<Motivation>) -> PersonView {
    match mask_spec(p, facet) {
        Some(m) => with_slot(
            p,
            facet,
            Some(MaskView { motivations: Some(op_applied(bucket_list(m.motivations), op)), ..m }),
        ),
        None => PersonView { motivations: op_applied(p.motivations, op), ..p },
    }
}

/// Applies an edit to the motivations in arena `facet`, writing through to the
/// persona's bucket when the arena has a persona.
pub fn edit_motivations(p: &mut Person, facet: FacetKind, op: ListOp<Motivation>)
    requires
        op_applicable(motivations_target(old(p)@, facet).len(), op),
    ensures
        final(p)@ == motivations_edited(old(p)@, facet, op),
{
    if facet != p.primary_facet {
        match take_slot(p, facet) {
            Some(mut m) => {
                apply_to_bucket(&mut m.motivations, op);
                put_slot(p, facet, Some(m));
            },
            None => {
                put_slot(p, facet, None);
                apply_list_op(&mut p.motivations, op);
            },
        }
    } else {
        apply_list_op(&mut p.motivations, op);
    }
}

/// The biases shown in arena `facet`: the persona's list when it
/// overrides them, otherwise the base profile's.
pub open spec fn biases_in(p: PersonView, facet: FacetKind) -> Seq<Bias> {
    match mask_spec(p, facet) {
        Some(m) => match m.biases {
            Some(s) => s,
            None => p.biases,
        },
        None => p.biases,
    }
}

/// The biases shown in arena `facet`.
pub fn shown_biases(p: &Person, facet: FacetKind) -> (r: Vec<Bias>)
    ensures
        r@ == biases_in(p@, facet),
{
    match mask_of(p, facet) {
        Some(m) => match &m.biases {
            Some(v) => replicate_vec(v),
            None => replicate_vec(&p.biases),
        },
        None => replicate_vec(&p.biases),
    }
}

/// The list an edit of the biases in arena `facet` applies to: the
/// persona's bucket (empty until its first edit) when the arena has a
/// persona, otherwise the base profile's list.
pub open spec fn biases_target(p: PersonView, facet: FacetKind) -> Seq<Bias> {
    match mask_spec(p, facet) {
        Some(m) => bucket_list(m.biases),
        None => p.biases,
    }
}

/// The person after an edit of the biases in arena `facet`.
pub open spec fn biases_edited(p: PersonView, facet: FacetKind, op: ListOp<Bias>) -> PersonView {
    match mask_spec(p, facet) {
        Some(m) => with_slot(
            p,
            facet,
            Some(MaskView { biases: Some(op_applied(bucket_list(m.biases), op)), ..m }),
        ),
        None => PersonView { biases: op_applied(p.biases, op), ..p },
    }
}

/// Applies an edit to the biases in arena `facet`, writing through to the
/// persona's bucket when the arena has a persona.
pub fn edit_biases(p: &mut Person, facet: FacetKind, op: ListOp<Bias>)
    requires
        op_applicable(biases_target(old(p)@, facet).len(), op),
    ensures
        final(p)@ == biases_edited(old(p)@, facet, op),
{
    if facet != p.primary_facet {
        match take_slot(p, facet) {
            Some(mut m) => {
                apply_to_bucket(&mut m.biases, op);
                put_slot(p, facet, Some(m));
            },
            None => {
                put_slot(p, facet, None);
                apply_list_op(&mut p.biases, op);
            },
        }
    } else {
        apply_list_op(&mut p.biases, op);
    }
}

/// The behavioural patterns shown in arena `facet`: the persona's list when it
/// overrides them, otherwise the base profile's.
pub open spec fn patterns_in(p: PersonView, facet: FacetKind) -> Seq<BehavioralPattern> {
    match mask_spec(p, facet) {
        Some(m) => match m.behavioral_patterns {
            Some(s) => s,
            None => p.behavioral_patterns,
        },
        None => p.behavioral_patterns,
    }
}

/// The behavioural patterns shown in arena `facet`.
pub fn shown_patterns(p: &Person, facet: FacetKind) -> (r: Vec<BehavioralPattern>)
    ensures
        r@ == patterns_in(p@, facet),
{
    match mask_of(p, facet) {
        Some(m) => match &m.behavioral_patterns {
            Some(v) => replicate_vec(v),
            None => replicate_vec(&p.behavioral_patterns),
        },
        None => replicate_vec(&p.behavioral_patterns),
    }
}

/// The list an edit of the behavioural patterns in arena `facet` applies to: the
/// persona's bucket (empty until its first edit) when the arena has a
/// persona, otherwise the base profile's list.
pub open spec fn patterns_target(p: PersonView, facet: FacetKind) -> Seq<BehavioralPattern> {
    match mask_spec(p, facet) {
        Some(m) => bucket_list(m.behavioral_patterns),
        None => p.behavioral_patterns,
    }
}

/// The person after an edit of the behavioural patterns in arena `facet`.
pub open spec fn patterns_edited(p: PersonView, facet: FacetKind, op: ListOp<BehavioralPattern>) -> PersonView {
    match mask_spec(p, facet) {
        Some(m) => with_slot(
            p,
            facet,
            Some(MaskView { behavioral_patterns: Some(op_applied(bucket_list(m.behavioral_patterns), op)), ..m }),
        ),
        None => PersonView { behavioral_patterns: op_applied(p.behavioral_patterns, op), ..p },
    }
}

/// Applies an edit to the behavioural patterns in arena `facet`, writing through to the
/// persona's bucket when the arena has a persona.
pub fn edit_patterns(p: &mut Person, facet: FacetKind, op: ListOp<BehavioralPattern>)
    requires
        op_applicable(patterns_target(old(p)@, facet).len(), op),
    ensures
        final(p)@ == patterns_edited(old(p)@, facet, op),
{
    if facet != p.primary_facet {
        match take_slot(p, facet) {
            Some(mut m) => {
                apply_to_bucket(&mut m.behavioral_patterns, op);
                put_slot(p, facet, Some(m));
            },
            None => {
                put_slot(p, facet, None);
                apply_list_op(&mut p.behavioral_patterns, op);
            },
        }
    } else {
        apply_list_op(&mut p.behavioral_patterns, op);
    }
}

/// The personal styles shown in arena `facet`: the persona's list when it
/// overrides them, otherwise the base profile's.
pub open spec fn styles_in(p: PersonView, facet: FacetKind) -> Seq<PersonalStyle> {
    match mask_spec(p, facet) {
        Some(m) => match m.styles {
            Some(s) => s,
            None => p.styles,
        },
        None => p.styles,
    }
}

/// The personal styles shown in arena `facet`.
pub fn shown_styles(p: &Person, facet: FacetKind) -> (r: Vec<PersonalStyle>)
    ensures
        r@ == styles_in(p@, facet),
{
    match mask_of(p, facet) {
        Some(m) => match &m.styles {
            Some(v) => replicate_vec(v),
            None => replicate_vec(&p.styles),
        },
        None => replicate_vec(&p.styles),
    }
}

/// The list an edit of the personal styles in arena `facet` applies to: the
/// persona's bucket (empty until its first edit) when the arena has a
/// persona, otherwise the base profile's list.
pub open spec fn styles_target(p: PersonView, facet: FacetKind) -> Seq<PersonalStyle> {
    match mask_spec(p, facet) {
        Some(m) => bucket_list(m.styles),
        None => p.styles,
    }
}

/// The person after an edit of the personal styles in arena `facet`.
pub open spec fn styles_edited(p: PersonView, facet: FacetKind, op: ListOp<PersonalStyle>) -> PersonView {
    match mask_spec(p, facet) {
        Some(m) => with_slot(
            p,
            facet,
            Some(MaskView { styles: Some(op_applied(bucket_list(m.styles), op)), ..m }),
        ),
        None => PersonView { styles: op_applied(p.styles, op), ..p },
    }
}

/// Applies an edit to the personal styles in arena `facet`, writing through to the
/// persona's bucket when the arena has a persona.
pub fn edit_styles(p: &mut Person, facet: FacetKind, op: ListOp<PersonalStyle>)
    requires
        op_applicable(styles_target(old(p)@, facet).len(), op),
    ensures
        final(p)@ == styles_edited(old(p)@, facet, op),
{
    if facet != p.primary_facet {
        match take_slot(p, facet) {
            Some(mut m) => {
                apply_to_bucket(&mut m.styles, op);
                put_slot(p, facet, Some(m));
            },
            None => {
                put_slot(p, facet, None);
                apply_list_op(&mut p.styles, op);
            },
        }
    } else {
        apply_list_op(&mut p.styles, op);
    }
}

/// The values shown in arena `facet`: the persona's list when it
/// overrides them, otherwise the base profile's.
pub open spec fn values_in(p: PersonView, facet: FacetKind) -> Seq<Value> {
    match mask_spec(p, facet) {
        Some(m) => match m.values {
            Some(s) => s,
            None => p.values,
        },
        None => p.values,
    }
}

/// The values shown in arena `facet`.
pub fn shown_values(p: &Person, facet: FacetKind) -> (r: Vec<Value>)
    ensures
        r@ == values_in(p@, facet),
{
    match mask_of(p, facet) {
        Some(m) => match &m.values {
            Some(v) => replicate_vec(v),
            None => replicate_vec(&p.values),
        },
        None => replicate_vec(&p.values),
    }
}

/// The list an edit of the values in arena `facet` applies to: the
/// persona's bucket (empty until its first edit) when the arena has a
/// persona, otherwise the base profile's list.
pub open spec fn values_target(p: PersonView, facet: FacetKind) -> Seq<Value> {
    match mask_spec(p, facet) {
        Some(m) => bucket_list(m.values),
        None => p.values,
    }
}

/// The person after an edit of the values in arena `facet`.
pub open spec fn values_edited(p: PersonView, facet: FacetKind, op: ListOp<Value>) -> PersonView {
    match mask_spec(p, facet) {
        Some(m) => with_slot(
            p,
            facet,
            Some(MaskView { values: Some(op_applied(bucket_list(m.values), op)), ..m }),
        ),
        None => PersonView { values: op_applied(p.values, op), ..p },
    }
}

/// Applies an edit to the values in arena `facet`, writing through to the
/// persona's bucket when the arena has a persona.
pub fn edit_values(p: &mut Person, facet: FacetKind, op: ListOp<Value>)
    requires
        op_applicable(values_target(old(p)@, facet).len(), op),
    ensures
        final(p)@ == values_edited(old(p)@, facet, op),
{
    if facet != p.primary_facet {
        match take_slot(p, facet) {
            Some(mut m) => {
                apply_to_bucket(&mut m.values, op);
                put_slot(p, facet, Some(m));
            },
            None => {
                put_slot(p, facet, None);
                apply_list_op(&mut p.values, op);
            },
        }
    } else {
        apply_list_op(&mut p.values, op);
    }
}

/// A copy of a person.
pub fn copy_person(p: &Person) -> (r: Person)
    ensures
        r@ == p@,
{
    Person {
        id: p.id.clone(),
        primary_facet: p.primary_facet,
        name: p.name.clone(),
        role: p.role.clone(),
        context: p.context.clone(),
        avatar_emoji: p.avatar_emoji.clone(),
        tags: replicate_vec(&p.tags),
        notes: p.notes.clone(),
        motivations: replicate_vec(&p.motivations),
        biases: replicate_vec(&p.biases),
        rep_scores: p.rep_scores,
        behavioral_patterns: replicate_vec(&p.behavioral_patterns),
        styles: replicate_vec(&p.styles),
        values: replicate_vec(&p.values),
        persona: replicate_mask(&p.persona),
        online_persona: replicate_mask(&p.online_persona),
        private_persona: replicate_mask(&p.private_persona),
        ocean: p.ocean,
        resilience: p.resilience,
        risk_appetite: p.risk_appetite,
        log: replicate_vec(&p.log),
        confidence: p.confidence,
        created_at: p.created_at,
        updated_at: p.updated_at,
    }
}

/// The person as seen in arena `facet`: every bucket the arena's persona
/// overrides replaced by the override, and no persona left.
pub open spec fn facet_view(p: PersonView, facet: FacetKind) -> PersonView {
    let resilience = match mask_spec(p, facet) {
        Some(m) => if m.resilience is Some {
            m.resilience
        } else {
            p.resilience
        },
        None => p.resilience,
    };
    let risk = match mask_spec(p, facet) {
        Some(m) => if m.risk_appetite is Some {
            m.risk_appetite
        } else {
            p.risk_appetite
        },
        None => p.risk_appetite,
    };
    PersonView {
        ocean: ocean_in(p, facet),
        rep_scores: reputation_in(p, facet),
        motivations: motivations_in(p, facet),
        biases: biases_in(p, facet),
        behavioral_patterns: patterns_in(p, facet),
        styles: styles_in(p, facet),
        values: values_in(p, facet),
        resilience: resilience,
        risk_appetite: risk,
        persona: None,
        online_persona: None,
        private_persona: None,
        ..p
    }
}

/// The person as seen in arena `facet`, merged into a plain profile.
pub fn facet_person(p: &Person, facet: FacetKind) -> (r: Person)
    ensures
        r@ == facet_view(p@, facet),
{
    let mut r = copy_person(p);
    let (resilience, risk) = match mask_of(p, facet) {
        Some(m) => (
            match m.resilience {
                Some(v) => Some(v),
                None => p.resilience,
            },
            match m.risk_appetite {
                Some(v) => Some(v),
                None => p.risk_appetite,
            },
        ),
        None => (p.resilience, p.risk_appetite),
    };
    r.ocean = ocean_for(p, facet);
    r.rep_scores = reputation_for(p, facet);
    r.motivations = shown_motivations(p, facet);
    r.biases = shown_biases(p, facet);
    r.behavioral_patterns = shown_patterns(p, facet);
    r.styles = shown_styles(p, facet);
    r.values = shown_values(p, facet);
    r.resilience = resilience;
    r.risk_appetite = risk;
    r.persona = None;
    r.online_persona = None;
    r.private_persona = None;
    r
}

/// The profile the people table scores in arena `facet`: the person as
/// stored for the personal arena, the merged work or online profile
/// otherwise.
pub fn list_profile_src(p: &Person, facet: FacetKind) -> (r: Person)
    ensures
        facet == FacetKind::Base ==> r@ == p@,
        facet != FacetKind::Base ==> r@ == facet_view(p@, facet),
{
    match facet {
        FacetKind::Base => copy_person(p),
        _ => facet_person(p, facet),
    }
}

/// What is written in an arena is what that arena then shows, for every
/// scalar field; each list edit shows as the edit applied to the list it
/// targets.
pub proof fn lemma_field_reads_back(
    p: PersonView,
    facet: FacetKind,
    o: OceanScores,
    r: RepScores,
    v: u8,
    mop: ListOp<Motivation>,
    vop: ListOp<Value>,
)
    ensures
        ocean_in(ocean_written(p, facet, o), facet) == o,
        reputation_in(reputation_written(p, facet, r), facet) == r,
        resilience_in(resilience_written(p, facet, v), facet) == v,
        risk_appetite_in(risk_appetite_written(p, facet, v), facet) == v,
        motivations_in(motivations_edited(p, facet, mop), facet) == op_applied(
            motivations_target(p, facet),
            mop,
        ),
        values_in(values_edited(p, facet, vop), facet) == op_applied(values_target(p, facet), vop),
{
}

/// A write in an arena that wears a persona changes what no other arena
/// shows.
pub proof fn lemma_persona_write_stays_in_its_arena(
    p: PersonView,
    facet: FacetKind,
    other: FacetKind,
    o: OceanScores,
    v: u8,
    mop: ListOp<Motivation>,
)
    requires
        mask_spec(p, facet) is Some,
        other != facet,
    ensures
        ocean_in(ocean_written(p, facet, o), other) == ocean_in(p, other),
        resilience_in(resilience_written(p, facet, v), other) == resilience_in(p, other),
        motivations_in(motivations_edited(p, facet, mop), other) == motivations_in(p, other),
{
}

} // verus!

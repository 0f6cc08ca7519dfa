use vstd::prelude::*;
use crate::model::{
    BehaviorTrigger, BiasType, FacetKind, MotivationType, OceanScores, RepScores, ValueType,
};

verus! {

/// A copy that is equal to the original.
pub trait Replicate: Sized {
    fn replicate(&self) -> (r: Self)
        ensures
            r == *self,
    ;
}

/// A motivation with its intensity (1–10).
#[derive(Clone, Debug, PartialEq)]
pub struct Motivation {
    pub kind: MotivationType,
    pub intensity: u8,
    pub notes: String,
}

/// A cognitive bias with its intensity (1–10).
#[derive(Clone, Debug, PartialEq)]
pub struct Bias {
    pub kind: BiasType,
    pub intensity: u8,
    pub evidence: String,
}

/// How a person responds to a trigger; the response is held by its stored
/// name.
#[derive(Clone, Debug, PartialEq)]
pub struct BehavioralPattern {
    pub trigger: BehaviorTrigger,
    pub predicted_behavior: String,
    pub notes: String,
}

/// A personal style held by its stored name, with its intensity (1–10).
#[derive(Clone, Debug, PartialEq)]
pub struct PersonalStyle {
    pub style: String,
    pub intensity: u8,
    pub notes: String,
}

/// A personal value with its intensity and priority.
#[derive(Clone, Debug, PartialEq)]
pub struct Value {
    pub kind: ValueType,
    pub intensity: u8,
    pub priority: u8,
    pub notes: String,
}

/// A dated note in a person's history of interactions.
#[derive(Clone, Debug, PartialEq)]
pub struct InteractionEntry {
    pub id: String,
    /// Milliseconds since the Unix epoch.
    pub timestamp: i64,
    pub text: String,
}

/// A free-form label on a person.
#[derive(Clone, Debug, PartialEq)]
pub struct Tag {
    pub name: String,
    pub color: Option<String>,
}

impl Replicate for Motivation {
    fn replicate(&self) -> (r: Self) {
        Motivation { kind: self.kind, intensity: self.intensity, notes: self.notes.clone() }
    }
}

impl Replicate for Bias {
    fn replicate(&self) -> (r: Self) {
        Bias { kind: self.kind, intensity: self.intensity, evidence: self.evidence.clone() }
    }
}

impl Replicate for BehavioralPattern {
    fn replicate(&self) -> (r: Self) {
        BehavioralPattern {
            trigger: self.trigger,
            predicted_behavior: self.predicted_behavior.clone(),
            notes: self.notes.clone(),
        }
    }
}

impl Replicate for PersonalStyle {
    fn replicate(&self) -> (r: Self) {
        PersonalStyle { style: self.style.clone(), intensity: self.intensity, notes: self.notes.clone() }
    }
}

impl Replicate for Tag {
    fn replicate(&self) -> (r: Self) {
        let color = match &self.color {
            Some(c) => Some(c.clone()),
            None => None,
        };
        Tag { name: self.name.clone(), color }
    }
}

impl Replicate for InteractionEntry {
    fn replicate(&self) -> (r: Self) {
        InteractionEntry { id: self.id.clone(), timestamp: self.timestamp, text: self.text.clone() }
    }
}

impl Replicate for Value {
    fn replicate(&self) -> (r: Self) {
        Value {
            kind: self.kind,
            intensity: self.intensity,
            priority: self.priority,
            notes: self.notes.clone(),
        }
    }
}

/// A copy of a list, element by element.
pub fn replicate_vec<T: Replicate>(v: &Vec<T>) -> (r: Vec<T>)
    ensures
        r@ == v@,
{
    let mut r: Vec<T> = Vec::new();
    let mut i: usize = 0;
    while i < v.len()
        invariant
            i <= v@.len(),
            r@ == v@.subrange(0, i as int),
        decreases v@.len() - i,
    {
        let x = v[i].replicate();
        r.push(x);
        i = i + 1;
        assert(r@ =~= v@.subrange(0, i as int));
    }
    assert(v@.subrange(0, i as int) =~= v@);
    r
}

/// A copy of an optional list.
pub fn replicate_opt_vec<T: Replicate>(v: &Option<Vec<T>>) -> (r: Option<Vec<T>>)
    ensures
        r matches Some(x) ==> v matches Some(y) && x@ == y@,
        r is None <==> v is None,
{
    match v {
        Some(x) => Some(replicate_vec(x)),
        None => None,
    }
}

/// The overrides a person shows in one arena; `None` on a bucket means "the
/// same as the anchor profile".
#[derive(Clone, Debug, PartialEq)]
pub struct PersonaMask {
    pub ocean: Option<OceanScores>,
    pub rep_scores: Option<RepScores>,
    pub motivations: Option<Vec<Motivation>>,
    pub biases: Option<Vec<Bias>>,
    pub behavioral_patterns: Option<Vec<BehavioralPattern>>,
    pub styles: Option<Vec<PersonalStyle>>,
    pub values: Option<Vec<Value>>,
    pub resilience: Option<u8>,
    pub risk_appetite: Option<u8>,
}

impl PersonaMask {
    /// A mask that overrides nothing.
    pub fn inherit_all() -> (r: Self)
        ensures
            r.ocean is None && r.rep_scores is None && r.motivations is None && r.biases is None
                && r.behavioral_patterns is None && r.styles is None && r.values is None
                && r.resilience is None && r.risk_appetite is None,
    {
        PersonaMask {
            ocean: None,
            rep_scores: None,
            motivations: None,
            biases: None,
            behavioral_patterns: None,
            styles: None,
            values: None,
            resilience: None,
            risk_appetite: None,
        }
    }
}

/// An optional list, by its view.
pub open spec fn opt_seq<T>(v: Option<Vec<T>>) -> Option<Seq<T>> {
    match v {
        Some(x) => Some(x@),
        None => None,
    }
}

/// What a persona mask holds, lists taken by their views.
pub struct MaskView {
    pub ocean: Option<OceanScores>,
    pub rep_scores: Option<RepScores>,
    pub motivations: Option<Seq<Motivation>>,
    pub biases: Option<Seq<Bias>>,
    pub behavioral_patterns: Option<Seq<BehavioralPattern>>,
    pub styles: Option<Seq<PersonalStyle>>,
    pub values: Option<Seq<Value>>,
    pub resilience: Option<u8>,
    pub risk_appetite: Option<u8>,
}

impl View for PersonaMask {
    type V = MaskView;

    open spec fn view(&self) -> MaskView {
        MaskView {
            ocean: self.ocean,
            rep_scores: self.rep_scores,
            motivations: opt_seq(self.motivations),
            biases: opt_seq(self.biases),
            behavioral_patterns: opt_seq(self.behavioral_patterns),
            styles: opt_seq(self.styles),
            values: opt_seq(self.values),
            resilience: self.resilience,
            risk_appetite: self.risk_appetite,
        }
    }
}

/// A copy of an optional mask.
pub fn replicate_mask(m: &Option<PersonaMask>) -> (r: Option<PersonaMask>)
    ensures
        opt_mask(r) == opt_mask(*m),
{
    match m {
        Some(x) => Some(
            PersonaMask {
                ocean: x.ocean,
                rep_scores: x.rep_scores,
                motivations: replicate_opt_vec(&x.motivations),
                biases: replicate_opt_vec(&x.biases),
                behavioral_patterns: replicate_opt_vec(&x.behavioral_patterns),
                styles: replicate_opt_vec(&x.styles),
                values: replicate_opt_vec(&x.values),
                resilience: x.resilience,
                risk_appetite: x.risk_appetite,
            },
        ),
        None => None,
    }
}

/// An optional mask, by its view.
pub open spec fn opt_mask(m: Option<PersonaMask>) -> Option<MaskView> {
    match m {
        Some(x) => Some(x@),
        None => None,
    }
}

/// A modelled person: the anchor profile (the arena `primary_facet`) and a
/// persona mask for each other arena.
#[derive(Clone, Debug, PartialEq)]
pub struct Person {
    pub id: String,
    pub primary_facet: FacetKind,
    pub name: String,
    pub role: String,
    pub context: String,
    pub avatar_emoji: String,
    pub tags: Vec<Tag>,
    pub notes: String,
    pub motivations: Vec<Motivation>,
    pub biases: Vec<Bias>,
    pub rep_scores: RepScores,
    pub behavioral_patterns: Vec<BehavioralPattern>,
    pub styles: Vec<PersonalStyle>,
    pub values: Vec<Value>,
    /// The work persona.
    pub persona: Option<PersonaMask>,
    pub online_persona: Option<PersonaMask>,
    /// The private-life persona, worn when the anchor is another arena.
    pub private_persona: Option<PersonaMask>,
    pub ocean: OceanScores,
    pub resilience: Option<u8>,
    pub risk_appetite: Option<u8>,
    pub log: Vec<InteractionEntry>,
    pub confidence: u8,
    pub created_at: i64,
    pub updated_at: i64,
}

/// What a person holds, lists and masks taken by their views.
pub struct PersonView {
    pub id: String,
    pub primary_facet: FacetKind,
    pub name: String,
    pub role: String,
    pub context: String,
    pub avatar_emoji: String,
    pub tags: Seq<Tag>,
    pub notes: String,
    pub motivations: Seq<Motivation>,
    pub biases: Seq<Bias>,
    pub rep_scores: RepScores,
    pub behavioral_patterns: Seq<BehavioralPattern>,
    pub styles: Seq<PersonalStyle>,
    pub values: Seq<Value>,
    pub persona: Option<MaskView>,
    pub online_persona: Option<MaskView>,
    pub private_persona: Option<MaskView>,
    pub ocean: OceanScores,
    pub resilience: Option<u8>,
    pub risk_appetite: Option<u8>,
    pub log: Seq<InteractionEntry>,
    pub confidence: u8,
    pub created_at: i64,
    pub updated_at: i64,
}

impl View for Person {
    type V = PersonView;

    open spec fn view(&self) -> PersonView {
        PersonView {
            id: self.id,
            primary_facet: self.primary_facet,
            name: self.name,
            role: self.role,
            context: self.context,
            avatar_emoji: self.avatar_emoji,
            tags: self.tags@,
            notes: self.notes,
            motivations: self.motivations@,
            biases: self.biases@,
            rep_scores: self.rep_scores,
            behavioral_patterns: self.behavioral_patterns@,
            styles: self.styles@,
            values: self.values@,
            persona: opt_mask(self.persona),
            online_persona: opt_mask(self.online_persona),
            private_persona: opt_mask(self.private_persona),
            ocean: self.ocean,
            resilience: self.resilience,
            risk_appetite: self.risk_appetite,
            log: self.log@,
            confidence: self.confidence,
            created_at: self.created_at,
            updated_at: self.updated_at,
        }
    }
}

/// The mask slot of an arena, regardless of the anchor.
pub open spec fn slot(p: PersonView, f: FacetKind) -> Option<MaskView> {
    match f {
        FacetKind::Base => p.private_persona,
        FacetKind::Work => p.persona,
        FacetKind::Online => p.online_persona,
    }
}

/// `p` with the mask slot of arena `f` set to `m`.
pub open spec fn with_slot(p: PersonView, f: FacetKind, m: Option<MaskView>) -> PersonView {
    match f {
        FacetKind::Base => PersonView { private_persona: m, ..p },
        FacetKind::Work => PersonView { persona: m, ..p },
        FacetKind::Online => PersonView { online_persona: m, ..p },
    }
}

/// The mask a person wears in arena `f`: none in the anchor arena, which is
/// the base profile itself.
pub open spec fn mask_spec(p: PersonView, f: FacetKind) -> Option<MaskView> {
    if f == p.primary_facet {
        None
    } else {
        slot(p, f)
    }
}

/// The mask a person wears in arena `facet`; `None` in the anchor arena.
pub fn mask_of(p: &Person, facet: FacetKind) -> (r: Option<&PersonaMask>)
    ensures
        opt_mask(
            match r {
                Some(m) => Some(*m),
                None => None,
            },
        ) == mask_spec(p@, facet),
{
    if facet == p.primary_facet {
        return None;
    }
    match facet {
        FacetKind::Base => p.private_persona.as_ref(),
        FacetKind::Work => p.persona.as_ref(),
        FacetKind::Online => p.online_persona.as_ref(),
    }
}

pub(crate) fn take_slot(p: &mut Person, facet: FacetKind) -> (r: Option<PersonaMask>)
    ensures
        opt_mask(r) == slot(old(p)@, facet),
        final(p)@ == with_slot(old(p)@, facet, None),
{
    let mut m: Option<PersonaMask> = None;
    match facet {
        FacetKind::Base => std::mem::swap(&mut m, &mut p.private_persona),
        FacetKind::Work => std::mem::swap(&mut m, &mut p.persona),
        FacetKind::Online => std::mem::swap(&mut m, &mut p.online_persona),
    }
    m
}

pub(crate) fn put_slot(p: &mut Person, facet: FacetKind, m: Option<PersonaMask>)
    ensures
        final(p)@ == with_slot(old(p)@, facet, opt_mask(m)),
{
    match facet {
        FacetKind::Base => p.private_persona = m,
        FacetKind::Work => p.persona = m,
        FacetKind::Online => p.online_persona = m,
    }
}

/// Whether the persona of `facet` is enabled, given the per-arena flags; the
/// anchor arena never wears a persona.
pub fn persona_active_for(
    primary: FacetKind,
    base: bool,
    work: bool,
    online: bool,
    facet: FacetKind,
) -> (r: bool)
    ensures
        r == (facet != primary && match facet {
            FacetKind::Base => base,
            FacetKind::Work => work,
            FacetKind::Online => online,
        }),
{
    if facet == primary {
        false
    } else {
        match facet {
            FacetKind::Base => base,
            FacetKind::Work => work,
            FacetKind::Online => online,
        }
    }
}

/// The mask that overrides nothing.
pub open spec fn empty_mask() -> MaskView {
    MaskView {
        ocean: None,
        rep_scores: None,
        motivations: None,
        biases: None,
        behavioral_patterns: None,
        styles: None,
        values: None,
        resilience: None,
        risk_appetite: None,
    }
}

/// Enables or disables the persona of `facet`: enabling creates an empty
/// mask unless one exists, disabling drops the mask; nothing changes for the
/// anchor arena.
pub fn set_persona_state(p: &mut Person, facet: FacetKind, on: bool)
    ensures
        facet == old(p)@.primary_facet ==> final(p)@ == old(p)@,
        facet != old(p)@.primary_facet && !on ==> final(p)@ == with_slot(old(p)@, facet, None),
        facet != old(p)@.primary_facet && on && slot(old(p)@, facet) is Some ==> final(p)@
            == old(p)@,
        facet != old(p)@.primary_facet && on && slot(old(p)@, facet) is None ==> final(p)@
            == with_slot(old(p)@, facet, Some(empty_mask())),
{
    if facet == p.primary_facet {
        return;
    }
    let current = take_slot(p, facet);
    if on {
        match current {
            Some(m) => put_slot(p, facet, Some(m)),
            None => put_slot(p, facet, Some(PersonaMask::inherit_all())),
        }
    } else {
        put_slot(p, facet, None);
    }
}

/// A score, or 5 when unset.
pub open spec fn or_five(v: Option<u8>) -> u8 {
    match v {
        Some(x) => x,
        None => 5,
    }
}

/// The mask that copies the whole base profile, unset scalars becoming 5.
pub open spec fn base_copy(saved: PersonView) -> MaskView {
    MaskView {
        ocean: Some(saved.ocean),
        rep_scores: Some(saved.rep_scores),
        motivations: Some(saved.motivations),
        biases: Some(saved.biases),
        behavioral_patterns: Some(saved.behavioral_patterns),
        styles: Some(saved.styles),
        values: Some(saved.values),
        resilience: Some(or_five(saved.resilience)),
        risk_appetite: Some(or_five(saved.risk_appetite)),
    }
}

/// "Copy from base profile": a mask overriding every bucket with the base
/// profile's value; unset resilience and risk appetite become 5.
pub fn base_copy_mask(saved: &Person) -> (r: PersonaMask)
    ensures
        r@ == base_copy(saved@),
{
    PersonaMask {
        ocean: Some(saved.ocean),
        rep_scores: Some(saved.rep_scores),
        motivations: Some(replicate_vec(&saved.motivations)),
        biases: Some(replicate_vec(&saved.biases)),
        behavioral_patterns: Some(replicate_vec(&saved.behavioral_patterns)),
        styles: Some(replicate_vec(&saved.styles)),
        values: Some(replicate_vec(&saved.values)),
        resilience: Some(
            match saved.resilience {
                Some(v) => v,
                None => 5,
            },
        ),
        risk_appetite: Some(
            match saved.risk_appetite {
                Some(v) => v,
                None => 5,
            },
        ),
    }
}

/// Sets the persona of `facet` to `mask`; nothing changes for the anchor
/// arena.
pub fn set_persona_mask(p: &mut Person, facet: FacetKind, mask: PersonaMask)
    ensures
        facet == old(p)@.primary_facet ==> final(p)@ == old(p)@,
        facet != old(p)@.primary_facet ==> final(p)@ == with_slot(old(p)@, facet, Some(mask@)),
{
    if facet == p.primary_facet {
        return;
    }
    put_slot(p, facet, Some(mask));
}

/// Drops the persona of `facet`; nothing changes for the anchor arena.
pub fn clear_persona_mask(p: &mut Person, facet: FacetKind)
    ensures
        facet == old(p)@.primary_facet ==> final(p)@ == old(p)@,
        facet != old(p)@.primary_facet ==> final(p)@ == with_slot(old(p)@, facet, None),
{
    if facet == p.primary_facet {
        return;
    }
    put_slot(p, facet, None);
}


/// Enabling a persona twice is the same as once; disabling then enabling
/// gives a fresh mask that overrides nothing; the anchor arena never wears a
/// mask.
pub proof fn lemma_persona_state_laws(p: PersonView, facet: FacetKind)
    requires
        facet != p.primary_facet,
    ensures
        slot(with_slot(p, facet, Some(empty_mask())), facet) is Some,
        slot(with_slot(p, facet, None), facet) is None,
        with_slot(with_slot(p, facet, None), facet, Some(empty_mask())) == with_slot(
            p,
            facet,
            Some(empty_mask()),
        ),
        mask_spec(p, p.primary_facet) is None,
        mask_spec(with_slot(p, facet, Some(empty_mask())), facet) == Some(empty_mask()),
{
}

/// Copying the base profile into a persona overrides every bucket.
pub proof fn lemma_base_copy_defines_all(saved: PersonView)
    ensures
        base_copy(saved).ocean is Some && base_copy(saved).rep_scores is Some
            && base_copy(saved).motivations is Some && base_copy(saved).biases is Some
            && base_copy(saved).behavioral_patterns is Some && base_copy(saved).styles is Some
            && base_copy(saved).values is Some && base_copy(saved).resilience is Some
            && base_copy(saved).risk_appetite is Some,
        base_copy(saved).motivations == Some(saved.motivations),
        saved.resilience is Some ==> base_copy(saved).resilience == saved.resilience,
{
}

} // verus!

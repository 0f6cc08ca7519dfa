use vstd::prelude::*;
use crate::model::{BiasType, MotivationType, OceanScores, RepScores};
use crate::person::{Bias, Motivation, PersonalStyle, Value};

verus! {

/// A ready-made profile to start a new person from.
pub struct Archetype {
    pub name: &'static str,
    pub emoji: &'static str,
    pub ocean: OceanScores,
    pub motivations: Vec<Motivation>,
    pub biases: Vec<Bias>,
    pub rep_scores: RepScores,
    pub styles: Vec<PersonalStyle>,
    pub values: Vec<Value>,
}

/// Number of archetypes offered.
pub const ARCHETYPE_COUNT: usize = 4;

/// Whether the motivations are exactly `kinds` with `intensities`, without
/// notes.
pub open spec fn motivations_are(v: Seq<Motivation>, kinds: Seq<MotivationType>, intensities: Seq<u8>) -> bool {
    v.len() == kinds.len() && v.len() == intensities.len() && forall|j: int|
        0 <= j < v.len() ==> (#[trigger] v[j]).kind == kinds[j] && v[j].intensity == intensities[j]
            && v[j].notes@.len() == 0
}

/// Whether the biases are exactly `kinds` with `intensities`, without
/// evidence.
pub open spec fn biases_are(v: Seq<Bias>, kinds: Seq<BiasType>, intensities: Seq<u8>) -> bool {
    v.len() == kinds.len() && v.len() == intensities.len() && forall|j: int|
        0 <= j < v.len() ==> (#[trigger] v[j]).kind == kinds[j] && v[j].intensity == intensities[j]
            && v[j].evidence@.len() == 0
}

/// The OCEAN scores of the `i`-th archetype.
pub open spec fn archetype_ocean(i: int) -> OceanScores {
    if i == 0 {
        OceanScores { openness: Some(8), conscientiousness: Some(8), extraversion: Some(9), agreeableness: Some(3), neuroticism: Some(4) }
    } else if i == 1 {
        OceanScores { openness: Some(4), conscientiousness: Some(9), extraversion: Some(3), agreeableness: Some(5), neuroticism: Some(5) }
    } else if i == 2 {
        OceanScores { openness: Some(6), conscientiousness: Some(5), extraversion: Some(9), agreeableness: Some(9), neuroticism: Some(3) }
    } else {
        OceanScores { openness: Some(10), conscientiousness: Some(3), extraversion: Some(6), agreeableness: Some(6), neuroticism: Some(6) }
    }
}

/// Whether `a` is the `i`-th archetype: its name, emoji, OCEAN scores,
/// motivations and biases as offered, with no reputation scores, styles or
/// values.
pub open spec fn is_archetype(a: Archetype, i: int) -> bool {
    &&& a.ocean == archetype_ocean(i)
    &&& a.rep_scores == RepScores::unset_spec()
    &&& a.styles@.len() == 0
    &&& a.values@.len() == 0
    &&& i == 0 ==> a.name@ == "The Leader"@ && a.emoji@ == "👑"@ && motivations_are(
        a.motivations@,
        seq![MotivationType::Power, MotivationType::Achievement, MotivationType::Recognition],
        seq![9u8, 8u8, 7u8],
    ) && biases_are(a.biases@, seq![BiasType::Confirmation, BiasType::DunningKruger], seq![6u8, 7u8])
    &&& i == 1 ==> a.name@ == "The Analyst"@ && a.emoji@ == "🔬"@ && motivations_are(
        a.motivations@,
        seq![MotivationType::Autonomy, MotivationType::Learning, MotivationType::Security],
        seq![8u8, 9u8, 6u8],
    ) && biases_are(a.biases@, seq![BiasType::Anchoring, BiasType::SunkCost], seq![7u8, 5u8])
    &&& i == 2 ==> a.name@ == "The People Person"@ && a.emoji@ == "🤝"@ && motivations_are(
        a.motivations@,
        seq![MotivationType::Affiliation, MotivationType::Helping, MotivationType::Recognition],
        seq![9u8, 8u8, 6u8],
    ) && biases_are(a.biases@, seq![BiasType::SocialProof, BiasType::InGroup], seq![8u8, 7u8])
    &&& i == 3 ==> a.name@ == "The Creative"@ && a.emoji@ == "🎨"@ && motivations_are(
        a.motivations@,
        seq![MotivationType::Autonomy, MotivationType::Learning, MotivationType::Achievement],
        seq![9u8, 8u8, 5u8],
    ) && biases_are(a.biases@, seq![BiasType::Availability, BiasType::Recency], seq![7u8, 6u8])
}

fn motivation(kind: MotivationType, intensity: u8) -> (r: Motivation)
    ensures
        r.kind == kind && r.intensity == intensity && r.notes@.len() == 0,
{
    Motivation { kind, intensity, notes: String::new() }
}

fn bias(kind: BiasType, intensity: u8) -> (r: Bias)
    ensures
        r.kind == kind && r.intensity == intensity && r.evidence@.len() == 0,
{
    Bias { kind, intensity, evidence: String::new() }
}

fn archetype_0() -> (r: Archetype)
    ensures
        is_archetype(r, 0),
{
    let mut motivations: Vec<Motivation> = Vec::new();
    motivations.push(motivation(MotivationType::Power, 9));
    motivations.push(motivation(MotivationType::Achievement, 8));
    motivations.push(motivation(MotivationType::Recognition, 7));
    let mut biases: Vec<Bias> = Vec::new();
    biases.push(bias(BiasType::Confirmation, 6));
    biases.push(bias(BiasType::DunningKruger, 7));
    assert(motivations_are(motivations@, seq![MotivationType::Power, MotivationType::Achievement, MotivationType::Recognition], seq![9u8, 8u8, 7u8]));
    assert(biases_are(biases@, seq![BiasType::Confirmation, BiasType::DunningKruger], seq![6u8, 7u8]));
    Archetype {
        name: "The Leader",
        emoji: "👑",
        ocean: OceanScores {
            openness: Some(8),
            conscientiousness: Some(8),
            extraversion: Some(9),
            agreeableness: Some(3),
            neuroticism: Some(4),
        },
        motivations,
        biases,
        rep_scores: RepScores::unset(),
        styles: Vec::new(),
        values: Vec::new(),
    }
}

fn archetype_1() -> (r: Archetype)
    ensures
        is_archetype(r, 1),
{
    let mut motivations: Vec<Motivation> = Vec::new();
    motivations.push(motivation(MotivationType::Autonomy, 8));
    motivations.push(motivation(MotivationType::Learning, 9));
    motivations.push(motivation(MotivationType::Security, 6));
    let mut biases: Vec<Bias> = Vec::new();
    biases.push(bias(BiasType::Anchoring, 7));
    biases.push(bias(BiasType::SunkCost, 5));
    assert(motivations_are(motivations@, seq![MotivationType::Autonomy, MotivationType::Learning, MotivationType::Security], seq![8u8, 9u8, 6u8]));
    assert(biases_are(biases@, seq![BiasType::Anchoring, BiasType::SunkCost], seq![7u8, 5u8]));
    Archetype {
        name: "The Analyst",
        emoji: "🔬",
        ocean: OceanScores {
            openness: Some(4),
            conscientiousness: Some(9),
            extraversion: Some(3),
            agreeableness: Some(5),
            neuroticism: Some(5),
        },
        motivations,
        biases,
        rep_scores: RepScores::unset(),
        styles: Vec::new(),
        values: Vec::new(),
    }
}

fn archetype_2() -> (r: Archetype)
    ensures
        is_archetype(r, 2),
{
    let mut motivations: Vec<Motivation> = Vec::new();
    motivations.push(motivation(MotivationType::Affiliation, 9));
    motivations.push(motivation(MotivationType::Helping, 8));
    motivations.push(motivation(MotivationType::Recognition, 6));
    let mut biases: Vec<Bias> = Vec::new();
    biases.push(bias(BiasType::SocialProof, 8));
    biases.push(bias(BiasType::InGroup, 7));
    assert(motivations_are(motivations@, seq![MotivationType::Affiliation, MotivationType::Helping, MotivationType::Recognition], seq![9u8, 8u8, 6u8]));
    assert(biases_are(biases@, seq![BiasType::SocialProof, BiasType::InGroup], seq![8u8, 7u8]));
    Archetype {
        name: "The People Person",
        emoji: "🤝",
        ocean: OceanScores {
            openness: Some(6),
            conscientiousness: Some(5),
            extraversion: Some(9),
            agreeableness: Some(9),
            neuroticism: Some(3),
        },
        motivations,
        biases,
        rep_scores: RepScores::unset(),
        styles: Vec::new(),
        values: Vec::new(),
    }
}

fn archetype_3() -> (r: Archetype)
    ensures
        is_archetype(r, 3),
{
    let mut motivations: Vec<Motivation> = Vec::new();
    motivations.push(motivation(MotivationType::Autonomy, 9));
    motivations.push(motivation(MotivationType::Learning, 8));
    motivations.push(motivation(MotivationType::Achievement, 5));
    let mut biases: Vec<Bias> = Vec::new();
    biases.push(bias(BiasType::Availability, 7));
    biases.push(bias(BiasType::Recency, 6));
    assert(motivations_are(motivations@, seq![MotivationType::Autonomy, MotivationType::Learning, MotivationType::Achievement], seq![9u8, 8u8, 5u8]));
    assert(biases_are(biases@, seq![BiasType::Availability, BiasType::Recency], seq![7u8, 6u8]));
    Archetype {
        name: "The Creative",
        emoji: "🎨",
        ocean: OceanScores {
            openness: Some(10),
            conscientiousness: Some(3),
            extraversion: Some(6),
            agreeableness: Some(6),
            neuroticism: Some(6),
        },
        motivations,
        biases,
        rep_scores: RepScores::unset(),
        styles: Vec::new(),
        values: Vec::new(),
    }
}

/// The archetypes offered when creating a person, in display order.
pub fn all() -> (r: Vec<Archetype>)
    ensures
        r@.len() == ARCHETYPE_COUNT,
        forall|i: int| 0 <= i < ARCHETYPE_COUNT ==> is_archetype(#[trigger] r@[i], i),
{
    let mut r: Vec<Archetype> = Vec::new();
    r.push(archetype_0());
    r.push(archetype_1());
    r.push(archetype_2());
    r.push(archetype_3());
    r
}

} // verus!

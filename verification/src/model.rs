use vstd::prelude::*;

verus! {

/// Big Five (OCEAN) trait scores on a 1–10 scale; `None` when not assessed.
#[derive(Clone, Copy, Debug, PartialEq, Eq, Structural)]
pub struct OceanScores {
    pub openness: Option<u8>,
    pub conscientiousness: Option<u8>,
    pub extraversion: Option<u8>,
    pub agreeableness: Option<u8>,
    pub neuroticism: Option<u8>,
}

impl OceanScores {
    /// No trait assessed.
    pub fn unset() -> (r: Self)
        ensures
            r.openness is None && r.conscientiousness is None && r.extraversion is None
                && r.agreeableness is None && r.neuroticism is None,
    {
        OceanScores {
            openness: None,
            conscientiousness: None,
            extraversion: None,
            agreeableness: None,
            neuroticism: None,
        }
    }
}

/// A score that is set and at least `t`.
pub open spec fn at_least(v: Option<u8>, t: int) -> bool {
    v matches Some(x) && x >= t
}

/// A score that is set and at most `t`.
pub open spec fn at_most(v: Option<u8>, t: int) -> bool {
    v matches Some(x) && x <= t
}

/// Whether `v` is set and at least `t`.
pub fn is_at_least(v: Option<u8>, t: u8) -> (r: bool)
    ensures
        r == at_least(v, t as int),
{
    match v {
        Some(x) => x >= t,
        None => false,
    }
}

/// Whether `v` is set and at most `t`.
pub fn is_at_most(v: Option<u8>, t: u8) -> (r: bool)
    ensures
        r == at_most(v, t as int),
{
    match v {
        Some(x) => x <= t,
        None => false,
    }
}

/// What a person is driven by.
#[derive(Clone, Copy, Debug, PartialEq, Eq, Structural)]
pub enum MotivationType {
    Achievement,
    Power,
    Affiliation,
    Security,
    Autonomy,
    Recognition,
    Learning,
    Helping,
    Creativity,
    Fairness,
}

/// A cognitive bias.
#[derive(Clone, Copy, Debug, PartialEq, Eq, Structural)]
pub enum BiasType {
    Confirmation,
    Anchoring,
    Availability,
    SunkCost,
    DunningKruger,
    Impostor,
    LossAversion,
    SocialProof,
    Authority,
    Recency,
    InGroup,
    Favoritism,
}

/// A personal value.
#[derive(Clone, Copy, Debug, PartialEq, Eq, Structural)]
pub enum ValueType {
    Career,
    Family,
    Health,
    Wealth,
    Stability,
    Adventure,
    Community,
    Knowledge,
    Faith,
    Loyalty,
}

/// A situation that sets off a behaviour.
#[derive(Clone, Copy, Debug, PartialEq, Eq, Structural)]
pub enum BehaviorTrigger {
    Stress,
    Conflict,
    Success,
    Uncertainty,
    Recognition,
    Threatened,
    Change,
    Feedback,
    Injustice,
}

/// The family a personal style belongs to.
#[derive(Clone, Copy, Debug, PartialEq, Eq, Structural)]
pub enum StyleCategory {
    Communication,
    ConflictResolution,
    DecisionMaking,
    Leadership,
    TimeOrientation,
    MoralFramework,
    InterpersonalConduct,
    TrustStyle,
}

/// A context in which two people are scored against each other.
#[derive(Clone, Copy, Debug, PartialEq, Eq, Structural)]
pub enum InsightContext {
    Decision,
    Team,
    Stress,
    Communication,
    Leadership,
    Growth,
}

/// The arena in which a person is seen: private life, work, or online.
#[derive(Clone, Copy, Debug, PartialEq, Eq, Structural)]
pub enum FacetKind {
    Base,
    Work,
    Online,
}

/// A person's strongest motivation and its intensity (1–10).
#[derive(Clone, Copy, Debug, PartialEq, Eq, Structural)]
pub struct TopMotivation {
    pub kind: MotivationType,
    pub intensity: u8,
}

/// A reputation dimension: a scale between two opposite poles (1 = the
/// second pole, 10 = the first).
#[derive(Clone, Copy, Debug, PartialEq, Eq, Structural)]
pub enum RepDim {
    HardworkerLazy,
    AuthoritativeSubmissive,
    HonestDeceitful,
    ReliableFlaky,
    HumbleArrogant,
    CalmReactive,
    DiplomaticBlunt,
    GenerousSelfish,
    FairFavoritism,
    TrustingSuspicious,
    AssertivePassive,
    EmpatheticDetached,
    AdaptableRigid,
}

/// Number of reputation dimensions.
pub const REP_DIM_COUNT: usize = 13;

/// The reputation dimensions in display order.
pub const REP_DIMS: [RepDim; 13] = [
    RepDim::HardworkerLazy,
    RepDim::AuthoritativeSubmissive,
    RepDim::HonestDeceitful,
    RepDim::ReliableFlaky,
    RepDim::HumbleArrogant,
    RepDim::CalmReactive,
    RepDim::DiplomaticBlunt,
    RepDim::GenerousSelfish,
    RepDim::FairFavoritism,
    RepDim::TrustingSuspicious,
    RepDim::AssertivePassive,
    RepDim::EmpatheticDetached,
    RepDim::AdaptableRigid,
];

/// The `i`-th reputation dimension in display order.
pub open spec fn rep_dim_at(i: int) -> RepDim {
    if i == 0 {
        RepDim::HardworkerLazy
    } else if i == 1 {
        RepDim::AuthoritativeSubmissive
    } else if i == 2 {
        RepDim::HonestDeceitful
    } else if i == 3 {
        RepDim::ReliableFlaky
    } else if i == 4 {
        RepDim::HumbleArrogant
    } else if i == 5 {
        RepDim::CalmReactive
    } else if i == 6 {
        RepDim::DiplomaticBlunt
    } else if i == 7 {
        RepDim::GenerousSelfish
    } else if i == 8 {
        RepDim::FairFavoritism
    } else if i == 9 {
        RepDim::TrustingSuspicious
    } else if i == 10 {
        RepDim::AssertivePassive
    } else if i == 11 {
        RepDim::EmpatheticDetached
    } else {
        RepDim::AdaptableRigid
    }
}

/// The position of a reputation dimension in display order.
pub open spec fn dim_index(d: RepDim) -> int {
    match d {
        RepDim::HardworkerLazy => 0,
        RepDim::AuthoritativeSubmissive => 1,
        RepDim::HonestDeceitful => 2,
        RepDim::ReliableFlaky => 3,
        RepDim::HumbleArrogant => 4,
        RepDim::CalmReactive => 5,
        RepDim::DiplomaticBlunt => 6,
        RepDim::GenerousSelfish => 7,
        RepDim::FairFavoritism => 8,
        RepDim::TrustingSuspicious => 9,
        RepDim::AssertivePassive => 10,
        RepDim::EmpatheticDetached => 11,
        RepDim::AdaptableRigid => 12,
    }
}

/// The `i`-th reputation dimension in display order.
pub fn rep_dim(i: usize) -> (r: RepDim)
    requires
        i < REP_DIM_COUNT,
    ensures
        r == rep_dim_at(i as int),
{
    REP_DIMS[i]
}

/// Reputation scores (1–10) per dimension; `None` when not assessed.
#[derive(Clone, Copy, Debug, PartialEq, Eq, Structural)]
pub struct RepScores {
    pub hardworker_lazy: Option<u8>,
    pub authoritative_submissive: Option<u8>,
    pub honest_deceitful: Option<u8>,
    pub reliable_flaky: Option<u8>,
    pub humble_arrogant: Option<u8>,
    pub calm_reactive: Option<u8>,
    pub diplomatic_blunt: Option<u8>,
    pub generous_selfish: Option<u8>,
    pub fair_favoritism: Option<u8>,
    pub trusting_suspicious: Option<u8>,
    pub assertive_passive: Option<u8>,
    pub empathetic_detached: Option<u8>,
    pub adaptable_rigid: Option<u8>,
}

/// The score of `r` on dimension `d`.
pub open spec fn rep_score(r: RepScores, d: RepDim) -> Option<u8> {
    match d {
        RepDim::HardworkerLazy => r.hardworker_lazy,
        RepDim::AuthoritativeSubmissive => r.authoritative_submissive,
        RepDim::HonestDeceitful => r.honest_deceitful,
        RepDim::ReliableFlaky => r.reliable_flaky,
        RepDim::HumbleArrogant => r.humble_arrogant,
        RepDim::CalmReactive => r.calm_reactive,
        RepDim::DiplomaticBlunt => r.diplomatic_blunt,
        RepDim::GenerousSelfish => r.generous_selfish,
        RepDim::FairFavoritism => r.fair_favoritism,
        RepDim::TrustingSuspicious => r.trusting_suspicious,
        RepDim::AssertivePassive => r.assertive_passive,
        RepDim::EmpatheticDetached => r.empathetic_detached,
        RepDim::AdaptableRigid => r.adaptable_rigid,
    }
}

impl RepScores {
    /// No dimension assessed.
    pub open spec fn unset_spec() -> RepScores {
        RepScores {
            hardworker_lazy: None,
            authoritative_submissive: None,
            honest_deceitful: None,
            reliable_flaky: None,
            humble_arrogant: None,
            calm_reactive: None,
            diplomatic_blunt: None,
            generous_selfish: None,
            fair_favoritism: None,
            trusting_suspicious: None,
            assertive_passive: None,
            empathetic_detached: None,
            adaptable_rigid: None,
        }
    }

    /// No dimension assessed.
    pub fn unset() -> (r: Self)
        ensures
            r == Self::unset_spec(),
            forall|d: RepDim| rep_score(r, d) is None,
    {
        RepScores {
            hardworker_lazy: None,
            authoritative_submissive: None,
            honest_deceitful: None,
            reliable_flaky: None,
            humble_arrogant: None,
            calm_reactive: None,
            diplomatic_blunt: None,
            generous_selfish: None,
            fair_favoritism: None,
            trusting_suspicious: None,
            assertive_passive: None,
            empathetic_detached: None,
            adaptable_rigid: None,
        }
    }

    /// The score on dimension `d`.
    pub fn score(&self, d: RepDim) -> (r: Option<u8>)
        ensures
            r == rep_score(*self, d),
    {
        match d {
            RepDim::HardworkerLazy => self.hardworker_lazy,
            RepDim::AuthoritativeSubmissive => self.authoritative_submissive,
            RepDim::HonestDeceitful => self.honest_deceitful,
            RepDim::ReliableFlaky => self.reliable_flaky,
            RepDim::HumbleArrogant => self.humble_arrogant,
            RepDim::CalmReactive => self.calm_reactive,
            RepDim::DiplomaticBlunt => self.diplomatic_blunt,
            RepDim::GenerousSelfish => self.generous_selfish,
            RepDim::FairFavoritism => self.fair_favoritism,
            RepDim::TrustingSuspicious => self.trusting_suspicious,
            RepDim::AssertivePassive => self.assertive_passive,
            RepDim::EmpatheticDetached => self.empathetic_detached,
            RepDim::AdaptableRigid => self.adaptable_rigid,
        }
    }
}

} // verus!

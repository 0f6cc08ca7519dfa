use vstd::prelude::*;
use crate::model::{
    dim_index,
    at_least, at_most, is_at_least, is_at_most, rep_dim, rep_dim_at, rep_score, BehaviorTrigger,
    BiasType, InsightContext, MotivationType, OceanScores, RepDim, RepScores, REP_DIM_COUNT,
};
use crate::text::{decimal, push_decimal, push_signed, replace_first, replaced_first, signed_decimal};

verus! {

/// The translation key of the label of a per-context compatibility score.
pub open spec fn ctx_key_text(c: InsightContext) -> Seq<char> {
    match c {
        InsightContext::Decision => "ctx_decision"@,
        InsightContext::Team => "ctx_team"@,
        InsightContext::Stress => "ctx_stress"@,
        InsightContext::Communication => "ctx_communication"@,
        InsightContext::Leadership => "ctx_leadership"@,
        InsightContext::Growth => "ctx_growth"@,
    }
}

/// The translation key of the label of a per-context compatibility score.
pub fn ctx_key(c: InsightContext) -> (r: &'static str)
    ensures
        r@ == ctx_key_text(c),
{
    match c {
        InsightContext::Decision => "ctx_decision",
        InsightContext::Team => "ctx_team",
        InsightContext::Stress => "ctx_stress",
        InsightContext::Communication => "ctx_communication",
        InsightContext::Leadership => "ctx_leadership",
        InsightContext::Growth => "ctx_growth",
    }
}

/// The note on who benefits more from a relationship: "(+d% — name more)".
pub open spec fn benefit_text(d: nat, name: Seq<char>, more: Seq<char>) -> Seq<char> {
    "(+"@ + decimal(d) + "% — "@ + name + " "@ + more + ")"@
}

/// The labels shown beside the two directed scores: the side that benefits
/// more gets "(+difference% — its name, `more_label`)" and the other side
/// nothing; equal scores get "(`balanced_label`)" on both sides.
pub fn benefit_labels(
    a_score: u8,
    b_score: u8,
    a_name: &str,
    b_name: &str,
    more_label: &str,
    balanced_label: &str,
) -> (r: (String, String))
    ensures
        a_score > b_score ==> r.0@ == benefit_text((a_score - b_score) as nat, a_name@, more_label@)
            && r.1@ == Seq::<char>::empty(),
        b_score > a_score ==> r.0@ == Seq::<char>::empty() && r.1@ == benefit_text(
            (b_score - a_score) as nat,
            b_name@,
            more_label@,
        ),
        a_score == b_score ==> r.0@ == "("@ + balanced_label@ + ")"@ && r.1@ == "("@
            + balanced_label@ + ")"@,
{
    if a_score > b_score {
        (benefit_line(a_score - b_score, a_name, more_label), String::new())
    } else if b_score > a_score {
        (String::new(), benefit_line(b_score - a_score, b_name, more_label))
    } else {
        let mut l = String::from_str("(");
        l.append(balanced_label);
        l.append(")");
        let mut r = String::from_str("(");
        r.append(balanced_label);
        r.append(")");
        (l, r)
    }
}

fn benefit_line(d: u8, name: &str, more: &str) -> (r: String)
    ensures
        r@ == benefit_text(d as nat, name@, more@),
{
    let mut s = String::from_str("(+");
    push_decimal(&mut s, d);
    s.append("% — ");
    s.append(name);
    s.append(" ");
    s.append(more);
    s.append(")");
    s
}

/// The hint about the compatibility band: `hint_template` with its first
/// "{}" replaced by the band number, or nothing for band 0.
pub fn format_band_label(band: u8, hint_template: &str) -> (r: String)
    ensures
        band == 0 ==> r@ == Seq::<char>::empty(),
        band > 0 ==> r@ == replaced_first(hint_template@, "{}"@, decimal(band as nat)),
{
    if band > 0 {
        let mut n = String::new();
        push_decimal(&mut n, band);
        assert(n@ =~= decimal(band as nat));
        proof {
            reveal_strlit("{}");
        }
        replace_first(hint_template, "{}", n.as_str())
    } else {
        String::new()
    }
}

/// The change of the score over time: "+n" for a rise, "-n" for a fall,
/// nothing when stable.
pub fn format_signed_delta(delta: i8) -> (r: String)
    ensures
        delta > 0 ==> r@ == "+"@ + decimal(delta as nat),
        delta < 0 ==> r@ == signed_decimal(delta as int),
        delta == 0 ==> r@ == Seq::<char>::empty(),
{
    if delta > 0 {
        let mut s = String::from_str("+");
        push_signed(&mut s, delta);
        s
    } else if delta < 0 {
        let mut s = String::new();
        push_signed(&mut s, delta);
        assert(s@ =~= signed_decimal(delta as int));
        s
    } else {
        String::new()
    }
}

/// Whether `score` lies in band `b` (bounds included).
pub open spec fn in_band(score: u8, b: (u8, u8)) -> bool {
    b.0 <= score <= b.1
}

/// The first band that contains `score`, if any.
pub fn band_position(score: u8, bands: &Vec<(u8, u8)>) -> (r: Option<usize>)
    ensures
        r matches Some(i) ==> i < bands@.len() && in_band(score, bands@[i as int]) && forall|j: int|
            0 <= j < i ==> !in_band(score, #[trigger] bands@[j]),
        r is None ==> forall|j: int| 0 <= j < bands@.len() ==> !in_band(score, #[trigger] bands@[j]),
{
    let mut i: usize = 0;
    while i < bands.len()
        invariant
            i <= bands@.len(),
            forall|j: int| 0 <= j < i ==> !in_band(score, #[trigger] bands@[j]),
        decreases bands@.len() - i,
    {
        let (lo, hi) = bands[i];
        if score >= lo && score <= hi {
            return Some(i);
        }
        i = i + 1;
    }
    None
}

/// The style class of a compatibility band: tension, friction, moderate,
/// good, strong; a score outside every band reads as moderate.
pub open spec fn band_class_text(i: Option<usize>) -> Seq<char> {
    match i {
        Some(0) => "scale-tension"@,
        Some(1) => "scale-friction"@,
        Some(2) => "scale-moderate"@,
        Some(3) => "scale-good"@,
        Some(_) => "scale-strong"@,
        None => "scale-moderate"@,
    }
}

/// The style class of the band a score falls in.
pub fn band_class(i: Option<usize>) -> (r: &'static str)
    ensures
        r@ == band_class_text(i),
{
    match i {
        Some(0) => "scale-tension",
        Some(1) => "scale-friction",
        Some(2) => "scale-moderate",
        Some(3) => "scale-good",
        Some(_) => "scale-strong",
        None => "scale-moderate",
    }
}

/// The value shown beside a mini bar: the score, or "-" when it is not
/// assessed.
pub fn mini_bar_text(score: Option<u8>) -> (r: String)
    ensures
        r@ == (match score {
            Some(v) => decimal(v as nat),
            None => "-"@,
        }),
{
    let mut s = String::new();
    match score {
        Some(v) => push_decimal(&mut s, v),
        None => s.append("-"),
    }
    proof {
        reveal_strlit("-");
    }
    assert(s@ =~= (match score {
        Some(v) => decimal(v as nat),
        None => "-"@,
    }));
    s
}

/// The width of a mini bar in percent: ten times the score, nothing when it
/// is not assessed (the width is a byte, so a score is at most 25).
pub fn mini_bar_width(score: Option<u8>) -> (r: u8)
    requires
        score matches Some(v) ==> v <= 25,
    ensures
        r == (match score {
            Some(v) => v * 10,
            None => 0,
        }),
{
    match score {
        Some(v) => v * 10,
        None => 0,
    }
}

/// Whether the strategy card offers more than its headline.
pub fn should_show_extra_strategies(n: usize) -> (r: bool)
    ensures
        r == (n > 1),
{
    n > 1
}


/// Which of the two compared people a note is about.
#[derive(Clone, Copy, Debug, PartialEq, Eq, Structural)]
pub enum Side {
    A,
    B,
}

/// The pole of a reputation dimension: `First` is the high end (label A),
/// `Second` the low end (label B).
#[derive(Clone, Copy, Debug, PartialEq, Eq, Structural)]
pub enum Pole {
    First,
    Second,
}

/// How a score computed elsewhere leans: the sign of a motivation synergy,
/// or whether a trigger synergy lies below -0.1 or above 0.1.
#[derive(Clone, Copy, Debug, PartialEq, Eq, Structural)]
pub enum Leaning {
    Negative,
    Neutral,
    Positive,
}

/// One line of the comparison analysis; `compare_text::note_text` writes it
/// out in English or French with the names and labels of the two people.
#[derive(Clone, Copy, Debug, PartialEq, Eq, Structural)]
pub enum Note {
    /// `visionary` brings creative vision, the other rigorous execution.
    CreativeExecution { visionary: Side },
    /// Very similar openness and conscientiousness.
    SimilarOcean,
    /// Extraversion and agreeableness complement each other.
    DriveHarmony,
    /// The two top motivations reinforce each other.
    ComplementaryMotivations,
    /// The two top motivations compete.
    CompetingMotivations,
    /// Both share the same top motivation.
    SharedMotivation,
    /// The low-agreeableness side may seem aggressive to the other.
    AgreeablenessGap { low: Side },
    /// `reactive` is more reactive to stress than the other.
    StressReactivity { reactive: Side },
    /// Both score high and close on a reputation dimension.
    RepAffinityHigh { dim: RepDim },
    /// Both score low and close on a reputation dimension.
    RepAffinityLow { dim: RepDim },
    /// A is further towards `pole` than B on a reputation dimension.
    RepImbalance { dim: RepDim, pole: Pole },
    /// Different top biases.
    BiasClash,
    /// The same top bias on both sides.
    SameBias,
    /// How each first behavioural pattern responds.
    PatternResponses,
    /// Both adapt well to change.
    BothAdaptChange,
    /// Both are receptive to feedback.
    BothReceptiveFeedback,
    /// Both are combative under tension.
    BothCombative,
    /// Both are stressed under pressure.
    BothStressed,
    /// One adapts, the other learns.
    AdaptAndLearn,
    /// A large extraversion gap.
    ExtraversionGap,
    /// No synergy detected.
    NoSynergy,
    /// No friction detected.
    NoFriction,
    /// Give the power-driven person room for initiative.
    PowerInitiative,
    /// Acknowledge contributions publicly.
    PublicRecognition,
    /// Provide stable frameworks.
    StableFrameworks,
    /// Present information in a structured way.
    StructuredInfo,
    /// Prefer mediation in conflict.
    Mediation,
    /// Get straight to the point when disagreeing.
    Directness,
    /// Different social pace; `more` wants more interaction.
    SocialPace { more: Side },
    /// Different conflict styles.
    ConflictStyles,
    /// Different organisation levels.
    OrganizationLevels,
    /// Their stress responses amplify each other.
    MutualTriggering,
    /// Their responses balance each other.
    BehavioralComplementarity,
    /// Communicate openly and observe.
    OpenCommunication,
}

/// What the analysis reads of one of the two people.
#[derive(Clone, Copy, Debug, PartialEq, Eq, Structural)]
pub struct PairSide {
    pub ocean: OceanScores,
    pub rep: RepScores,
    pub top_motivation: Option<MotivationType>,
    pub top_bias: Option<BiasType>,
    /// The trigger of the first recorded behavioural pattern.
    pub first_trigger: Option<BehaviorTrigger>,
}

/// The two people compared, with the leanings of the synergy between their
/// top motivations and between the triggers of their first patterns.
#[derive(Clone, Copy, Debug, PartialEq, Eq, Structural)]
pub struct PairProfile {
    pub a: PairSide,
    pub b: PairSide,
    pub motivation_synergy: Leaning,
    pub trigger_synergy: Leaning,
}

/// The distance between two scores.
pub open spec fn gap(x: u8, y: u8) -> int {
    if x >= y {
        x - y
    } else {
        y - x
    }
}

/// Both scores are set and at most `t` apart.
pub open spec fn close_within(x: Option<u8>, y: Option<u8>, t: int) -> bool {
    x matches Some(u) && y matches Some(v) && gap(u, v) <= t
}

/// Both scores are set and at least `t` apart.
pub open spec fn apart_by(x: Option<u8>, y: Option<u8>, t: int) -> bool {
    x matches Some(u) && y matches Some(v) && gap(u, v) >= t
}

fn abs_diff(x: u8, y: u8) -> (r: u8)
    ensures
        r == gap(x, y),
{
    if x >= y {
        x - y
    } else {
        y - x
    }
}

fn is_close_within(x: Option<u8>, y: Option<u8>, t: u8) -> (r: bool)
    ensures
        r == close_within(x, y, t as int),
{
    match (x, y) {
        (Some(u), Some(v)) => abs_diff(u, v) <= t,
        _ => false,
    }
}

fn is_apart_by(x: Option<u8>, y: Option<u8>, t: u8) -> (r: bool)
    ensures
        r == apart_by(x, y, t as int),
{
    match (x, y) {
        (Some(u), Some(v)) => abs_diff(u, v) >= t,
        _ => false,
    }
}

/// `s` with `n` appended when `c` holds.
pub open spec fn note_if(s: Seq<Note>, c: bool, n: Note) -> Seq<Note> {
    if c {
        s.push(n)
    } else {
        s
    }
}

/// The note a reputation dimension adds to the synergies, if any.
pub open spec fn rep_synergy(va: u8, vb: u8, d: RepDim) -> Option<Note> {
    if gap(va, vb) <= 2 && va >= 7 && vb >= 7 {
        Some(Note::RepAffinityHigh { dim: d })
    } else if gap(va, vb) <= 2 && va <= 3 && vb <= 3 {
        Some(Note::RepAffinityLow { dim: d })
    } else {
        None
    }
}

/// The note a reputation dimension adds to the frictions, if any.
pub open spec fn rep_friction(va: u8, vb: u8, d: RepDim) -> Option<Note> {
    if gap(va, vb) <= 2 {
        None
    } else if va > vb {
        Some(Note::RepImbalance { dim: d, pole: Pole::First })
    } else {
        Some(Note::RepImbalance { dim: d, pole: Pole::Second })
    }
}

/// The synergy notes from the first `k` reputation dimensions.
pub open spec fn rep_synergies(a: RepScores, b: RepScores, k: nat) -> Seq<Note>
    decreases k,
{
    if k == 0 {
        Seq::empty()
    } else {
        let s = rep_synergies(a, b, (k - 1) as nat);
        let d = rep_dim_at(k - 1);
        match (rep_score(a, d), rep_score(b, d)) {
            (Some(va), Some(vb)) => match rep_synergy(va, vb, d) {
                Some(n) => s.push(n),
                None => s,
            },
            _ => s,
        }
    }
}

/// The friction notes from the first `k` reputation dimensions.
pub open spec fn rep_frictions(a: RepScores, b: RepScores, k: nat) -> Seq<Note>
    decreases k,
{
    if k == 0 {
        Seq::empty()
    } else {
        let s = rep_frictions(a, b, (k - 1) as nat);
        let d = rep_dim_at(k - 1);
        match (rep_score(a, d), rep_score(b, d)) {
            (Some(va), Some(vb)) => match rep_friction(va, vb, d) {
                Some(n) => s.push(n),
                None => s,
            },
            _ => s,
        }
    }
}

/// Both sides have a first pattern with the triggers `ta` and `tb`.
pub open spec fn triggers_are(p: PairProfile, ta: BehaviorTrigger, tb: BehaviorTrigger) -> bool {
    p.a.first_trigger == Some(ta) && p.b.first_trigger == Some(tb)
}

/// Both sides have a first behavioural pattern.
pub open spec fn both_patterns(p: PairProfile) -> bool {
    p.a.first_trigger is Some && p.b.first_trigger is Some
}

/// Both sides have a top motivation.
pub open spec fn both_motivated(p: PairProfile) -> bool {
    p.a.top_motivation is Some && p.b.top_motivation is Some
}

/// Either top motivation is `k` (both sides having one).
pub open spec fn either_motivation(p: PairProfile, k: MotivationType) -> bool {
    both_motivated(p) && (p.a.top_motivation == Some(k) || p.b.top_motivation == Some(k))
}

/// The synergies found before the reputation dimensions are compared.
pub open spec fn synergy_head(p: PairProfile) -> Seq<Note> {
    let oa = p.a.ocean;
    let ob = p.b.ocean;
    let s = Seq::<Note>::empty();
    let s = if at_least(oa.openness, 7) && at_least(ob.conscientiousness, 7) {
        s.push(Note::CreativeExecution { visionary: Side::A })
    } else if at_least(ob.openness, 7) && at_least(oa.conscientiousness, 7) {
        s.push(Note::CreativeExecution { visionary: Side::B })
    } else if close_within(oa.openness, ob.openness, 2) && close_within(
        oa.conscientiousness,
        ob.conscientiousness,
        2,
    ) {
        s.push(Note::SimilarOcean)
    } else {
        s
    };
    let s = note_if(
        s,
        (at_least(oa.extraversion, 7) && at_least(ob.agreeableness, 7)) || (at_least(
            ob.extraversion,
            7,
        ) && at_least(oa.agreeableness, 7)),
        Note::DriveHarmony,
    );
    let s = note_if(
        s,
        both_motivated(p) && p.motivation_synergy == Leaning::Positive,
        Note::ComplementaryMotivations,
    );
    let s = note_if(
        s,
        both_motivated(p) && p.a.top_motivation == p.b.top_motivation,
        Note::SharedMotivation,
    );
    s
}

/// `s` followed by the synergies found after the reputation dimensions.
pub open spec fn synergy_tail(p: PairProfile, s: Seq<Note>) -> Seq<Note> {
    let s = note_if(s, both_patterns(p), Note::PatternResponses);
    let s = note_if(
        s,
        triggers_are(p, BehaviorTrigger::Change, BehaviorTrigger::Change),
        Note::BothAdaptChange,
    );
    let s = note_if(
        s,
        triggers_are(p, BehaviorTrigger::Feedback, BehaviorTrigger::Feedback),
        Note::BothReceptiveFeedback,
    );
    note_if(
        s,
        triggers_are(p, BehaviorTrigger::Change, BehaviorTrigger::Feedback) || triggers_are(
            p,
            BehaviorTrigger::Feedback,
            BehaviorTrigger::Change,
        ),
        Note::AdaptAndLearn,
    )
}

/// The synergies, in order, before the fallback note.
pub open spec fn raw_synergies(p: PairProfile) -> Seq<Note> {
    synergy_tail(p, synergy_head(p) + rep_synergies(p.a.rep, p.b.rep, REP_DIM_COUNT as nat))
}

/// The frictions found before the reputation dimensions are compared.
pub open spec fn friction_head(p: PairProfile) -> Seq<Note> {
    let oa = p.a.ocean;
    let ob = p.b.ocean;
    let s = Seq::<Note>::empty();
    let s = note_if(
        s,
        both_motivated(p) && p.motivation_synergy == Leaning::Negative,
        Note::CompetingMotivations,
    );
    let s = if at_least(oa.agreeableness, 7) && at_most(ob.agreeableness, 4) {
        s.push(Note::AgreeablenessGap { low: Side::B })
    } else if at_least(ob.agreeableness, 7) && at_most(oa.agreeableness, 4) {
        s.push(Note::AgreeablenessGap { low: Side::A })
    } else {
        s
    };
    let s = match (oa.neuroticism, ob.neuroticism) {
        (Some(na), Some(nb)) => if gap(na, nb) >= 3 {
            s.push(Note::StressReactivity { reactive: if na <= nb { Side::B } else { Side::A } })
        } else {
            s
        },
        _ => s,
    };
    s
}

/// `s` followed by the frictions found after the reputation dimensions.
pub open spec fn friction_tail(p: PairProfile, s: Seq<Note>) -> Seq<Note> {
    let oa = p.a.ocean;
    let ob = p.b.ocean;
    let s = match (p.a.top_bias, p.b.top_bias) {
        (Some(x), Some(y)) => if x != y {
            s.push(Note::BiasClash)
        } else {
            s.push(Note::SameBias)
        },
        _ => s,
    };
    let s = note_if(
        s,
        triggers_are(p, BehaviorTrigger::Conflict, BehaviorTrigger::Conflict),
        Note::BothCombative,
    );
    let s = note_if(
        s,
        triggers_are(p, BehaviorTrigger::Stress, BehaviorTrigger::Stress),
        Note::BothStressed,
    );
    note_if(s, apart_by(oa.extraversion, ob.extraversion, 4), Note::ExtraversionGap)
}

/// The frictions, in order, before the fallback note.
pub open spec fn raw_frictions(p: PairProfile) -> Seq<Note> {
    friction_tail(p, friction_head(p) + rep_frictions(p.a.rep, p.b.rep, REP_DIM_COUNT as nat))
}

/// The strategies, in order of priority, before the fallback note: those
/// drawn from the top motivations first, then those drawn from OCEAN gaps,
/// then the conflict-handling one, then structured information, then those
/// drawn from the first behavioural patterns.
pub open spec fn raw_strategies(p: PairProfile) -> Seq<Note> {
    let oa = p.a.ocean;
    let ob = p.b.ocean;
    let s = Seq::<Note>::empty();
    let s = note_if(s, either_motivation(p, MotivationType::Power), Note::PowerInitiative);
    let s = note_if(s, either_motivation(p, MotivationType::Recognition), Note::PublicRecognition);
    let s = note_if(s, either_motivation(p, MotivationType::Security), Note::StableFrameworks);
    let s = match (oa.extraversion, ob.extraversion) {
        (Some(ea), Some(eb)) => if gap(ea, eb) >= 3 {
            s.push(Note::SocialPace { more: if ea >= eb { Side::A } else { Side::B } })
        } else {
            s
        },
        _ => s,
    };
    let s = note_if(s, apart_by(oa.agreeableness, ob.agreeableness, 3), Note::ConflictStyles);
    let s = note_if(
        s,
        apart_by(oa.conscientiousness, ob.conscientiousness, 3),
        Note::OrganizationLevels,
    );
    let s = if at_least(oa.agreeableness, 7) && at_least(ob.agreeableness, 7) {
        s.push(Note::Mediation)
    } else if at_most(oa.agreeableness, 4) && at_most(ob.agreeableness, 4) {
        s.push(Note::Directness)
    } else {
        s
    };
    let s = note_if(
        s,
        at_least(oa.conscientiousness, 7) || at_least(ob.conscientiousness, 7),
        Note::StructuredInfo,
    );
    let s = note_if(
        s,
        both_patterns(p) && p.trigger_synergy == Leaning::Negative,
        Note::MutualTriggering,
    );
    note_if(
        s,
        both_patterns(p) && p.trigger_synergy == Leaning::Positive,
        Note::BehavioralComplementarity,
    )
}

/// `s`, or the single note `n` when `s` is empty.
pub open spec fn or_note(s: Seq<Note>, n: Note) -> Seq<Note> {
    if s.len() == 0 {
        seq![n]
    } else {
        s
    }
}

/// The outcome of the comparison analysis: synergies, frictions, and the
/// strategies with the headline (first) strategy.
pub struct Analysis {
    pub synergies: Vec<Note>,
    pub frictions: Vec<Note>,
    pub top_strategy: Note,
    pub strategies: Vec<Note>,
}

fn push_note(v: &mut Vec<Note>, c: bool, n: Note)
    ensures
        final(v)@ == note_if(old(v)@, c, n),
{
    if c {
        v.push(n);
    }
}

fn first_trigger_pair(p: &PairProfile, ta: BehaviorTrigger, tb: BehaviorTrigger) -> (r: bool)
    ensures
        r == triggers_are(*p, ta, tb),
{
    p.a.first_trigger == Some(ta) && p.b.first_trigger == Some(tb)
}

fn either_has(p: &PairProfile, k: MotivationType) -> (r: bool)
    ensures
        r == either_motivation(*p, k),
{
    match (p.a.top_motivation, p.b.top_motivation) {
        (Some(x), Some(y)) => x == k || y == k,
        _ => false,
    }
}

fn add_rep_notes(p: &PairProfile, syn: &mut Vec<Note>, fri: &mut Vec<Note>)
    ensures
        final(syn)@ == old(syn)@ + rep_synergies(p.a.rep, p.b.rep, REP_DIM_COUNT as nat),
        final(fri)@ == old(fri)@ + rep_frictions(p.a.rep, p.b.rep, REP_DIM_COUNT as nat),
{
    let ghost s0 = syn@;
    let ghost f0 = fri@;
    let mut i: usize = 0;
    assert(s0 =~= s0 + rep_synergies(p.a.rep, p.b.rep, 0));
    assert(f0 =~= f0 + rep_frictions(p.a.rep, p.b.rep, 0));
    while i < REP_DIM_COUNT
        invariant
            i <= REP_DIM_COUNT,
            syn@ == s0 + rep_synergies(p.a.rep, p.b.rep, i as nat),
            fri@ == f0 + rep_frictions(p.a.rep, p.b.rep, i as nat),
        decreases REP_DIM_COUNT - i,
    {
        let d = rep_dim(i);
        let ghost sprev = syn@;
        let ghost fprev = fri@;
        match (p.a.rep.score(d), p.b.rep.score(d)) {
            (Some(va), Some(vb)) => {
                let close = abs_diff(va, vb) <= 2;
                if close && va >= 7 && vb >= 7 {
                    syn.push(Note::RepAffinityHigh { dim: d });
                } else if close && va <= 3 && vb <= 3 {
                    syn.push(Note::RepAffinityLow { dim: d });
                } else if !close && va > vb {
                    fri.push(Note::RepImbalance { dim: d, pole: Pole::First });
                } else if !close {
                    fri.push(Note::RepImbalance { dim: d, pole: Pole::Second });
                }
            },
            _ => {},
        }
        proof {
            assert(syn@ =~= s0 + rep_synergies(p.a.rep, p.b.rep, (i + 1) as nat));
            assert(fri@ =~= f0 + rep_frictions(p.a.rep, p.b.rep, (i + 1) as nat));
        }
        i = i + 1;
    }
}

fn head_notes(p: &PairProfile) -> (r: (Vec<Note>, Vec<Note>))
    ensures
        r.0@ == synergy_head(*p),
        r.1@ == friction_head(*p),
{
    let oa = p.a.ocean;
    let ob = p.b.ocean;
    let mut syn: Vec<Note> = Vec::new();
    let mut fri: Vec<Note> = Vec::new();
    if is_at_least(oa.openness, 7) && is_at_least(ob.conscientiousness, 7) {
        syn.push(Note::CreativeExecution { visionary: Side::A });
    } else if is_at_least(ob.openness, 7) && is_at_least(oa.conscientiousness, 7) {
        syn.push(Note::CreativeExecution { visionary: Side::B });
    } else if is_close_within(oa.openness, ob.openness, 2) && is_close_within(
        oa.conscientiousness,
        ob.conscientiousness,
        2,
    ) {
        syn.push(Note::SimilarOcean);
    }
    push_note(
        &mut syn,
        (is_at_least(oa.extraversion, 7) && is_at_least(ob.agreeableness, 7)) || (is_at_least(
            ob.extraversion,
            7,
        ) && is_at_least(oa.agreeableness, 7)),
        Note::DriveHarmony,
    );
    let ghost s1 = syn@;
    let both = p.a.top_motivation.is_some() && p.b.top_motivation.is_some();
    push_note(
        &mut syn,
        both && p.motivation_synergy == Leaning::Positive,
        Note::ComplementaryMotivations,
    );
    push_note(
        &mut fri,
        both && p.motivation_synergy == Leaning::Negative,
        Note::CompetingMotivations,
    );
    push_note(&mut syn, both && p.a.top_motivation == p.b.top_motivation, Note::SharedMotivation);
    if is_at_least(oa.agreeableness, 7) && is_at_most(ob.agreeableness, 4) {
        fri.push(Note::AgreeablenessGap { low: Side::B });
    } else if is_at_least(ob.agreeableness, 7) && is_at_most(oa.agreeableness, 4) {
        fri.push(Note::AgreeablenessGap { low: Side::A });
    }
    if let (Some(na), Some(nb)) = (oa.neuroticism, ob.neuroticism) {
        if abs_diff(na, nb) >= 3 {
            let reactive = if na <= nb {
                Side::B
            } else {
                Side::A
            };
            fri.push(Note::StressReactivity { reactive });
        }
    }
    (syn, fri)
}

fn tail_notes(p: &PairProfile, syn: &mut Vec<Note>, fri: &mut Vec<Note>)
    ensures
        final(syn)@ == synergy_tail(*p, old(syn)@),
        final(fri)@ == friction_tail(*p, old(fri)@),
{
    let oa = p.a.ocean;
    let ob = p.b.ocean;
    if let (Some(b1), Some(b2)) = (p.a.top_bias, p.b.top_bias) {
        if b1 != b2 {
            fri.push(Note::BiasClash);
        } else {
            fri.push(Note::SameBias);
        }
    }
    push_note(
        syn,
        p.a.first_trigger.is_some() && p.b.first_trigger.is_some(),
        Note::PatternResponses,
    );
    push_note(
        syn,
        first_trigger_pair(p, BehaviorTrigger::Change, BehaviorTrigger::Change),
        Note::BothAdaptChange,
    );
    push_note(
        syn,
        first_trigger_pair(p, BehaviorTrigger::Feedback, BehaviorTrigger::Feedback),
        Note::BothReceptiveFeedback,
    );
    push_note(
        fri,
        first_trigger_pair(p, BehaviorTrigger::Conflict, BehaviorTrigger::Conflict),
        Note::BothCombative,
    );
    push_note(
        fri,
        first_trigger_pair(p, BehaviorTrigger::Stress, BehaviorTrigger::Stress),
        Note::BothStressed,
    );
    push_note(
        syn,
        first_trigger_pair(p, BehaviorTrigger::Change, BehaviorTrigger::Feedback)
            || first_trigger_pair(p, BehaviorTrigger::Feedback, BehaviorTrigger::Change),
        Note::AdaptAndLearn,
    );
    push_note(fri, is_apart_by(oa.extraversion, ob.extraversion, 4), Note::ExtraversionGap);
}

fn strategy_notes(p: &PairProfile) -> (r: Vec<Note>)
    ensures
        r@ == raw_strategies(*p),
{
    let oa = p.a.ocean;
    let ob = p.b.ocean;
    let mut st: Vec<Note> = Vec::new();
    push_note(&mut st, either_has(p, MotivationType::Power), Note::PowerInitiative);
    push_note(&mut st, either_has(p, MotivationType::Recognition), Note::PublicRecognition);
    push_note(&mut st, either_has(p, MotivationType::Security), Note::StableFrameworks);
    if let (Some(ea), Some(eb)) = (oa.extraversion, ob.extraversion) {
        if abs_diff(ea, eb) >= 3 {
            let more = if ea >= eb {
                Side::A
            } else {
                Side::B
            };
            st.push(Note::SocialPace { more });
        }
    }
    push_note(&mut st, is_apart_by(oa.agreeableness, ob.agreeableness, 3), Note::ConflictStyles);
    push_note(
        &mut st,
        is_apart_by(oa.conscientiousness, ob.conscientiousness, 3),
        Note::OrganizationLevels,
    );
    if is_at_least(oa.agreeableness, 7) && is_at_least(ob.agreeableness, 7) {
        st.push(Note::Mediation);
    } else if is_at_most(oa.agreeableness, 4) && is_at_most(ob.agreeableness, 4) {
        st.push(Note::Directness);
    }
    push_note(
        &mut st,
        is_at_least(oa.conscientiousness, 7) || is_at_least(ob.conscientiousness, 7),
        Note::StructuredInfo,
    );
    let both = p.a.first_trigger.is_some() && p.b.first_trigger.is_some();
    push_note(&mut st, both && p.trigger_synergy == Leaning::Negative, Note::MutualTriggering);
    push_note(
        &mut st,
        both && p.trigger_synergy == Leaning::Positive,
        Note::BehavioralComplementarity,
    );
    st
}

fn with_fallback(v: &mut Vec<Note>, n: Note)
    ensures
        final(v)@ == or_note(old(v)@, n),
{
    if v.len() == 0 {
        v.push(n);
        assert(v@ =~= seq![n]);
    }
}

/// The comparison analysis of two people: the synergies and frictions
/// between them and the strategies for working together, each list in the
/// order the analysis finds them; an empty list gets its fallback note, and
/// the headline strategy is the first one.
pub fn compare_analysis(p: &PairProfile) -> (r: Analysis)
    ensures
        r.synergies@ == or_note(raw_synergies(*p), Note::NoSynergy),
        r.frictions@ == or_note(raw_frictions(*p), Note::NoFriction),
        r.strategies@ == or_note(raw_strategies(*p), Note::OpenCommunication),
        r.top_strategy == r.strategies@[0],
{
    let (mut syn, mut fri) = head_notes(p);
    add_rep_notes(p, &mut syn, &mut fri);
    tail_notes(p, &mut syn, &mut fri);
    let mut st = strategy_notes(p);
    with_fallback(&mut syn, Note::NoSynergy);
    with_fallback(&mut fri, Note::NoFriction);
    with_fallback(&mut st, Note::OpenCommunication);
    let top = st[0];
    Analysis { synergies: syn, frictions: fri, top_strategy: top, strategies: st }
}


/// The analysis always has something to say: each list has at least one
/// note, and the headline strategy is the first strategy.
pub proof fn lemma_analysis_never_empty(p: PairProfile)
    ensures
        or_note(raw_synergies(p), Note::NoSynergy).len() >= 1,
        or_note(raw_frictions(p), Note::NoFriction).len() >= 1,
        or_note(raw_strategies(p), Note::OpenCommunication).len() >= 1,
        raw_strategies(p).len() == 0 ==> or_note(raw_strategies(p), Note::OpenCommunication)[0]
            == Note::OpenCommunication,
{
}

/// `f` holds of exactly one note of `s`.
pub open spec fn once(s: Seq<Note>, f: spec_fn(Note) -> bool) -> bool {
    &&& exists|i: int| 0 <= i < s.len() && #[trigger] f(s[i])
    &&& forall|i: int, j: int|
        0 <= i < s.len() && 0 <= j < s.len() && #[trigger] f(s[i]) && #[trigger] f(s[j]) ==> i == j
}

/// `f` holds of no note of `s`.
pub open spec fn never(s: Seq<Note>, f: spec_fn(Note) -> bool) -> bool {
    forall|i: int| 0 <= i < s.len() ==> !#[trigger] f(s[i])
}

/// How `once` and `never` fare when a note is appended.
pub proof fn lemma_once_push(s: Seq<Note>, x: Note, f: spec_fn(Note) -> bool)
    ensures
        f(x) && never(s, f) ==> once(s.push(x), f),
        !f(x) && once(s, f) ==> once(s.push(x), f),
        !f(x) && never(s, f) ==> never(s.push(x), f),
{
    let t = s.push(x);
    assert forall|i: int| 0 <= i < s.len() implies t[i] == s[i] by {}
    assert(t[s.len() as int] == x);
    if f(x) && never(s, f) {
        assert(f(t[s.len() as int]));
        assert forall|i: int, j: int|
            0 <= i < t.len() && 0 <= j < t.len() && #[trigger] f(t[i]) && #[trigger] f(t[j]) implies i == j by {
            if i < s.len() {
                assert(f(s[i]));
            }
            if j < s.len() {
                assert(f(s[j]));
            }
        }
    }
    if !f(x) && once(s, f) {
        let w = choose|i: int| 0 <= i < s.len() && #[trigger] f(s[i]);
        assert(f(t[w]));
        assert forall|i: int, j: int|
            0 <= i < t.len() && 0 <= j < t.len() && #[trigger] f(t[i]) && #[trigger] f(t[j]) implies i == j by {
            assert(i < s.len() && j < s.len());
            assert(f(s[i]) && f(s[j]));
        }
    }
    if !f(x) && never(s, f) {
        assert forall|i: int| 0 <= i < t.len() implies !#[trigger] f(t[i]) by {
            if i < s.len() {
                assert(!f(s[i]));
            }
        }
    }
}

/// How `once` and `never` fare when two lists are joined.
pub proof fn lemma_once_concat(s: Seq<Note>, t: Seq<Note>, f: spec_fn(Note) -> bool)
    ensures
        once(s, f) && never(t, f) ==> once(s + t, f),
        never(s, f) && once(t, f) ==> once(s + t, f),
        never(s, f) && never(t, f) ==> never(s + t, f),
{
    let u = s + t;
    assert forall|i: int| 0 <= i < s.len() implies u[i] == s[i] by {}
    assert forall|i: int| s.len() <= i < u.len() implies u[i] == t[i - s.len()] by {}
    if once(s, f) && never(t, f) {
        let w = choose|i: int| 0 <= i < s.len() && #[trigger] f(s[i]);
        assert(f(u[w]));
        assert forall|i: int, j: int|
            0 <= i < u.len() && 0 <= j < u.len() && #[trigger] f(u[i]) && #[trigger] f(u[j]) implies i == j by {
            if i >= s.len() {
                assert(!f(t[i - s.len()]));
            }
            if j >= s.len() {
                assert(!f(t[j - s.len()]));
            }
            assert(f(s[i]) && f(s[j]));
        }
    }
    if never(s, f) && once(t, f) {
        let w = choose|i: int| 0 <= i < t.len() && #[trigger] f(t[i]);
        assert(f(u[w + s.len()]));
        assert forall|i: int, j: int|
            0 <= i < u.len() && 0 <= j < u.len() && #[trigger] f(u[i]) && #[trigger] f(u[j]) implies i == j by {
            if i < s.len() {
                assert(!f(s[i]));
            }
            if j < s.len() {
                assert(!f(s[j]));
            }
            assert(f(t[i - s.len()]) && f(t[j - s.len()]));
        }
    }
    if never(s, f) && never(t, f) {
        assert forall|i: int| 0 <= i < u.len() implies !#[trigger] f(u[i]) by {
            if i < s.len() {
                assert(!f(s[i]));
            } else {
                assert(!f(t[i - s.len()]));
            }
        }
    }
}

/// The reputation synergies are affinity notes, and each is about a
/// dimension among the first `k` whose two scores earn it.
pub proof fn lemma_rep_synergy_notes(a: RepScores, b: RepScores, k: nat, d: RepDim)
    requires
        k <= REP_DIM_COUNT,
    ensures
        forall|i: int|
            0 <= i < rep_synergies(a, b, k).len() ==> (#[trigger] rep_synergies(a, b, k)[i] is RepAffinityHigh
                || rep_synergies(a, b, k)[i] is RepAffinityLow),
        ({
            let hit = dim_index(d) < k && rep_score(a, d) is Some && rep_score(b, d) is Some;
            let va = rep_score(a, d)->0;
            let vb = rep_score(b, d)->0;
            let high = |n: Note| n == Note::RepAffinityHigh { dim: d };
            let low = |n: Note| n == Note::RepAffinityLow { dim: d };
            &&& (hit && rep_synergy(va, vb, d) == Some(Note::RepAffinityHigh { dim: d })) ==> once(rep_synergies(a, b, k), high)
            &&& !(hit && rep_synergy(va, vb, d) == Some(Note::RepAffinityHigh { dim: d })) ==> never(rep_synergies(a, b, k), high)
            &&& (hit && rep_synergy(va, vb, d) == Some(Note::RepAffinityLow { dim: d })) ==> once(rep_synergies(a, b, k), low)
            &&& !(hit && rep_synergy(va, vb, d) == Some(Note::RepAffinityLow { dim: d })) ==> never(rep_synergies(a, b, k), low)
        }),
    decreases k,
{
    if k > 0 {
        lemma_rep_synergy_notes(a, b, (k - 1) as nat, d);
        let prev = rep_synergies(a, b, (k - 1) as nat);
        let e = rep_dim_at(k - 1);
        assert(e == d <==> dim_index(d) == k - 1);
        let high = |n: Note| n == Note::RepAffinityHigh { dim: d };
        let low = |n: Note| n == Note::RepAffinityLow { dim: d };
        match (rep_score(a, e), rep_score(b, e)) {
            (Some(va), Some(vb)) => match rep_synergy(va, vb, e) {
                Some(n) => {
                    lemma_once_push(prev, n, high);
                    lemma_once_push(prev, n, low);
                },
                None => {},
            },
            _ => {},
        }
    }
}

/// The reputation frictions are imbalance notes, and each is about a
/// dimension among the first `k` whose two scores are more than 2 apart.
pub proof fn lemma_rep_friction_notes(a: RepScores, b: RepScores, k: nat, d: RepDim, pole: Pole)
    requires
        k <= REP_DIM_COUNT,
    ensures
        forall|i: int|
            0 <= i < rep_frictions(a, b, k).len() ==> #[trigger] rep_frictions(a, b, k)[i] is RepImbalance,
        ({
            let hit = dim_index(d) < k && rep_score(a, d) is Some && rep_score(b, d) is Some;
            let va = rep_score(a, d)->0;
            let vb = rep_score(b, d)->0;
            let imb = |n: Note| n == Note::RepImbalance { dim: d, pole: pole };
            &&& (hit && rep_friction(va, vb, d) == Some(Note::RepImbalance { dim: d, pole: pole })) ==> once(rep_frictions(a, b, k), imb)
            &&& !(hit && rep_friction(va, vb, d) == Some(Note::RepImbalance { dim: d, pole: pole })) ==> never(rep_frictions(a, b, k), imb)
        }),
    decreases k,
{
    if k > 0 {
        lemma_rep_friction_notes(a, b, (k - 1) as nat, d, pole);
        let prev = rep_frictions(a, b, (k - 1) as nat);
        let e = rep_dim_at(k - 1);
        assert(e == d <==> dim_index(d) == k - 1);
        let imb = |n: Note| n == Note::RepImbalance { dim: d, pole: pole };
        match (rep_score(a, e), rep_score(b, e)) {
            (Some(va), Some(vb)) => match rep_friction(va, vb, e) {
                Some(n) => {
                    lemma_once_push(prev, n, imb);
                },
                None => {},
            },
            _ => {},
        }
    }
}


/// How `once` and `never` fare when a note is appended under a condition,
/// and when an empty list falls back to a note.
pub proof fn lemma_once_note_if(s: Seq<Note>, c: bool, n: Note, f: spec_fn(Note) -> bool)
    ensures
        !f(n) && once(s, f) ==> once(note_if(s, c, n), f),
        !f(n) && never(s, f) ==> never(note_if(s, c, n), f),
        f(n) && c && never(s, f) ==> once(note_if(s, c, n), f),
        !(f(n) && c) && never(s, f) ==> never(note_if(s, c, n), f),
        !f(n) && once(s, f) ==> once(or_note(s, n), f),
        !f(n) && never(s, f) ==> never(or_note(s, n), f),
{
    lemma_once_push(s, n, f);
    if s.len() == 0 {
        lemma_once_push(s, n, f);
        assert(seq![n] =~= s.push(n));
    }
}

/// The synergies hold a kind of note exactly once, or never, as their part
/// before the reputation dimensions and the reputation part do, for a kind
/// that the later synergies and the fallback are not of.
pub proof fn lemma_synergy_parts(p: PairProfile, f: spec_fn(Note) -> bool)
    requires
        !f(Note::PatternResponses),
        !f(Note::BothAdaptChange),
        !f(Note::BothReceptiveFeedback),
        !f(Note::AdaptAndLearn),
        !f(Note::NoSynergy),
    ensures
        ({
            let h = synergy_head(p);
            let r = rep_synergies(p.a.rep, p.b.rep, REP_DIM_COUNT as nat);
            let out = or_note(raw_synergies(p), Note::NoSynergy);
            &&& (once(h, f) && never(r, f)) ==> once(out, f)
            &&& (never(h, f) && once(r, f)) ==> once(out, f)
            &&& (never(h, f) && never(r, f)) ==> never(out, f)
        }),
{
    let h = synergy_head(p);
    let r = rep_synergies(p.a.rep, p.b.rep, REP_DIM_COUNT as nat);
    lemma_once_concat(h, r, f);
    let s0 = h + r;
    let s1 = note_if(s0, both_patterns(p), Note::PatternResponses);
    let s2 = note_if(s1, triggers_are(p, BehaviorTrigger::Change, BehaviorTrigger::Change), Note::BothAdaptChange);
    let s3 = note_if(
        s2,
        triggers_are(p, BehaviorTrigger::Feedback, BehaviorTrigger::Feedback),
        Note::BothReceptiveFeedback,
    );
    let c4 = triggers_are(p, BehaviorTrigger::Change, BehaviorTrigger::Feedback) || triggers_are(
        p,
        BehaviorTrigger::Feedback,
        BehaviorTrigger::Change,
    );
    let s4 = note_if(s3, c4, Note::AdaptAndLearn);
    assert(s4 == raw_synergies(p));
    lemma_once_note_if(s0, both_patterns(p), Note::PatternResponses, f);
    lemma_once_note_if(s1, triggers_are(p, BehaviorTrigger::Change, BehaviorTrigger::Change), Note::BothAdaptChange, f);
    lemma_once_note_if(
        s2,
        triggers_are(p, BehaviorTrigger::Feedback, BehaviorTrigger::Feedback),
        Note::BothReceptiveFeedback,
        f,
    );
    lemma_once_note_if(s3, c4, Note::AdaptAndLearn, f);
    lemma_once_note_if(s4, false, Note::NoSynergy, f);
}

/// The frictions hold a kind of note exactly once, or never, as their part
/// before the reputation dimensions and the reputation part do, for a kind
/// that the later frictions and the fallback are not of.
pub proof fn lemma_friction_parts(p: PairProfile, f: spec_fn(Note) -> bool)
    requires
        !f(Note::BiasClash),
        !f(Note::SameBias),
        !f(Note::BothCombative),
        !f(Note::BothStressed),
        !f(Note::ExtraversionGap),
        !f(Note::NoFriction),
    ensures
        ({
            let h = friction_head(p);
            let r = rep_frictions(p.a.rep, p.b.rep, REP_DIM_COUNT as nat);
            let out = or_note(raw_frictions(p), Note::NoFriction);
            &&& (once(h, f) && never(r, f)) ==> once(out, f)
            &&& (never(h, f) && once(r, f)) ==> once(out, f)
            &&& (never(h, f) && never(r, f)) ==> never(out, f)
        }),
{
    let h = friction_head(p);
    let r = rep_frictions(p.a.rep, p.b.rep, REP_DIM_COUNT as nat);
    lemma_once_concat(h, r, f);
    let s0 = h + r;
    let s1 = match (p.a.top_bias, p.b.top_bias) {
        (Some(x), Some(y)) => if x != y {
            s0.push(Note::BiasClash)
        } else {
            s0.push(Note::SameBias)
        },
        _ => s0,
    };
    lemma_once_push(s0, Note::BiasClash, f);
    lemma_once_push(s0, Note::SameBias, f);
    let s2 = note_if(s1, triggers_are(p, BehaviorTrigger::Conflict, BehaviorTrigger::Conflict), Note::BothCombative);
    let s3 = note_if(s2, triggers_are(p, BehaviorTrigger::Stress, BehaviorTrigger::Stress), Note::BothStressed);
    let s4 = note_if(s3, apart_by(p.a.ocean.extraversion, p.b.ocean.extraversion, 4), Note::ExtraversionGap);
    assert(s4 == raw_frictions(p));
    lemma_once_note_if(s1, triggers_are(p, BehaviorTrigger::Conflict, BehaviorTrigger::Conflict), Note::BothCombative, f);
    lemma_once_note_if(s2, triggers_are(p, BehaviorTrigger::Stress, BehaviorTrigger::Stress), Note::BothStressed, f);
    lemma_once_note_if(s3, apart_by(p.a.ocean.extraversion, p.b.ocean.extraversion, 4), Note::ExtraversionGap, f);
    lemma_once_note_if(s4, false, Note::NoFriction, f);
}

/// Whether one side's openness meets the other's conscientiousness, both at
/// least 7.
pub open spec fn creative_pair(p: PairProfile) -> bool {
    (at_least(p.a.ocean.openness, 7) && at_least(p.b.ocean.conscientiousness, 7)) || (at_least(
        p.b.ocean.openness,
        7,
    ) && at_least(p.a.ocean.conscientiousness, 7))
}

/// The creative-vision synergy appears exactly once when one side's
/// openness meets the other's conscientiousness (both at least 7), and then
/// the similar-profiles synergy does not; otherwise the creative-vision one
/// never appears, and the similar-profiles one appears exactly once when
/// both openness and both conscientiousness scores are set and within 2.
pub proof fn lemma_creative_vision_once(p: PairProfile)
    ensures
        ({
            let out = or_note(raw_synergies(p), Note::NoSynergy);
            let creative = |n: Note| n is CreativeExecution;
            let similar = |n: Note| n is SimilarOcean;
            let close = close_within(p.a.ocean.openness, p.b.ocean.openness, 2) && close_within(
                p.a.ocean.conscientiousness,
                p.b.ocean.conscientiousness,
                2,
            );
            &&& creative_pair(p) ==> once(out, creative) && never(out, similar)
            &&& !creative_pair(p) ==> never(out, creative)
            &&& !creative_pair(p) && close ==> once(out, similar)
            &&& !creative_pair(p) && !close ==> never(out, similar)
        }),
{
    let creative = |n: Note| n is CreativeExecution;
    let similar = |n: Note| n is SimilarOcean;
    let r = rep_synergies(p.a.rep, p.b.rep, REP_DIM_COUNT as nat);
    lemma_rep_synergy_notes(p.a.rep, p.b.rep, REP_DIM_COUNT as nat, RepDim::HardworkerLazy);
    assert(never(r, creative));
    assert(never(r, similar));
    let oa = p.a.ocean;
    let ob = p.b.ocean;
    let e = Seq::<Note>::empty();
    let s1 = if at_least(oa.openness, 7) && at_least(ob.conscientiousness, 7) {
        e.push(Note::CreativeExecution { visionary: Side::A })
    } else if at_least(ob.openness, 7) && at_least(oa.conscientiousness, 7) {
        e.push(Note::CreativeExecution { visionary: Side::B })
    } else if close_within(oa.openness, ob.openness, 2) && close_within(
        oa.conscientiousness,
        ob.conscientiousness,
        2,
    ) {
        e.push(Note::SimilarOcean)
    } else {
        e
    };
    assert(never(e, creative) && never(e, similar));
    lemma_once_push(e, Note::CreativeExecution { visionary: Side::A }, creative);
    lemma_once_push(e, Note::CreativeExecution { visionary: Side::B }, creative);
    lemma_once_push(e, Note::CreativeExecution { visionary: Side::A }, similar);
    lemma_once_push(e, Note::CreativeExecution { visionary: Side::B }, similar);
    lemma_once_push(e, Note::SimilarOcean, creative);
    lemma_once_push(e, Note::SimilarOcean, similar);
    let c2 = (at_least(oa.extraversion, 7) && at_least(ob.agreeableness, 7)) || (at_least(
        ob.extraversion,
        7,
    ) && at_least(oa.agreeableness, 7));
    let s2 = note_if(s1, c2, Note::DriveHarmony);
    let c3 = both_motivated(p) && p.motivation_synergy == Leaning::Positive;
    let s3 = note_if(s2, c3, Note::ComplementaryMotivations);
    let c4 = both_motivated(p) && p.a.top_motivation == p.b.top_motivation;
    let s4 = note_if(s3, c4, Note::SharedMotivation);
    assert(s4 == synergy_head(p));
    lemma_once_note_if(s1, c2, Note::DriveHarmony, creative);
    lemma_once_note_if(s2, c3, Note::ComplementaryMotivations, creative);
    lemma_once_note_if(s3, c4, Note::SharedMotivation, creative);
    lemma_once_note_if(s1, c2, Note::DriveHarmony, similar);
    lemma_once_note_if(s2, c3, Note::ComplementaryMotivations, similar);
    lemma_once_note_if(s3, c4, Note::SharedMotivation, similar);
    lemma_synergy_parts(p, creative);
    lemma_synergy_parts(p, similar);
}

/// The stress-reactivity friction appears exactly once, naming the side
/// with the higher neuroticism, when both neuroticism scores are set and at
/// least 3 apart; otherwise it never appears.
pub proof fn lemma_stress_reactivity_once(p: PairProfile)
    ensures
        ({
            let out = or_note(raw_frictions(p), Note::NoFriction);
            let any = |n: Note| n is StressReactivity;
            match (p.a.ocean.neuroticism, p.b.ocean.neuroticism) {
                (Some(x), Some(y)) => if gap(x, y) >= 3 {
                    let hi = if x <= y { Side::B } else { Side::A };
                    once(out, any) && once(out, |n: Note| n == Note::StressReactivity { reactive: hi })
                } else {
                    never(out, any)
                },
                _ => never(out, any),
            }
        }),
{
    let any = |n: Note| n is StressReactivity;
    let r = rep_frictions(p.a.rep, p.b.rep, REP_DIM_COUNT as nat);
    lemma_rep_friction_notes(p.a.rep, p.b.rep, REP_DIM_COUNT as nat, RepDim::HardworkerLazy, Pole::First);
    let oa = p.a.ocean;
    let ob = p.b.ocean;
    let e = Seq::<Note>::empty();
    let c1 = both_motivated(p) && p.motivation_synergy == Leaning::Negative;
    let s1 = note_if(e, c1, Note::CompetingMotivations);
    let s2 = if at_least(oa.agreeableness, 7) && at_most(ob.agreeableness, 4) {
        s1.push(Note::AgreeablenessGap { low: Side::B })
    } else if at_least(ob.agreeableness, 7) && at_most(oa.agreeableness, 4) {
        s1.push(Note::AgreeablenessGap { low: Side::A })
    } else {
        s1
    };
    assert(s1.len() <= 1 && (s1.len() == 1 ==> s1[0] == Note::CompetingMotivations));
    assert(forall|i: int| 0 <= i < s2.len() ==> !(#[trigger] s2[i] is StressReactivity));
    assert(friction_head(p) == match (oa.neuroticism, ob.neuroticism) {
        (Some(na), Some(nb)) => if gap(na, nb) >= 3 {
            s2.push(Note::StressReactivity { reactive: if na <= nb { Side::B } else { Side::A } })
        } else {
            s2
        },
        _ => s2,
    });
    match (oa.neuroticism, ob.neuroticism) {
        (Some(x), Some(y)) => {
            let hi = if x <= y { Side::B } else { Side::A };
            let exact = |n: Note| n == Note::StressReactivity { reactive: hi };
            assert(never(r, exact));
            assert(never(s2, exact));
            assert(never(r, any));
            assert(never(s2, any));
            lemma_once_push(s2, Note::StressReactivity { reactive: hi }, any);
            lemma_once_push(s2, Note::StressReactivity { reactive: hi }, exact);
            lemma_friction_parts(p, any);
            lemma_friction_parts(p, exact);
        },
        _ => {
            assert(never(r, any));
            assert(never(s2, any));
            lemma_friction_parts(p, any);
        },
    }
}

/// Per reputation dimension on which both are scored: both high (7 or more)
/// and within 2 gives exactly one natural-affinity synergy, both low (3 or
/// less) and within 2 exactly one camaraderie synergy, and more than 2 apart
/// exactly one imbalance friction towards the pole of A's side (the high
/// pole when A scores higher); each of these notes appears on no other
/// terms.
pub proof fn lemma_reputation_notes(p: PairProfile, d: RepDim)
    ensures
        ({
            let syn = or_note(raw_synergies(p), Note::NoSynergy);
            let fri = or_note(raw_frictions(p), Note::NoFriction);
            let both = rep_score(p.a.rep, d) is Some && rep_score(p.b.rep, d) is Some;
            let va = rep_score(p.a.rep, d)->0;
            let vb = rep_score(p.b.rep, d)->0;
            let high = |n: Note| n == Note::RepAffinityHigh { dim: d };
            let low = |n: Note| n == Note::RepAffinityLow { dim: d };
            let up = |n: Note| n == Note::RepImbalance { dim: d, pole: Pole::First };
            let down = |n: Note| n == Note::RepImbalance { dim: d, pole: Pole::Second };
            &&& (both && gap(va, vb) <= 2 && va >= 7 && vb >= 7) ==> once(syn, high)
            &&& !(both && gap(va, vb) <= 2 && va >= 7 && vb >= 7) ==> never(syn, high)
            &&& (both && gap(va, vb) <= 2 && va <= 3 && vb <= 3) ==> once(syn, low)
            &&& !(both && gap(va, vb) <= 2 && va <= 3 && vb <= 3) ==> never(syn, low)
            &&& (both && gap(va, vb) > 2 && va > vb) ==> once(fri, up)
            &&& !(both && gap(va, vb) > 2 && va > vb) ==> never(fri, up)
            &&& (both && gap(va, vb) > 2 && va < vb) ==> once(fri, down)
            &&& !(both && gap(va, vb) > 2 && va < vb) ==> never(fri, down)
        }),
{
    let high = |n: Note| n == Note::RepAffinityHigh { dim: d };
    let low = |n: Note| n == Note::RepAffinityLow { dim: d };
    let up = |n: Note| n == Note::RepImbalance { dim: d, pole: Pole::First };
    let down = |n: Note| n == Note::RepImbalance { dim: d, pole: Pole::Second };
    let k = REP_DIM_COUNT as nat;
    assert(dim_index(d) < 13);
    lemma_rep_synergy_notes(p.a.rep, p.b.rep, k, d);
    lemma_rep_friction_notes(p.a.rep, p.b.rep, k, d, Pole::First);
    lemma_rep_friction_notes(p.a.rep, p.b.rep, k, d, Pole::Second);
    let sh = synergy_head(p);
    assert(forall|i: int| 0 <= i < sh.len() ==> !(#[trigger] sh[i] is RepAffinityHigh) && !(sh[i] is RepAffinityLow)) by {
        let oa = p.a.ocean;
        let ob = p.b.ocean;
        let e = Seq::<Note>::empty();
        let s1 = if at_least(oa.openness, 7) && at_least(ob.conscientiousness, 7) {
            e.push(Note::CreativeExecution { visionary: Side::A })
        } else if at_least(ob.openness, 7) && at_least(oa.conscientiousness, 7) {
            e.push(Note::CreativeExecution { visionary: Side::B })
        } else if close_within(oa.openness, ob.openness, 2) && close_within(
            oa.conscientiousness,
            ob.conscientiousness,
            2,
        ) {
            e.push(Note::SimilarOcean)
        } else {
            e
        };
        assert(forall|i: int| 0 <= i < s1.len() ==> !(#[trigger] s1[i] is RepAffinityHigh) && !(s1[i] is RepAffinityLow));
    }
    assert(never(sh, high));
    assert(never(sh, low));
    let fh = friction_head(p);
    assert(forall|i: int| 0 <= i < fh.len() ==> !(#[trigger] fh[i] is RepImbalance)) by {
        let oa = p.a.ocean;
        let ob = p.b.ocean;
        let e = Seq::<Note>::empty();
        let c1 = both_motivated(p) && p.motivation_synergy == Leaning::Negative;
        let s1 = note_if(e, c1, Note::CompetingMotivations);
        assert(s1.len() <= 1 && (s1.len() == 1 ==> s1[0] == Note::CompetingMotivations));
    }
    assert(never(fh, up));
    assert(never(fh, down));
    lemma_synergy_parts(p, high);
    lemma_synergy_parts(p, low);
    lemma_friction_parts(p, up);
    lemma_friction_parts(p, down);
}


/// What a list of notes holds, and whether it repeats a note, once a note is
/// appended under a condition.
proof fn lemma_note_if_holds(s: Seq<Note>, c: bool, n: Note)
    ensures
        forall|x: Note| #[trigger] note_if(s, c, n).contains(x) <==> s.contains(x) || (c && x == n),
        s.no_duplicates() && !(c && s.contains(n)) ==> note_if(s, c, n).no_duplicates(),
        note_if(s, c, n).len() == s.len() + if c { 1int } else { 0 },
{
    if c {
        let t = s.push(n);
        assert forall|x: Note| #[trigger] t.contains(x) <==> s.contains(x) || x == n by {
            if t.contains(x) {
                let i = choose|i: int| 0 <= i < t.len() && t[i] == x;
                if i < s.len() {
                    assert(s[i] == x);
                }
            }
            if s.contains(x) {
                let i = choose|i: int| 0 <= i < s.len() && s[i] == x;
                assert(t[i] == x);
            }
            if x == n {
                assert(t[s.len() as int] == n);
            }
        }
        if s.no_duplicates() && !s.contains(n) {
            assert forall|i: int, j: int| 0 <= i < t.len() && 0 <= j < t.len() && i != j implies t[i] != t[j] by {
                if i == s.len() {
                    assert(t[j] == s[j]);
                } else if j == s.len() {
                    assert(t[i] == s[i]);
                } else {
                    assert(t[i] == s[i] && t[j] == s[j]);
                }
            }
        }
    }
}

/// What a list of notes holds once an empty list falls back to `n`.
proof fn lemma_or_note_holds(s: Seq<Note>, n: Note)
    ensures
        forall|x: Note| #[trigger] or_note(s, n).contains(x) <==> s.contains(x) || (s.len() == 0 && x == n),
        s.no_duplicates() ==> or_note(s, n).no_duplicates(),
{
    if s.len() == 0 {
        assert forall|x: Note| #[trigger] seq![n].contains(x) <==> x == n by {
            if x == n {
                assert(seq![n][0] == n);
            }
        }
    }
}

/// Both scores are set and at least `t` apart.
pub open spec fn scores_apart(x: Option<u8>, y: Option<u8>, t: int) -> bool {
    x matches Some(u) && y matches Some(v) && (u - v >= t || v - u >= t)
}

/// The strategies for two people: none repeats, and each is offered exactly
/// when its condition holds, whatever the other scores: initiative, public
/// recognition and stable frameworks when either top motivation (both being
/// known) is power, recognition or security; different social pace when both
/// extraversion scores are set and at least 3 apart, naming the more
/// extraverted (A on a tie of direction); different conflict styles and
/// organisation levels when the agreeableness, resp. conscientiousness,
/// scores are set and at least 3 apart; mediation when both are agreeable (7
/// or more), directness when both are disagreeable (4 or less); structured
/// information when either is conscientious (7 or more); mutual triggering
/// or behavioural complementarity when both have a first pattern and the
/// triggers lean negative or positive; and open communication exactly when
/// nothing else applies.
#[verifier::spinoff_prover]
#[verifier::rlimit(80)]
pub proof fn lemma_strategy_conditions(p: PairProfile)
    ensures
        ({
            let r = or_note(raw_strategies(p), Note::OpenCommunication);
            let oa = p.a.ocean;
            let ob = p.b.ocean;
            let both_mot = p.a.top_motivation is Some && p.b.top_motivation is Some;
            let mot = |k: MotivationType| both_mot && (p.a.top_motivation == Some(k) || p.b.top_motivation == Some(k));
            let pace = scores_apart(oa.extraversion, ob.extraversion, 3);
            let more = if oa.extraversion->0 >= ob.extraversion->0 { Side::A } else { Side::B };
            let agreeable = (oa.agreeableness matches Some(x) && x >= 7) && (ob.agreeableness matches Some(y) && y >= 7);
            let blunt = (oa.agreeableness matches Some(x) && x <= 4) && (ob.agreeableness matches Some(y) && y <= 4);
            let careful = (oa.conscientiousness matches Some(x) && x >= 7) || (ob.conscientiousness matches Some(y) && y >= 7);
            let patterns = p.a.first_trigger is Some && p.b.first_trigger is Some;
            let any = mot(MotivationType::Power) || mot(MotivationType::Recognition) || mot(MotivationType::Security)
                || pace || scores_apart(oa.agreeableness, ob.agreeableness, 3) || scores_apart(
                oa.conscientiousness,
                ob.conscientiousness,
                3,
            ) || agreeable || blunt || careful || (patterns && p.trigger_synergy != Leaning::Neutral);
            &&& r.no_duplicates()
            &&& r.contains(Note::PowerInitiative) <==> mot(MotivationType::Power)
            &&& r.contains(Note::PublicRecognition) <==> mot(MotivationType::Recognition)
            &&& r.contains(Note::StableFrameworks) <==> mot(MotivationType::Security)
            &&& r.contains(Note::SocialPace { more: more }) <==> pace
            &&& !r.contains(Note::SocialPace { more: if more == Side::A { Side::B } else { Side::A } })
            &&& r.contains(Note::ConflictStyles) <==> scores_apart(oa.agreeableness, ob.agreeableness, 3)
            &&& r.contains(Note::OrganizationLevels) <==> scores_apart(oa.conscientiousness, ob.conscientiousness, 3)
            &&& r.contains(Note::Mediation) <==> agreeable
            &&& r.contains(Note::Directness) <==> blunt
            &&& r.contains(Note::StructuredInfo) <==> careful
            &&& r.contains(Note::MutualTriggering) <==> patterns && p.trigger_synergy == Leaning::Negative
            &&& r.contains(Note::BehavioralComplementarity) <==> patterns && p.trigger_synergy == Leaning::Positive
            &&& r.contains(Note::OpenCommunication) <==> !any
        }),
{
    let oa = p.a.ocean;
    let ob = p.b.ocean;
    let s0 = Seq::<Note>::empty();
    let s1 = note_if(s0, either_motivation(p, MotivationType::Power), Note::PowerInitiative);
    lemma_note_if_holds(s0, either_motivation(p, MotivationType::Power), Note::PowerInitiative);
    let s2 = note_if(s1, either_motivation(p, MotivationType::Recognition), Note::PublicRecognition);
    lemma_note_if_holds(s1, either_motivation(p, MotivationType::Recognition), Note::PublicRecognition);
    let s3 = note_if(s2, either_motivation(p, MotivationType::Security), Note::StableFrameworks);
    lemma_note_if_holds(s2, either_motivation(p, MotivationType::Security), Note::StableFrameworks);
    let pace = apart_by(oa.extraversion, ob.extraversion, 3);
    let more = if oa.extraversion->0 >= ob.extraversion->0 { Side::A } else { Side::B };
    let s4 = note_if(s3, pace, Note::SocialPace { more: more });
    lemma_note_if_holds(s3, pace, Note::SocialPace { more: more });
    assert(s4 == match (oa.extraversion, ob.extraversion) {
        (Some(ea), Some(eb)) => if gap(ea, eb) >= 3 {
            s3.push(Note::SocialPace { more: if ea >= eb { Side::A } else { Side::B } })
        } else {
            s3
        },
        _ => s3,
    });
    let s5 = note_if(s4, apart_by(oa.agreeableness, ob.agreeableness, 3), Note::ConflictStyles);
    lemma_note_if_holds(s4, apart_by(oa.agreeableness, ob.agreeableness, 3), Note::ConflictStyles);
    let s6 = note_if(s5, apart_by(oa.conscientiousness, ob.conscientiousness, 3), Note::OrganizationLevels);
    lemma_note_if_holds(s5, apart_by(oa.conscientiousness, ob.conscientiousness, 3), Note::OrganizationLevels);
    let med = at_least(oa.agreeableness, 7) && at_least(ob.agreeableness, 7);
    let dir = !med && at_most(oa.agreeableness, 4) && at_most(ob.agreeableness, 4);
    let s7a = note_if(s6, med, Note::Mediation);
    lemma_note_if_holds(s6, med, Note::Mediation);
    let s7 = note_if(s7a, dir, Note::Directness);
    lemma_note_if_holds(s7a, dir, Note::Directness);
    let s8 = note_if(s7, at_least(oa.conscientiousness, 7) || at_least(ob.conscientiousness, 7), Note::StructuredInfo);
    lemma_note_if_holds(s7, at_least(oa.conscientiousness, 7) || at_least(ob.conscientiousness, 7), Note::StructuredInfo);
    let s9 = note_if(s8, both_patterns(p) && p.trigger_synergy == Leaning::Negative, Note::MutualTriggering);
    lemma_note_if_holds(s8, both_patterns(p) && p.trigger_synergy == Leaning::Negative, Note::MutualTriggering);
    let s10 = note_if(s9, both_patterns(p) && p.trigger_synergy == Leaning::Positive, Note::BehavioralComplementarity);
    lemma_note_if_holds(s9, both_patterns(p) && p.trigger_synergy == Leaning::Positive, Note::BehavioralComplementarity);
    assert(s10 == raw_strategies(p));
    lemma_or_note_holds(s10, Note::OpenCommunication);
}


/// What two joined lists of notes hold.
proof fn lemma_concat_holds(a: Seq<Note>, b: Seq<Note>)
    ensures
        forall|x: Note| #[trigger] (a + b).contains(x) <==> a.contains(x) || b.contains(x),
{
    assert forall|x: Note| #[trigger] (a + b).contains(x) <==> a.contains(x) || b.contains(x) by {
        if (a + b).contains(x) {
            let i = choose|i: int| 0 <= i < (a + b).len() && (a + b)[i] == x;
            if i < a.len() {
                assert(a[i] == x);
            } else {
                assert(b[i - a.len()] == x);
            }
        }
        if a.contains(x) {
            let i = choose|i: int| 0 <= i < a.len() && a[i] == x;
            assert((a + b)[i] == x);
        }
        if b.contains(x) {
            let i = choose|i: int| 0 <= i < b.len() && b[i] == x;
            assert((a + b)[i + a.len()] == x);
        }
    }
}

/// Both scores are set and at least `t`.
pub open spec fn both_at_least(x: Option<u8>, y: Option<u8>, t: int) -> bool {
    x matches Some(u) && y matches Some(v) && u >= t && v >= t
}

/// The synergies other than the reputation ones, each found exactly when
/// its condition holds: creative vision on A's side when A's openness and
/// B's conscientiousness are 7 or more, else on B's side when the reverse
/// holds; otherwise similar profiles when both openness and both
/// conscientiousness scores are set and within 2; drive and harmony when one
/// side's extraversion and the other's agreeableness are 7 or more;
/// complementary motivations when both top motivations are known and lean
/// positive; a shared motivation when both are known and equal; the pattern
/// responses when both have a first pattern, and the paired reactions when
/// those patterns are triggered by change and change, feedback and
/// feedback, or change and feedback in either order.
#[verifier::spinoff_prover]
#[verifier::rlimit(80)]
pub proof fn lemma_synergy_conditions(p: PairProfile)
    ensures
        ({
            let r = or_note(raw_synergies(p), Note::NoSynergy);
            let oa = p.a.ocean;
            let ob = p.b.ocean;
            let a_vision = (oa.openness matches Some(x) && x >= 7) && (ob.conscientiousness matches Some(y) && y >= 7);
            let b_vision = (ob.openness matches Some(x) && x >= 7) && (oa.conscientiousness matches Some(y) && y >= 7);
            let similar = (oa.openness matches Some(x) && ob.openness matches Some(y) && x - y <= 2 && y - x <= 2)
                && (oa.conscientiousness matches Some(x) && ob.conscientiousness matches Some(y) && x - y <= 2 && y - x <= 2);
            let drive = ((oa.extraversion matches Some(x) && x >= 7) && (ob.agreeableness matches Some(y) && y >= 7))
                || ((ob.extraversion matches Some(x) && x >= 7) && (oa.agreeableness matches Some(y) && y >= 7));
            let both_mot = p.a.top_motivation is Some && p.b.top_motivation is Some;
            let ta = p.a.first_trigger;
            let tb = p.b.first_trigger;
            &&& r.contains(Note::CreativeExecution { visionary: Side::A }) <==> a_vision
            &&& r.contains(Note::CreativeExecution { visionary: Side::B }) <==> !a_vision && b_vision
            &&& r.contains(Note::SimilarOcean) <==> !a_vision && !b_vision && similar
            &&& r.contains(Note::DriveHarmony) <==> drive
            &&& r.contains(Note::ComplementaryMotivations) <==> both_mot && p.motivation_synergy == Leaning::Positive
            &&& r.contains(Note::SharedMotivation) <==> both_mot && p.a.top_motivation == p.b.top_motivation
            &&& r.contains(Note::PatternResponses) <==> ta is Some && tb is Some
            &&& r.contains(Note::BothAdaptChange) <==> ta == Some(BehaviorTrigger::Change) && tb == Some(BehaviorTrigger::Change)
            &&& r.contains(Note::BothReceptiveFeedback) <==> ta == Some(BehaviorTrigger::Feedback) && tb == Some(BehaviorTrigger::Feedback)
            &&& r.contains(Note::AdaptAndLearn) <==> (ta == Some(BehaviorTrigger::Change) && tb == Some(BehaviorTrigger::Feedback))
                || (ta == Some(BehaviorTrigger::Feedback) && tb == Some(BehaviorTrigger::Change))
            &&& r.contains(Note::NoSynergy) ==> r == seq![Note::NoSynergy]
        }),
{
    let oa = p.a.ocean;
    let ob = p.b.ocean;
    let rep = rep_synergies(p.a.rep, p.b.rep, REP_DIM_COUNT as nat);
    lemma_rep_synergy_notes(p.a.rep, p.b.rep, REP_DIM_COUNT as nat, RepDim::HardworkerLazy);
    assert forall|x: Note| !(x is RepAffinityHigh) && !(x is RepAffinityLow) implies !#[trigger] rep.contains(x) by {
        if rep.contains(x) {
            let i = choose|i: int| 0 <= i < rep.len() && rep[i] == x;
        }
    }
    let e = Seq::<Note>::empty();
    let av = at_least(oa.openness, 7) && at_least(ob.conscientiousness, 7);
    let bv = !av && at_least(ob.openness, 7) && at_least(oa.conscientiousness, 7);
    let sim = !av && !bv && close_within(oa.openness, ob.openness, 2) && close_within(
        oa.conscientiousness,
        ob.conscientiousness,
        2,
    );
    let h1 = note_if(e, av, Note::CreativeExecution { visionary: Side::A });
    lemma_note_if_holds(e, av, Note::CreativeExecution { visionary: Side::A });
    let h2 = note_if(h1, bv, Note::CreativeExecution { visionary: Side::B });
    lemma_note_if_holds(h1, bv, Note::CreativeExecution { visionary: Side::B });
    let h3 = note_if(h2, sim, Note::SimilarOcean);
    lemma_note_if_holds(h2, sim, Note::SimilarOcean);
    let c4 = (at_least(oa.extraversion, 7) && at_least(ob.agreeableness, 7)) || (at_least(ob.extraversion, 7)
        && at_least(oa.agreeableness, 7));
    let h4 = note_if(h3, c4, Note::DriveHarmony);
    lemma_note_if_holds(h3, c4, Note::DriveHarmony);
    let c5 = both_motivated(p) && p.motivation_synergy == Leaning::Positive;
    let h5 = note_if(h4, c5, Note::ComplementaryMotivations);
    lemma_note_if_holds(h4, c5, Note::ComplementaryMotivations);
    let c6 = both_motivated(p) && p.a.top_motivation == p.b.top_motivation;
    let h6 = note_if(h5, c6, Note::SharedMotivation);
    lemma_note_if_holds(h5, c6, Note::SharedMotivation);
    assert(h6 == synergy_head(p));
    lemma_concat_holds(h6, rep);
    let s0 = h6 + rep;
    let s1 = note_if(s0, both_patterns(p), Note::PatternResponses);
    lemma_note_if_holds(s0, both_patterns(p), Note::PatternResponses);
    let c2 = triggers_are(p, BehaviorTrigger::Change, BehaviorTrigger::Change);
    let s2 = note_if(s1, c2, Note::BothAdaptChange);
    lemma_note_if_holds(s1, c2, Note::BothAdaptChange);
    let c3 = triggers_are(p, BehaviorTrigger::Feedback, BehaviorTrigger::Feedback);
    let s3 = note_if(s2, c3, Note::BothReceptiveFeedback);
    lemma_note_if_holds(s2, c3, Note::BothReceptiveFeedback);
    let c4b = triggers_are(p, BehaviorTrigger::Change, BehaviorTrigger::Feedback) || triggers_are(
        p,
        BehaviorTrigger::Feedback,
        BehaviorTrigger::Change,
    );
    let s4 = note_if(s3, c4b, Note::AdaptAndLearn);
    lemma_note_if_holds(s3, c4b, Note::AdaptAndLearn);
    assert(s4 == raw_synergies(p));
    lemma_or_note_holds(s4, Note::NoSynergy);
    assert(!s4.contains(Note::NoSynergy));
}

/// The frictions other than the reputation and stress ones, each found
/// exactly when its condition holds: competing motivations when both top
/// motivations are known and lean negative; an agreeableness gap naming B
/// as the blunt one when A's agreeableness is 7 or more and B's 4 or less,
/// else naming A when the reverse holds; a bias clash when both top biases
/// are known and differ, the same bias when they are equal; both combative
/// or both stressed when both first patterns are triggered by conflict, or
/// by stress; and an extraversion gap when both extraversion scores are set
/// and at least 4 apart.
#[verifier::spinoff_prover]
#[verifier::rlimit(80)]
pub proof fn lemma_friction_conditions(p: PairProfile)
    ensures
        ({
            let r = or_note(raw_frictions(p), Note::NoFriction);
            let oa = p.a.ocean;
            let ob = p.b.ocean;
            let b_blunt = (oa.agreeableness matches Some(x) && x >= 7) && (ob.agreeableness matches Some(y) && y <= 4);
            let a_blunt = (ob.agreeableness matches Some(x) && x >= 7) && (oa.agreeableness matches Some(y) && y <= 4);
            let both_mot = p.a.top_motivation is Some && p.b.top_motivation is Some;
            let both_bias = p.a.top_bias is Some && p.b.top_bias is Some;
            &&& r.contains(Note::CompetingMotivations) <==> both_mot && p.motivation_synergy == Leaning::Negative
            &&& r.contains(Note::AgreeablenessGap { low: Side::B }) <==> b_blunt
            &&& r.contains(Note::AgreeablenessGap { low: Side::A }) <==> !b_blunt && a_blunt
            &&& r.contains(Note::BiasClash) <==> both_bias && p.a.top_bias != p.b.top_bias
            &&& r.contains(Note::SameBias) <==> both_bias && p.a.top_bias == p.b.top_bias
            &&& r.contains(Note::BothCombative) <==> p.a.first_trigger == Some(BehaviorTrigger::Conflict)
                && p.b.first_trigger == Some(BehaviorTrigger::Conflict)
            &&& r.contains(Note::BothStressed) <==> p.a.first_trigger == Some(BehaviorTrigger::Stress)
                && p.b.first_trigger == Some(BehaviorTrigger::Stress)
            &&& r.contains(Note::ExtraversionGap) <==> scores_apart(oa.extraversion, ob.extraversion, 4)
            &&& r.contains(Note::NoFriction) ==> r == seq![Note::NoFriction]
        }),
{
    let oa = p.a.ocean;
    let ob = p.b.ocean;
    let rep = rep_frictions(p.a.rep, p.b.rep, REP_DIM_COUNT as nat);
    lemma_rep_friction_notes(p.a.rep, p.b.rep, REP_DIM_COUNT as nat, RepDim::HardworkerLazy, Pole::First);
    assert forall|x: Note| !(x is RepImbalance) implies !#[trigger] rep.contains(x) by {
        if rep.contains(x) {
            let i = choose|i: int| 0 <= i < rep.len() && rep[i] == x;
        }
    }
    let e = Seq::<Note>::empty();
    let c1 = both_motivated(p) && p.motivation_synergy == Leaning::Negative;
    let h1 = note_if(e, c1, Note::CompetingMotivations);
    lemma_note_if_holds(e, c1, Note::CompetingMotivations);
    let gb = at_least(oa.agreeableness, 7) && at_most(ob.agreeableness, 4);
    let ga = !gb && at_least(ob.agreeableness, 7) && at_most(oa.agreeableness, 4);
    let h2 = note_if(h1, gb, Note::AgreeablenessGap { low: Side::B });
    lemma_note_if_holds(h1, gb, Note::AgreeablenessGap { low: Side::B });
    let h3 = note_if(h2, ga, Note::AgreeablenessGap { low: Side::A });
    lemma_note_if_holds(h2, ga, Note::AgreeablenessGap { low: Side::A });
    let sr = apart_by(oa.neuroticism, ob.neuroticism, 3);
    let hi = if oa.neuroticism->0 <= ob.neuroticism->0 { Side::B } else { Side::A };
    let h4 = note_if(h3, sr, Note::StressReactivity { reactive: hi });
    lemma_note_if_holds(h3, sr, Note::StressReactivity { reactive: hi });
    assert(h4 == friction_head(p));
    lemma_concat_holds(h4, rep);
    let s0 = h4 + rep;
    let bc = p.a.top_bias is Some && p.b.top_bias is Some && p.a.top_bias != p.b.top_bias;
    let sb = p.a.top_bias is Some && p.b.top_bias is Some && p.a.top_bias == p.b.top_bias;
    let s1a = note_if(s0, bc, Note::BiasClash);
    lemma_note_if_holds(s0, bc, Note::BiasClash);
    let s1 = note_if(s1a, sb, Note::SameBias);
    lemma_note_if_holds(s1a, sb, Note::SameBias);
    let c2 = triggers_are(p, BehaviorTrigger::Conflict, BehaviorTrigger::Conflict);
    let s2 = note_if(s1, c2, Note::BothCombative);
    lemma_note_if_holds(s1, c2, Note::BothCombative);
    let c3 = triggers_are(p, BehaviorTrigger::Stress, BehaviorTrigger::Stress);
    let s3 = note_if(s2, c3, Note::BothStressed);
    lemma_note_if_holds(s2, c3, Note::BothStressed);
    let c4 = apart_by(oa.extraversion, ob.extraversion, 4);
    let s4 = note_if(s3, c4, Note::ExtraversionGap);
    lemma_note_if_holds(s3, c4, Note::ExtraversionGap);
    assert(s4 == raw_frictions(p));
    lemma_or_note_holds(s4, Note::NoFriction);
    assert(!s4.contains(Note::NoFriction));
}

} // verus!

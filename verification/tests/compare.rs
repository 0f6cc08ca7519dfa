use peoplemodeler::compare::{
    benefit_labels, compare_analysis, ctx_key, format_band_label, format_signed_delta, mini_bar_text, mini_bar_width,
    should_show_extra_strategies, Analysis, Leaning, Note, PairProfile, PairSide, Pole, Side,
};
use peoplemodeler::model::{
    BehaviorTrigger, BiasType, InsightContext, MotivationType, OceanScores, RepDim, RepScores,
    REP_DIMS,
};
use peoplemodeler::compare_text::{compare_texts, note_text, Lang, NoteWords};
use peoplemodeler::relationship::{prefill_rel_from, RelationType, Relationship};

fn p() -> PairSide {
    PairSide {
        ocean: OceanScores::unset(),
        rep: RepScores::unset(),
        top_motivation: None,
        top_bias: None,
        first_trigger: None,
    }
}

fn run(a: PairSide, b: PairSide) -> Analysis {
    run_with(a, b, Leaning::Neutral, Leaning::Neutral)
}

fn run_with(a: PairSide, b: PairSide, motivation: Leaning, trigger: Leaning) -> Analysis {
    compare_analysis(&PairProfile { a, b, motivation_synergy: motivation, trigger_synergy: trigger })
}


type Texts = (Vec<String>, Vec<String>, (String, Vec<String>));

fn split_pole_labels(dim: RepDim) -> (String, String) {
    let name = format!("{:?}", dim);
    let cut = name[1..].find(|c: char| c.is_ascii_uppercase()).map(|i| i + 1).unwrap_or(name.len());
    (name[..cut].to_string(), name[cut..].to_string())
}

fn note_words(a: &PairSide, b: &PairSide, a_name: &str, b_name: &str) -> NoteWords {
    let label = |m: Option<String>| m.unwrap_or_default();
    NoteWords {
        a_name: a_name.to_string(),
        b_name: b_name.to_string(),
        a_motivation: label(a.top_motivation.map(|k| format!("{:?}", k))),
        b_motivation: label(b.top_motivation.map(|k| format!("{:?}", k))),
        a_bias: label(a.top_bias.map(|k| format!("{:?}", k))),
        b_bias: label(b.top_bias.map(|k| format!("{:?}", k))),
        a_response: label(a.first_trigger.map(|t| format!("{:?} response", t))),
        b_response: label(b.first_trigger.map(|t| format!("{:?} response", t))),
        rep_labels: REP_DIMS.iter().map(|d| split_pole_labels(*d)).collect(),
    }
}

fn texts(a: PairSide, b: PairSide, a_name: &str, b_name: &str, lang: Lang) -> Texts {
    texts_with(a, b, Leaning::Neutral, Leaning::Neutral, a_name, b_name, lang)
}

fn texts_with(
    a: PairSide,
    b: PairSide,
    motivation: Leaning,
    trigger: Leaning,
    a_name: &str,
    b_name: &str,
    lang: Lang,
) -> Texts {
    let w = note_words(&a, &b, a_name, b_name);
    compare_texts(&PairProfile { a, b, motivation_synergy: motivation, trigger_synergy: trigger }, &w, lang)
}

fn has(v: &[Note], n: Note) -> bool {
    v.contains(&n)
}

fn creative(v: &[Note]) -> bool {
    v.iter().any(|n| matches!(n, Note::CreativeExecution { .. }))
}

fn agreeableness_gap(v: &[Note]) -> bool {
    v.iter().any(|n| matches!(n, Note::AgreeablenessGap { .. }))
}

fn reactive(v: &[Note]) -> bool {
    v.iter().any(|n| matches!(n, Note::StressReactivity { .. }))
}

fn affinity_high(v: &[Note]) -> bool {
    v.iter().any(|n| matches!(n, Note::RepAffinityHigh { .. }))
}

fn affinity_low(v: &[Note]) -> bool {
    v.iter().any(|n| matches!(n, Note::RepAffinityLow { .. }))
}

fn imbalances(v: &[Note]) -> usize {
    v.iter().filter(|n| matches!(n, Note::RepImbalance { .. })).count()
}

fn social_pace(v: &[Note]) -> bool {
    v.iter().any(|n| matches!(n, Note::SocialPace { .. }))
}

fn hw(v: u8) -> RepScores {
    RepScores { hardworker_lazy: Some(v), ..RepScores::unset() }
}

fn motivated(k: MotivationType) -> PairSide {
    let mut s = p();
    s.top_motivation = Some(k);
    s
}

fn biased(k: BiasType) -> PairSide {
    let mut s = p();
    s.top_bias = Some(k);
    s
}

fn patterned(t: BehaviorTrigger) -> PairSide {
    let mut s = p();
    s.first_trigger = Some(t);
    s
}

fn rel(s: &str, t: &str, rtype: RelationType, strength: u8) -> Relationship {
    Relationship {
        id: format!("{s}-{t}"),
        source_id: s.to_string(),
        target_id: t.to_string(),
        rtype,
        strength,
        notes: String::new(),
        created_at: 0,
    }
}

#[test]
fn ctx_key_all_variants() {
    assert_eq!(ctx_key(InsightContext::Decision), "ctx_decision");
    assert_eq!(ctx_key(InsightContext::Team), "ctx_team");
    assert_eq!(ctx_key(InsightContext::Stress), "ctx_stress");
    assert_eq!(ctx_key(InsightContext::Communication), "ctx_communication");
    assert_eq!(ctx_key(InsightContext::Leadership), "ctx_leadership");
    assert_eq!(ctx_key(InsightContext::Growth), "ctx_growth");
}

#[test]
fn oc_complementarity_a_open_b_consc() {
    let mut a = p();
    let mut b = p();
    a.ocean.openness = Some(8);
    b.ocean.conscientiousness = Some(9);
    let (syn, _, _) = texts(a, b, "A", "B", Lang::En);
    assert!(syn.iter().any(|s| s.contains("creative vision")));
}

#[test]
fn oc_complementarity_reverse() {
    let mut a = p();
    let mut b = p();
    b.ocean.openness = Some(8);
    a.ocean.conscientiousness = Some(9);
    let (syn, _, _) = texts(a, b, "A", "B", Lang::En);
    assert!(syn.iter().any(|s| s.contains("creative vision")));
}

#[test]
fn similar_ocean_profiles() {
    let mut a = p();
    let mut b = p();
    a.ocean.openness = Some(8);
    a.ocean.conscientiousness = Some(3);
    b.ocean.openness = Some(9);
    b.ocean.conscientiousness = Some(2);
    let (syn, _, _) = texts(a, b, "A", "B", Lang::En);
    assert!(syn.iter().any(|s| s.contains("similar OCEAN")));
}

#[test]
fn oc_none_match() {
    let mut a = p();
    let mut b = p();
    a.ocean.openness = Some(3);
    b.ocean.conscientiousness = Some(2);
    let (syn, _, _) = texts(a, b, "A", "B", Lang::En);
    assert!(!syn.iter().any(|s| s.contains("creative vision")));
    assert!(!syn.iter().any(|s| s.contains("similar OCEAN")));
}

#[test]
fn ea_complementarity_a_e_high_b_a_high() {
    let mut a = p();
    let mut b = p();
    a.ocean.extraversion = Some(8);
    b.ocean.agreeableness = Some(9);
    let (syn, _, _) = texts(a, b, "A", "B", Lang::En);
    assert!(syn.iter().any(|s| s.contains("one drives, one harmonizes")));
}

#[test]
fn ea_complementarity_reverse() {
    let mut a = p();
    let mut b = p();
    b.ocean.extraversion = Some(8);
    a.ocean.agreeableness = Some(9);
    let (syn, _, _) = texts(a, b, "A", "B", Lang::En);
    assert!(syn.iter().any(|s| s.contains("one drives, one harmonizes")));
}

#[test]
fn ea_none_match() {
    let mut a = p();
    let mut b = p();
    a.ocean.extraversion = Some(3);
    b.ocean.agreeableness = Some(3);
    let (syn, _, _) = texts(a, b, "A", "B", Lang::En);
    assert!(!syn.iter().any(|s| s.contains("one drives")));
}

// The leaning of a motivation pair is the sign of the motivation synergy
// table's entry, which the caller looks up and hands over.
#[test]
fn motivation_synergy_positive() {
    let a = motivated(MotivationType::Achievement);
    let b = motivated(MotivationType::Learning);
    let (syn, _, _) = texts_with(a, b, Leaning::Positive, Leaning::Neutral, "A", "B", Lang::En);
    assert!(syn.iter().any(|s| s.contains("Complementary motivations")));
}

#[test]
fn motivation_synergy_negative() {
    let a = motivated(MotivationType::Power);
    let b = motivated(MotivationType::Affiliation);
    let (_, fri, _) = texts_with(a, b, Leaning::Negative, Leaning::Neutral, "A", "B", Lang::En);
    assert!(fri.iter().any(|s| s.contains("Competing motivations")));
}

#[test]
fn motivation_same_type() {
    let a = motivated(MotivationType::Security);
    let b = motivated(MotivationType::Security);
    let (syn, _, _) = texts(a, b, "A", "B", Lang::En);
    assert!(syn.iter().any(|s| s.contains("Shared Security")));
}

#[test]
fn motivation_neutral() {
    let a = motivated(MotivationType::Autonomy);
    let b = motivated(MotivationType::Autonomy);
    let (syn, fri, _) = texts(a, b, "A", "B", Lang::En);
    assert!(!syn.iter().any(|s| s.contains("Complementary")));
    assert!(!fri.iter().any(|s| s.contains("Competing")));
    assert!(syn.iter().any(|s| s.contains("Shared")));
}

#[test]
fn agreeableness_gap_a_high_b_low() {
    let mut a = p();
    let mut b = p();
    a.ocean.agreeableness = Some(8);
    b.ocean.agreeableness = Some(3);
    let (_, fri, _) = texts(a, b, "A", "B", Lang::En);
    assert!(
        fri.iter()
            .any(|s| s.contains("low A") && s.contains("high A"))
    );
}

#[test]
fn agreeableness_gap_reverse() {
    let mut a = p();
    let mut b = p();
    a.ocean.agreeableness = Some(3);
    b.ocean.agreeableness = Some(8);
    let (_, fri, _) = texts(a, b, "A", "B", Lang::En);
    assert!(
        fri.iter()
            .any(|s| s.contains("low A") && s.contains("high A"))
    );
}

#[test]
fn neuroticism_gap() {
    let mut a = p();
    let mut b = p();
    a.ocean.neuroticism = Some(9);
    b.ocean.neuroticism = Some(3);
    let (_, fri, _) = texts(a, b, "A", "B", Lang::En);
    assert!(fri.iter().any(|s| s.contains("more reactive to stress")));
}

#[test]
fn neuroticism_close() {
    let mut a = p();
    let mut b = p();
    a.ocean.neuroticism = Some(5);
    b.ocean.neuroticism = Some(6);
    let (_, fri, _) = texts(a, b, "A", "B", Lang::En);
    assert!(!fri.iter().any(|s| s.contains("reactive to stress")));
}

#[test]
fn rep_close_both_high() {
    let mut a = p();
    let mut b = p();
    a.rep = hw(8);
    b.rep = hw(9);
    let (syn, _, _) = texts(a, b, "A", "B", Lang::En);
    assert!(syn.iter().any(|s| s.contains("natural affinity")));
}

#[test]
fn rep_close_both_low() {
    let mut a = p();
    let mut b = p();
    a.rep = hw(2);
    b.rep = hw(3);
    let (syn, _, _) = texts(a, b, "A", "B", Lang::En);
    assert!(syn.iter().any(|s| s.contains("unexpected camaraderie")));
}

#[test]
fn rep_far_a_higher() {
    let mut a = p();
    let mut b = p();
    a.rep = hw(9);
    b.rep = hw(3);
    let (_, fri, _) = texts(a, b, "A", "B", Lang::En);
    assert!(fri.iter().any(|s| s.contains("imbalance")));
}

#[test]
fn rep_far_b_higher() {
    let mut a = p();
    let mut b = p();
    a.rep = hw(3);
    b.rep = hw(9);
    let (_, fri, _) = texts(a, b, "A", "B", Lang::En);
    assert!(fri.iter().any(|s| s.contains("imbalance")));
}

#[test]
fn bias_different_types() {
    let a = biased(BiasType::Anchoring);
    let b = biased(BiasType::Confirmation);
    let (_, fri, _) = texts(a, b, "A", "B", Lang::En);
    assert!(fri.iter().any(|s| s.contains("Bias") && s.contains("vs")));
}

#[test]
fn bias_same_type() {
    let a = biased(BiasType::Anchoring);
    let b = biased(BiasType::Anchoring);
    let (_, fri, _) = texts(a, b, "A", "B", Lang::En);
    assert!(fri.iter().any(|s| s.contains("Same") && s.contains("bias")));
}

#[test]
fn bias_none() {
    let (_, fri, _) = texts(p(), p(), "A", "B", Lang::En);
    assert!(!fri.iter().any(|s| s.contains("Bias") || s.contains("bias")));
}

#[test]
fn pattern_change_change() {
    let a = patterned(BehaviorTrigger::Change);
    let b = patterned(BehaviorTrigger::Change);
    let (syn, _, _) = texts_with(a, b, Leaning::Neutral, Leaning::Positive, "A", "B", Lang::En);
    assert!(syn.iter().any(|s| s.contains("adapt well to change")));
}

#[test]
fn pattern_feedback_feedback() {
    let a = patterned(BehaviorTrigger::Feedback);
    let b = patterned(BehaviorTrigger::Feedback);
    let (syn, _, _) = texts(a, b, "A", "B", Lang::En);
    assert!(syn.iter().any(|s| s.contains("continuous improvement")));
}

#[test]
fn pattern_conflict_conflict() {
    let a = patterned(BehaviorTrigger::Conflict);
    let b = patterned(BehaviorTrigger::Conflict);
    let (_, fri, _) = texts_with(a, b, Leaning::Neutral, Leaning::Negative, "A", "B", Lang::En);
    assert!(fri.iter().any(|s| s.contains("escalation")));
}

#[test]
fn pattern_stress_stress() {
    let a = patterned(BehaviorTrigger::Stress);
    let b = patterned(BehaviorTrigger::Stress);
    let (_, fri, _) = texts(a, b, "A", "B", Lang::En);
    assert!(fri.iter().any(|s| s.contains("contagious anxiety")));
}

#[test]
fn pattern_change_feedback() {
    let a = patterned(BehaviorTrigger::Change);
    let b = patterned(BehaviorTrigger::Feedback);
    let (syn, _, _) = texts_with(a, b, Leaning::Neutral, Leaning::Positive, "A", "B", Lang::En);
    assert!(syn.iter().any(|s| s.contains("One adapts, one learns")));
}

#[test]
fn pattern_feedback_change() {
    let a = patterned(BehaviorTrigger::Feedback);
    let b = patterned(BehaviorTrigger::Change);
    let (syn, _, _) = texts_with(a, b, Leaning::Neutral, Leaning::Positive, "A", "B", Lang::En);
    assert!(syn.iter().any(|s| s.contains("One adapts, one learns")));
}

#[test]
fn pattern_no_patterns() {
    let (syn, _, _) = texts(p(), p(), "A", "B", Lang::En);
    assert!(syn.is_empty() || syn.iter().all(|s| !s.contains("responds with")));
}

#[test]
fn extraversion_gap() {
    let mut a = p();
    let mut b = p();
    a.ocean.extraversion = Some(2);
    b.ocean.extraversion = Some(9);
    let (_, fri, _) = texts(a, b, "A", "B", Lang::En);
    assert!(fri.iter().any(|s| s.contains("extraversion")));
}

#[test]
fn extraversion_close() {
    let mut a = p();
    let mut b = p();
    a.ocean.extraversion = Some(5);
    b.ocean.extraversion = Some(7);
    let (_, fri, _) = texts(a, b, "A", "B", Lang::En);
    assert!(!fri.iter().any(|s| s.contains("extraversion")));
}

#[test]
fn strategy_power() {
    let a = motivated(MotivationType::Power);
    let b = motivated(MotivationType::Achievement);
    let (_, _, (_, str)) = texts(a, b, "A", "B", Lang::En);
    assert!(str.iter().any(|s| s.contains("take initiative")));
}

#[test]
fn strategy_recognition() {
    let a = motivated(MotivationType::Recognition);
    let b = motivated(MotivationType::Achievement);
    let (_, _, (_, str)) = texts(a, b, "A", "B", Lang::En);
    assert!(str.iter().any(|s| s.contains("acknowledge")));
}

#[test]
fn strategy_security() {
    let a = motivated(MotivationType::Security);
    let b = motivated(MotivationType::Achievement);
    let (_, _, (_, str)) = texts(a, b, "A", "B", Lang::En);
    assert!(str.iter().any(|s| s.contains("stable frameworks")));
}

#[test]
fn strategy_high_conscientiousness() {
    let mut a = p();
    a.ocean.conscientiousness = Some(8);
    let (_, _, (_, str)) = texts(a, p(), "A", "B", Lang::En);
    assert!(str.iter().any(|s| s.contains("structured")));
}

#[test]
fn strategy_both_high_agreeableness() {
    let mut a = p();
    let mut b = p();
    a.ocean.agreeableness = Some(8);
    b.ocean.agreeableness = Some(9);
    let (_, _, (_, str)) = texts(a, b, "A", "B", Lang::En);
    assert!(str.iter().any(|s| s.contains("mediation")));
}

#[test]
fn strategy_both_low_agreeableness() {
    let mut a = p();
    let mut b = p();
    a.ocean.agreeableness = Some(2);
    b.ocean.agreeableness = Some(3);
    let (_, _, (_, str)) = texts(a, b, "A", "B", Lang::En);
    assert!(str.iter().any(|s| s.contains("straight to the point")));
}

#[test]
fn strategy_extraversion_gap() {
    let mut a = p();
    let mut b = p();
    a.ocean.extraversion = Some(2);
    b.ocean.extraversion = Some(9);
    let (_, _, (_, str)) = texts(a, b, "A", "B", Lang::En);
    assert!(str.iter().any(|s| s.contains("social pace")));
}

#[test]
fn strategy_agreeableness_gap() {
    let mut a = p();
    let mut b = p();
    a.ocean.agreeableness = Some(2);
    b.ocean.agreeableness = Some(9);
    let (_, _, (_, str)) = texts(a, b, "A", "B", Lang::En);
    assert!(str.iter().any(|s| s.contains("conflict styles")));
}

#[test]
fn strategy_conscientiousness_gap() {
    let mut a = p();
    let mut b = p();
    a.ocean.conscientiousness = Some(2);
    b.ocean.conscientiousness = Some(9);
    let (_, _, (_, str)) = texts(a, b, "A", "B", Lang::En);
    assert!(str.iter().any(|s| s.contains("organization levels")));
}

// The leaning of a trigger pair comes from the trigger synergy table:
// Stress against Conflict lies below -0.1, Change with Change above 0.1,
// Uncertainty with Success in between.
#[test]
fn strategy_trigger_negative() {
    let a = patterned(BehaviorTrigger::Stress);
    let b = patterned(BehaviorTrigger::Conflict);
    let (_, _, (_, str)) = texts_with(a, b, Leaning::Neutral, Leaning::Negative, "A", "B", Lang::En);
    assert!(str.iter().any(|s| s.contains("mutual triggering")));
}

#[test]
fn strategy_trigger_positive() {
    let a = patterned(BehaviorTrigger::Change);
    let b = patterned(BehaviorTrigger::Change);
    let (_, _, (_, str)) = texts_with(a, b, Leaning::Neutral, Leaning::Positive, "A", "B", Lang::En);
    assert!(str.iter().any(|s| s.contains("complementarity")));
}

#[test]
fn strategy_trigger_neutral() {
    let a = patterned(BehaviorTrigger::Uncertainty);
    let b = patterned(BehaviorTrigger::Success);
    let (_, _, (_, str)) = texts_with(a, b, Leaning::Neutral, Leaning::Neutral, "A", "B", Lang::En);
    assert!(!str.iter().any(|s| s.contains("mutual triggering")));
    assert!(!str.iter().any(|s| s.contains("complementarity")));
}

#[test]
fn empty_syn_fallback() {
    let (syn, _, _) = texts(p(), p(), "A", "B", Lang::En);
    assert!(syn.iter().any(|s| s.contains("No obvious synergy")));
}

#[test]
fn empty_fri_fallback() {
    let (_, fri, _) = texts(p(), p(), "A", "B", Lang::En);
    assert!(fri.iter().any(|s| s.contains("No major friction")));
}

#[test]
fn empty_str_fallback() {
    let (_, _, (top, _)) = texts(p(), p(), "A", "B", Lang::En);
    assert!(top.contains("Communicate openly"));
}

#[test]
fn nonempty_str_no_fallback() {
    let mut a = p();
    a.ocean.conscientiousness = Some(9);
    let (_, _, (top, _)) = texts(a, p(), "A", "B", Lang::En);
    assert!(!top.contains("Communicate openly"));
}

// The notes are language-neutral: the page words them in English or French.
// The cases below are those the page words in French.

#[test]
fn french_oc_complementarity() {
    let mut a = p();
    let mut b = p();
    a.ocean.openness = Some(8);
    b.ocean.conscientiousness = Some(9);
    let (syn, _, _) = texts(a, b, "Alice", "Bob", Lang::Fr);
    assert!(syn.iter().any(|s| s.contains("vision créative")));
}

#[test]
fn french_ea_complementarity() {
    let mut a = p();
    let mut b = p();
    a.ocean.extraversion = Some(8);
    b.ocean.agreeableness = Some(9);
    let (syn, _, _) = texts(a, b, "Alice", "Bob", Lang::Fr);
    assert!(syn.iter().any(|s| s.contains("l'un conduit")));
}

#[test]
fn french_empty_syn() {
    let (syn, _, _) = texts(p(), p(), "A", "B", Lang::Fr);
    assert!(syn.iter().any(|s| s.contains("Aucune synergie")));
}

#[test]
fn french_empty_fri() {
    let (_, fri, _) = texts(p(), p(), "A", "B", Lang::Fr);
    assert!(fri.iter().any(|s| s.contains("Aucun point de friction")));
}

#[test]
fn french_empty_str() {
    let (_, _, (top, _)) = texts(p(), p(), "A", "B", Lang::Fr);
    assert!(top.contains("Communiquer ouvertement"));
}

#[test]
fn french_bias_different() {
    let a = biased(BiasType::Anchoring);
    let b = biased(BiasType::Confirmation);
    let (_, fri, _) = texts(a, b, "A", "B", Lang::Fr);
    assert!(fri.iter().any(|s| s.contains("désaccords")));
}

#[test]
fn french_bias_same() {
    let a = biased(BiasType::Anchoring);
    let b = biased(BiasType::Anchoring);
    let (_, fri, _) = texts(a, b, "A", "B", Lang::Fr);
    assert!(fri.iter().any(|s| s.contains("Même biais")));
}

#[test]
fn french_motivation_positive() {
    let a = motivated(MotivationType::Achievement);
    let b = motivated(MotivationType::Learning);
    let (syn, _, _) = texts_with(a, b, Leaning::Positive, Leaning::Neutral, "A", "B", Lang::Fr);
    assert!(syn.iter().any(|s| s.contains("complémentaires")));
}

#[test]
fn french_motivation_negative() {
    let a = motivated(MotivationType::Power);
    let b = motivated(MotivationType::Affiliation);
    let (_, fri, _) = texts_with(a, b, Leaning::Negative, Leaning::Neutral, "A", "B", Lang::Fr);
    assert!(fri.iter().any(|s| s.contains("concurrentes")));
}

#[test]
fn french_same_motivation() {
    let a = motivated(MotivationType::Security);
    let b = motivated(MotivationType::Security);
    let (syn, _, _) = texts(a, b, "A", "B", Lang::Fr);
    assert!(syn.iter().any(|s| s.contains("partagée")));
}

#[test]
fn french_agreeableness_gap() {
    let mut a = p();
    let mut b = p();
    a.ocean.agreeableness = Some(8);
    b.ocean.agreeableness = Some(3);
    let (_, fri, _) = texts(a, b, "A", "B", Lang::Fr);
    assert!(fri.iter().any(|s| s.contains("faible A")));
}

#[test]
fn french_agreeableness_gap_reverse() {
    let mut a = p();
    let mut b = p();
    a.ocean.agreeableness = Some(3);
    b.ocean.agreeableness = Some(8);
    let (_, fri, _) = texts(a, b, "A", "B", Lang::Fr);
    assert!(fri.iter().any(|s| s.contains("faible A")));
}

#[test]
fn french_neuroticism_gap() {
    let mut a = p();
    let mut b = p();
    a.ocean.neuroticism = Some(9);
    b.ocean.neuroticism = Some(3);
    let (_, fri, _) = texts(a, b, "A", "B", Lang::Fr);
    assert!(fri.iter().any(|s| s.contains("réactif au stress")));
}

#[test]
fn french_rep_close_high() {
    let mut a = p();
    let mut b = p();
    a.rep = hw(8);
    b.rep = hw(9);
    let (syn, _, _) = texts(a, b, "A", "B", Lang::Fr);
    assert!(syn.iter().any(|s| s.contains("affinité naturelle")));
}

#[test]
fn french_rep_close_low() {
    let mut a = p();
    let mut b = p();
    a.rep = hw(2);
    b.rep = hw(3);
    let (syn, _, _) = texts(a, b, "A", "B", Lang::Fr);
    assert!(syn.iter().any(|s| s.contains("complicité inattendue")));
}

#[test]
fn french_rep_far_a_higher() {
    let mut a = p();
    let mut b = p();
    a.rep = hw(9);
    b.rep = hw(3);
    let (_, fri, _) = texts(a, b, "A", "B", Lang::Fr);
    assert!(fri.iter().any(|s| s.contains("déséquilibre")));
}

#[test]
fn french_rep_far_b_higher() {
    let mut a = p();
    let mut b = p();
    a.rep = hw(3);
    b.rep = hw(9);
    let (_, fri, _) = texts(a, b, "A", "B", Lang::Fr);
    assert!(fri.iter().any(|s| s.contains("déséquilibre")));
}

#[test]
fn french_pattern_change_change() {
    let a = patterned(BehaviorTrigger::Change);
    let b = patterned(BehaviorTrigger::Change);
    let (syn, _, _) = texts_with(a, b, Leaning::Neutral, Leaning::Positive, "A", "B", Lang::Fr);
    assert!(syn.iter().any(|s| s.contains("s'adaptent au changement")));
}

#[test]
fn french_pattern_feedback_feedback() {
    let a = patterned(BehaviorTrigger::Feedback);
    let b = patterned(BehaviorTrigger::Feedback);
    let (syn, _, _) = texts(a, b, "A", "B", Lang::Fr);
    assert!(syn.iter().any(|s| s.contains("amélioration continue")));
}

#[test]
fn french_pattern_conflict_conflict() {
    let a = patterned(BehaviorTrigger::Conflict);
    let b = patterned(BehaviorTrigger::Conflict);
    let (_, fri, _) = texts_with(a, b, Leaning::Neutral, Leaning::Negative, "A", "B", Lang::Fr);
    assert!(fri.iter().any(|s| s.contains("escalade")));
}

#[test]
fn french_pattern_stress_stress() {
    let a = patterned(BehaviorTrigger::Stress);
    let b = patterned(BehaviorTrigger::Stress);
    let (_, fri, _) = texts(a, b, "A", "B", Lang::Fr);
    assert!(fri.iter().any(|s| s.contains("anxiété contagieuse")));
}

#[test]
fn french_pattern_change_feedback() {
    let a = patterned(BehaviorTrigger::Change);
    let b = patterned(BehaviorTrigger::Feedback);
    let (syn, _, _) = texts_with(a, b, Leaning::Neutral, Leaning::Positive, "A", "B", Lang::Fr);
    assert!(syn.iter().any(|s| s.contains("évolue ensemble")));
}

#[test]
fn french_extraversion_gap() {
    let mut a = p();
    let mut b = p();
    a.ocean.extraversion = Some(2);
    b.ocean.extraversion = Some(9);
    let (_, fri, _) = texts(a, b, "A", "B", Lang::Fr);
    assert!(fri.iter().any(|s| s.contains("Écart d'extraversion")));
}

#[test]
fn french_strategy_power() {
    let a = motivated(MotivationType::Power);
    let b = motivated(MotivationType::Achievement);
    let (_, _, (_, str)) = texts(a, b, "A", "B", Lang::Fr);
    assert!(str.iter().any(|s| s.contains("initiative")));
}

#[test]
fn french_strategy_recognition() {
    let a = motivated(MotivationType::Recognition);
    let b = motivated(MotivationType::Achievement);
    let (_, _, (_, str)) = texts(a, b, "A", "B", Lang::Fr);
    assert!(str.iter().any(|s| s.contains("Reconnaître publiquement")));
}

#[test]
fn french_strategy_security() {
    let a = motivated(MotivationType::Security);
    let b = motivated(MotivationType::Achievement);
    let (_, _, (_, str)) = texts(a, b, "A", "B", Lang::Fr);
    assert!(str.iter().any(|s| s.contains("cadres stables")));
}

#[test]
fn french_strategy_high_c() {
    let mut a = p();
    a.ocean.conscientiousness = Some(8);
    let (_, _, (_, str)) = texts(a, p(), "A", "B", Lang::Fr);
    assert!(str.iter().any(|s| s.contains("structurée")));
}

#[test]
fn french_strategy_both_high_a() {
    let mut a = p();
    let mut b = p();
    a.ocean.agreeableness = Some(8);
    b.ocean.agreeableness = Some(9);
    let (_, _, (_, str)) = texts(a, b, "A", "B", Lang::Fr);
    assert!(str.iter().any(|s| s.contains("médiation")));
}

#[test]
fn french_strategy_both_low_a() {
    let mut a = p();
    let mut b = p();
    a.ocean.agreeableness = Some(2);
    b.ocean.agreeableness = Some(3);
    let (_, _, (_, str)) = texts(a, b, "A", "B", Lang::Fr);
    assert!(str.iter().any(|s| s.contains("droit au fait")));
}

#[test]
fn french_strategy_e_gap() {
    let mut a = p();
    let mut b = p();
    a.ocean.extraversion = Some(2);
    b.ocean.extraversion = Some(9);
    let (_, _, (_, str)) = texts(a, b, "A", "B", Lang::Fr);
    assert!(str.iter().any(|s| s.contains("Rythme social")));
}

#[test]
fn french_strategy_a_gap() {
    let mut a = p();
    let mut b = p();
    a.ocean.agreeableness = Some(2);
    b.ocean.agreeableness = Some(9);
    let (_, _, (_, str)) = texts(a, b, "A", "B", Lang::Fr);
    assert!(str.iter().any(|s| s.contains("Styles de conflit")));
}

#[test]
fn french_strategy_c_gap() {
    let mut a = p();
    let mut b = p();
    a.ocean.conscientiousness = Some(2);
    b.ocean.conscientiousness = Some(9);
    let (_, _, (_, str)) = texts(a, b, "A", "B", Lang::Fr);
    assert!(str.iter().any(|s| s.contains("organisation différents")));
}

#[test]
fn french_trigger_negative() {
    let a = patterned(BehaviorTrigger::Stress);
    let b = patterned(BehaviorTrigger::Conflict);
    let (_, _, (_, str)) = texts_with(a, b, Leaning::Neutral, Leaning::Negative, "A", "B", Lang::Fr);
    assert!(str.iter().any(|s| s.contains("déclenchement mutuel")));
}

#[test]
fn french_trigger_positive() {
    let a = patterned(BehaviorTrigger::Change);
    let b = patterned(BehaviorTrigger::Change);
    let (_, _, (_, str)) = texts_with(a, b, Leaning::Neutral, Leaning::Positive, "A", "B", Lang::Fr);
    assert!(
        str.iter()
            .any(|s| s.contains("Complémentarité comportementale"))
    );
}

#[test]
fn french_trigger_neutral() {
    let a = patterned(BehaviorTrigger::Uncertainty);
    let b = patterned(BehaviorTrigger::Success);
    let (_, _, (_, str)) = texts_with(a, b, Leaning::Neutral, Leaning::Neutral, "A", "B", Lang::Fr);
    assert!(!str.iter().any(|s| s.contains("déclenchement mutuel")));
    assert!(
        !str.iter()
            .any(|s| s.contains("Complémentarité comportementale"))
    );
}

// The selector of a pair with no stored relationship starts empty at 5.
#[test]
fn prefill_rel_no_match() {
    let (t, s) = prefill_rel_from(&vec![], "nonexistent_a", "nonexistent_b");
    assert!(t.is_none());
    assert_eq!(s, 5);
}

fn ocean_pair(set_a: fn(&mut OceanScores), set_b: fn(&mut OceanScores)) -> Analysis {
    let mut a = p();
    let mut b = p();
    set_a(&mut a.ocean);
    set_b(&mut b.ocean);
    run(a, b)
}

#[test]
fn compare_boundary_oc_close_at_2() {
    let r = ocean_pair(
        |o| {
            o.openness = Some(7);
            o.conscientiousness = Some(5);
        },
        |o| {
            o.openness = Some(9);
            o.conscientiousness = Some(5);
        },
    );
    assert!(has(&r.synergies, Note::SimilarOcean));
}

#[test]
fn compare_boundary_oc_far_at_3() {
    let r = ocean_pair(
        |o| {
            o.openness = Some(7);
            o.conscientiousness = Some(5);
        },
        |o| {
            o.openness = Some(3);
            o.conscientiousness = Some(5);
        },
    );
    assert!(!has(&r.synergies, Note::SimilarOcean));
}

#[test]
fn compare_boundary_oc_complement_at_7() {
    let r = ocean_pair(|o| o.openness = Some(7), |o| o.conscientiousness = Some(7));
    assert!(creative(&r.synergies));
}

#[test]
fn compare_boundary_oc_complement_below_7() {
    let r = ocean_pair(|o| o.openness = Some(6), |o| o.conscientiousness = Some(6));
    assert!(!creative(&r.synergies));
}

#[test]
fn compare_boundary_ea_at_7() {
    let r = ocean_pair(|o| o.extraversion = Some(7), |o| o.agreeableness = Some(7));
    assert!(has(&r.synergies, Note::DriveHarmony));
}

#[test]
fn compare_boundary_ea_below_7() {
    let r = ocean_pair(|o| o.extraversion = Some(6), |o| o.agreeableness = Some(6));
    assert!(!has(&r.synergies, Note::DriveHarmony));
}

#[test]
fn compare_boundary_agreeableness_high_at_7() {
    let r = ocean_pair(|o| o.agreeableness = Some(7), |o| o.agreeableness = Some(3));
    assert!(has(&r.frictions, Note::AgreeablenessGap { low: Side::B }));
}

#[test]
fn compare_boundary_agreeableness_low_at_4() {
    let r = ocean_pair(|o| o.agreeableness = Some(8), |o| o.agreeableness = Some(4));
    assert!(has(&r.frictions, Note::AgreeablenessGap { low: Side::B }));
}

#[test]
fn compare_boundary_agreeableness_low_at_3() {
    let r = ocean_pair(|o| o.agreeableness = Some(8), |o| o.agreeableness = Some(3));
    assert!(has(&r.frictions, Note::AgreeablenessGap { low: Side::B }));
}

#[test]
fn compare_boundary_neuroticism_gap_at_3() {
    let r = ocean_pair(|o| o.neuroticism = Some(8), |o| o.neuroticism = Some(5));
    assert!(reactive(&r.frictions));
}

#[test]
fn compare_boundary_neuroticism_gap_below_3() {
    let r = ocean_pair(|o| o.neuroticism = Some(7), |o| o.neuroticism = Some(5));
    assert!(!reactive(&r.frictions));
}

#[test]
fn compare_boundary_extraversion_gap_at_4() {
    let r = ocean_pair(|o| o.extraversion = Some(2), |o| o.extraversion = Some(6));
    assert!(has(&r.frictions, Note::ExtraversionGap));
}

#[test]
fn compare_boundary_extraversion_gap_below_4() {
    let r = ocean_pair(|o| o.extraversion = Some(3), |o| o.extraversion = Some(6));
    assert!(!has(&r.frictions, Note::ExtraversionGap));
}

#[test]
fn compare_boundary_oc_gap_strat_at_3() {
    let r = ocean_pair(|o| o.extraversion = Some(2), |o| o.extraversion = Some(5));
    assert!(social_pace(&r.strategies));
}

#[test]
fn compare_boundary_oc_gap_strat_below_3() {
    let r = ocean_pair(|o| o.extraversion = Some(4), |o| o.extraversion = Some(5));
    assert!(!social_pace(&r.strategies));
}

#[test]
fn compare_boundary_agreeableness_strat_gap_at_3() {
    let r = ocean_pair(|o| o.agreeableness = Some(2), |o| o.agreeableness = Some(5));
    assert!(has(&r.strategies, Note::ConflictStyles));
}

#[test]
fn compare_boundary_conscientiousness_strat_at_7() {
    let r = ocean_pair(|o| o.conscientiousness = Some(7), |_| {});
    assert!(has(&r.strategies, Note::StructuredInfo));
}

#[test]
fn compare_boundary_conscientiousness_strat_below_7() {
    let r = ocean_pair(|o| o.conscientiousness = Some(6), |_| {});
    assert!(!has(&r.strategies, Note::StructuredInfo));
}

#[test]
fn compare_boundary_conflict_res_high_at_7() {
    let r = ocean_pair(|o| o.agreeableness = Some(7), |o| o.agreeableness = Some(7));
    assert!(has(&r.strategies, Note::Mediation));
}

#[test]
fn compare_boundary_conflict_res_low_at_4() {
    let r = ocean_pair(|o| o.agreeableness = Some(4), |o| o.agreeableness = Some(4));
    assert!(has(&r.strategies, Note::Directness));
}

#[test]
fn compare_boundary_conflict_res_low_at_3() {
    let r = ocean_pair(|o| o.agreeableness = Some(3), |o| o.agreeableness = Some(3));
    assert!(has(&r.strategies, Note::Directness));
}

#[test]
fn compare_boundary_rep_close_at_2() {
    let mut a = p();
    let mut b = p();
    a.rep = hw(7);
    b.rep = hw(9);
    let (syn, _, _) = texts(a, b, "A", "B", Lang::En);
    assert!(syn.iter().any(|s| s.contains("natural affinity")));
}

#[test]
fn compare_boundary_rep_far_at_3() {
    let mut a = p();
    let mut b = p();
    a.rep = hw(7);
    b.rep = hw(4);
    let (syn, _, _) = texts(a, b, "A", "B", Lang::En);
    assert!(
        !syn.iter()
            .any(|s| s.contains("natural affinity") || s.contains("unexpected camaraderie"))
    );
}

#[test]
fn compare_boundary_c_conscientiousness_gap_at_3() {
    let r = ocean_pair(|o| o.conscientiousness = Some(2), |o| o.conscientiousness = Some(5));
    assert!(has(&r.strategies, Note::OrganizationLevels));
}

#[test]
fn compare_boundary_c_conscientiousness_gap_below_3() {
    let r = ocean_pair(|o| o.conscientiousness = Some(4), |o| o.conscientiousness = Some(5));
    assert!(!has(&r.strategies, Note::OrganizationLevels));
}

#[test]
fn compare_boundary_conscientiousness_strategy_high_at_7() {
    let r = ocean_pair(|o| o.conscientiousness = Some(7), |_| {});
    assert!(has(&r.strategies, Note::StructuredInfo));
}

#[test]
fn compare_boundary_extraversion_gap_strat_at_3() {
    let r = ocean_pair(|o| o.extraversion = Some(7), |o| o.extraversion = Some(4));
    assert!(has(&r.strategies, Note::SocialPace { more: Side::A }));
}

#[test]
fn compare_boundary_conflict_strat_gap_at_3() {
    let r = ocean_pair(|o| o.agreeableness = Some(7), |o| o.agreeableness = Some(4));
    assert!(has(&r.strategies, Note::ConflictStyles));
}

#[test]
fn mut_ea_first_arm_high_e_low_a_no_synergy() {
    let r = ocean_pair(|o| o.extraversion = Some(8), |o| o.agreeableness = Some(3));
    assert!(!has(&r.synergies, Note::DriveHarmony));
}

#[test]
fn mut_ea_second_arm_high_e_low_a_no_synergy() {
    let r = ocean_pair(|o| o.agreeableness = Some(3), |o| o.extraversion = Some(8));
    assert!(!has(&r.synergies, Note::DriveHarmony));
}

#[test]
fn mut_ea_both_arms_fires_when_both_high() {
    let r = ocean_pair(|o| o.extraversion = Some(8), |o| o.agreeableness = Some(8));
    assert!(has(&r.synergies, Note::DriveHarmony));
}

#[test]
fn mut_agreeableness_gap_a7_b4_triggers() {
    let r = ocean_pair(|o| o.agreeableness = Some(7), |o| o.agreeableness = Some(4));
    assert!(agreeableness_gap(&r.frictions));
}

#[test]
fn mut_agreeableness_gap_a8_b5_no_trigger() {
    let r = ocean_pair(|o| o.agreeableness = Some(8), |o| o.agreeableness = Some(5));
    assert!(!agreeableness_gap(&r.frictions));
}

#[test]
fn mut_agreeableness_gap_reverse_b7_a4_triggers() {
    let r = ocean_pair(|o| o.agreeableness = Some(4), |o| o.agreeableness = Some(7));
    assert!(has(&r.frictions, Note::AgreeablenessGap { low: Side::A }));
}

#[test]
fn mut_agreeableness_gap_reverse_a5_b8_no_trigger() {
    let r = ocean_pair(|o| o.agreeableness = Some(5), |o| o.agreeableness = Some(8));
    assert!(!agreeableness_gap(&r.frictions));
}

#[test]
fn mut_neuroticism_gap_exactly_3_triggers() {
    let r = ocean_pair(|o| o.neuroticism = Some(8), |o| o.neuroticism = Some(5));
    assert!(reactive(&r.frictions));
}

#[test]
fn mut_neuroticism_gap_exactly_2_no_trigger() {
    let r = ocean_pair(|o| o.neuroticism = Some(7), |o| o.neuroticism = Some(5));
    assert!(!reactive(&r.frictions));
}

#[test]
fn mut_neuroticism_gap_higher_is_reactive() {
    let r = ocean_pair(|o| o.neuroticism = Some(3), |o| o.neuroticism = Some(9));
    assert!(has(&r.frictions, Note::StressReactivity { reactive: Side::B }));
}

#[test]
fn mut_rep_close_boundary_diff_2() {
    let mut a = p();
    let mut b = p();
    a.rep = hw(8);
    b.rep = hw(10);
    let (syn, _, _) = texts(a, b, "A", "B", Lang::En);
    assert!(
        syn.iter().any(|s| s.contains("natural affinity")),
        "Rep diff=2 must be 'close'"
    );
}

#[test]
fn mut_rep_not_close_boundary_diff_3() {
    let mut a = p();
    let mut b = p();
    a.rep = hw(8);
    b.rep = hw(5);
    let (syn, _, _) = texts(a, b, "A", "B", Lang::En);
    assert!(
        !syn.iter()
            .any(|s| s.contains("natural affinity") || s.contains("unexpected camaraderie")),
        "Rep diff=3 must NOT be 'close'"
    );
}

#[test]
fn mut_rep_close_mixed_not_both_high() {
    let mut a = p();
    let mut b = p();
    a.rep = hw(6);
    b.rep = hw(7);
    let (syn, _, _) = texts(a, b, "A", "B", Lang::En);
    assert!(
        !syn.iter().any(|s| s.contains("natural affinity")),
        "Close but A=6 (<7) must NOT trigger both_high"
    );
}

#[test]
fn mut_rep_close_mixed_not_both_low() {
    let mut a = p();
    let mut b = p();
    a.rep = hw(3);
    b.rep = hw(5);
    let (syn, _, _) = texts(a, b, "A", "B", Lang::En);
    assert!(
        !syn.iter().any(|s| s.contains("unexpected camaraderie")),
        "Close but B=5 (>3) must NOT trigger both_low"
    );
}

#[test]
fn mut_rep_far_a_higher_than_b() {
    let mut a = p();
    let mut b = p();
    a.rep = hw(9);
    b.rep = hw(3);
    let (_, fri, _) = texts(a, b, "A", "B", Lang::En);
    assert!(
        fri.iter()
            .any(|s| s.contains("A more") && s.contains("imbalance")),
        "Far rep where A > B must say 'A more ... than B'"
    );
    assert!(
        !fri.iter()
            .any(|s| s.contains("A more") && s.contains("B more")),
        "Only one direction of imbalance should fire"
    );
}

#[test]
fn mut_rep_far_b_higher_than_a() {
    let mut a = p();
    let mut b = p();
    a.rep = hw(3);
    b.rep = hw(9);
    let (_, fri, _) = texts(a, b, "A", "B", Lang::En);
    assert!(
        fri.iter()
            .any(|s| s.contains("A more") && s.contains("B") && s.contains("imbalance")),
        "Far rep where a < b must say 'A more ... than B'"
    );
}

#[test]
fn mut_rep_far_equal_values_no_far_friction() {
    let mut a = p();
    let mut b = p();
    a.rep = hw(5);
    b.rep = hw(5);
    let (syn, fri, _) = texts(a, b, "A", "B", Lang::En);
    assert!(
        !fri.iter().any(|s| s.contains("imbalance")),
        "Equal rep values (diff=0) must NOT trigger far friction"
    );
    assert!(
        !syn.iter()
            .any(|s| s.contains("natural affinity") || s.contains("unexpected camaraderie")),
        "Equal mid-range values (5) are neither both_high nor both_low"
    );
}

#[test]
fn mut_bias_different_produces_vs_message() {
    let a = biased(BiasType::Anchoring);
    let b = biased(BiasType::LossAversion);
    let (_, fri, _) = texts(a, b, "A", "B", Lang::En);
    assert!(
        fri.iter().any(|s| s.contains("Bias") && s.contains("vs")),
        "Different biases must produce 'Bias X vs Y' friction"
    );
    assert!(
        !fri.iter().any(|s| s.contains("Same") && s.contains("bias")),
        "Different biases must NOT produce 'Same bias' message"
    );
}

#[test]
fn mut_bias_same_produces_same_message() {
    let a = biased(BiasType::Confirmation);
    let b = biased(BiasType::Confirmation);
    let (_, fri, _) = texts(a, b, "A", "B", Lang::En);
    assert!(
        fri.iter().any(|s| s.contains("Same") && s.contains("bias")),
        "Same biases must produce 'Same X bias' message"
    );
    assert!(
        !fri.iter().any(|s| s.contains("Bias") && s.contains("vs")),
        "Same biases must NOT produce 'Bias X vs Y' message"
    );
}

#[test]
fn mut_strategy_power_b_has_power() {
    let a = motivated(MotivationType::Learning);
    let b = motivated(MotivationType::Power);
    let (_, _, (_, str)) = texts(a, b, "A", "B", Lang::En);
    assert!(
        str.iter().any(|s| s.contains("take initiative")),
        "Strategy must trigger when b has Power motivation (not just a)"
    );
}

#[test]
fn mut_strategy_recognition_b_has_recognition() {
    let a = motivated(MotivationType::Learning);
    let b = motivated(MotivationType::Recognition);
    let (_, _, (_, str)) = texts(a, b, "A", "B", Lang::En);
    assert!(
        str.iter().any(|s| s.contains("acknowledge")),
        "Strategy must trigger when b has Recognition motivation"
    );
}

#[test]
fn mut_strategy_security_b_has_security() {
    let a = motivated(MotivationType::Learning);
    let b = motivated(MotivationType::Security);
    let (_, _, (_, str)) = texts(a, b, "A", "B", Lang::En);
    assert!(
        str.iter().any(|s| s.contains("stable frameworks")),
        "Strategy must trigger when b has Security motivation"
    );
}

#[test]
fn mut_strategy_neither_has_power_no_initiative() {
    let a = motivated(MotivationType::Learning);
    let b = motivated(MotivationType::Affiliation);
    let (_, _, (_, str)) = texts(a, b, "A", "B", Lang::En);
    assert!(
        !str.iter().any(|s| s.contains("take initiative")),
        "Strategy must NOT trigger when neither has Power"
    );
}

#[test]
fn mut_strategy_c_threshold_at_7() {
    let r = ocean_pair(|o| o.conscientiousness = Some(7), |_| {});
    assert!(has(&r.strategies, Note::StructuredInfo));
}

#[test]
fn mut_strategy_c_threshold_below_7() {
    let r = ocean_pair(|o| o.conscientiousness = Some(6), |_| {});
    assert!(!has(&r.strategies, Note::StructuredInfo));
}

#[test]
fn mut_strategy_c_threshold_b_high() {
    let r = ocean_pair(|_| {}, |o| o.conscientiousness = Some(8));
    assert!(has(&r.strategies, Note::StructuredInfo));
}

#[test]
fn mut_conflict_mediation_only_one_high_no_trigger() {
    let r = ocean_pair(|o| o.agreeableness = Some(8), |o| o.agreeableness = Some(3));
    assert!(!has(&r.strategies, Note::Mediation));
}

#[test]
fn mut_conflict_direct_only_one_low_no_trigger() {
    let r = ocean_pair(|o| o.agreeableness = Some(3), |o| o.agreeableness = Some(7));
    assert!(!has(&r.strategies, Note::Directness));
}

#[test]
fn mut_conflict_mediation_both_high() {
    let r = ocean_pair(|o| o.agreeableness = Some(7), |o| o.agreeableness = Some(8));
    assert!(has(&r.strategies, Note::Mediation));
}

#[test]
fn mut_conflict_direct_both_low() {
    let r = ocean_pair(|o| o.agreeableness = Some(4), |o| o.agreeableness = Some(3));
    assert!(has(&r.strategies, Note::Directness));
}

#[test]
fn mut_ocean_gap_e_diff_3_triggers() {
    let r = ocean_pair(|o| o.extraversion = Some(8), |o| o.extraversion = Some(5));
    assert!(social_pace(&r.strategies));
}

#[test]
fn mut_ocean_gap_e_diff_2_no_trigger() {
    let r = ocean_pair(|o| o.extraversion = Some(7), |o| o.extraversion = Some(5));
    assert!(!social_pace(&r.strategies));
}

#[test]
fn mut_ocean_gap_a_diff_3_triggers() {
    let r = ocean_pair(|o| o.agreeableness = Some(8), |o| o.agreeableness = Some(5));
    assert!(has(&r.strategies, Note::ConflictStyles));
}

#[test]
fn mut_ocean_gap_a_diff_2_no_trigger() {
    let r = ocean_pair(|o| o.agreeableness = Some(6), |o| o.agreeableness = Some(4));
    assert!(!has(&r.strategies, Note::ConflictStyles));
}

#[test]
fn mut_ocean_gap_c_diff_3_triggers() {
    let r = ocean_pair(|o| o.conscientiousness = Some(9), |o| o.conscientiousness = Some(6));
    assert!(has(&r.strategies, Note::OrganizationLevels));
}

#[test]
fn mut_ocean_gap_c_diff_2_no_trigger() {
    let r = ocean_pair(|o| o.conscientiousness = Some(7), |o| o.conscientiousness = Some(5));
    assert!(!has(&r.strategies, Note::OrganizationLevels));
}

#[test]
fn mut_extraversion_friction_diff_4_triggers() {
    let r = ocean_pair(|o| o.extraversion = Some(2), |o| o.extraversion = Some(6));
    assert!(has(&r.frictions, Note::ExtraversionGap));
}

#[test]
fn mut_extraversion_friction_diff_3_no_trigger() {
    let r = ocean_pair(|o| o.extraversion = Some(3), |o| o.extraversion = Some(6));
    assert!(!has(&r.frictions, Note::ExtraversionGap));
}

#[test]
fn mut_rep_different_dims_not_hardworker() {
    let mut a = p();
    let mut b = p();
    a.rep.honest_deceitful = Some(9);
    b.rep.honest_deceitful = Some(3);
    let (_, fri, _) = texts(a, b, "A", "B", Lang::En);
    assert!(
        fri.iter().any(|s| s.contains("imbalance")),
        "Non-hardworker dim far apart must still produce friction"
    );
}

#[test]
fn mut_rep_multiple_dims_produce_multiple_entries() {
    let mut a = p();
    let mut b = p();
    a.rep.hardworker_lazy = Some(9);
    a.rep.honest_deceitful = Some(8);
    b.rep.hardworker_lazy = Some(3);
    b.rep.honest_deceitful = Some(3);
    let (_, fri, _) = texts(a, b, "A", "B", Lang::En);
    let imbalance_count = fri.iter().filter(|s| s.contains("imbalance")).count();
    assert!(
        imbalance_count >= 2,
        "Multiple far-apart rep dims must produce multiple friction entries"
    );
}

#[test]
fn mut_no_ocean_all_none() {
    let (syn, fri, _) = texts(p(), p(), "A", "B", Lang::En);
    assert!(syn.iter().any(|s| s.contains("No obvious synergy")));
    assert!(fri.iter().any(|s| s.contains("No major friction")));
}

#[test]
fn mut_ea_triggers_but_no_a_gap() {
    let r = ocean_pair(
        |o| {
            o.extraversion = Some(9);
            o.agreeableness = Some(6);
        },
        |o| o.agreeableness = Some(8),
    );
    assert!(has(&r.synergies, Note::DriveHarmony));
    assert!(!agreeableness_gap(&r.frictions));
}

#[test]
fn mut_neuroticism_reactive_person_correctly_identified() {
    let r = ocean_pair(|o| o.neuroticism = Some(2), |o| o.neuroticism = Some(8));
    assert!(has(&r.frictions, Note::StressReactivity { reactive: Side::B }));
}

#[test]
fn mut_neuroticism_swap_reactive_identity() {
    let r = ocean_pair(|o| o.neuroticism = Some(8), |o| o.neuroticism = Some(2));
    assert!(has(&r.frictions, Note::StressReactivity { reactive: Side::A }));
}

#[test]
fn mut_no_motivations_no_power_strategy() {
    let (_, _, (_, str)) = texts(p(), p(), "A", "B", Lang::En);
    assert!(
        !str.iter().any(|s| s.contains("take initiative")),
        "No motivations → no power strategy"
    );
    assert!(
        !str.iter().any(|s| s.contains("acknowledge")),
        "No motivations → no recognition strategy"
    );
    assert!(
        !str.iter().any(|s| s.contains("stable frameworks")),
        "No motivations → no security strategy"
    );
}

#[test]
fn mut_ea_boundary_exactly_7_triggers() {
    let r = ocean_pair(|o| o.extraversion = Some(7), |o| o.agreeableness = Some(7));
    assert!(has(&r.synergies, Note::DriveHarmony));
}

#[test]
fn mut_ea_boundary_e7_a6_no_trigger() {
    let r = ocean_pair(|o| o.extraversion = Some(7), |o| o.agreeableness = Some(6));
    assert!(!has(&r.synergies, Note::DriveHarmony));
}

#[test]
fn mut_oc_boundary_exactly_7_triggers() {
    let r = ocean_pair(|o| o.openness = Some(7), |o| o.conscientiousness = Some(7));
    assert!(creative(&r.synergies));
}

#[test]
fn mut_oc_boundary_o7_c6_no_trigger() {
    let r = ocean_pair(|o| o.openness = Some(7), |o| o.conscientiousness = Some(6));
    assert!(!creative(&r.synergies));
}

#[test]
fn mut_neuroticism_both_none_no_friction() {
    let (_, fri, _) = texts(p(), p(), "A", "B", Lang::En);
    assert!(
        !fri.iter().any(|s| s.contains("reactive to stress")),
        "Both N=None must not produce neuroticism friction"
    );
}

#[test]
fn mut_neuroticism_one_none_no_friction() {
    let r = ocean_pair(|o| o.neuroticism = Some(9), |_| {});
    assert!(!reactive(&r.frictions));
}

#[test]
fn mut_similar_profiles_c_too_far() {
    let r = ocean_pair(
        |o| {
            o.openness = Some(7);
            o.conscientiousness = Some(2);
        },
        |o| {
            o.openness = Some(8);
            o.conscientiousness = Some(6);
        },
    );
    assert!(!has(&r.synergies, Note::SimilarOcean));
}

#[test]
fn mut_similar_profiles_o_too_far() {
    let r = ocean_pair(
        |o| {
            o.openness = Some(2);
            o.conscientiousness = Some(5);
        },
        |o| {
            o.openness = Some(6);
            o.conscientiousness = Some(7);
        },
    );
    assert!(!has(&r.synergies, Note::SimilarOcean));
}

#[test]
fn mut_top_strategy_is_first() {
    let mut a = motivated(MotivationType::Power);
    a.ocean.conscientiousness = Some(8);
    let b = motivated(MotivationType::Achievement);
    let (_, _, (top, str)) = texts(a, b, "A", "B", Lang::En);
    assert_eq!(top, str[0], "top must equal the first element of str");
    assert!(
        top.contains("take initiative"),
        "Power motivation strategy should be top (first added)"
    );
}

#[test]
fn rep_imbalance_a_higher() {
    let mut a = p();
    let mut b = p();
    a.rep.hardworker_lazy = Some(9);
    b.rep.hardworker_lazy = Some(3);
    let (_, fri, _) = texts(a, b, "A", "B", Lang::En);
    assert!(
        fri.iter()
            .any(|s| s.contains("more") && s.contains("imbalance")),
        "expected friction for rep imbalance A>B, got: {:?}",
        fri
    );
}

#[test]
fn same_bias_type_adds_friction() {
    let a = biased(BiasType::Confirmation);
    let b = biased(BiasType::Confirmation);
    let (_, fri, _) = texts(a, b, "A", "B", Lang::En);
    assert!(
        fri.iter().any(|s| s.contains("Same") && s.contains("bias")),
        "expected same-bias friction, got: {:?}",
        fri
    );
}

#[test]
fn behavioral_patterns_fr() {
    let a = patterned(BehaviorTrigger::Stress);
    let b = patterned(BehaviorTrigger::Feedback);
    let (syn, _, _) = texts(a, b, "A", "B", Lang::Fr);
    assert!(
        syn.iter().any(|s| s.contains("réagit")),
        "expected FR behavioral pattern synergy, got: {:?}",
        syn
    );
}

#[test]
fn trigger_synergy_negative() {
    let a = patterned(BehaviorTrigger::Conflict);
    let b = patterned(BehaviorTrigger::Conflict);
    let (_, _, (_, strats)) = texts_with(a, b, Leaning::Neutral, Leaning::Negative, "A", "B", Lang::En);
    assert!(
        strats.iter().any(|s| s.contains("mutual triggering")),
        "expected trigger clash strategy, got: {:?}",
        strats
    );
}

#[test]
fn trigger_synergy_positive() {
    let a = patterned(BehaviorTrigger::Change);
    let b = patterned(BehaviorTrigger::Feedback);
    let (_, _, (_, strats)) = texts_with(a, b, Leaning::Neutral, Leaning::Positive, "A", "B", Lang::En);
    assert!(
        strats
            .iter()
            .any(|s| s.contains("complementarity") || s.contains("balance")),
        "expected trigger complementarity strategy, got: {:?}",
        strats
    );
}

#[test]
fn prefill_rel_from_found_forward() {
    let rels = vec![rel("a", "b", RelationType::Friends, 8)];
    let (typ, strength) = prefill_rel_from(&rels, "a", "b");
    assert_eq!(typ, Some(RelationType::Friends));
    assert_eq!(strength, 8);
}

#[test]
fn prefill_rel_from_found_reverse() {
    let rels = vec![rel("b", "a", RelationType::Mentors, 3)];
    let (typ, strength) = prefill_rel_from(&rels, "a", "b");
    assert_eq!(typ, Some(RelationType::Mentors));
    assert_eq!(strength, 3);
}

#[test]
fn prefill_rel_from_not_found() {
    let (typ, strength) = prefill_rel_from(&vec![], "a", "b");
    assert_eq!(typ, None);
    assert_eq!(strength, 5);
}

#[test]
fn benefit_labels_a_higher() {
    let (a, b) = benefit_labels(8, 5, "Alice", "Bob", "more", "balanced");
    assert!(a.contains("+3%"));
    assert!(a.contains("Alice"));
    assert!(b.is_empty());
    assert_eq!(a, "(+3% — Alice more)");
}

#[test]
fn benefit_labels_b_higher() {
    let (a, b) = benefit_labels(3, 7, "Alice", "Bob", "more", "balanced");
    assert!(a.is_empty());
    assert!(b.contains("+4%"));
    assert!(b.contains("Bob"));
}

#[test]
fn benefit_labels_equal() {
    let (a, b) = benefit_labels(5, 5, "Alice", "Bob", "more", "balanced");
    assert!(a.contains("balanced"));
    assert!(b.contains("balanced"));
    assert_eq!(a, "(balanced)");
}

#[test]
fn format_band_label_positive() {
    assert_eq!(format_band_label(3, "Band {} of 10"), "Band 3 of 10");
}

#[test]
fn format_band_label_zero() {
    assert_eq!(format_band_label(0, "Band {} of 10"), "");
}

#[test]
fn format_band_label_two_digits_first_placeholder_only() {
    assert_eq!(format_band_label(10, "{} / {}"), "10 / {}");
}

#[test]
fn format_signed_delta_positive() {
    assert_eq!(format_signed_delta(5), "+5");
}

#[test]
fn format_signed_delta_negative() {
    assert_eq!(format_signed_delta(-3), "-3");
}

#[test]
fn format_signed_delta_zero() {
    assert_eq!(format_signed_delta(0), "");
}

#[test]
fn format_signed_delta_extremes() {
    assert_eq!(format_signed_delta(127), "+127");
    assert_eq!(format_signed_delta(-128), "-128");
}

#[test]
fn prefill_rel_from_requires_exact_twin_match() {
    let r = |s: &str, t: &str| vec![rel(s, t, RelationType::WorksWith, 7)];
    assert_eq!(prefill_rel_from(&r("a", "b"), "a", "b"), (Some(RelationType::WorksWith), 7));
    assert_eq!(prefill_rel_from(&r("b", "a"), "a", "b"), (Some(RelationType::WorksWith), 7));
    assert_eq!(prefill_rel_from(&r("a", "x"), "a", "b"), (None, 5));
    assert_eq!(prefill_rel_from(&r("x", "b"), "a", "b"), (None, 5));
    assert_eq!(prefill_rel_from(&r("x", "a"), "a", "b"), (None, 5));
    assert_eq!(prefill_rel_from(&r("b", "x"), "a", "b"), (None, 5));
}

#[test]
fn prefill_rel_from_takes_first_link() {
    let rels = vec![
        rel("a", "x", RelationType::Family, 2),
        rel("b", "a", RelationType::Partner, 9),
        rel("a", "b", RelationType::Friends, 4),
    ];
    assert_eq!(prefill_rel_from(&rels, "a", "b"), (Some(RelationType::Partner), 9));
    assert_eq!(prefill_rel_from(&rels, "b", "a"), (Some(RelationType::Partner), 9));
}

#[test]
fn should_show_extra_strategies_gates() {
    assert!(!should_show_extra_strategies(0));
    assert!(!should_show_extra_strategies(1));
    assert!(should_show_extra_strategies(2));
}

#[test]
fn reputation_imbalance_label_a_when_va_gt_vb() {
    let mut a = p();
    let mut b = p();
    a.rep = hw(8);
    b.rep = hw(5);
    let (_, fri, _) = texts(a, b, "A", "B", Lang::En);
    assert!(
        fri.iter()
            .any(|s| s.contains("Hardworker") && !s.contains("Lazy")),
        "va>vb should name the high-end label, got: {:?}",
        fri
    );
}

#[test]
fn reputation_close_no_imbalance() {
    let mut a = p();
    let mut b = p();
    a.rep = hw(6);
    b.rep = hw(5);
    let (_, fri, _) = texts(a, b, "A", "B", Lang::En);
    assert!(
        !fri.iter().any(|s| s.contains("imbalance")),
        "close scores must not report imbalance, got: {:?}",
        fri
    );
}

#[test]
fn reputation_imbalance_label_b_when_va_lt_vb() {
    let mut a = p();
    let mut b = p();
    a.rep = hw(5);
    b.rep = hw(8);
    let (_, fri, _) = texts(a, b, "A", "B", Lang::En);
    assert!(
        fri.iter()
            .any(|s| s.contains("Lazy") && !s.contains("Hardworker")),
        "vb>va should name the low-end label, got: {:?}",
        fri
    );
}

#[test]
fn extraversion_gap_names_higher_pace_person_first() {
    let r = ocean_pair(|o| o.extraversion = Some(8), |o| o.extraversion = Some(5));
    assert!(has(&r.strategies, Note::SocialPace { more: Side::A }));
}

// Conflict against Injustice sits exactly at -0.1 in the trigger synergy
// table, which is no clash: its leaning is neutral.
#[test]
fn trigger_synergy_exact_minus_point_one_no_strategy() {
    let a = patterned(BehaviorTrigger::Conflict);
    let b = patterned(BehaviorTrigger::Injustice);
    let (_, _, (_, strats)) = texts_with(a, b, Leaning::Neutral, Leaning::Neutral, "A", "B", Lang::En);
    assert!(
        !strats.iter().any(|s| s.contains("mutual triggering")),
        "exact -0.1 must not count as a clash, got: {:?}",
        strats
    );
}

#[test]
fn analysis_orders_every_section() {
    let mut a = motivated(MotivationType::Power);
    let mut b = motivated(MotivationType::Power);
    a.ocean.openness = Some(8);
    a.ocean.extraversion = Some(9);
    a.ocean.agreeableness = Some(8);
    a.ocean.neuroticism = Some(2);
    b.ocean.conscientiousness = Some(8);
    b.ocean.agreeableness = Some(3);
    b.ocean.extraversion = Some(2);
    b.ocean.neuroticism = Some(7);
    a.top_bias = Some(BiasType::Recency);
    b.top_bias = Some(BiasType::Recency);
    a.first_trigger = Some(BehaviorTrigger::Change);
    b.first_trigger = Some(BehaviorTrigger::Change);
    let r = run_with(a, b, Leaning::Negative, Leaning::Positive);
    assert_eq!(
        r.synergies,
        vec![
            Note::CreativeExecution { visionary: Side::A },
            Note::SharedMotivation,
            Note::PatternResponses,
            Note::BothAdaptChange,
        ]
    );
    assert_eq!(
        r.frictions,
        vec![
            Note::CompetingMotivations,
            Note::AgreeablenessGap { low: Side::B },
            Note::StressReactivity { reactive: Side::B },
            Note::SameBias,
            Note::ExtraversionGap,
        ]
    );
    assert_eq!(
        r.strategies,
        vec![
            Note::PowerInitiative,
            Note::SocialPace { more: Side::A },
            Note::ConflictStyles,
            Note::StructuredInfo,
            Note::BehavioralComplementarity,
        ]
    );
    assert_eq!(r.top_strategy, Note::PowerInitiative);
}

#[test]
fn analysis_never_empty_on_blank_pair() {
    let r = run(p(), p());
    assert_eq!(r.synergies.len(), 1);
    assert_eq!(r.frictions.len(), 1);
    assert_eq!(r.strategies.len(), 1);
}

#[test]
fn mini_bars_show_score_and_width() {
    assert_eq!(mini_bar_text(Some(7)), "7");
    assert_eq!(mini_bar_text(Some(10)), "10");
    assert_eq!(mini_bar_text(None), "-");
    assert_eq!(mini_bar_width(Some(7)), 70);
    assert_eq!(mini_bar_width(None), 0);
}

#[test]
fn ocean_gap_strategy_outranks_structure() {
    let mut a = p();
    let mut b = p();
    a.ocean.conscientiousness = Some(8);
    a.ocean.extraversion = Some(2);
    b.ocean.extraversion = Some(9);
    let (_, _, (top, strs)) = texts(a, b, "A", "B", Lang::En);
    assert_eq!(strs.len(), 2);
    assert_eq!(top, "Very different social pace — B prefers more interaction, A more quiet time");
    assert_eq!(strs[1], "Present information in a structured way with tangible data");
}

#[test]
fn note_text_writes_both_languages_with_names_and_labels() {
    let w = note_words(&biased(BiasType::Recency), &biased(BiasType::Anchoring), "Alice", "Bob");
    assert_eq!(
        note_text(Note::StressReactivity { reactive: Side::B }, &w, Lang::En),
        "Bob more reactive to stress than Alice — risk of misunderstanding"
    );
    assert_eq!(
        note_text(Note::StressReactivity { reactive: Side::B }, &w, Lang::Fr),
        "Bob plus réactif au stress que Alice — risque d'incompréhension"
    );
    assert_eq!(
        note_text(Note::BiasClash, &w, Lang::En),
        "Bias Recency vs Anchoring : disagreements on decision references"
    );
    assert_eq!(
        note_text(Note::RepImbalance { dim: RepDim::HardworkerLazy, pole: Pole::Second }, &w, Lang::Fr),
        "Alice plus Lazy que Bob — déséquilibre sur ce trait"
    );
    assert_eq!(note_text(Note::OpenCommunication, &w, Lang::Fr), "Communiquer ouvertement et observer les réactions");
}

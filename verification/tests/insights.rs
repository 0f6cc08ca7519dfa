use peoplemodeler::insight::{
    build_top_rec, change_strategy, conflict_strategy, feedback_strategy, generate_insight,
    injustice_strategy, recognition_strategy, role_suffix, stress_strategy, success_strategy,
    threatened_strategy, trigger_label, uncertainty_strategy, HeadlineWords, InsightProfile,
    RhetoricGaps,
    ALL_TRIGGERS,
};
use peoplemodeler::model::{BehaviorTrigger, MotivationType, OceanScores, TopMotivation};

// Strategies come out as translation keys; the page looks each one up in
// the language at hand.

fn no_gaps() -> RhetoricGaps {
    RhetoricGaps {
        ambition_lazy: false,
        security_gullible: false,
        affiliation_cold: false,
        affiliation_distrustful: false,
        discipline_lazy: false,
        helping_selfish: false,
        warmth_blunt: false,
        fairness_rhetoric: false,
    }
}

fn blank() -> InsightProfile {
    InsightProfile { ocean: OceanScores::unset(), top_motivation: None, gaps: no_gaps() }
}

fn with_ocean(o: u8, c: u8, e: u8, a: u8, n: u8) -> InsightProfile {
    let mut p = blank();
    p.ocean = OceanScores {
        openness: Some(o),
        conscientiousness: Some(c),
        extraversion: Some(e),
        agreeableness: Some(a),
        neuroticism: Some(n),
    };
    p
}

fn with_mot(mut p: InsightProfile, kind: MotivationType, intensity: u8) -> InsightProfile {
    p.top_motivation = Some(TopMotivation { kind, intensity });
    p
}

fn has(s: &[&str], key: &str) -> bool {
    s.contains(&key)
}

// The headline template and an English trigger label, as the page passes
// them after looking them up.
const WHEN: &str = "{name} — {trigger}: {advice}";
const STRESS_LABEL: &str = "Under stress";

fn words() -> HeadlineWords {
    HeadlineWords {
        template: WHEN.to_string(),
        name: "A".to_string(),
        role: String::new(),
        context: String::new(),
        texts: vec![
            ("strategy_stress_label".to_string(), STRESS_LABEL.to_string()),
            ("strategy_stress_high_n".to_string(), "Stay calm and reassure".to_string()),
            ("strategy_stress_fallback".to_string(), "Observe and listen".to_string()),
        ],
    }
}

fn top_for(name: &str, role: &str, context: &str, recs: &[&str]) -> String {
    let recs: Vec<String> = recs.iter().map(|r| r.to_string()).collect();
    build_top_rec(WHEN, name, role, context, STRESS_LABEL, &recs)
}

#[test]
fn trigger_label_all_variants() {
    for t in ALL_TRIGGERS {
        assert!(!trigger_label(t).is_empty());
    }
    assert_eq!(trigger_label(BehaviorTrigger::Stress), "strategy_stress_label");
    assert_eq!(trigger_label(BehaviorTrigger::Threatened), "strategy_threat_label");
}

#[test]
fn trigger_label_all_variants_en() {
    let labels: Vec<&str> = ALL_TRIGGERS.iter().map(|t| trigger_label(*t)).collect();
    assert_eq!(
        labels,
        vec![
            "strategy_stress_label",
            "strategy_conflict_label",
            "strategy_success_label",
            "strategy_uncertainty_label",
            "strategy_recognition_label",
            "strategy_threat_label",
            "strategy_change_label",
            "strategy_feedback_label",
            "strategy_injustice_label",
        ]
    );
    let distinct: std::collections::HashSet<&str> = labels.iter().copied().collect();
    assert_eq!(distinct.len(), ALL_TRIGGERS.len());
}

#[test]
fn build_top_rec_empty_recs() {
    let result = top_for("A", "Engineer", "Core", &[]);
    assert!(result.contains("A"));
    assert!(result.contains("stress"));
    assert_eq!(result, "A (Engineer, Core) — under stress: ");
}

#[test]
fn build_top_rec_with_recs() {
    let result = top_for("A", "", "", &["Some advice"]);
    assert!(result.contains("Some advice"));
    assert_eq!(result, "A — under stress: Some advice");
}

#[test]
fn build_top_rec_with_role() {
    let result = top_for("A", "Engineer", "Core", &["Do this"]);
    assert!(result.contains("Do this"));
    assert!(result.contains("Engineer"));
}

#[test]
fn build_top_rec_contains_advice() {
    let result = top_for("A", "Engineer", "Core", &["Drink tea", "Take a walk"]);
    assert!(result.contains("Drink tea"));
    assert!(!result.contains("Take a walk"));
}

#[test]
fn build_top_rec_with_role_and_context() {
    let result = top_for("A", "Engineer", "Backend", &["advice"]);
    assert!(result.contains("Engineer"));
    assert!(result.contains("Backend"));
}

#[test]
fn build_top_rec_role_only_no_context() {
    let top = top_for("Dave", "PM", "", &["advice"]);
    assert!(top.contains("PM"));
    assert!(!top.contains(","));
}

#[test]
fn build_top_rec_empty_role_and_context() {
    let top = top_for("Eve", "", "", &["advice"]);
    assert!(!top.contains("("));
    assert!(top.contains("Eve"));
}

#[test]
fn build_top_rec_replaces_every_placeholder() {
    let recs = vec!["Listen".to_string()];
    let top = build_top_rec("{name}/{name}: {advice} ({trigger})", "Ann", "", "Ctx", "IN CONFLICT", &recs);
    assert_eq!(top, "Ann (Ctx)/Ann (Ctx): Listen (in conflict)");
}

#[test]
fn role_suffix_joins_what_is_set() {
    assert_eq!(role_suffix("", ""), "");
    assert_eq!(role_suffix("PM", ""), " (PM)");
    assert_eq!(role_suffix("", "Core"), " (Core)");
    assert_eq!(role_suffix("PM", "Core"), " (PM, Core)");
}

#[test]
fn generate_insight_stress() {
    let out = generate_insight(&with_ocean(5, 5, 5, 5, 8), BehaviorTrigger::Stress, &words());
    assert!(!out.top.is_empty());
    assert!(!out.trigger_label.is_empty());
    assert!(!out.secondary.is_empty());
}

#[test]
fn generate_insight_conflict() {
    let out = generate_insight(&with_ocean(5, 5, 5, 3, 5), BehaviorTrigger::Conflict, &words());
    assert!(!out.top.is_empty());
    assert_eq!(out.trigger_label, "strategy_conflict_label");
    assert!(has(&out.secondary, "strategy_conflict_low_a"));
}

#[test]
fn generate_insight_fallback() {
    let out = generate_insight(&with_ocean(5, 5, 5, 5, 5), BehaviorTrigger::Stress, &words());
    assert!(out.top.contains("A"));
    assert_eq!(out.secondary, vec!["strategy_stress_fallback"]);
    assert!(!out.has_secondary);
}

#[test]
fn generate_insight_stress_high_n() {
    let out = generate_insight(&with_ocean(5, 5, 5, 5, 8), BehaviorTrigger::Stress, &words());
    assert!(out.top.contains("A"));
    assert_eq!(out.trigger_label, "strategy_stress_label");
    assert!(has(&out.secondary, "strategy_stress_high_n"));
}

#[test]
fn generate_insight_has_secondary_true() {
    let mut p = blank();
    p.ocean.neuroticism = Some(8);
    p.ocean.extraversion = Some(8);
    let out = generate_insight(&p, BehaviorTrigger::Stress, &words());
    assert!(out.secondary.len() > 1);
    assert!(out.has_secondary);
}

#[test]
fn generate_insight_has_secondary_false() {
    let out = generate_insight(&blank(), BehaviorTrigger::Stress, &words());
    assert_eq!(out.secondary.len(), 1);
    assert!(!out.has_secondary);
}

#[test]
fn generate_insight_matches_each_strategy() {
    let p = with_mot(with_ocean(8, 3, 8, 3, 8), MotivationType::Power, 9);
    assert_eq!(generate_insight(&p, BehaviorTrigger::Stress, &words()).secondary, stress_strategy(&p));
    assert_eq!(generate_insight(&p, BehaviorTrigger::Conflict, &words()).secondary, conflict_strategy(&p));
    assert_eq!(generate_insight(&p, BehaviorTrigger::Success, &words()).secondary, success_strategy(&p));
    assert_eq!(generate_insight(&p, BehaviorTrigger::Uncertainty, &words()).secondary, uncertainty_strategy(&p));
    assert_eq!(generate_insight(&p, BehaviorTrigger::Recognition, &words()).secondary, recognition_strategy(&p));
    assert_eq!(generate_insight(&p, BehaviorTrigger::Threatened, &words()).secondary, threatened_strategy(&p));
    assert_eq!(generate_insight(&p, BehaviorTrigger::Change, &words()).secondary, change_strategy(&p));
    assert_eq!(generate_insight(&p, BehaviorTrigger::Feedback, &words()).secondary, feedback_strategy(&p));
    assert_eq!(generate_insight(&p, BehaviorTrigger::Injustice, &words()).secondary, injustice_strategy(&p));
}

#[test]
fn advice_never_empty_for_blank_profile() {
    for t in ALL_TRIGGERS {
        assert!(!generate_insight(&blank(), t, &words()).secondary.is_empty());
    }
}

#[test]
fn stress_strategy_exact_order() {
    let p = with_mot(with_ocean(8, 8, 8, 3, 8), MotivationType::Security, 5);
    assert_eq!(
        stress_strategy(&p),
        vec![
            "strategy_stress_high_n",
            "strategy_stress_high_e",
            "strategy_stress_high_c",
            "strategy_stress_low_a",
            "strategy_stress_high_o",
            "strategy_stress_security",
        ]
    );
}

#[test]
fn rhetoric_gaps_switch_advice() {
    let mut p = with_mot(with_ocean(5, 5, 5, 5, 5), MotivationType::Power, 8);
    p.gaps.ambition_lazy = true;
    assert_eq!(stress_strategy(&p), vec!["strategy_stress_ambition_rhetoric"]);
    assert_eq!(success_strategy(&p), vec!["strategy_success_ambition_rhetoric"]);
    assert_eq!(injustice_strategy(&p), vec!["strategy_injustice_ambition_rhetoric"]);
    let mut q = with_mot(with_ocean(5, 5, 5, 5, 5), MotivationType::Security, 8);
    q.gaps.security_gullible = true;
    assert_eq!(stress_strategy(&q), vec!["strategy_stress_security_rhetoric"]);
}

#[test]
fn rhetoric_gaps_add_advice() {
    let mut p = with_ocean(5, 5, 5, 5, 5);
    p.gaps.affiliation_cold = true;
    p.gaps.affiliation_distrustful = true;
    p.gaps.discipline_lazy = true;
    p.gaps.helping_selfish = true;
    p.gaps.warmth_blunt = true;
    assert_eq!(
        conflict_strategy(&p),
        vec![
            "strategy_conflict_affiliation_rhetoric",
            "strategy_conflict_affiliation_trust_rhetoric",
        ]
    );
    assert_eq!(change_strategy(&p), vec!["strategy_change_discipline_rhetoric"]);
    assert_eq!(
        feedback_strategy(&p),
        vec!["strategy_feedback_helping_rhetoric", "strategy_feedback_warmth_rhetoric"]
    );
}

#[test]
fn fairness_rhetoric_replaces_fairness_advice() {
    let mut p = with_mot(with_ocean(5, 5, 5, 5, 5), MotivationType::Fairness, 9);
    assert_eq!(injustice_strategy(&p), vec!["strategy_injustice_fairness"]);
    p.gaps.fairness_rhetoric = true;
    assert_eq!(injustice_strategy(&p), vec!["strategy_injustice_fairness_rhetoric"]);
}

#[test]
fn stress_strategy_high_n() {
    let p = with_ocean(5, 5, 5, 5, 8);
    let s = stress_strategy(&p);
    assert_eq!(s.len(), 1);
    assert!(has(&s, "strategy_stress_high_n"));
}

#[test]
fn stress_strategy_high_e() {
    let p = with_ocean(5, 5, 8, 5, 5);
    let s = stress_strategy(&p);
    assert_eq!(s.len(), 1);
    assert!(has(&s, "strategy_stress_high_e"));
}

#[test]
fn stress_strategy_low_e() {
    let p = with_ocean(5, 5, 3, 5, 5);
    let s = stress_strategy(&p);
    assert_eq!(s.len(), 1);
    assert!(has(&s, "strategy_stress_low_e"));
}

#[test]
fn stress_strategy_fallback() {
    let p = with_ocean(5, 5, 5, 5, 5);
    let s = stress_strategy(&p);
    assert_eq!(s.len(), 1);
    assert!(has(&s, "strategy_stress_fallback"));
}

#[test]
fn conflict_strategy_low_a() {
    let p = with_ocean(5, 5, 5, 3, 5);
    let s = conflict_strategy(&p);
    assert_eq!(s.len(), 1);
    assert!(has(&s, "strategy_conflict_low_a"));
}

#[test]
fn conflict_strategy_fallback() {
    let p = with_ocean(5, 5, 5, 5, 5);
    let s = conflict_strategy(&p);
    assert_eq!(s.len(), 1);
    assert!(has(&s, "strategy_conflict_fallback"));
}

#[test]
fn success_strategy_high_o() {
    let p = with_ocean(8, 5, 5, 5, 5);
    let s = success_strategy(&p);
    assert_eq!(s.len(), 1);
    assert!(has(&s, "strategy_success_high_o"));
}

#[test]
fn success_strategy_fallback() {
    let p = with_ocean(5, 5, 5, 5, 5);
    let s = success_strategy(&p);
    assert_eq!(s.len(), 1);
    assert!(has(&s, "strategy_success_fallback"));
}

#[test]
fn uncertainty_strategy_high_n() {
    let p = with_ocean(5, 5, 5, 5, 8);
    let s = uncertainty_strategy(&p);
    assert_eq!(s.len(), 1);
    assert!(has(&s, "strategy_uncertainty_high_n"));
}

#[test]
fn uncertainty_strategy_fallback() {
    let p = with_ocean(5, 5, 5, 5, 5);
    let s = uncertainty_strategy(&p);
    assert_eq!(s.len(), 1);
    assert!(has(&s, "strategy_uncertainty_fallback"));
}

#[test]
fn recognition_strategy_fallback() {
    let p = with_ocean(5, 5, 5, 5, 5);
    let s = recognition_strategy(&p);
    assert_eq!(s.len(), 1);
    assert!(has(&s, "strategy_recognition_fallback"));
}

#[test]
fn recognition_strategy_high_e() {
    let p = with_ocean(5, 5, 8, 5, 5);
    let s = recognition_strategy(&p);
    assert_eq!(s.len(), 1);
    assert!(has(&s, "strategy_recognition_high_e"));
}

#[test]
fn threatened_strategy_fallback() {
    let p = with_ocean(5, 5, 5, 5, 5);
    let s = threatened_strategy(&p);
    assert_eq!(s.len(), 1);
    assert!(has(&s, "strategy_threat_fallback"));
}

#[test]
fn change_strategy_high_n() {
    let p = with_ocean(5, 5, 5, 5, 8);
    let s = change_strategy(&p);
    assert_eq!(s.len(), 1);
    assert!(has(&s, "strategy_change_high_n"));
}

#[test]
fn change_strategy_fallback() {
    let p = with_ocean(5, 5, 5, 5, 5);
    let s = change_strategy(&p);
    assert_eq!(s.len(), 1);
    assert!(has(&s, "strategy_change_fallback"));
}

#[test]
fn feedback_strategy_high_n() {
    let p = with_ocean(5, 5, 5, 5, 8);
    let s = feedback_strategy(&p);
    assert_eq!(s.len(), 1);
    assert!(has(&s, "strategy_feedback_high_n"));
}

#[test]
fn feedback_strategy_fallback() {
    let p = with_ocean(5, 5, 5, 5, 5);
    let s = feedback_strategy(&p);
    assert_eq!(s.len(), 1);
    assert!(has(&s, "strategy_feedback_fallback"));
}

#[test]
fn injustice_strategy_high_a() {
    let p = with_ocean(5, 5, 5, 8, 5);
    let s = injustice_strategy(&p);
    assert_eq!(s.len(), 1);
    assert!(has(&s, "strategy_injustice_high_a"));
}

#[test]
fn injustice_strategy_fallback() {
    let p = with_ocean(5, 5, 5, 5, 5);
    let s = injustice_strategy(&p);
    assert_eq!(s.len(), 1);
    assert!(has(&s, "strategy_injustice_fallback"));
}

#[test]
fn stress_strategy_french() {
    let p = with_ocean(5, 5, 5, 5, 8);
    let s = stress_strategy(&p);
    assert_eq!(s.len(), 1);
    assert!(has(&s, "strategy_stress_high_n"));
}

#[test]
fn success_strategy_recognition_mot() {
    let p = with_mot(with_ocean(5, 5, 5, 5, 5), MotivationType::Recognition, 8);
    let s = success_strategy(&p);
    assert_eq!(s.len(), 1);
    assert!(has(&s, "strategy_success_recognition"));
}

#[test]
fn success_strategy_power_mot() {
    let p = with_mot(with_ocean(5, 5, 5, 5, 5), MotivationType::Power, 8);
    let s = success_strategy(&p);
    assert_eq!(s.len(), 1);
    assert!(has(&s, "strategy_success_power"));
}

#[test]
fn stress_strategy_power_mot() {
    let p = with_mot(with_ocean(5, 5, 5, 5, 5), MotivationType::Power, 8);
    let s = stress_strategy(&p);
    assert!(has(&s, "strategy_stress_power"));
}

#[test]
fn stress_strategy_security_mot() {
    let p = with_mot(with_ocean(5, 5, 5, 5, 5), MotivationType::Security, 8);
    let s = stress_strategy(&p);
    assert!(has(&s, "strategy_stress_security"));
}

#[test]
fn recognition_strategy_recognition_mot() {
    let p = with_mot(with_ocean(5, 5, 8, 5, 5), MotivationType::Recognition, 9);
    let s = recognition_strategy(&p);
    assert_eq!(s.len(), 2);
    assert!(has(&s, "strategy_recognition_high"));
    assert!(has(&s, "strategy_recognition_high_e"));
}

#[test]
fn recognition_strategy_mid_intensity() {
    let p = with_mot(with_ocean(5, 5, 8, 5, 5), MotivationType::Recognition, 6);
    let s = recognition_strategy(&p);
    assert!(has(&s, "strategy_recognition_mid"));
}

#[test]
fn recognition_strategy_low_intensity() {
    let p = with_mot(with_ocean(5, 5, 8, 5, 5), MotivationType::Recognition, 3);
    let s = recognition_strategy(&p);
    assert!(has(&s, "strategy_recognition_low"));
}

#[test]
fn recognition_strategy_boundary_8_is_high() {
    let p = with_mot(with_ocean(5, 5, 5, 5, 5), MotivationType::Recognition, 8);
    let s = recognition_strategy(&p);
    assert!(has(&s, "strategy_recognition_high"));
}

#[test]
fn recognition_strategy_boundary_7_is_mid() {
    let p = with_mot(with_ocean(5, 5, 5, 5, 5), MotivationType::Recognition, 7);
    let s = recognition_strategy(&p);
    assert!(has(&s, "strategy_recognition_mid"));
}

#[test]
fn recognition_strategy_boundary_4_is_low() {
    let p = with_mot(with_ocean(5, 5, 5, 5, 5), MotivationType::Recognition, 4);
    let s = recognition_strategy(&p);
    assert!(has(&s, "strategy_recognition_low"));
}

#[test]
fn recognition_strategy_boundary_5_is_mid() {
    let p = with_mot(with_ocean(5, 5, 5, 5, 5), MotivationType::Recognition, 5);
    let s = recognition_strategy(&p);
    assert!(has(&s, "strategy_recognition_mid"));
}

#[test]
fn threatened_strategy_power_mot() {
    let p = with_mot(with_ocean(5, 5, 5, 5, 5), MotivationType::Power, 8);
    let s = threatened_strategy(&p);
    assert!(has(&s, "strategy_threat_power"));
}

#[test]
fn threatened_strategy_power_mot_low_intensity() {
    let p = with_mot(with_ocean(5, 5, 5, 5, 5), MotivationType::Power, 5);
    let s = threatened_strategy(&p);
    assert!(!has(&s, "strategy_threat_power"));
}

#[test]
fn injustice_strategy_fairness_mot() {
    let p = with_mot(with_ocean(5, 5, 5, 5, 5), MotivationType::Fairness, 7);
    let s = injustice_strategy(&p);
    assert!(has(&s, "strategy_injustice_fairness"));
}

#[test]
fn injustice_strategy_fairness_mot_low_intensity() {
    let p = with_mot(with_ocean(5, 5, 5, 5, 5), MotivationType::Fairness, 4);
    let s = injustice_strategy(&p);
    assert!(!has(&s, "strategy_injustice_fairness"));
}

#[test]
fn injustice_strategy_power_mot() {
    let p = with_mot(with_ocean(5, 5, 5, 5, 5), MotivationType::Power, 8);
    let s = injustice_strategy(&p);
    assert!(has(&s, "strategy_injustice_power"));
}

#[test]
fn uncertainty_strategy_low_n() {
    let p = with_ocean(5, 5, 5, 5, 2);
    let s = uncertainty_strategy(&p);
    assert_eq!(s.len(), 1);
    assert!(has(&s, "strategy_uncertainty_low_n"));
}

#[test]
fn uncertainty_strategy_low_o() {
    let p = with_ocean(3, 5, 5, 5, 5);
    let s = uncertainty_strategy(&p);
    assert_eq!(s.len(), 1);
    assert!(has(&s, "strategy_uncertainty_low_o"));
}

#[test]
fn conflict_strategy_high_e() {
    let p = with_ocean(5, 5, 8, 5, 5);
    let s = conflict_strategy(&p);
    assert!(has(&s, "strategy_conflict_high_e"));
}

#[test]
fn conflict_strategy_high_c() {
    let p = with_ocean(5, 8, 5, 5, 5);
    let s = conflict_strategy(&p);
    assert!(has(&s, "strategy_conflict_high_c"));
}

#[test]
fn conflict_strategy_low_e() {
    let p = with_ocean(5, 5, 3, 5, 5);
    let s = conflict_strategy(&p);
    assert!(has(&s, "strategy_conflict_low_e"));
}

#[test]
fn change_strategy_low_n() {
    let p = with_ocean(5, 5, 5, 5, 2);
    let s = change_strategy(&p);
    assert!(has(&s, "strategy_change_low_n"));
}

#[test]
fn change_strategy_high_c() {
    let p = with_ocean(5, 8, 5, 5, 5);
    let s = change_strategy(&p);
    assert!(has(&s, "strategy_change_high_c"));
}

#[test]
fn change_strategy_low_e() {
    let p = with_ocean(5, 5, 3, 5, 5);
    let s = change_strategy(&p);
    assert!(has(&s, "strategy_change_low_e"));
}

#[test]
fn change_strategy_high_o() {
    let p = with_ocean(8, 5, 5, 5, 5);
    let s = change_strategy(&p);
    assert!(has(&s, "strategy_change_high_o"));
}

#[test]
fn feedback_strategy_low_n() {
    let p = with_ocean(5, 5, 5, 5, 2);
    let s = feedback_strategy(&p);
    assert!(has(&s, "strategy_feedback_low_n"));
}

#[test]
fn feedback_strategy_low_a() {
    let p = with_ocean(5, 5, 5, 3, 5);
    let s = feedback_strategy(&p);
    assert!(has(&s, "strategy_feedback_low_a"));
}

#[test]
fn feedback_strategy_low_e() {
    let p = with_ocean(5, 5, 3, 5, 5);
    let s = feedback_strategy(&p);
    assert!(has(&s, "strategy_feedback_low_e"));
}

#[test]
fn feedback_strategy_high_c() {
    let p = with_ocean(5, 8, 5, 5, 5);
    let s = feedback_strategy(&p);
    assert!(has(&s, "strategy_feedback_high_c"));
}

#[test]
fn stress_strategy_high_c() {
    let p = with_ocean(5, 8, 5, 5, 5);
    let s = stress_strategy(&p);
    assert!(has(&s, "strategy_stress_high_c"));
}

#[test]
fn stress_strategy_low_a() {
    let p = with_ocean(5, 5, 5, 3, 5);
    let s = stress_strategy(&p);
    assert!(has(&s, "strategy_stress_low_a"));
}

#[test]
fn stress_strategy_low_c() {
    let p = with_ocean(5, 3, 5, 5, 5);
    let s = stress_strategy(&p);
    assert!(has(&s, "strategy_stress_low_c"));
}

#[test]
fn stress_strategy_high_o() {
    let p = with_ocean(8, 5, 5, 5, 5);
    let s = stress_strategy(&p);
    assert!(has(&s, "strategy_stress_high_o"));
}

#[test]
fn success_strategy_high_c() {
    let p = with_ocean(5, 8, 5, 5, 5);
    let s = success_strategy(&p);
    assert!(has(&s, "strategy_success_high_c"));
}

#[test]
fn success_strategy_low_e() {
    let p = with_ocean(5, 5, 3, 5, 5);
    let s = success_strategy(&p);
    assert!(has(&s, "strategy_success_low_e"));
}

#[test]
fn success_strategy_high_a() {
    let p = with_ocean(5, 5, 5, 8, 5);
    let s = success_strategy(&p);
    assert!(has(&s, "strategy_success_high_a"));
}

#[test]
fn uncertainty_strategy_high_o() {
    let p = with_ocean(8, 5, 5, 5, 5);
    let s = uncertainty_strategy(&p);
    assert!(has(&s, "strategy_uncertainty_high_o"));
}

#[test]
fn uncertainty_strategy_low_o_val() {
    let p = with_ocean(3, 5, 5, 5, 5);
    let s = uncertainty_strategy(&p);
    assert!(has(&s, "strategy_uncertainty_low_o"));
}

#[test]
fn uncertainty_strategy_high_c() {
    let p = with_ocean(5, 8, 5, 5, 5);
    let s = uncertainty_strategy(&p);
    assert!(has(&s, "strategy_uncertainty_high_c"));
}

#[test]
fn uncertainty_strategy_high_e() {
    let p = with_ocean(5, 5, 8, 5, 5);
    let s = uncertainty_strategy(&p);
    assert!(has(&s, "strategy_uncertainty_high_e"));
}

#[test]
fn recognition_strategy_low_e() {
    let p = with_ocean(5, 5, 3, 5, 5);
    let s = recognition_strategy(&p);
    assert!(has(&s, "strategy_recognition_low_e"));
}

#[test]
fn threatened_strategy_high_a() {
    let p = with_ocean(5, 5, 5, 8, 5);
    let s = threatened_strategy(&p);
    assert!(has(&s, "strategy_threat_high_a"));
}

#[test]
fn threatened_strategy_high_n() {
    let p = with_ocean(5, 5, 5, 5, 8);
    let s = threatened_strategy(&p);
    assert!(has(&s, "strategy_threat_high_n"));
}

#[test]
fn conflict_strategy_high_n() {
    let p = with_ocean(5, 5, 5, 5, 8);
    let s = conflict_strategy(&p);
    assert!(has(&s, "strategy_conflict_high_n"));
}

#[test]
fn stress_strategy_boundary_n7() {
    let p = with_ocean(5, 5, 5, 5, 7);
    let s = stress_strategy(&p);
    assert!(has(&s, "strategy_stress_high_n"));
}

#[test]
fn stress_strategy_boundary_e7() {
    let p = with_ocean(5, 5, 7, 5, 5);
    let s = stress_strategy(&p);
    assert!(has(&s, "strategy_stress_high_e"));
}

#[test]
fn stress_strategy_boundary_e4() {
    let p = with_ocean(5, 5, 4, 5, 5);
    let s = stress_strategy(&p);
    assert!(has(&s, "strategy_stress_low_e"));
}

#[test]
fn stress_strategy_boundary_c7() {
    let p = with_ocean(5, 7, 5, 5, 5);
    let s = stress_strategy(&p);
    assert!(has(&s, "strategy_stress_high_c"));
}

#[test]
fn stress_strategy_boundary_a4() {
    let p = with_ocean(5, 5, 5, 4, 5);
    let s = stress_strategy(&p);
    assert!(has(&s, "strategy_stress_low_a"));
}

#[test]
fn stress_strategy_boundary_c4() {
    let p = with_ocean(5, 4, 5, 5, 5);
    let s = stress_strategy(&p);
    assert!(has(&s, "strategy_stress_low_c"));
}

#[test]
fn stress_strategy_boundary_o7() {
    let p = with_ocean(7, 5, 5, 5, 5);
    let s = stress_strategy(&p);
    assert!(has(&s, "strategy_stress_high_o"));
}

#[test]
fn stress_strategy_boundary_power_i7() {
    let p = with_mot(with_ocean(5, 5, 5, 5, 5), MotivationType::Power, 7);
    let s = stress_strategy(&p);
    assert_eq!(s.len(), 1);
    assert!(has(&s, "strategy_stress_power"));
}

#[test]
fn stress_strategy_boundary_security_i7() {
    let p = with_mot(with_ocean(5, 5, 5, 5, 5), MotivationType::Security, 7);
    let s = stress_strategy(&p);
    assert_eq!(s.len(), 1);
    assert!(has(&s, "strategy_stress_security"));
}

#[test]
fn conflict_strategy_boundary_a4() {
    let p = with_ocean(5, 5, 5, 4, 5);
    let s = conflict_strategy(&p);
    assert_eq!(s.len(), 1);
    assert!(has(&s, "strategy_conflict_low_a"));
}

#[test]
fn conflict_strategy_boundary_a7() {
    let p = with_ocean(5, 5, 5, 7, 5);
    let s = conflict_strategy(&p);
    assert_eq!(s.len(), 1);
    assert!(has(&s, "strategy_conflict_high_a"));
}

#[test]
fn conflict_strategy_boundary_n7() {
    let p = with_ocean(5, 5, 5, 5, 7);
    let s = conflict_strategy(&p);
    assert_eq!(s.len(), 1);
    assert!(has(&s, "strategy_conflict_high_n"));
}

#[test]
fn conflict_strategy_boundary_e7() {
    let p = with_ocean(5, 5, 7, 5, 5);
    let s = conflict_strategy(&p);
    assert_eq!(s.len(), 1);
    assert!(has(&s, "strategy_conflict_high_e"));
}

#[test]
fn conflict_strategy_boundary_c7() {
    let p = with_ocean(5, 7, 5, 5, 5);
    let s = conflict_strategy(&p);
    assert_eq!(s.len(), 1);
    assert!(has(&s, "strategy_conflict_high_c"));
}

#[test]
fn conflict_strategy_boundary_e4() {
    let p = with_ocean(5, 5, 4, 5, 5);
    let s = conflict_strategy(&p);
    assert_eq!(s.len(), 1);
    assert!(has(&s, "strategy_conflict_low_e"));
}

#[test]
fn success_strategy_boundary_o7() {
    let p = with_ocean(7, 5, 5, 5, 5);
    let s = success_strategy(&p);
    assert_eq!(s.len(), 1);
    assert!(has(&s, "strategy_success_high_o"));
}

#[test]
fn success_strategy_boundary_c7() {
    let p = with_ocean(5, 7, 5, 5, 5);
    let s = success_strategy(&p);
    assert_eq!(s.len(), 1);
    assert!(has(&s, "strategy_success_high_c"));
}

#[test]
fn success_strategy_boundary_e4() {
    let p = with_ocean(5, 5, 4, 5, 5);
    let s = success_strategy(&p);
    assert_eq!(s.len(), 1);
    assert!(has(&s, "strategy_success_low_e"));
}

#[test]
fn success_strategy_boundary_a7() {
    let p = with_ocean(5, 5, 5, 7, 5);
    let s = success_strategy(&p);
    assert_eq!(s.len(), 1);
    assert!(has(&s, "strategy_success_high_a"));
}

#[test]
fn success_strategy_boundary_recognition_i7() {
    let p = with_mot(with_ocean(5, 5, 5, 5, 5), MotivationType::Recognition, 7);
    let s = success_strategy(&p);
    assert_eq!(s.len(), 1);
    assert!(has(&s, "strategy_success_recognition"));
}

#[test]
fn success_strategy_boundary_power_i7() {
    let p = with_mot(with_ocean(5, 5, 5, 5, 5), MotivationType::Power, 7);
    let s = success_strategy(&p);
    assert_eq!(s.len(), 1);
    assert!(has(&s, "strategy_success_power"));
}

#[test]
fn uncertainty_strategy_boundary_n7() {
    let p = with_ocean(5, 5, 5, 5, 7);
    let s = uncertainty_strategy(&p);
    assert_eq!(s.len(), 1);
    assert!(has(&s, "strategy_uncertainty_high_n"));
}

#[test]
fn uncertainty_strategy_boundary_n3() {
    let p = with_ocean(5, 5, 5, 5, 3);
    let s = uncertainty_strategy(&p);
    assert_eq!(s.len(), 1);
    assert!(has(&s, "strategy_uncertainty_low_n"));
}

#[test]
fn uncertainty_strategy_boundary_o7() {
    let p = with_ocean(7, 5, 5, 5, 5);
    let s = uncertainty_strategy(&p);
    assert_eq!(s.len(), 1);
    assert!(has(&s, "strategy_uncertainty_high_o"));
}

#[test]
fn uncertainty_strategy_boundary_o4() {
    let p = with_ocean(4, 5, 5, 5, 5);
    let s = uncertainty_strategy(&p);
    assert_eq!(s.len(), 1);
    assert!(has(&s, "strategy_uncertainty_low_o"));
}

#[test]
fn uncertainty_strategy_boundary_c7() {
    let p = with_ocean(5, 7, 5, 5, 5);
    let s = uncertainty_strategy(&p);
    assert_eq!(s.len(), 1);
    assert!(has(&s, "strategy_uncertainty_high_c"));
}

#[test]
fn uncertainty_strategy_boundary_e7() {
    let p = with_ocean(5, 5, 7, 5, 5);
    let s = uncertainty_strategy(&p);
    assert_eq!(s.len(), 1);
    assert!(has(&s, "strategy_uncertainty_high_e"));
}

#[test]
fn recognition_strategy_boundary_i5() {
    let p = with_mot(with_ocean(5, 5, 8, 5, 5), MotivationType::Recognition, 5);
    let s = recognition_strategy(&p);
    assert_eq!(s.len(), 2);
    assert!(has(&s, "strategy_recognition_mid"));
    assert!(has(&s, "strategy_recognition_high_e"));
}

#[test]
fn recognition_strategy_boundary_i4() {
    let p = with_mot(with_ocean(5, 5, 8, 5, 5), MotivationType::Recognition, 4);
    let s = recognition_strategy(&p);
    assert_eq!(s.len(), 2);
    assert!(has(&s, "strategy_recognition_low"));
    assert!(has(&s, "strategy_recognition_high_e"));
}

#[test]
fn recognition_strategy_boundary_e7() {
    let p = with_ocean(5, 5, 7, 5, 5);
    let s = recognition_strategy(&p);
    assert_eq!(s.len(), 1);
    assert!(has(&s, "strategy_recognition_high_e"));
}

#[test]
fn recognition_strategy_boundary_e4() {
    let p = with_ocean(5, 5, 4, 5, 5);
    let s = recognition_strategy(&p);
    assert_eq!(s.len(), 1);
    assert!(has(&s, "strategy_recognition_low_e"));
}

#[test]
fn threatened_strategy_boundary_a4() {
    let p = with_ocean(5, 5, 5, 4, 5);
    let s = threatened_strategy(&p);
    assert_eq!(s.len(), 1);
    assert!(has(&s, "strategy_threat_low_a"));
}

#[test]
fn threatened_strategy_boundary_a7() {
    let p = with_ocean(5, 5, 5, 7, 5);
    let s = threatened_strategy(&p);
    assert_eq!(s.len(), 1);
    assert!(has(&s, "strategy_threat_high_a"));
}

#[test]
fn threatened_strategy_boundary_n7() {
    let p = with_ocean(5, 5, 5, 5, 7);
    let s = threatened_strategy(&p);
    assert_eq!(s.len(), 1);
    assert!(has(&s, "strategy_threat_high_n"));
}

#[test]
fn threatened_strategy_boundary_power_i7() {
    let p = with_mot(with_ocean(5, 5, 5, 5, 5), MotivationType::Power, 7);
    let s = threatened_strategy(&p);
    assert_eq!(s.len(), 1);
    assert!(has(&s, "strategy_threat_power"));
}

#[test]
fn change_strategy_boundary_n7() {
    let p = with_ocean(5, 5, 5, 5, 7);
    let s = change_strategy(&p);
    assert_eq!(s.len(), 1);
    assert!(has(&s, "strategy_change_high_n"));
}

#[test]
fn change_strategy_boundary_n3() {
    let p = with_ocean(5, 5, 5, 5, 3);
    let s = change_strategy(&p);
    assert_eq!(s.len(), 1);
    assert!(has(&s, "strategy_change_low_n"));
}

#[test]
fn change_strategy_boundary_c7() {
    let p = with_ocean(5, 7, 5, 5, 5);
    let s = change_strategy(&p);
    assert_eq!(s.len(), 1);
    assert!(has(&s, "strategy_change_high_c"));
}

#[test]
fn change_strategy_boundary_e4() {
    let p = with_ocean(5, 5, 4, 5, 5);
    let s = change_strategy(&p);
    assert_eq!(s.len(), 1);
    assert!(has(&s, "strategy_change_low_e"));
}

#[test]
fn change_strategy_boundary_o7() {
    let p = with_ocean(7, 5, 5, 5, 5);
    let s = change_strategy(&p);
    assert_eq!(s.len(), 1);
    assert!(has(&s, "strategy_change_high_o"));
}

#[test]
fn feedback_strategy_boundary_n7() {
    let p = with_ocean(5, 5, 5, 5, 7);
    let s = feedback_strategy(&p);
    assert_eq!(s.len(), 1);
    assert!(has(&s, "strategy_feedback_high_n"));
}

#[test]
fn feedback_strategy_boundary_n3() {
    let p = with_ocean(5, 5, 5, 5, 3);
    let s = feedback_strategy(&p);
    assert_eq!(s.len(), 1);
    assert!(has(&s, "strategy_feedback_low_n"));
}

#[test]
fn feedback_strategy_boundary_a4() {
    let p = with_ocean(5, 5, 5, 4, 5);
    let s = feedback_strategy(&p);
    assert_eq!(s.len(), 1);
    assert!(has(&s, "strategy_feedback_low_a"));
}

#[test]
fn feedback_strategy_boundary_e4() {
    let p = with_ocean(5, 5, 4, 5, 5);
    let s = feedback_strategy(&p);
    assert_eq!(s.len(), 1);
    assert!(has(&s, "strategy_feedback_low_e"));
}

#[test]
fn feedback_strategy_boundary_c7() {
    let p = with_ocean(5, 7, 5, 5, 5);
    let s = feedback_strategy(&p);
    assert_eq!(s.len(), 1);
    assert!(has(&s, "strategy_feedback_high_c"));
}

#[test]
fn injustice_strategy_boundary_a7() {
    let p = with_ocean(5, 5, 5, 7, 5);
    let s = injustice_strategy(&p);
    assert_eq!(s.len(), 1);
    assert!(has(&s, "strategy_injustice_high_a"));
}

#[test]
fn injustice_strategy_boundary_n7() {
    let p = with_ocean(5, 5, 5, 5, 7);
    let s = injustice_strategy(&p);
    assert_eq!(s.len(), 1);
    assert!(has(&s, "strategy_injustice_high_n"));
}

#[test]
fn injustice_strategy_boundary_fairness_i6() {
    let p = with_mot(with_ocean(5, 5, 5, 5, 5), MotivationType::Fairness, 6);
    let s = injustice_strategy(&p);
    assert_eq!(s.len(), 1);
    assert!(has(&s, "strategy_injustice_fairness"));
}

#[test]
fn injustice_strategy_boundary_power_i7() {
    let p = with_mot(with_ocean(5, 5, 5, 5, 5), MotivationType::Power, 7);
    let s = injustice_strategy(&p);
    assert_eq!(s.len(), 1);
    assert!(has(&s, "strategy_injustice_power"));
}

#[test]
fn all_strategies_active_high_ocean() {
    let person = with_ocean(8, 8, 8, 8, 8);
    assert_eq!(stress_strategy(&person).len(), 4);
    assert_eq!(conflict_strategy(&person).len(), 4);
    assert_eq!(success_strategy(&person).len(), 3);
    assert_eq!(uncertainty_strategy(&person).len(), 4);
    assert_eq!(recognition_strategy(&person).len(), 1);
    assert_eq!(threatened_strategy(&person).len(), 2);
    assert_eq!(change_strategy(&person).len(), 3);
    assert_eq!(feedback_strategy(&person).len(), 2);
    assert_eq!(injustice_strategy(&person).len(), 2);
}

#[test]
fn all_fallbacks_exact_values() {
    let person = with_ocean(5, 5, 5, 5, 5);
    assert_eq!(stress_strategy(&person), vec!["strategy_stress_fallback"]);
    assert_eq!(conflict_strategy(&person), vec!["strategy_conflict_fallback"]);
    assert_eq!(success_strategy(&person), vec!["strategy_success_fallback"]);
    assert_eq!(uncertainty_strategy(&person), vec!["strategy_uncertainty_fallback"]);
    assert_eq!(recognition_strategy(&person), vec!["strategy_recognition_fallback"]);
    assert_eq!(threatened_strategy(&person), vec!["strategy_threat_fallback"]);
    assert_eq!(change_strategy(&person), vec!["strategy_change_fallback"]);
    assert_eq!(feedback_strategy(&person), vec!["strategy_feedback_fallback"]);
    assert_eq!(injustice_strategy(&person), vec!["strategy_injustice_fallback"]);
}


#[test]
fn generate_insight_headline_uses_first_advice() {
    let out = generate_insight(&with_ocean(5, 5, 5, 5, 8), BehaviorTrigger::Stress, &words());
    assert_eq!(out.top, "A — under stress: Stay calm and reassure");
    let out = generate_insight(&with_ocean(5, 5, 5, 5, 5), BehaviorTrigger::Stress, &words());
    assert_eq!(out.top, "A — under stress: Observe and listen");
    let out = generate_insight(&with_ocean(5, 5, 5, 3, 5), BehaviorTrigger::Conflict, &words());
    assert_eq!(out.top, "A — strategy_conflict_label: strategy_conflict_low_a");
}

#[test]
fn stress_fallback_only_when_no_rule_holds() {
    assert_eq!(stress_strategy(&blank()), vec!["strategy_stress_fallback"]);
    let busy = with_mot(with_ocean(8, 8, 8, 3, 8), MotivationType::Power, 6);
    let s = stress_strategy(&busy);
    assert!(!s.contains(&"strategy_stress_fallback"));
    assert_eq!(
        s,
        vec![
            "strategy_stress_high_n",
            "strategy_stress_high_e",
            "strategy_stress_high_c",
            "strategy_stress_low_a",
            "strategy_stress_high_o",
            "strategy_stress_power",
        ]
    );
}

#[test]
fn recognition_intensity_thresholds() {
    let at = |i: u8| recognition_strategy(&with_mot(blank(), MotivationType::Recognition, i))[0];
    assert_eq!(at(8), "strategy_recognition_high");
    assert_eq!(at(7), "strategy_recognition_mid");
    assert_eq!(at(5), "strategy_recognition_mid");
    assert_eq!(at(4), "strategy_recognition_low");
    let e_high = recognition_strategy(&with_ocean(5, 5, 7, 5, 5));
    assert_eq!(e_high, vec!["strategy_recognition_high_e"]);
    let e_low = recognition_strategy(&with_ocean(5, 5, 4, 5, 5));
    assert_eq!(e_low, vec!["strategy_recognition_low_e"]);
    assert_eq!(recognition_strategy(&blank()), vec!["strategy_recognition_fallback"]);
}

use peoplemodeler::consistency::{badge_count, warning_flags, ConsistencyChecks};

fn no_gaps() -> ConsistencyChecks {
    ConsistencyChecks {
        pattern_calm_volatile: false,
        pattern_honest_exploiter: false,
        bias_confirmation_open: false,
        bias_favoritism_fairness: false,
        authority_dominant: false,
        social_proof_open: false,
        sunk_cost_flexible: false,
        loss_aversion_risky: false,
        dunning_kruger_humble: false,
        impostor_arrogant: false,
        recency_reliable: false,
        pattern_diplomat_escalator: false,
        pattern_fair_exploiter: false,
        pattern_humble_dismissive: false,
        pattern_trusting_paranoid: false,
        pattern_reliable_shirker: false,
        pattern_hardworker_complacent: false,
        pattern_passive_blowup: false,
        pattern_assertive_quiet: false,
        security_risky: false,
        resilient_reactive: false,
        risk_appetite_ambition: false,
        resilient_hides: false,
        pattern_generous_exploiter: false,
        pattern_empath_dismissive: false,
        pattern_flexible_resister: false,
        anchoring_open: false,
        pattern_helping_exploiter: false,
        pattern_warmth_dismissive: false,
        pattern_discipline_shirker: false,
        pattern_claimed_calm_volatile: false,
        pattern_fairness_exploiter: false,
        pattern_achievement_complacent: false,
        pattern_learning_resister: false,
        pattern_extravert_quiet: false,
        pattern_open_resister: false,
        pattern_recognition_dismissive: false,
        availability_calm: false,
    }
}

#[test]
fn consistent_profile_shows_no_badge() {
    let flags = warning_flags(Vec::new(), &no_gaps(), Vec::new());
    assert!(flags.is_empty());
    assert_eq!(badge_count(&flags), None);
}

#[test]
fn flags_keep_the_badge_order() {
    let mut c = no_gaps();
    c.availability_calm = true;
    c.pattern_calm_volatile = true;
    c.security_risky = true;
    let flags = warning_flags(vec!["flag_ocean_rep"], &c, vec!["flag_style_gap"]);
    assert_eq!(
        flags,
        vec![
            "flag_ocean_rep",
            "flag_pattern_calm_volatile",
            "flag_security_risky",
            "flag_availability_calm",
            "flag_style_gap",
        ]
    );
    assert_eq!(badge_count(&flags), Some(5));
}

#[test]
fn leading_and_style_flags_alone_make_a_badge() {
    let flags = warning_flags(vec!["flag_a", "flag_b"], &no_gaps(), vec!["flag_c"]);
    assert_eq!(flags, vec!["flag_a", "flag_b", "flag_c"]);
    assert_eq!(badge_count(&flags), Some(3));
}

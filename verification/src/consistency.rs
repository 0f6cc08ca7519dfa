use vstd::prelude::*;

verus! {

/// The answers of the profile consistency checks that the edit form's warning
/// badge reports after the OCEAN/reputation and rhetoric flags: each field
/// tells whether the draft shows that gap.
#[derive(Clone, Copy, Debug, PartialEq, Eq, Structural)]
pub struct ConsistencyChecks {
    pub pattern_calm_volatile: bool,
    pub pattern_honest_exploiter: bool,
    pub bias_confirmation_open: bool,
    pub bias_favoritism_fairness: bool,
    pub authority_dominant: bool,
    pub social_proof_open: bool,
    pub sunk_cost_flexible: bool,
    pub loss_aversion_risky: bool,
    pub dunning_kruger_humble: bool,
    pub impostor_arrogant: bool,
    pub recency_reliable: bool,
    pub pattern_diplomat_escalator: bool,
    pub pattern_fair_exploiter: bool,
    pub pattern_humble_dismissive: bool,
    pub pattern_trusting_paranoid: bool,
    pub pattern_reliable_shirker: bool,
    pub pattern_hardworker_complacent: bool,
    pub pattern_passive_blowup: bool,
    pub pattern_assertive_quiet: bool,
    pub security_risky: bool,
    pub resilient_reactive: bool,
    pub risk_appetite_ambition: bool,
    pub resilient_hides: bool,
    pub pattern_generous_exploiter: bool,
    pub pattern_empath_dismissive: bool,
    pub pattern_flexible_resister: bool,
    pub anchoring_open: bool,
    pub pattern_helping_exploiter: bool,
    pub pattern_warmth_dismissive: bool,
    pub pattern_discipline_shirker: bool,
    pub pattern_claimed_calm_volatile: bool,
    pub pattern_fairness_exploiter: bool,
    pub pattern_achievement_complacent: bool,
    pub pattern_learning_resister: bool,
    pub pattern_extravert_quiet: bool,
    pub pattern_open_resister: bool,
    pub pattern_recognition_dismissive: bool,
    pub availability_calm: bool,
}

/// The checks with the flag that each raises, in the order the badge lists
/// them.
pub open spec fn check_list(c: ConsistencyChecks) -> Seq<(bool, &'static str)> {
    Seq::empty()
        .push((c.pattern_calm_volatile, "flag_pattern_calm_volatile"))
        .push((c.pattern_honest_exploiter, "flag_pattern_honest_exploiter"))
        .push((c.bias_confirmation_open, "flag_bias_confirmation_open"))
        .push((c.bias_favoritism_fairness, "flag_bias_favoritism_fairness"))
        .push((c.authority_dominant, "flag_authority_dominant"))
        .push((c.social_proof_open, "flag_social_proof_open"))
        .push((c.sunk_cost_flexible, "flag_sunk_cost_flexible"))
        .push((c.loss_aversion_risky, "flag_loss_aversion_risky"))
        .push((c.dunning_kruger_humble, "flag_dunning_kruger_humble"))
        .push((c.impostor_arrogant, "flag_impostor_arrogant"))
        .push((c.recency_reliable, "flag_recency_reliable"))
        .push((c.pattern_diplomat_escalator, "flag_pattern_diplomat_escalator"))
        .push((c.pattern_fair_exploiter, "flag_pattern_fair_exploiter"))
        .push((c.pattern_humble_dismissive, "flag_pattern_humble_dismissive"))
        .push((c.pattern_trusting_paranoid, "flag_pattern_trusting_paranoid"))
        .push((c.pattern_reliable_shirker, "flag_pattern_reliable_shirker"))
        .push((c.pattern_hardworker_complacent, "flag_pattern_hardworker_complacent"))
        .push((c.pattern_passive_blowup, "flag_pattern_passive_blowup"))
        .push((c.pattern_assertive_quiet, "flag_pattern_assertive_quiet"))
        .push((c.security_risky, "flag_security_risky"))
        .push((c.resilient_reactive, "flag_resilient_reactive"))
        .push((c.risk_appetite_ambition, "flag_risk_appetite_ambition"))
        .push((c.resilient_hides, "flag_resilient_hides"))
        .push((c.pattern_generous_exploiter, "flag_pattern_generous_exploiter"))
        .push((c.pattern_empath_dismissive, "flag_pattern_empath_dismissive"))
        .push((c.pattern_flexible_resister, "flag_pattern_flexible_resister"))
        .push((c.anchoring_open, "flag_anchoring_open"))
        .push((c.pattern_helping_exploiter, "flag_pattern_helping_exploiter"))
        .push((c.pattern_warmth_dismissive, "flag_pattern_warmth_dismissive"))
        .push((c.pattern_discipline_shirker, "flag_pattern_discipline_shirker"))
        .push((c.pattern_claimed_calm_volatile, "flag_pattern_claimed_calm_volatile"))
        .push((c.pattern_fairness_exploiter, "flag_pattern_fairness_exploiter"))
        .push((c.pattern_achievement_complacent, "flag_pattern_achievement_complacent"))
        .push((c.pattern_learning_resister, "flag_pattern_learning_resister"))
        .push((c.pattern_extravert_quiet, "flag_pattern_extravert_quiet"))
        .push((c.pattern_open_resister, "flag_pattern_open_resister"))
        .push((c.pattern_recognition_dismissive, "flag_pattern_recognition_dismissive"))
        .push((c.availability_calm, "flag_availability_calm"))
}

/// The flags raised by a list of checks, in order.
#[verifier::opaque]
pub open spec fn raised(s: Seq<(bool, &'static str)>) -> Seq<&'static str>
    decreases s.len(),
{
    if s.len() == 0 {
        Seq::empty()
    } else if s.last().0 {
        raised(s.drop_last()).push(s.last().1)
    } else {
        raised(s.drop_last())
    }
}

/// Every flag of the badge, in order: the OCEAN/reputation and rhetoric flags
/// first, then the flag of each failed check, then the style flags.
pub open spec fn badge_flags(
    leading: Seq<&'static str>,
    c: ConsistencyChecks,
    style: Seq<&'static str>,
) -> Seq<&'static str> {
    leading + raised(check_list(c)) + style
}

fn checks_in_order(c: &ConsistencyChecks) -> (r: Vec<(bool, &'static str)>)
    ensures
        r@ == check_list(*c),
{
    let mut v: Vec<(bool, &'static str)> = Vec::new();
    v.push((c.pattern_calm_volatile, "flag_pattern_calm_volatile"));
    v.push((c.pattern_honest_exploiter, "flag_pattern_honest_exploiter"));
    v.push((c.bias_confirmation_open, "flag_bias_confirmation_open"));
    v.push((c.bias_favoritism_fairness, "flag_bias_favoritism_fairness"));
    v.push((c.authority_dominant, "flag_authority_dominant"));
    v.push((c.social_proof_open, "flag_social_proof_open"));
    v.push((c.sunk_cost_flexible, "flag_sunk_cost_flexible"));
    v.push((c.loss_aversion_risky, "flag_loss_aversion_risky"));
    v.push((c.dunning_kruger_humble, "flag_dunning_kruger_humble"));
    v.push((c.impostor_arrogant, "flag_impostor_arrogant"));
    v.push((c.recency_reliable, "flag_recency_reliable"));
    v.push((c.pattern_diplomat_escalator, "flag_pattern_diplomat_escalator"));
    v.push((c.pattern_fair_exploiter, "flag_pattern_fair_exploiter"));
    v.push((c.pattern_humble_dismissive, "flag_pattern_humble_dismissive"));
    v.push((c.pattern_trusting_paranoid, "flag_pattern_trusting_paranoid"));
    v.push((c.pattern_reliable_shirker, "flag_pattern_reliable_shirker"));
    v.push((c.pattern_hardworker_complacent, "flag_pattern_hardworker_complacent"));
    v.push((c.pattern_passive_blowup, "flag_pattern_passive_blowup"));
    v.push((c.pattern_assertive_quiet, "flag_pattern_assertive_quiet"));
    v.push((c.security_risky, "flag_security_risky"));
    v.push((c.resilient_reactive, "flag_resilient_reactive"));
    v.push((c.risk_appetite_ambition, "flag_risk_appetite_ambition"));
    v.push((c.resilient_hides, "flag_resilient_hides"));
    v.push((c.pattern_generous_exploiter, "flag_pattern_generous_exploiter"));
    v.push((c.pattern_empath_dismissive, "flag_pattern_empath_dismissive"));
    v.push((c.pattern_flexible_resister, "flag_pattern_flexible_resister"));
    v.push((c.anchoring_open, "flag_anchoring_open"));
    v.push((c.pattern_helping_exploiter, "flag_pattern_helping_exploiter"));
    v.push((c.pattern_warmth_dismissive, "flag_pattern_warmth_dismissive"));
    v.push((c.pattern_discipline_shirker, "flag_pattern_discipline_shirker"));
    v.push((c.pattern_claimed_calm_volatile, "flag_pattern_claimed_calm_volatile"));
    v.push((c.pattern_fairness_exploiter, "flag_pattern_fairness_exploiter"));
    v.push((c.pattern_achievement_complacent, "flag_pattern_achievement_complacent"));
    v.push((c.pattern_learning_resister, "flag_pattern_learning_resister"));
    v.push((c.pattern_extravert_quiet, "flag_pattern_extravert_quiet"));
    v.push((c.pattern_open_resister, "flag_pattern_open_resister"));
    v.push((c.pattern_recognition_dismissive, "flag_pattern_recognition_dismissive"));
    v.push((c.availability_calm, "flag_availability_calm"));
    assert(v@ =~= check_list(*c));
    v
}

/// The flags shown by the warning badge of the edit form, in order: the
/// OCEAN/reputation and rhetoric flags (`leading`), the flag of each
/// consistency check that found a gap, then the style flags (`style`).
pub fn warning_flags(
    leading: Vec<&'static str>,
    c: &ConsistencyChecks,
    style: Vec<&'static str>,
) -> (r: Vec<&'static str>)
    ensures
        r@ == badge_flags(leading@, *c, style@),
{
    let checks = checks_in_order(c);
    proof {
        reveal(raised);
    }
    let mut flags = leading;
    let ghost lead = flags@;
    let mut i: usize = 0;
    while i < checks.len()
        invariant
            i <= checks.len(),
            checks@ == check_list(*c),
            flags@ == lead + raised(checks@.take(i as int)),
        decreases checks.len() - i,
    {
        proof {
            reveal(raised);
        }
        let (on, key) = checks[i];
        proof {
            assert(checks@.take(i as int + 1).drop_last() =~= checks@.take(i as int));
        }
        if on {
            flags.push(key);
        }
        i = i + 1;
    }
    proof {
        assert(checks@.take(checks@.len() as int) =~= checks@);
    }
    let ghost mid = flags@;
    let mut j: usize = 0;
    while j < style.len()
        invariant
            j <= style.len(),
            flags@ == mid + style@.take(j as int),
        decreases style.len() - j,
    {
        flags.push(style[j]);
        j = j + 1;
        proof {
            assert(mid + style@.take(j as int) =~= (mid + style@.take(j - 1)).push(style@[j - 1]));
        }
    }
    proof {
        assert(style@.take(style@.len() as int) =~= style@);
    }
    flags
}

/// The count shown on the warning badge; no badge at all when nothing was
/// flagged.
pub fn badge_count(flags: &Vec<&'static str>) -> (r: Option<usize>)
    ensures
        r == (if flags@.len() == 0 { None } else { Some(flags@.len() as usize) }),
{
    if flags.len() == 0 {
        None
    } else {
        Some(flags.len())
    }
}


/// The views of a list of flags.
pub open spec fn flag_views(s: Seq<&'static str>) -> Seq<Seq<char>> {
    s.map_values(|k: &'static str| k@)
}

/// The flag keys of the consistency checks, field by field.
pub open spec fn flag_keys() -> Seq<Seq<char>> {
    Seq::empty()
        .push("flag_pattern_calm_volatile"@)
        .push("flag_pattern_honest_exploiter"@)
        .push("flag_bias_confirmation_open"@)
        .push("flag_bias_favoritism_fairness"@)
        .push("flag_authority_dominant"@)
        .push("flag_social_proof_open"@)
        .push("flag_sunk_cost_flexible"@)
        .push("flag_loss_aversion_risky"@)
        .push("flag_dunning_kruger_humble"@)
        .push("flag_impostor_arrogant"@)
        .push("flag_recency_reliable"@)
        .push("flag_pattern_diplomat_escalator"@)
        .push("flag_pattern_fair_exploiter"@)
        .push("flag_pattern_humble_dismissive"@)
        .push("flag_pattern_trusting_paranoid"@)
        .push("flag_pattern_reliable_shirker"@)
        .push("flag_pattern_hardworker_complacent"@)
        .push("flag_pattern_passive_blowup"@)
        .push("flag_pattern_assertive_quiet"@)
        .push("flag_security_risky"@)
        .push("flag_resilient_reactive"@)
        .push("flag_risk_appetite_ambition"@)
        .push("flag_resilient_hides"@)
        .push("flag_pattern_generous_exploiter"@)
        .push("flag_pattern_empath_dismissive"@)
        .push("flag_pattern_flexible_resister"@)
        .push("flag_anchoring_open"@)
        .push("flag_pattern_helping_exploiter"@)
        .push("flag_pattern_warmth_dismissive"@)
        .push("flag_pattern_discipline_shirker"@)
        .push("flag_pattern_claimed_calm_volatile"@)
        .push("flag_pattern_fairness_exploiter"@)
        .push("flag_pattern_achievement_complacent"@)
        .push("flag_pattern_learning_resister"@)
        .push("flag_pattern_extravert_quiet"@)
        .push("flag_pattern_open_resister"@)
        .push("flag_pattern_recognition_dismissive"@)
        .push("flag_availability_calm"@)
}

/// The answers of the consistency checks, field by field.
pub open spec fn check_answers(c: ConsistencyChecks) -> Seq<bool> {
    Seq::empty()
        .push(c.pattern_calm_volatile)
        .push(c.pattern_honest_exploiter)
        .push(c.bias_confirmation_open)
        .push(c.bias_favoritism_fairness)
        .push(c.authority_dominant)
        .push(c.social_proof_open)
        .push(c.sunk_cost_flexible)
        .push(c.loss_aversion_risky)
        .push(c.dunning_kruger_humble)
        .push(c.impostor_arrogant)
        .push(c.recency_reliable)
        .push(c.pattern_diplomat_escalator)
        .push(c.pattern_fair_exploiter)
        .push(c.pattern_humble_dismissive)
        .push(c.pattern_trusting_paranoid)
        .push(c.pattern_reliable_shirker)
        .push(c.pattern_hardworker_complacent)
        .push(c.pattern_passive_blowup)
        .push(c.pattern_assertive_quiet)
        .push(c.security_risky)
        .push(c.resilient_reactive)
        .push(c.risk_appetite_ambition)
        .push(c.resilient_hides)
        .push(c.pattern_generous_exploiter)
        .push(c.pattern_empath_dismissive)
        .push(c.pattern_flexible_resister)
        .push(c.anchoring_open)
        .push(c.pattern_helping_exploiter)
        .push(c.pattern_warmth_dismissive)
        .push(c.pattern_discipline_shirker)
        .push(c.pattern_claimed_calm_volatile)
        .push(c.pattern_fairness_exploiter)
        .push(c.pattern_achievement_complacent)
        .push(c.pattern_learning_resister)
        .push(c.pattern_extravert_quiet)
        .push(c.pattern_open_resister)
        .push(c.pattern_recognition_dismissive)
        .push(c.availability_calm)
}

/// The keys whose answer is yes, in order.
#[verifier::opaque]
pub open spec fn selected(keys: Seq<Seq<char>>, answers: Seq<bool>) -> Seq<Seq<char>>
    decreases keys.len(),
{
    if keys.len() == 0 || answers.len() == 0 {
        Seq::empty()
    } else {
        let rest = selected(keys.drop_last(), answers.drop_last());
        if answers.last() {
            rest.push(keys.last())
        } else {
            rest
        }
    }
}

/// One more check raises its flag exactly when it answers yes.
proof fn lemma_select_step(
    s: Seq<(bool, &'static str)>,
    keys: Seq<Seq<char>>,
    answers: Seq<bool>,
    e: (bool, &'static str),
)
    requires
        flag_views(raised(s)) === selected(keys, answers),
    ensures
        flag_views(raised(s.push(e))) === selected(keys.push(e.1@), answers.push(e.0)),
{
    reveal(raised);
    reveal(selected);
    assert(s.push(e).drop_last() =~= s);
    assert(keys.push(e.1@).drop_last() =~= keys);
    assert(answers.push(e.0).drop_last() =~= answers);
    if e.0 {
        assert(flag_views(raised(s.push(e))) =~= flag_views(raised(s)).push(e.1@));
    }
}

/// Checks 0 and on, in field order, each raise their flag exactly when
/// they answer yes.
proof fn lemma_select_chunk_0(
    c: ConsistencyChecks,
    s: Seq<(bool, &'static str)>,
    k: Seq<Seq<char>>,
    a: Seq<bool>,
)
    requires
        flag_views(raised(s)) === selected(k, a),
    ensures
        flag_views(raised(s.push((c.pattern_calm_volatile, "flag_pattern_calm_volatile")).push((c.pattern_honest_exploiter, "flag_pattern_honest_exploiter")).push((c.bias_confirmation_open, "flag_bias_confirmation_open")).push((c.bias_favoritism_fairness, "flag_bias_favoritism_fairness")).push((c.authority_dominant, "flag_authority_dominant")).push((c.social_proof_open, "flag_social_proof_open")).push((c.sunk_cost_flexible, "flag_sunk_cost_flexible")).push((c.loss_aversion_risky, "flag_loss_aversion_risky")).push((c.dunning_kruger_humble, "flag_dunning_kruger_humble")).push((c.impostor_arrogant, "flag_impostor_arrogant")))) === selected(
            k.push("flag_pattern_calm_volatile"@).push("flag_pattern_honest_exploiter"@).push("flag_bias_confirmation_open"@).push("flag_bias_favoritism_fairness"@).push("flag_authority_dominant"@).push("flag_social_proof_open"@).push("flag_sunk_cost_flexible"@).push("flag_loss_aversion_risky"@).push("flag_dunning_kruger_humble"@).push("flag_impostor_arrogant"@),
            a.push(c.pattern_calm_volatile).push(c.pattern_honest_exploiter).push(c.bias_confirmation_open).push(c.bias_favoritism_fairness).push(c.authority_dominant).push(c.social_proof_open).push(c.sunk_cost_flexible).push(c.loss_aversion_risky).push(c.dunning_kruger_humble).push(c.impostor_arrogant),
        ),
{
    lemma_select_step(s, k, a, (c.pattern_calm_volatile, "flag_pattern_calm_volatile"));
    lemma_select_step(s.push((c.pattern_calm_volatile, "flag_pattern_calm_volatile")), k.push("flag_pattern_calm_volatile"@), a.push(c.pattern_calm_volatile), (c.pattern_honest_exploiter, "flag_pattern_honest_exploiter"));
    lemma_select_step(s.push((c.pattern_calm_volatile, "flag_pattern_calm_volatile")).push((c.pattern_honest_exploiter, "flag_pattern_honest_exploiter")), k.push("flag_pattern_calm_volatile"@).push("flag_pattern_honest_exploiter"@), a.push(c.pattern_calm_volatile).push(c.pattern_honest_exploiter), (c.bias_confirmation_open, "flag_bias_confirmation_open"));
    lemma_select_step(s.push((c.pattern_calm_volatile, "flag_pattern_calm_volatile")).push((c.pattern_honest_exploiter, "flag_pattern_honest_exploiter")).push((c.bias_confirmation_open, "flag_bias_confirmation_open")), k.push("flag_pattern_calm_volatile"@).push("flag_pattern_honest_exploiter"@).push("flag_bias_confirmation_open"@), a.push(c.pattern_calm_volatile).push(c.pattern_honest_exploiter).push(c.bias_confirmation_open), (c.bias_favoritism_fairness, "flag_bias_favoritism_fairness"));
    lemma_select_step(s.push((c.pattern_calm_volatile, "flag_pattern_calm_volatile")).push((c.pattern_honest_exploiter, "flag_pattern_honest_exploiter")).push((c.bias_confirmation_open, "flag_bias_confirmation_open")).push((c.bias_favoritism_fairness, "flag_bias_favoritism_fairness")), k.push("flag_pattern_calm_volatile"@).push("flag_pattern_honest_exploiter"@).push("flag_bias_confirmation_open"@).push("flag_bias_favoritism_fairness"@), a.push(c.pattern_calm_volatile).push(c.pattern_honest_exploiter).push(c.bias_confirmation_open).push(c.bias_favoritism_fairness), (c.authority_dominant, "flag_authority_dominant"));
    lemma_select_step(s.push((c.pattern_calm_volatile, "flag_pattern_calm_volatile")).push((c.pattern_honest_exploiter, "flag_pattern_honest_exploiter")).push((c.bias_confirmation_open, "flag_bias_confirmation_open")).push((c.bias_favoritism_fairness, "flag_bias_favoritism_fairness")).push((c.authority_dominant, "flag_authority_dominant")), k.push("flag_pattern_calm_volatile"@).push("flag_pattern_honest_exploiter"@).push("flag_bias_confirmation_open"@).push("flag_bias_favoritism_fairness"@).push("flag_authority_dominant"@), a.push(c.pattern_calm_volatile).push(c.pattern_honest_exploiter).push(c.bias_confirmation_open).push(c.bias_favoritism_fairness).push(c.authority_dominant), (c.social_proof_open, "flag_social_proof_open"));
    lemma_select_step(s.push((c.pattern_calm_volatile, "flag_pattern_calm_volatile")).push((c.pattern_honest_exploiter, "flag_pattern_honest_exploiter")).push((c.bias_confirmation_open, "flag_bias_confirmation_open")).push((c.bias_favoritism_fairness, "flag_bias_favoritism_fairness")).push((c.authority_dominant, "flag_authority_dominant")).push((c.social_proof_open, "flag_social_proof_open")), k.push("flag_pattern_calm_volatile"@).push("flag_pattern_honest_exploiter"@).push("flag_bias_confirmation_open"@).push("flag_bias_favoritism_fairness"@).push("flag_authority_dominant"@).push("flag_social_proof_open"@), a.push(c.pattern_calm_volatile).push(c.pattern_honest_exploiter).push(c.bias_confirmation_open).push(c.bias_favoritism_fairness).push(c.authority_dominant).push(c.social_proof_open), (c.sunk_cost_flexible, "flag_sunk_cost_flexible"));
    lemma_select_step(s.push((c.pattern_calm_volatile, "flag_pattern_calm_volatile")).push((c.pattern_honest_exploiter, "flag_pattern_honest_exploiter")).push((c.bias_confirmation_open, "flag_bias_confirmation_open")).push((c.bias_favoritism_fairness, "flag_bias_favoritism_fairness")).push((c.authority_dominant, "flag_authority_dominant")).push((c.social_proof_open, "flag_social_proof_open")).push((c.sunk_cost_flexible, "flag_sunk_cost_flexible")), k.push("flag_pattern_calm_volatile"@).push("flag_pattern_honest_exploiter"@).push("flag_bias_confirmation_open"@).push("flag_bias_favoritism_fairness"@).push("flag_authority_dominant"@).push("flag_social_proof_open"@).push("flag_sunk_cost_flexible"@), a.push(c.pattern_calm_volatile).push(c.pattern_honest_exploiter).push(c.bias_confirmation_open).push(c.bias_favoritism_fairness).push(c.authority_dominant).push(c.social_proof_open).push(c.sunk_cost_flexible), (c.loss_aversion_risky, "flag_loss_aversion_risky"));
    lemma_select_step(s.push((c.pattern_calm_volatile, "flag_pattern_calm_volatile")).push((c.pattern_honest_exploiter, "flag_pattern_honest_exploiter")).push((c.bias_confirmation_open, "flag_bias_confirmation_open")).push((c.bias_favoritism_fairness, "flag_bias_favoritism_fairness")).push((c.authority_dominant, "flag_authority_dominant")).push((c.social_proof_open, "flag_social_proof_open")).push((c.sunk_cost_flexible, "flag_sunk_cost_flexible")).push((c.loss_aversion_risky, "flag_loss_aversion_risky")), k.push("flag_pattern_calm_volatile"@).push("flag_pattern_honest_exploiter"@).push("flag_bias_confirmation_open"@).push("flag_bias_favoritism_fairness"@).push("flag_authority_dominant"@).push("flag_social_proof_open"@).push("flag_sunk_cost_flexible"@).push("flag_loss_aversion_risky"@), a.push(c.pattern_calm_volatile).push(c.pattern_honest_exploiter).push(c.bias_confirmation_open).push(c.bias_favoritism_fairness).push(c.authority_dominant).push(c.social_proof_open).push(c.sunk_cost_flexible).push(c.loss_aversion_risky), (c.dunning_kruger_humble, "flag_dunning_kruger_humble"));
    lemma_select_step(s.push((c.pattern_calm_volatile, "flag_pattern_calm_volatile")).push((c.pattern_honest_exploiter, "flag_pattern_honest_exploiter")).push((c.bias_confirmation_open, "flag_bias_confirmation_open")).push((c.bias_favoritism_fairness, "flag_bias_favoritism_fairness")).push((c.authority_dominant, "flag_authority_dominant")).push((c.social_proof_open, "flag_social_proof_open")).push((c.sunk_cost_flexible, "flag_sunk_cost_flexible")).push((c.loss_aversion_risky, "flag_loss_aversion_risky")).push((c.dunning_kruger_humble, "flag_dunning_kruger_humble")), k.push("flag_pattern_calm_volatile"@).push("flag_pattern_honest_exploiter"@).push("flag_bias_confirmation_open"@).push("flag_bias_favoritism_fairness"@).push("flag_authority_dominant"@).push("flag_social_proof_open"@).push("flag_sunk_cost_flexible"@).push("flag_loss_aversion_risky"@).push("flag_dunning_kruger_humble"@), a.push(c.pattern_calm_volatile).push(c.pattern_honest_exploiter).push(c.bias_confirmation_open).push(c.bias_favoritism_fairness).push(c.authority_dominant).push(c.social_proof_open).push(c.sunk_cost_flexible).push(c.loss_aversion_risky).push(c.dunning_kruger_humble), (c.impostor_arrogant, "flag_impostor_arrogant"));
}

/// Checks 10 and on, in field order, each raise their flag exactly when
/// they answer yes.
proof fn lemma_select_chunk_1(
    c: ConsistencyChecks,
    s: Seq<(bool, &'static str)>,
    k: Seq<Seq<char>>,
    a: Seq<bool>,
)
    requires
        flag_views(raised(s)) === selected(k, a),
    ensures
        flag_views(raised(s.push((c.recency_reliable, "flag_recency_reliable")).push((c.pattern_diplomat_escalator, "flag_pattern_diplomat_escalator")).push((c.pattern_fair_exploiter, "flag_pattern_fair_exploiter")).push((c.pattern_humble_dismissive, "flag_pattern_humble_dismissive")).push((c.pattern_trusting_paranoid, "flag_pattern_trusting_paranoid")).push((c.pattern_reliable_shirker, "flag_pattern_reliable_shirker")).push((c.pattern_hardworker_complacent, "flag_pattern_hardworker_complacent")).push((c.pattern_passive_blowup, "flag_pattern_passive_blowup")).push((c.pattern_assertive_quiet, "flag_pattern_assertive_quiet")).push((c.security_risky, "flag_security_risky")))) === selected(
            k.push("flag_recency_reliable"@).push("flag_pattern_diplomat_escalator"@).push("flag_pattern_fair_exploiter"@).push("flag_pattern_humble_dismissive"@).push("flag_pattern_trusting_paranoid"@).push("flag_pattern_reliable_shirker"@).push("flag_pattern_hardworker_complacent"@).push("flag_pattern_passive_blowup"@).push("flag_pattern_assertive_quiet"@).push("flag_security_risky"@),
            a.push(c.recency_reliable).push(c.pattern_diplomat_escalator).push(c.pattern_fair_exploiter).push(c.pattern_humble_dismissive).push(c.pattern_trusting_paranoid).push(c.pattern_reliable_shirker).push(c.pattern_hardworker_complacent).push(c.pattern_passive_blowup).push(c.pattern_assertive_quiet).push(c.security_risky),
        ),
{
    lemma_select_step(s, k, a, (c.recency_reliable, "flag_recency_reliable"));
    lemma_select_step(s.push((c.recency_reliable, "flag_recency_reliable")), k.push("flag_recency_reliable"@), a.push(c.recency_reliable), (c.pattern_diplomat_escalator, "flag_pattern_diplomat_escalator"));
    lemma_select_step(s.push((c.recency_reliable, "flag_recency_reliable")).push((c.pattern_diplomat_escalator, "flag_pattern_diplomat_escalator")), k.push("flag_recency_reliable"@).push("flag_pattern_diplomat_escalator"@), a.push(c.recency_reliable).push(c.pattern_diplomat_escalator), (c.pattern_fair_exploiter, "flag_pattern_fair_exploiter"));
    lemma_select_step(s.push((c.recency_reliable, "flag_recency_reliable")).push((c.pattern_diplomat_escalator, "flag_pattern_diplomat_escalator")).push((c.pattern_fair_exploiter, "flag_pattern_fair_exploiter")), k.push("flag_recency_reliable"@).push("flag_pattern_diplomat_escalator"@).push("flag_pattern_fair_exploiter"@), a.push(c.recency_reliable).push(c.pattern_diplomat_escalator).push(c.pattern_fair_exploiter), (c.pattern_humble_dismissive, "flag_pattern_humble_dismissive"));
    lemma_select_step(s.push((c.recency_reliable, "flag_recency_reliable")).push((c.pattern_diplomat_escalator, "flag_pattern_diplomat_escalator")).push((c.pattern_fair_exploiter, "flag_pattern_fair_exploiter")).push((c.pattern_humble_dismissive, "flag_pattern_humble_dismissive")), k.push("flag_recency_reliable"@).push("flag_pattern_diplomat_escalator"@).push("flag_pattern_fair_exploiter"@).push("flag_pattern_humble_dismissive"@), a.push(c.recency_reliable).push(c.pattern_diplomat_escalator).push(c.pattern_fair_exploiter).push(c.pattern_humble_dismissive), (c.pattern_trusting_paranoid, "flag_pattern_trusting_paranoid"));
    lemma_select_step(s.push((c.recency_reliable, "flag_recency_reliable")).push((c.pattern_diplomat_escalator, "flag_pattern_diplomat_escalator")).push((c.pattern_fair_exploiter, "flag_pattern_fair_exploiter")).push((c.pattern_humble_dismissive, "flag_pattern_humble_dismissive")).push((c.pattern_trusting_paranoid, "flag_pattern_trusting_paranoid")), k.push("flag_recency_reliable"@).push("flag_pattern_diplomat_escalator"@).push("flag_pattern_fair_exploiter"@).push("flag_pattern_humble_dismissive"@).push("flag_pattern_trusting_paranoid"@), a.push(c.recency_reliable).push(c.pattern_diplomat_escalator).push(c.pattern_fair_exploiter).push(c.pattern_humble_dismissive).push(c.pattern_trusting_paranoid), (c.pattern_reliable_shirker, "flag_pattern_reliable_shirker"));
    lemma_select_step(s.push((c.recency_reliable, "flag_recency_reliable")).push((c.pattern_diplomat_escalator, "flag_pattern_diplomat_escalator")).push((c.pattern_fair_exploiter, "flag_pattern_fair_exploiter")).push((c.pattern_humble_dismissive, "flag_pattern_humble_dismissive")).push((c.pattern_trusting_paranoid, "flag_pattern_trusting_paranoid")).push((c.pattern_reliable_shirker, "flag_pattern_reliable_shirker")), k.push("flag_recency_reliable"@).push("flag_pattern_diplomat_escalator"@).push("flag_pattern_fair_exploiter"@).push("flag_pattern_humble_dismissive"@).push("flag_pattern_trusting_paranoid"@).push("flag_pattern_reliable_shirker"@), a.push(c.recency_reliable).push(c.pattern_diplomat_escalator).push(c.pattern_fair_exploiter).push(c.pattern_humble_dismissive).push(c.pattern_trusting_paranoid).push(c.pattern_reliable_shirker), (c.pattern_hardworker_complacent, "flag_pattern_hardworker_complacent"));
    lemma_select_step(s.push((c.recency_reliable, "flag_recency_reliable")).push((c.pattern_diplomat_escalator, "flag_pattern_diplomat_escalator")).push((c.pattern_fair_exploiter, "flag_pattern_fair_exploiter")).push((c.pattern_humble_dismissive, "flag_pattern_humble_dismissive")).push((c.pattern_trusting_paranoid, "flag_pattern_trusting_paranoid")).push((c.pattern_reliable_shirker, "flag_pattern_reliable_shirker")).push((c.pattern_hardworker_complacent, "flag_pattern_hardworker_complacent")), k.push("flag_recency_reliable"@).push("flag_pattern_diplomat_escalator"@).push("flag_pattern_fair_exploiter"@).push("flag_pattern_humble_dismissive"@).push("flag_pattern_trusting_paranoid"@).push("flag_pattern_reliable_shirker"@).push("flag_pattern_hardworker_complacent"@), a.push(c.recency_reliable).push(c.pattern_diplomat_escalator).push(c.pattern_fair_exploiter).push(c.pattern_humble_dismissive).push(c.pattern_trusting_paranoid).push(c.pattern_reliable_shirker).push(c.pattern_hardworker_complacent), (c.pattern_passive_blowup, "flag_pattern_passive_blowup"));
    lemma_select_step(s.push((c.recency_reliable, "flag_recency_reliable")).push((c.pattern_diplomat_escalator, "flag_pattern_diplomat_escalator")).push((c.pattern_fair_exploiter, "flag_pattern_fair_exploiter")).push((c.pattern_humble_dismissive, "flag_pattern_humble_dismissive")).push((c.pattern_trusting_paranoid, "flag_pattern_trusting_paranoid")).push((c.pattern_reliable_shirker, "flag_pattern_reliable_shirker")).push((c.pattern_hardworker_complacent, "flag_pattern_hardworker_complacent")).push((c.pattern_passive_blowup, "flag_pattern_passive_blowup")), k.push("flag_recency_reliable"@).push("flag_pattern_diplomat_escalator"@).push("flag_pattern_fair_exploiter"@).push("flag_pattern_humble_dismissive"@).push("flag_pattern_trusting_paranoid"@).push("flag_pattern_reliable_shirker"@).push("flag_pattern_hardworker_complacent"@).push("flag_pattern_passive_blowup"@), a.push(c.recency_reliable).push(c.pattern_diplomat_escalator).push(c.pattern_fair_exploiter).push(c.pattern_humble_dismissive).push(c.pattern_trusting_paranoid).push(c.pattern_reliable_shirker).push(c.pattern_hardworker_complacent).push(c.pattern_passive_blowup), (c.pattern_assertive_quiet, "flag_pattern_assertive_quiet"));
    lemma_select_step(s.push((c.recency_reliable, "flag_recency_reliable")).push((c.pattern_diplomat_escalator, "flag_pattern_diplomat_escalator")).push((c.pattern_fair_exploiter, "flag_pattern_fair_exploiter")).push((c.pattern_humble_dismissive, "flag_pattern_humble_dismissive")).push((c.pattern_trusting_paranoid, "flag_pattern_trusting_paranoid")).push((c.pattern_reliable_shirker, "flag_pattern_reliable_shirker")).push((c.pattern_hardworker_complacent, "flag_pattern_hardworker_complacent")).push((c.pattern_passive_blowup, "flag_pattern_passive_blowup")).push((c.pattern_assertive_quiet, "flag_pattern_assertive_quiet")), k.push("flag_recency_reliable"@).push("flag_pattern_diplomat_escalator"@).push("flag_pattern_fair_exploiter"@).push("flag_pattern_humble_dismissive"@).push("flag_pattern_trusting_paranoid"@).push("flag_pattern_reliable_shirker"@).push("flag_pattern_hardworker_complacent"@).push("flag_pattern_passive_blowup"@).push("flag_pattern_assertive_quiet"@), a.push(c.recency_reliable).push(c.pattern_diplomat_escalator).push(c.pattern_fair_exploiter).push(c.pattern_humble_dismissive).push(c.pattern_trusting_paranoid).push(c.pattern_reliable_shirker).push(c.pattern_hardworker_complacent).push(c.pattern_passive_blowup).push(c.pattern_assertive_quiet), (c.security_risky, "flag_security_risky"));
}

/// Checks 20 and on, in field order, each raise their flag exactly when
/// they answer yes.
proof fn lemma_select_chunk_2(
    c: ConsistencyChecks,
    s: Seq<(bool, &'static str)>,
    k: Seq<Seq<char>>,
    a: Seq<bool>,
)
    requires
        flag_views(raised(s)) === selected(k, a),
    ensures
        flag_views(raised(s.push((c.resilient_reactive, "flag_resilient_reactive")).push((c.risk_appetite_ambition, "flag_risk_appetite_ambition")).push((c.resilient_hides, "flag_resilient_hides")).push((c.pattern_generous_exploiter, "flag_pattern_generous_exploiter")).push((c.pattern_empath_dismissive, "flag_pattern_empath_dismissive")).push((c.pattern_flexible_resister, "flag_pattern_flexible_resister")).push((c.anchoring_open, "flag_anchoring_open")).push((c.pattern_helping_exploiter, "flag_pattern_helping_exploiter")).push((c.pattern_warmth_dismissive, "flag_pattern_warmth_dismissive")).push((c.pattern_discipline_shirker, "flag_pattern_discipline_shirker")))) === selected(
            k.push("flag_resilient_reactive"@).push("flag_risk_appetite_ambition"@).push("flag_resilient_hides"@).push("flag_pattern_generous_exploiter"@).push("flag_pattern_empath_dismissive"@).push("flag_pattern_flexible_resister"@).push("flag_anchoring_open"@).push("flag_pattern_helping_exploiter"@).push("flag_pattern_warmth_dismissive"@).push("flag_pattern_discipline_shirker"@),
            a.push(c.resilient_reactive).push(c.risk_appetite_ambition).push(c.resilient_hides).push(c.pattern_generous_exploiter).push(c.pattern_empath_dismissive).push(c.pattern_flexible_resister).push(c.anchoring_open).push(c.pattern_helping_exploiter).push(c.pattern_warmth_dismissive).push(c.pattern_discipline_shirker),
        ),
{
    lemma_select_step(s, k, a, (c.resilient_reactive, "flag_resilient_reactive"));
    lemma_select_step(s.push((c.resilient_reactive, "flag_resilient_reactive")), k.push("flag_resilient_reactive"@), a.push(c.resilient_reactive), (c.risk_appetite_ambition, "flag_risk_appetite_ambition"));
    lemma_select_step(s.push((c.resilient_reactive, "flag_resilient_reactive")).push((c.risk_appetite_ambition, "flag_risk_appetite_ambition")), k.push("flag_resilient_reactive"@).push("flag_risk_appetite_ambition"@), a.push(c.resilient_reactive).push(c.risk_appetite_ambition), (c.resilient_hides, "flag_resilient_hides"));
    lemma_select_step(s.push((c.resilient_reactive, "flag_resilient_reactive")).push((c.risk_appetite_ambition, "flag_risk_appetite_ambition")).push((c.resilient_hides, "flag_resilient_hides")), k.push("flag_resilient_reactive"@).push("flag_risk_appetite_ambition"@).push("flag_resilient_hides"@), a.push(c.resilient_reactive).push(c.risk_appetite_ambition).push(c.resilient_hides), (c.pattern_generous_exploiter, "flag_pattern_generous_exploiter"));
    lemma_select_step(s.push((c.resilient_reactive, "flag_resilient_reactive")).push((c.risk_appetite_ambition, "flag_risk_appetite_ambition")).push((c.resilient_hides, "flag_resilient_hides")).push((c.pattern_generous_exploiter, "flag_pattern_generous_exploiter")), k.push("flag_resilient_reactive"@).push("flag_risk_appetite_ambition"@).push("flag_resilient_hides"@).push("flag_pattern_generous_exploiter"@), a.push(c.resilient_reactive).push(c.risk_appetite_ambition).push(c.resilient_hides).push(c.pattern_generous_exploiter), (c.pattern_empath_dismissive, "flag_pattern_empath_dismissive"));
    lemma_select_step(s.push((c.resilient_reactive, "flag_resilient_reactive")).push((c.risk_appetite_ambition, "flag_risk_appetite_ambition")).push((c.resilient_hides, "flag_resilient_hides")).push((c.pattern_generous_exploiter, "flag_pattern_generous_exploiter")).push((c.pattern_empath_dismissive, "flag_pattern_empath_dismissive")), k.push("flag_resilient_reactive"@).push("flag_risk_appetite_ambition"@).push("flag_resilient_hides"@).push("flag_pattern_generous_exploiter"@).push("flag_pattern_empath_dismissive"@), a.push(c.resilient_reactive).push(c.risk_appetite_ambition).push(c.resilient_hides).push(c.pattern_generous_exploiter).push(c.pattern_empath_dismissive), (c.pattern_flexible_resister, "flag_pattern_flexible_resister"));
    lemma_select_step(s.push((c.resilient_reactive, "flag_resilient_reactive")).push((c.risk_appetite_ambition, "flag_risk_appetite_ambition")).push((c.resilient_hides, "flag_resilient_hides")).push((c.pattern_generous_exploiter, "flag_pattern_generous_exploiter")).push((c.pattern_empath_dismissive, "flag_pattern_empath_dismissive")).push((c.pattern_flexible_resister, "flag_pattern_flexible_resister")), k.push("flag_resilient_reactive"@).push("flag_risk_appetite_ambition"@).push("flag_resilient_hides"@).push("flag_pattern_generous_exploiter"@).push("flag_pattern_empath_dismissive"@).push("flag_pattern_flexible_resister"@), a.push(c.resilient_reactive).push(c.risk_appetite_ambition).push(c.resilient_hides).push(c.pattern_generous_exploiter).push(c.pattern_empath_dismissive).push(c.pattern_flexible_resister), (c.anchoring_open, "flag_anchoring_open"));
    lemma_select_step(s.push((c.resilient_reactive, "flag_resilient_reactive")).push((c.risk_appetite_ambition, "flag_risk_appetite_ambition")).push((c.resilient_hides, "flag_resilient_hides")).push((c.pattern_generous_exploiter, "flag_pattern_generous_exploiter")).push((c.pattern_empath_dismissive, "flag_pattern_empath_dismissive")).push((c.pattern_flexible_resister, "flag_pattern_flexible_resister")).push((c.anchoring_open, "flag_anchoring_open")), k.push("flag_resilient_reactive"@).push("flag_risk_appetite_ambition"@).push("flag_resilient_hides"@).push("flag_pattern_generous_exploiter"@).push("flag_pattern_empath_dismissive"@).push("flag_pattern_flexible_resister"@).push("flag_anchoring_open"@), a.push(c.resilient_reactive).push(c.risk_appetite_ambition).push(c.resilient_hides).push(c.pattern_generous_exploiter).push(c.pattern_empath_dismissive).push(c.pattern_flexible_resister).push(c.anchoring_open), (c.pattern_helping_exploiter, "flag_pattern_helping_exploiter"));
    lemma_select_step(s.push((c.resilient_reactive, "flag_resilient_reactive")).push((c.risk_appetite_ambition, "flag_risk_appetite_ambition")).push((c.resilient_hides, "flag_resilient_hides")).push((c.pattern_generous_exploiter, "flag_pattern_generous_exploiter")).push((c.pattern_empath_dismissive, "flag_pattern_empath_dismissive")).push((c.pattern_flexible_resister, "flag_pattern_flexible_resister")).push((c.anchoring_open, "flag_anchoring_open")).push((c.pattern_helping_exploiter, "flag_pattern_helping_exploiter")), k.push("flag_resilient_reactive"@).push("flag_risk_appetite_ambition"@).push("flag_resilient_hides"@).push("flag_pattern_generous_exploiter"@).push("flag_pattern_empath_dismissive"@).push("flag_pattern_flexible_resister"@).push("flag_anchoring_open"@).push("flag_pattern_helping_exploiter"@), a.push(c.resilient_reactive).push(c.risk_appetite_ambition).push(c.resilient_hides).push(c.pattern_generous_exploiter).push(c.pattern_empath_dismissive).push(c.pattern_flexible_resister).push(c.anchoring_open).push(c.pattern_helping_exploiter), (c.pattern_warmth_dismissive, "flag_pattern_warmth_dismissive"));
    lemma_select_step(s.push((c.resilient_reactive, "flag_resilient_reactive")).push((c.risk_appetite_ambition, "flag_risk_appetite_ambition")).push((c.resilient_hides, "flag_resilient_hides")).push((c.pattern_generous_exploiter, "flag_pattern_generous_exploiter")).push((c.pattern_empath_dismissive, "flag_pattern_empath_dismissive")).push((c.pattern_flexible_resister, "flag_pattern_flexible_resister")).push((c.anchoring_open, "flag_anchoring_open")).push((c.pattern_helping_exploiter, "flag_pattern_helping_exploiter")).push((c.pattern_warmth_dismissive, "flag_pattern_warmth_dismissive")), k.push("flag_resilient_reactive"@).push("flag_risk_appetite_ambition"@).push("flag_resilient_hides"@).push("flag_pattern_generous_exploiter"@).push("flag_pattern_empath_dismissive"@).push("flag_pattern_flexible_resister"@).push("flag_anchoring_open"@).push("flag_pattern_helping_exploiter"@).push("flag_pattern_warmth_dismissive"@), a.push(c.resilient_reactive).push(c.risk_appetite_ambition).push(c.resilient_hides).push(c.pattern_generous_exploiter).push(c.pattern_empath_dismissive).push(c.pattern_flexible_resister).push(c.anchoring_open).push(c.pattern_helping_exploiter).push(c.pattern_warmth_dismissive), (c.pattern_discipline_shirker, "flag_pattern_discipline_shirker"));
}

/// Checks 30 and on, in field order, each raise their flag exactly when
/// they answer yes.
proof fn lemma_select_chunk_3(
    c: ConsistencyChecks,
    s: Seq<(bool, &'static str)>,
    k: Seq<Seq<char>>,
    a: Seq<bool>,
)
    requires
        flag_views(raised(s)) === selected(k, a),
    ensures
        flag_views(raised(s.push((c.pattern_claimed_calm_volatile, "flag_pattern_claimed_calm_volatile")).push((c.pattern_fairness_exploiter, "flag_pattern_fairness_exploiter")).push((c.pattern_achievement_complacent, "flag_pattern_achievement_complacent")).push((c.pattern_learning_resister, "flag_pattern_learning_resister")).push((c.pattern_extravert_quiet, "flag_pattern_extravert_quiet")).push((c.pattern_open_resister, "flag_pattern_open_resister")).push((c.pattern_recognition_dismissive, "flag_pattern_recognition_dismissive")).push((c.availability_calm, "flag_availability_calm")))) === selected(
            k.push("flag_pattern_claimed_calm_volatile"@).push("flag_pattern_fairness_exploiter"@).push("flag_pattern_achievement_complacent"@).push("flag_pattern_learning_resister"@).push("flag_pattern_extravert_quiet"@).push("flag_pattern_open_resister"@).push("flag_pattern_recognition_dismissive"@).push("flag_availability_calm"@),
            a.push(c.pattern_claimed_calm_volatile).push(c.pattern_fairness_exploiter).push(c.pattern_achievement_complacent).push(c.pattern_learning_resister).push(c.pattern_extravert_quiet).push(c.pattern_open_resister).push(c.pattern_recognition_dismissive).push(c.availability_calm),
        ),
{
    lemma_select_step(s, k, a, (c.pattern_claimed_calm_volatile, "flag_pattern_claimed_calm_volatile"));
    lemma_select_step(s.push((c.pattern_claimed_calm_volatile, "flag_pattern_claimed_calm_volatile")), k.push("flag_pattern_claimed_calm_volatile"@), a.push(c.pattern_claimed_calm_volatile), (c.pattern_fairness_exploiter, "flag_pattern_fairness_exploiter"));
    lemma_select_step(s.push((c.pattern_claimed_calm_volatile, "flag_pattern_claimed_calm_volatile")).push((c.pattern_fairness_exploiter, "flag_pattern_fairness_exploiter")), k.push("flag_pattern_claimed_calm_volatile"@).push("flag_pattern_fairness_exploiter"@), a.push(c.pattern_claimed_calm_volatile).push(c.pattern_fairness_exploiter), (c.pattern_achievement_complacent, "flag_pattern_achievement_complacent"));
    lemma_select_step(s.push((c.pattern_claimed_calm_volatile, "flag_pattern_claimed_calm_volatile")).push((c.pattern_fairness_exploiter, "flag_pattern_fairness_exploiter")).push((c.pattern_achievement_complacent, "flag_pattern_achievement_complacent")), k.push("flag_pattern_claimed_calm_volatile"@).push("flag_pattern_fairness_exploiter"@).push("flag_pattern_achievement_complacent"@), a.push(c.pattern_claimed_calm_volatile).push(c.pattern_fairness_exploiter).push(c.pattern_achievement_complacent), (c.pattern_learning_resister, "flag_pattern_learning_resister"));
    lemma_select_step(s.push((c.pattern_claimed_calm_volatile, "flag_pattern_claimed_calm_volatile")).push((c.pattern_fairness_exploiter, "flag_pattern_fairness_exploiter")).push((c.pattern_achievement_complacent, "flag_pattern_achievement_complacent")).push((c.pattern_learning_resister, "flag_pattern_learning_resister")), k.push("flag_pattern_claimed_calm_volatile"@).push("flag_pattern_fairness_exploiter"@).push("flag_pattern_achievement_complacent"@).push("flag_pattern_learning_resister"@), a.push(c.pattern_claimed_calm_volatile).push(c.pattern_fairness_exploiter).push(c.pattern_achievement_complacent).push(c.pattern_learning_resister), (c.pattern_extravert_quiet, "flag_pattern_extravert_quiet"));
    lemma_select_step(s.push((c.pattern_claimed_calm_volatile, "flag_pattern_claimed_calm_volatile")).push((c.pattern_fairness_exploiter, "flag_pattern_fairness_exploiter")).push((c.pattern_achievement_complacent, "flag_pattern_achievement_complacent")).push((c.pattern_learning_resister, "flag_pattern_learning_resister")).push((c.pattern_extravert_quiet, "flag_pattern_extravert_quiet")), k.push("flag_pattern_claimed_calm_volatile"@).push("flag_pattern_fairness_exploiter"@).push("flag_pattern_achievement_complacent"@).push("flag_pattern_learning_resister"@).push("flag_pattern_extravert_quiet"@), a.push(c.pattern_claimed_calm_volatile).push(c.pattern_fairness_exploiter).push(c.pattern_achievement_complacent).push(c.pattern_learning_resister).push(c.pattern_extravert_quiet), (c.pattern_open_resister, "flag_pattern_open_resister"));
    lemma_select_step(s.push((c.pattern_claimed_calm_volatile, "flag_pattern_claimed_calm_volatile")).push((c.pattern_fairness_exploiter, "flag_pattern_fairness_exploiter")).push((c.pattern_achievement_complacent, "flag_pattern_achievement_complacent")).push((c.pattern_learning_resister, "flag_pattern_learning_resister")).push((c.pattern_extravert_quiet, "flag_pattern_extravert_quiet")).push((c.pattern_open_resister, "flag_pattern_open_resister")), k.push("flag_pattern_claimed_calm_volatile"@).push("flag_pattern_fairness_exploiter"@).push("flag_pattern_achievement_complacent"@).push("flag_pattern_learning_resister"@).push("flag_pattern_extravert_quiet"@).push("flag_pattern_open_resister"@), a.push(c.pattern_claimed_calm_volatile).push(c.pattern_fairness_exploiter).push(c.pattern_achievement_complacent).push(c.pattern_learning_resister).push(c.pattern_extravert_quiet).push(c.pattern_open_resister), (c.pattern_recognition_dismissive, "flag_pattern_recognition_dismissive"));
    lemma_select_step(s.push((c.pattern_claimed_calm_volatile, "flag_pattern_claimed_calm_volatile")).push((c.pattern_fairness_exploiter, "flag_pattern_fairness_exploiter")).push((c.pattern_achievement_complacent, "flag_pattern_achievement_complacent")).push((c.pattern_learning_resister, "flag_pattern_learning_resister")).push((c.pattern_extravert_quiet, "flag_pattern_extravert_quiet")).push((c.pattern_open_resister, "flag_pattern_open_resister")).push((c.pattern_recognition_dismissive, "flag_pattern_recognition_dismissive")), k.push("flag_pattern_claimed_calm_volatile"@).push("flag_pattern_fairness_exploiter"@).push("flag_pattern_achievement_complacent"@).push("flag_pattern_learning_resister"@).push("flag_pattern_extravert_quiet"@).push("flag_pattern_open_resister"@).push("flag_pattern_recognition_dismissive"@), a.push(c.pattern_claimed_calm_volatile).push(c.pattern_fairness_exploiter).push(c.pattern_achievement_complacent).push(c.pattern_learning_resister).push(c.pattern_extravert_quiet).push(c.pattern_open_resister).push(c.pattern_recognition_dismissive), (c.availability_calm, "flag_availability_calm"));
}
/// Half of the checks, in field order, each raise their flag exactly when
/// they answer yes.
proof fn lemma_select_half_0(
    c: ConsistencyChecks,
    s: Seq<(bool, &'static str)>,
    k: Seq<Seq<char>>,
    a: Seq<bool>,
)
    requires
        flag_views(raised(s)) === selected(k, a),
    ensures
        flag_views(raised(s.push((c.pattern_calm_volatile, "flag_pattern_calm_volatile")).push((c.pattern_honest_exploiter, "flag_pattern_honest_exploiter")).push((c.bias_confirmation_open, "flag_bias_confirmation_open")).push((c.bias_favoritism_fairness, "flag_bias_favoritism_fairness")).push((c.authority_dominant, "flag_authority_dominant")).push((c.social_proof_open, "flag_social_proof_open")).push((c.sunk_cost_flexible, "flag_sunk_cost_flexible")).push((c.loss_aversion_risky, "flag_loss_aversion_risky")).push((c.dunning_kruger_humble, "flag_dunning_kruger_humble")).push((c.impostor_arrogant, "flag_impostor_arrogant")).push((c.recency_reliable, "flag_recency_reliable")).push((c.pattern_diplomat_escalator, "flag_pattern_diplomat_escalator")).push((c.pattern_fair_exploiter, "flag_pattern_fair_exploiter")).push((c.pattern_humble_dismissive, "flag_pattern_humble_dismissive")).push((c.pattern_trusting_paranoid, "flag_pattern_trusting_paranoid")).push((c.pattern_reliable_shirker, "flag_pattern_reliable_shirker")).push((c.pattern_hardworker_complacent, "flag_pattern_hardworker_complacent")).push((c.pattern_passive_blowup, "flag_pattern_passive_blowup")).push((c.pattern_assertive_quiet, "flag_pattern_assertive_quiet")).push((c.security_risky, "flag_security_risky")))) === selected(
            k.push("flag_pattern_calm_volatile"@).push("flag_pattern_honest_exploiter"@).push("flag_bias_confirmation_open"@).push("flag_bias_favoritism_fairness"@).push("flag_authority_dominant"@).push("flag_social_proof_open"@).push("flag_sunk_cost_flexible"@).push("flag_loss_aversion_risky"@).push("flag_dunning_kruger_humble"@).push("flag_impostor_arrogant"@).push("flag_recency_reliable"@).push("flag_pattern_diplomat_escalator"@).push("flag_pattern_fair_exploiter"@).push("flag_pattern_humble_dismissive"@).push("flag_pattern_trusting_paranoid"@).push("flag_pattern_reliable_shirker"@).push("flag_pattern_hardworker_complacent"@).push("flag_pattern_passive_blowup"@).push("flag_pattern_assertive_quiet"@).push("flag_security_risky"@),
            a.push(c.pattern_calm_volatile).push(c.pattern_honest_exploiter).push(c.bias_confirmation_open).push(c.bias_favoritism_fairness).push(c.authority_dominant).push(c.social_proof_open).push(c.sunk_cost_flexible).push(c.loss_aversion_risky).push(c.dunning_kruger_humble).push(c.impostor_arrogant).push(c.recency_reliable).push(c.pattern_diplomat_escalator).push(c.pattern_fair_exploiter).push(c.pattern_humble_dismissive).push(c.pattern_trusting_paranoid).push(c.pattern_reliable_shirker).push(c.pattern_hardworker_complacent).push(c.pattern_passive_blowup).push(c.pattern_assertive_quiet).push(c.security_risky),
        ),
{
    lemma_select_chunk_0(c, s, k, a);
    lemma_select_chunk_1(c, s.push((c.pattern_calm_volatile, "flag_pattern_calm_volatile")).push((c.pattern_honest_exploiter, "flag_pattern_honest_exploiter")).push((c.bias_confirmation_open, "flag_bias_confirmation_open")).push((c.bias_favoritism_fairness, "flag_bias_favoritism_fairness")).push((c.authority_dominant, "flag_authority_dominant")).push((c.social_proof_open, "flag_social_proof_open")).push((c.sunk_cost_flexible, "flag_sunk_cost_flexible")).push((c.loss_aversion_risky, "flag_loss_aversion_risky")).push((c.dunning_kruger_humble, "flag_dunning_kruger_humble")).push((c.impostor_arrogant, "flag_impostor_arrogant")), k.push("flag_pattern_calm_volatile"@).push("flag_pattern_honest_exploiter"@).push("flag_bias_confirmation_open"@).push("flag_bias_favoritism_fairness"@).push("flag_authority_dominant"@).push("flag_social_proof_open"@).push("flag_sunk_cost_flexible"@).push("flag_loss_aversion_risky"@).push("flag_dunning_kruger_humble"@).push("flag_impostor_arrogant"@), a.push(c.pattern_calm_volatile).push(c.pattern_honest_exploiter).push(c.bias_confirmation_open).push(c.bias_favoritism_fairness).push(c.authority_dominant).push(c.social_proof_open).push(c.sunk_cost_flexible).push(c.loss_aversion_risky).push(c.dunning_kruger_humble).push(c.impostor_arrogant));
}

/// Half of the checks, in field order, each raise their flag exactly when
/// they answer yes.
proof fn lemma_select_half_1(
    c: ConsistencyChecks,
    s: Seq<(bool, &'static str)>,
    k: Seq<Seq<char>>,
    a: Seq<bool>,
)
    requires
        flag_views(raised(s)) === selected(k, a),
    ensures
        flag_views(raised(s.push((c.resilient_reactive, "flag_resilient_reactive")).push((c.risk_appetite_ambition, "flag_risk_appetite_ambition")).push((c.resilient_hides, "flag_resilient_hides")).push((c.pattern_generous_exploiter, "flag_pattern_generous_exploiter")).push((c.pattern_empath_dismissive, "flag_pattern_empath_dismissive")).push((c.pattern_flexible_resister, "flag_pattern_flexible_resister")).push((c.anchoring_open, "flag_anchoring_open")).push((c.pattern_helping_exploiter, "flag_pattern_helping_exploiter")).push((c.pattern_warmth_dismissive, "flag_pattern_warmth_dismissive")).push((c.pattern_discipline_shirker, "flag_pattern_discipline_shirker")).push((c.pattern_claimed_calm_volatile, "flag_pattern_claimed_calm_volatile")).push((c.pattern_fairness_exploiter, "flag_pattern_fairness_exploiter")).push((c.pattern_achievement_complacent, "flag_pattern_achievement_complacent")).push((c.pattern_learning_resister, "flag_pattern_learning_resister")).push((c.pattern_extravert_quiet, "flag_pattern_extravert_quiet")).push((c.pattern_open_resister, "flag_pattern_open_resister")).push((c.pattern_recognition_dismissive, "flag_pattern_recognition_dismissive")).push((c.availability_calm, "flag_availability_calm")))) === selected(
            k.push("flag_resilient_reactive"@).push("flag_risk_appetite_ambition"@).push("flag_resilient_hides"@).push("flag_pattern_generous_exploiter"@).push("flag_pattern_empath_dismissive"@).push("flag_pattern_flexible_resister"@).push("flag_anchoring_open"@).push("flag_pattern_helping_exploiter"@).push("flag_pattern_warmth_dismissive"@).push("flag_pattern_discipline_shirker"@).push("flag_pattern_claimed_calm_volatile"@).push("flag_pattern_fairness_exploiter"@).push("flag_pattern_achievement_complacent"@).push("flag_pattern_learning_resister"@).push("flag_pattern_extravert_quiet"@).push("flag_pattern_open_resister"@).push("flag_pattern_recognition_dismissive"@).push("flag_availability_calm"@),
            a.push(c.resilient_reactive).push(c.risk_appetite_ambition).push(c.resilient_hides).push(c.pattern_generous_exploiter).push(c.pattern_empath_dismissive).push(c.pattern_flexible_resister).push(c.anchoring_open).push(c.pattern_helping_exploiter).push(c.pattern_warmth_dismissive).push(c.pattern_discipline_shirker).push(c.pattern_claimed_calm_volatile).push(c.pattern_fairness_exploiter).push(c.pattern_achievement_complacent).push(c.pattern_learning_resister).push(c.pattern_extravert_quiet).push(c.pattern_open_resister).push(c.pattern_recognition_dismissive).push(c.availability_calm),
        ),
{
    lemma_select_chunk_2(c, s, k, a);
    lemma_select_chunk_3(c, s.push((c.resilient_reactive, "flag_resilient_reactive")).push((c.risk_appetite_ambition, "flag_risk_appetite_ambition")).push((c.resilient_hides, "flag_resilient_hides")).push((c.pattern_generous_exploiter, "flag_pattern_generous_exploiter")).push((c.pattern_empath_dismissive, "flag_pattern_empath_dismissive")).push((c.pattern_flexible_resister, "flag_pattern_flexible_resister")).push((c.anchoring_open, "flag_anchoring_open")).push((c.pattern_helping_exploiter, "flag_pattern_helping_exploiter")).push((c.pattern_warmth_dismissive, "flag_pattern_warmth_dismissive")).push((c.pattern_discipline_shirker, "flag_pattern_discipline_shirker")), k.push("flag_resilient_reactive"@).push("flag_risk_appetite_ambition"@).push("flag_resilient_hides"@).push("flag_pattern_generous_exploiter"@).push("flag_pattern_empath_dismissive"@).push("flag_pattern_flexible_resister"@).push("flag_anchoring_open"@).push("flag_pattern_helping_exploiter"@).push("flag_pattern_warmth_dismissive"@).push("flag_pattern_discipline_shirker"@), a.push(c.resilient_reactive).push(c.risk_appetite_ambition).push(c.resilient_hides).push(c.pattern_generous_exploiter).push(c.pattern_empath_dismissive).push(c.pattern_flexible_resister).push(c.anchoring_open).push(c.pattern_helping_exploiter).push(c.pattern_warmth_dismissive).push(c.pattern_discipline_shirker));
}

/// The badge raises, in field order, the flag of exactly each consistency
/// check that reports a gap: the raised flags are the check flags whose
/// answers are yes, so a check's flag is raised exactly when that check
/// reports a gap, and no other check's flag stands in for it; the badge
/// shows these flags between the leading and the style flags.
pub proof fn lemma_each_check_flags_itself(
    c: ConsistencyChecks,
    leading: Seq<&'static str>,
    style: Seq<&'static str>,
)
    ensures
        flag_views(raised(check_list(c))) === selected(flag_keys(), check_answers(c)),
        flag_views(badge_flags(leading, c, style)) == flag_views(leading) + selected(
            flag_keys(),
            check_answers(c),
        ) + flag_views(style),
{
    let s0 = Seq::<(bool, &'static str)>::empty();
    let k0 = Seq::<Seq<char>>::empty();
    let a0 = Seq::<bool>::empty();
    assert(flag_views(raised(s0)) =~= selected(k0, a0)) by {
        reveal(raised);
        reveal(selected);
    }
    lemma_select_half_0(c, s0, k0, a0);
    lemma_select_half_1(c, s0.push((c.pattern_calm_volatile, "flag_pattern_calm_volatile")).push((c.pattern_honest_exploiter, "flag_pattern_honest_exploiter")).push((c.bias_confirmation_open, "flag_bias_confirmation_open")).push((c.bias_favoritism_fairness, "flag_bias_favoritism_fairness")).push((c.authority_dominant, "flag_authority_dominant")).push((c.social_proof_open, "flag_social_proof_open")).push((c.sunk_cost_flexible, "flag_sunk_cost_flexible")).push((c.loss_aversion_risky, "flag_loss_aversion_risky")).push((c.dunning_kruger_humble, "flag_dunning_kruger_humble")).push((c.impostor_arrogant, "flag_impostor_arrogant")).push((c.recency_reliable, "flag_recency_reliable")).push((c.pattern_diplomat_escalator, "flag_pattern_diplomat_escalator")).push((c.pattern_fair_exploiter, "flag_pattern_fair_exploiter")).push((c.pattern_humble_dismissive, "flag_pattern_humble_dismissive")).push((c.pattern_trusting_paranoid, "flag_pattern_trusting_paranoid")).push((c.pattern_reliable_shirker, "flag_pattern_reliable_shirker")).push((c.pattern_hardworker_complacent, "flag_pattern_hardworker_complacent")).push((c.pattern_passive_blowup, "flag_pattern_passive_blowup")).push((c.pattern_assertive_quiet, "flag_pattern_assertive_quiet")).push((c.security_risky, "flag_security_risky")), k0.push("flag_pattern_calm_volatile"@).push("flag_pattern_honest_exploiter"@).push("flag_bias_confirmation_open"@).push("flag_bias_favoritism_fairness"@).push("flag_authority_dominant"@).push("flag_social_proof_open"@).push("flag_sunk_cost_flexible"@).push("flag_loss_aversion_risky"@).push("flag_dunning_kruger_humble"@).push("flag_impostor_arrogant"@).push("flag_recency_reliable"@).push("flag_pattern_diplomat_escalator"@).push("flag_pattern_fair_exploiter"@).push("flag_pattern_humble_dismissive"@).push("flag_pattern_trusting_paranoid"@).push("flag_pattern_reliable_shirker"@).push("flag_pattern_hardworker_complacent"@).push("flag_pattern_passive_blowup"@).push("flag_pattern_assertive_quiet"@).push("flag_security_risky"@), a0.push(c.pattern_calm_volatile).push(c.pattern_honest_exploiter).push(c.bias_confirmation_open).push(c.bias_favoritism_fairness).push(c.authority_dominant).push(c.social_proof_open).push(c.sunk_cost_flexible).push(c.loss_aversion_risky).push(c.dunning_kruger_humble).push(c.impostor_arrogant).push(c.recency_reliable).push(c.pattern_diplomat_escalator).push(c.pattern_fair_exploiter).push(c.pattern_humble_dismissive).push(c.pattern_trusting_paranoid).push(c.pattern_reliable_shirker).push(c.pattern_hardworker_complacent).push(c.pattern_passive_blowup).push(c.pattern_assertive_quiet).push(c.security_risky));
    let r = raised(check_list(c));
    assert(flag_views(badge_flags(leading, c, style)) =~= flag_views(leading) + flag_views(r) + flag_views(style));
}

} // verus!

use vstd::prelude::*;
use crate::text::{lowercase, replace_text, replaced, text_eq, to_lowercase_text};
use crate::model::{
    at_least, at_most, is_at_least, is_at_most, BehaviorTrigger, MotivationType, OceanScores,
    TopMotivation,
};

verus! {

/// The triggers offered by the insight page, in display order.
pub const ALL_TRIGGERS: [BehaviorTrigger; 9] = [
    BehaviorTrigger::Stress,
    BehaviorTrigger::Conflict,
    BehaviorTrigger::Success,
    BehaviorTrigger::Uncertainty,
    BehaviorTrigger::Recognition,
    BehaviorTrigger::Threatened,
    BehaviorTrigger::Change,
    BehaviorTrigger::Feedback,
    BehaviorTrigger::Injustice,
];

/// Mismatches between what a person claims and how they are reputed, as
/// detected by the profile consistency checks.
#[derive(Clone, Copy, Debug, PartialEq, Eq, Structural)]
pub struct RhetoricGaps {
    /// Power or recognition driven, yet reputed lazy.
    pub ambition_lazy: bool,
    /// Security driven, yet reputed gullible.
    pub security_gullible: bool,
    /// Affiliation driven, yet reputed cold.
    pub affiliation_cold: bool,
    /// Affiliation driven, yet reputed distrustful.
    pub affiliation_distrustful: bool,
    /// Conscientious, yet reputed lazy.
    pub discipline_lazy: bool,
    /// Helping driven, yet reputed selfish.
    pub helping_selfish: bool,
    /// Agreeable, yet reputed blunt.
    pub warmth_blunt: bool,
    /// Fairness driven, yet reputed for favouritism.
    pub fairness_rhetoric: bool,
}

/// What the insight strategies read of a person.
#[derive(Clone, Copy, Debug, PartialEq, Eq, Structural)]
pub struct InsightProfile {
    pub ocean: OceanScores,
    pub top_motivation: Option<TopMotivation>,
    pub gaps: RhetoricGaps,
}

/// The views of a list of translation keys.
pub open spec fn keys(v: Seq<&'static str>) -> Seq<Seq<char>> {
    v.map_values(|k: &'static str| k@)
}

/// `s` with `k` appended when `c` holds.
pub open spec fn add_if(s: Seq<Seq<char>>, c: bool, k: Seq<char>) -> Seq<Seq<char>> {
    if c {
        s.push(k)
    } else {
        s
    }
}

/// `s`, or the single fallback key `k` when `s` is empty.
pub open spec fn or_fallback(s: Seq<Seq<char>>, k: Seq<char>) -> Seq<Seq<char>> {
    if s.len() == 0 {
        seq![k]
    } else {
        s
    }
}

/// Whether the person's strongest motivation is `kind` with an intensity of
/// at least `min`.
pub open spec fn top_motivation_is(p: InsightProfile, kind: MotivationType, min: int) -> bool {
    p.top_motivation matches Some(m) && m.kind == kind && m.intensity >= min
}

/// The intensity of the strongest motivation (0 without one).
pub open spec fn top_intensity(p: InsightProfile) -> int {
    match p.top_motivation {
        Some(m) => m.intensity as int,
        None => 0,
    }
}

fn has_top_motivation(p: &InsightProfile, kind: MotivationType, min: u8) -> (r: bool)
    ensures
        r == top_motivation_is(*p, kind, min as int),
{
    match p.top_motivation {
        Some(m) => m.kind == kind && m.intensity >= min,
        None => false,
    }
}

fn push_key(v: &mut Vec<&'static str>, k: &'static str)
    ensures
        keys(final(v)@) == keys(old(v)@).push(k@),
{
    v.push(k);
    proof {
        assert(keys(v@) =~= keys(old(v)@).push(k@));
    }
}

/// The translation key of the label of a trigger.
pub open spec fn trigger_label_key(t: BehaviorTrigger) -> Seq<char> {
    match t {
        BehaviorTrigger::Stress => "strategy_stress_label"@,
        BehaviorTrigger::Conflict => "strategy_conflict_label"@,
        BehaviorTrigger::Success => "strategy_success_label"@,
        BehaviorTrigger::Uncertainty => "strategy_uncertainty_label"@,
        BehaviorTrigger::Recognition => "strategy_recognition_label"@,
        BehaviorTrigger::Threatened => "strategy_threat_label"@,
        BehaviorTrigger::Change => "strategy_change_label"@,
        BehaviorTrigger::Feedback => "strategy_feedback_label"@,
        BehaviorTrigger::Injustice => "strategy_injustice_label"@,
    }
}

/// The translation key of the label of a trigger ("Under stress", ...).
pub fn trigger_label(t: BehaviorTrigger) -> (r: &'static str)
    ensures
        r@ == trigger_label_key(t),
{
    match t {
        BehaviorTrigger::Stress => "strategy_stress_label",
        BehaviorTrigger::Conflict => "strategy_conflict_label",
        BehaviorTrigger::Success => "strategy_success_label",
        BehaviorTrigger::Uncertainty => "strategy_uncertainty_label",
        BehaviorTrigger::Recognition => "strategy_recognition_label",
        BehaviorTrigger::Threatened => "strategy_threat_label",
        BehaviorTrigger::Change => "strategy_change_label",
        BehaviorTrigger::Feedback => "strategy_feedback_label",
        BehaviorTrigger::Injustice => "strategy_injustice_label",
    }
}

/// The advice keys for a person facing `t`.
pub open spec fn strategy_keys(p: InsightProfile, t: BehaviorTrigger) -> Seq<Seq<char>> {
    match t {
        BehaviorTrigger::Stress => stress_keys(p),
        BehaviorTrigger::Conflict => conflict_keys(p),
        BehaviorTrigger::Success => success_keys(p),
        BehaviorTrigger::Uncertainty => uncertainty_keys(p),
        BehaviorTrigger::Recognition => recognition_keys(p),
        BehaviorTrigger::Threatened => threatened_keys(p),
        BehaviorTrigger::Change => change_keys(p),
        BehaviorTrigger::Feedback => feedback_keys(p),
        BehaviorTrigger::Injustice => injustice_keys(p),
    }
}

/// The words the headline of an insight is written with, in the reader's
/// language: the headline template (with the placeholders `{name}`,
/// `{trigger}` and `{advice}`), the person's name, role and context, and the
/// table of texts by translation key.
pub struct HeadlineWords {
    pub template: String,
    pub name: String,
    pub role: String,
    pub context: String,
    pub texts: Vec<(String, String)>,
}

/// The text of translation `key` in `table`: that of its first entry with
/// that key, or the key itself when the table has none.
pub open spec fn text_of(table: Seq<(String, String)>, key: Seq<char>) -> Seq<char>
    decreases table.len(),
{
    if table.len() == 0 {
        key
    } else if table[0].0@ == key {
        table[0].1@
    } else {
        text_of(table.drop_first(), key)
    }
}

/// The text of translation `key` in `table` (the key itself when missing).
pub fn lookup_text(table: &Vec<(String, String)>, key: &str) -> (r: String)
    ensures
        r@ == text_of(table@, key@),
{
    let mut i: usize = 0;
    assert(table@.subrange(0, table@.len() as int) =~= table@);
    while i < table.len()
        invariant
            i <= table@.len(),
            text_of(table@, key@) == text_of(table@.subrange(i as int, table@.len() as int), key@),
        decreases table@.len() - i,
    {
        let ghost rest = table@.subrange(i as int, table@.len() as int);
        assert(rest.drop_first() =~= table@.subrange(i + 1, table@.len() as int));
        assert(rest[0] == table@[i as int]);
        if text_eq(table[i].0.as_str(), key) {
            return table[i].1.clone();
        }
        i = i + 1;
    }
    assert(table@.subrange(i as int, table@.len() as int) =~= Seq::<(String, String)>::empty());
    key.to_string()
}

/// The advice for a person facing a trigger: the headline (the person's
/// situation with the first piece of advice), the label of the trigger, the
/// advice keys in order of priority, and whether there is more than the
/// headline to show.
pub struct InsightOutput {
    pub top: String,
    pub trigger_label: &'static str,
    pub secondary: Vec<&'static str>,
    pub has_secondary: bool,
}

/// The headline of the advice for a person facing `t`, written with `w`.
pub open spec fn headline_text(p: InsightProfile, t: BehaviorTrigger, w: HeadlineWords) -> Seq<char> {
    top_rec_text(
        w.template@,
        w.name@,
        w.role@,
        w.context@,
        text_of(w.texts@, trigger_label_key(t)),
        seq![text_of(w.texts@, strategy_keys(p, t)[0])],
    )
}

/// The advice for a person facing `t`, with its headline written with `w`.
pub fn generate_insight(p: &InsightProfile, t: BehaviorTrigger, w: &HeadlineWords) -> (r: InsightOutput)
    ensures
        r.trigger_label@ == trigger_label_key(t),
        keys(r.secondary@) == strategy_keys(*p, t),
        r.has_secondary == (r.secondary@.len() > 1),
        r.top@ == headline_text(*p, t, *w),
{
    let all = match t {
        BehaviorTrigger::Stress => stress_strategy(p),
        BehaviorTrigger::Conflict => conflict_strategy(p),
        BehaviorTrigger::Success => success_strategy(p),
        BehaviorTrigger::Uncertainty => uncertainty_strategy(p),
        BehaviorTrigger::Recognition => recognition_strategy(p),
        BehaviorTrigger::Threatened => threatened_strategy(p),
        BehaviorTrigger::Change => change_strategy(p),
        BehaviorTrigger::Feedback => feedback_strategy(p),
        BehaviorTrigger::Injustice => injustice_strategy(p),
    };
    proof {
        lemma_advice_never_empty(*p, t);
        assert(keys(all@)[0] == all@[0]@);
    }
    let has_secondary = all.len() > 1;
    let label = trigger_label(t);
    let label_text = lookup_text(&w.texts, label);
    let first = lookup_text(&w.texts, all[0]);
    let mut recs: Vec<String> = Vec::new();
    recs.push(first);
    let top = build_top_rec(
        w.template.as_str(),
        w.name.as_str(),
        w.role.as_str(),
        w.context.as_str(),
        label_text.as_str(),
        &recs,
    );
    proof {
        assert(recs@.map_values(|x: String| x@) =~= seq![text_of(w.texts@, strategy_keys(*p, t)[0])]);
    }
    InsightOutput { top, trigger_label: label, secondary: all, has_secondary }
}


/// The parenthesised role and context that follow a name: empty when both
/// are empty, otherwise the non-empty ones joined by ", ".
pub open spec fn role_suffix_text(role: Seq<char>, context: Seq<char>) -> Seq<char> {
    if role.len() == 0 && context.len() == 0 {
        Seq::empty()
    } else if context.len() == 0 {
        " ("@ + role + ")"@
    } else if role.len() == 0 {
        " ("@ + context + ")"@
    } else {
        " ("@ + role + ", "@ + context + ")"@
    }
}

/// The parenthesised role and context that follow a person's name.
pub fn role_suffix(role: &str, context: &str) -> (r: String)
    ensures
        r@ == role_suffix_text(role@, context@),
{
    if role.is_empty() && context.is_empty() {
        return String::new();
    }
    let mut s = String::from_str(" (");
    if !role.is_empty() {
        s.append(role);
        if !context.is_empty() {
            s.append(", ");
        }
    }
    if !context.is_empty() {
        s.append(context);
    }
    s.append(")");
    proof {
        if context@.len() == 0 {
            assert(s@ =~= " ("@ + role@ + ")"@);
        } else if role@.len() == 0 {
            assert(s@ =~= " ("@ + context@ + ")"@);
        } else {
            assert(s@ =~= " ("@ + role@ + ", "@ + context@ + ")"@);
        }
    }
    s
}

/// The headline advice: `template` with "{name}" replaced by the name
/// followed by the role and context, "{trigger}" by the lower-cased trigger
/// label and "{advice}" by the first advice (empty without advice).
pub open spec fn top_rec_text(
    template: Seq<char>,
    name: Seq<char>,
    role: Seq<char>,
    context: Seq<char>,
    label: Seq<char>,
    advice: Seq<Seq<char>>,
) -> Seq<char> {
    replaced(
        replaced(
            replaced(template, "{name}"@, name + role_suffix_text(role, context)),
            "{trigger}"@,
            lowercase(label),
        ),
        "{advice}"@,
        if advice.len() > 0 {
            advice[0]
        } else {
            Seq::empty()
        },
    )
}

/// Fills the localised headline `template` for a person (`name`, `role`,
/// `context`) facing the trigger labelled `label`, with the first of `recs`.
pub fn build_top_rec(
    template: &str,
    name: &str,
    role: &str,
    context: &str,
    label: &str,
    recs: &Vec<String>,
) -> (r: String)
    ensures
        r@ == top_rec_text(
            template@,
            name@,
            role@,
            context@,
            label@,
            recs@.map_values(|x: String| x@),
        ),
{
    let mut who = String::from_str(name);
    let suffix = role_suffix(role, context);
    who.append(suffix.as_str());
    let lower = to_lowercase_text(label);
    let empty = String::new();
    let base: &String = if recs.len() > 0 {
        &recs[0]
    } else {
        &empty
    };
    proof {
        reveal_strlit("{name}");
        reveal_strlit("{trigger}");
        reveal_strlit("{advice}");
    }
    let step1 = replace_text(template, "{name}", who.as_str());
    let step2 = replace_text(step1.as_str(), "{trigger}", lower.as_str());
    replace_text(step2.as_str(), "{advice}", base.as_str())
}

/// Every trigger yields at least one piece of advice.
pub proof fn lemma_advice_never_empty(p: InsightProfile, t: BehaviorTrigger)
    ensures
        strategy_keys(p, t).len() >= 1,
{
}

/// The advice keys for a person under stress, in order of priority.
pub open spec fn stress_keys(p: InsightProfile) -> Seq<Seq<char>> {
    let s = Seq::<Seq<char>>::empty();
    let s = add_if(s, at_least(p.ocean.neuroticism, 7), "strategy_stress_high_n"@);
    let s = add_if(s, at_least(p.ocean.extraversion, 7), "strategy_stress_high_e"@);
    let s = add_if(s, at_most(p.ocean.extraversion, 4), "strategy_stress_low_e"@);
    let s = add_if(s, at_least(p.ocean.conscientiousness, 7), "strategy_stress_high_c"@);
    let s = add_if(s, at_most(p.ocean.agreeableness, 4), "strategy_stress_low_a"@);
    let s = add_if(s, at_most(p.ocean.conscientiousness, 4), "strategy_stress_low_c"@);
    let s = add_if(s, at_least(p.ocean.openness, 7), "strategy_stress_high_o"@);
    let s = if top_motivation_is(p, MotivationType::Power, 0) {
        s.push(if p.gaps.ambition_lazy { "strategy_stress_ambition_rhetoric"@ } else { "strategy_stress_power"@ })
    } else {
        s
    };
    let s = if top_motivation_is(p, MotivationType::Security, 0) {
        s.push(if p.gaps.security_gullible { "strategy_stress_security_rhetoric"@ } else { "strategy_stress_security"@ })
    } else {
        s
    };
    or_fallback(s, "strategy_stress_fallback"@)
}

/// Advice for handling the person under stress: one translation key per
/// matching trait, in order of priority, or the fallback key when none
/// matches.
pub fn stress_strategy(p: &InsightProfile) -> (r: Vec<&'static str>)
    ensures
        keys(r@) == stress_keys(*p),
{
    let mut s: Vec<&'static str> = Vec::new();
    let ghost mut g = Seq::<Seq<char>>::empty();
    assert(keys(s@) =~= g);
    if is_at_least(p.ocean.neuroticism, 7) {
        push_key(&mut s, "strategy_stress_high_n");
    }
    proof {
        g = add_if(g, at_least(p.ocean.neuroticism, 7), "strategy_stress_high_n"@);
    }
    assert(keys(s@) == g);
    if is_at_least(p.ocean.extraversion, 7) {
        push_key(&mut s, "strategy_stress_high_e");
    }
    proof {
        g = add_if(g, at_least(p.ocean.extraversion, 7), "strategy_stress_high_e"@);
    }
    assert(keys(s@) == g);
    if is_at_most(p.ocean.extraversion, 4) {
        push_key(&mut s, "strategy_stress_low_e");
    }
    proof {
        g = add_if(g, at_most(p.ocean.extraversion, 4), "strategy_stress_low_e"@);
    }
    assert(keys(s@) == g);
    if is_at_least(p.ocean.conscientiousness, 7) {
        push_key(&mut s, "strategy_stress_high_c");
    }
    proof {
        g = add_if(g, at_least(p.ocean.conscientiousness, 7), "strategy_stress_high_c"@);
    }
    assert(keys(s@) == g);
    if is_at_most(p.ocean.agreeableness, 4) {
        push_key(&mut s, "strategy_stress_low_a");
    }
    proof {
        g = add_if(g, at_most(p.ocean.agreeableness, 4), "strategy_stress_low_a"@);
    }
    assert(keys(s@) == g);
    if is_at_most(p.ocean.conscientiousness, 4) {
        push_key(&mut s, "strategy_stress_low_c");
    }
    proof {
        g = add_if(g, at_most(p.ocean.conscientiousness, 4), "strategy_stress_low_c"@);
    }
    assert(keys(s@) == g);
    if is_at_least(p.ocean.openness, 7) {
        push_key(&mut s, "strategy_stress_high_o");
    }
    proof {
        g = add_if(g, at_least(p.ocean.openness, 7), "strategy_stress_high_o"@);
    }
    assert(keys(s@) == g);
    proof {
        g = if top_motivation_is(*p, MotivationType::Power, 0) {
            g.push(if p.gaps.ambition_lazy { "strategy_stress_ambition_rhetoric"@ } else { "strategy_stress_power"@ })
        } else { g };
    }
    if has_top_motivation(p, MotivationType::Power, 0) {
        if p.gaps.ambition_lazy {
            push_key(&mut s, "strategy_stress_ambition_rhetoric");
        } else {
            push_key(&mut s, "strategy_stress_power");
        }
    }
    assert(keys(s@) == g);
    proof {
        g = if top_motivation_is(*p, MotivationType::Security, 0) {
            g.push(if p.gaps.security_gullible { "strategy_stress_security_rhetoric"@ } else { "strategy_stress_security"@ })
        } else { g };
    }
    if has_top_motivation(p, MotivationType::Security, 0) {
        if p.gaps.security_gullible {
            push_key(&mut s, "strategy_stress_security_rhetoric");
        } else {
            push_key(&mut s, "strategy_stress_security");
        }
    }
    assert(keys(s@) == g);
    if s.len() == 0 {
        push_key(&mut s, "strategy_stress_fallback");
    }
    s
}

/// The advice keys for a person in conflict, in order of priority.
pub open spec fn conflict_keys(p: InsightProfile) -> Seq<Seq<char>> {
    let s = Seq::<Seq<char>>::empty();
    let s = add_if(s, at_most(p.ocean.agreeableness, 4), "strategy_conflict_low_a"@);
    let s = add_if(s, at_least(p.ocean.agreeableness, 7), "strategy_conflict_high_a"@);
    let s = add_if(s, at_least(p.ocean.neuroticism, 7), "strategy_conflict_high_n"@);
    let s = add_if(s, at_least(p.ocean.extraversion, 7), "strategy_conflict_high_e"@);
    let s = add_if(s, at_least(p.ocean.conscientiousness, 7), "strategy_conflict_high_c"@);
    let s = add_if(s, at_most(p.ocean.extraversion, 4), "strategy_conflict_low_e"@);
    let s = add_if(s, p.gaps.affiliation_cold, "strategy_conflict_affiliation_rhetoric"@);
    let s = add_if(s, p.gaps.affiliation_distrustful, "strategy_conflict_affiliation_trust_rhetoric"@);
    or_fallback(s, "strategy_conflict_fallback"@)
}

/// Advice for handling the person in conflict: one translation key per
/// matching trait, in order of priority, or the fallback key when none
/// matches.
pub fn conflict_strategy(p: &InsightProfile) -> (r: Vec<&'static str>)
    ensures
        keys(r@) == conflict_keys(*p),
{
    let mut s: Vec<&'static str> = Vec::new();
    let ghost mut g = Seq::<Seq<char>>::empty();
    assert(keys(s@) =~= g);
    if is_at_most(p.ocean.agreeableness, 4) {
        push_key(&mut s, "strategy_conflict_low_a");
    }
    proof {
        g = add_if(g, at_most(p.ocean.agreeableness, 4), "strategy_conflict_low_a"@);
    }
    assert(keys(s@) == g);
    if is_at_least(p.ocean.agreeableness, 7) {
        push_key(&mut s, "strategy_conflict_high_a");
    }
    proof {
        g = add_if(g, at_least(p.ocean.agreeableness, 7), "strategy_conflict_high_a"@);
    }
    assert(keys(s@) == g);
    if is_at_least(p.ocean.neuroticism, 7) {
        push_key(&mut s, "strategy_conflict_high_n");
    }
    proof {
        g = add_if(g, at_least(p.ocean.neuroticism, 7), "strategy_conflict_high_n"@);
    }
    assert(keys(s@) == g);
    if is_at_least(p.ocean.extraversion, 7) {
        push_key(&mut s, "strategy_conflict_high_e");
    }
    proof {
        g = add_if(g, at_least(p.ocean.extraversion, 7), "strategy_conflict_high_e"@);
    }
    assert(keys(s@) == g);
    if is_at_least(p.ocean.conscientiousness, 7) {
        push_key(&mut s, "strategy_conflict_high_c");
    }
    proof {
        g = add_if(g, at_least(p.ocean.conscientiousness, 7), "strategy_conflict_high_c"@);
    }
    assert(keys(s@) == g);
    if is_at_most(p.ocean.extraversion, 4) {
        push_key(&mut s, "strategy_conflict_low_e");
    }
    proof {
        g = add_if(g, at_most(p.ocean.extraversion, 4), "strategy_conflict_low_e"@);
    }
    assert(keys(s@) == g);
    if p.gaps.affiliation_cold {
        push_key(&mut s, "strategy_conflict_affiliation_rhetoric");
    }
    proof {
        g = add_if(g, p.gaps.affiliation_cold, "strategy_conflict_affiliation_rhetoric"@);
    }
    assert(keys(s@) == g);
    if p.gaps.affiliation_distrustful {
        push_key(&mut s, "strategy_conflict_affiliation_trust_rhetoric");
    }
    proof {
        g = add_if(g, p.gaps.affiliation_distrustful, "strategy_conflict_affiliation_trust_rhetoric"@);
    }
    assert(keys(s@) == g);
    if s.len() == 0 {
        push_key(&mut s, "strategy_conflict_fallback");
    }
    s
}

/// The advice keys for a person in success, in order of priority.
pub open spec fn success_keys(p: InsightProfile) -> Seq<Seq<char>> {
    let s = Seq::<Seq<char>>::empty();
    let s = add_if(s, at_least(p.ocean.openness, 7), "strategy_success_high_o"@);
    let s = add_if(s, at_least(p.ocean.conscientiousness, 7), "strategy_success_high_c"@);
    let s = add_if(s, at_most(p.ocean.extraversion, 4), "strategy_success_low_e"@);
    let s = add_if(s, at_least(p.ocean.agreeableness, 7), "strategy_success_high_a"@);
    let s = if top_motivation_is(p, MotivationType::Recognition, 7) {
        s.push(if p.gaps.ambition_lazy { "strategy_success_ambition_rhetoric"@ } else { "strategy_success_recognition"@ })
    } else {
        s
    };
    let s = if top_motivation_is(p, MotivationType::Power, 7) {
        s.push(if p.gaps.ambition_lazy { "strategy_success_ambition_rhetoric"@ } else { "strategy_success_power"@ })
    } else {
        s
    };
    or_fallback(s, "strategy_success_fallback"@)
}

/// Advice for handling the person in success: one translation key per
/// matching trait, in order of priority, or the fallback key when none
/// matches.
pub fn success_strategy(p: &InsightProfile) -> (r: Vec<&'static str>)
    ensures
        keys(r@) == success_keys(*p),
{
    let mut s: Vec<&'static str> = Vec::new();
    let ghost mut g = Seq::<Seq<char>>::empty();
    assert(keys(s@) =~= g);
    if is_at_least(p.ocean.openness, 7) {
        push_key(&mut s, "strategy_success_high_o");
    }
    proof {
        g = add_if(g, at_least(p.ocean.openness, 7), "strategy_success_high_o"@);
    }
    assert(keys(s@) == g);
    if is_at_least(p.ocean.conscientiousness, 7) {
        push_key(&mut s, "strategy_success_high_c");
    }
    proof {
        g = add_if(g, at_least(p.ocean.conscientiousness, 7), "strategy_success_high_c"@);
    }
    assert(keys(s@) == g);
    if is_at_most(p.ocean.extraversion, 4) {
        push_key(&mut s, "strategy_success_low_e");
    }
    proof {
        g = add_if(g, at_most(p.ocean.extraversion, 4), "strategy_success_low_e"@);
    }
    assert(keys(s@) == g);
    if is_at_least(p.ocean.agreeableness, 7) {
        push_key(&mut s, "strategy_success_high_a");
    }
    proof {
        g = add_if(g, at_least(p.ocean.agreeableness, 7), "strategy_success_high_a"@);
    }
    assert(keys(s@) == g);
    proof {
        g = if top_motivation_is(*p, MotivationType::Recognition, 7) {
            g.push(if p.gaps.ambition_lazy { "strategy_success_ambition_rhetoric"@ } else { "strategy_success_recognition"@ })
        } else { g };
    }
    if has_top_motivation(p, MotivationType::Recognition, 7) {
        if p.gaps.ambition_lazy {
            push_key(&mut s, "strategy_success_ambition_rhetoric");
        } else {
            push_key(&mut s, "strategy_success_recognition");
        }
    }
    assert(keys(s@) == g);
    proof {
        g = if top_motivation_is(*p, MotivationType::Power, 7) {
            g.push(if p.gaps.ambition_lazy { "strategy_success_ambition_rhetoric"@ } else { "strategy_success_power"@ })
        } else { g };
    }
    if has_top_motivation(p, MotivationType::Power, 7) {
        if p.gaps.ambition_lazy {
            push_key(&mut s, "strategy_success_ambition_rhetoric");
        } else {
            push_key(&mut s, "strategy_success_power");
        }
    }
    assert(keys(s@) == g);
    if s.len() == 0 {
        push_key(&mut s, "strategy_success_fallback");
    }
    s
}

/// The advice keys for a person in uncertainty, in order of priority.
pub open spec fn uncertainty_keys(p: InsightProfile) -> Seq<Seq<char>> {
    let s = Seq::<Seq<char>>::empty();
    let s = add_if(s, at_least(p.ocean.neuroticism, 7), "strategy_uncertainty_high_n"@);
    let s = add_if(s, at_most(p.ocean.neuroticism, 3), "strategy_uncertainty_low_n"@);
    let s = add_if(s, at_least(p.ocean.openness, 7), "strategy_uncertainty_high_o"@);
    let s = add_if(s, at_most(p.ocean.openness, 4), "strategy_uncertainty_low_o"@);
    let s = add_if(s, at_least(p.ocean.conscientiousness, 7), "strategy_uncertainty_high_c"@);
    let s = add_if(s, at_least(p.ocean.extraversion, 7), "strategy_uncertainty_high_e"@);
    or_fallback(s, "strategy_uncertainty_fallback"@)
}

/// Advice for handling the person in uncertainty: one translation key per
/// matching trait, in order of priority, or the fallback key when none
/// matches.
pub fn uncertainty_strategy(p: &InsightProfile) -> (r: Vec<&'static str>)
    ensures
        keys(r@) == uncertainty_keys(*p),
{
    let mut s: Vec<&'static str> = Vec::new();
    let ghost mut g = Seq::<Seq<char>>::empty();
    assert(keys(s@) =~= g);
    if is_at_least(p.ocean.neuroticism, 7) {
        push_key(&mut s, "strategy_uncertainty_high_n");
    }
    proof {
        g = add_if(g, at_least(p.ocean.neuroticism, 7), "strategy_uncertainty_high_n"@);
    }
    assert(keys(s@) == g);
    if is_at_most(p.ocean.neuroticism, 3) {
        push_key(&mut s, "strategy_uncertainty_low_n");
    }
    proof {
        g = add_if(g, at_most(p.ocean.neuroticism, 3), "strategy_uncertainty_low_n"@);
    }
    assert(keys(s@) == g);
    if is_at_least(p.ocean.openness, 7) {
        push_key(&mut s, "strategy_uncertainty_high_o");
    }
    proof {
        g = add_if(g, at_least(p.ocean.openness, 7), "strategy_uncertainty_high_o"@);
    }
    assert(keys(s@) == g);
    if is_at_most(p.ocean.openness, 4) {
        push_key(&mut s, "strategy_uncertainty_low_o");
    }
    proof {
        g = add_if(g, at_most(p.ocean.openness, 4), "strategy_uncertainty_low_o"@);
    }
    assert(keys(s@) == g);
    if is_at_least(p.ocean.conscientiousness, 7) {
        push_key(&mut s, "strategy_uncertainty_high_c");
    }
    proof {
        g = add_if(g, at_least(p.ocean.conscientiousness, 7), "strategy_uncertainty_high_c"@);
    }
    assert(keys(s@) == g);
    if is_at_least(p.ocean.extraversion, 7) {
        push_key(&mut s, "strategy_uncertainty_high_e");
    }
    proof {
        g = add_if(g, at_least(p.ocean.extraversion, 7), "strategy_uncertainty_high_e"@);
    }
    assert(keys(s@) == g);
    if s.len() == 0 {
        push_key(&mut s, "strategy_uncertainty_fallback");
    }
    s
}

/// The advice keys for a person when seeking recognition, in order of priority.
pub open spec fn recognition_keys(p: InsightProfile) -> Seq<Seq<char>> {
    let s = Seq::<Seq<char>>::empty();
    let s = if top_motivation_is(p, MotivationType::Recognition, 0) {
        s.push(
            if top_intensity(p) >= 8 {
                "strategy_recognition_high"@
            } else if top_intensity(p) >= 5 {
                "strategy_recognition_mid"@
            } else {
                "strategy_recognition_low"@
            },
        )
    } else {
        s
    };
    let s = add_if(s, at_least(p.ocean.extraversion, 7), "strategy_recognition_high_e"@);
    let s = add_if(s, at_most(p.ocean.extraversion, 4), "strategy_recognition_low_e"@);
    or_fallback(s, "strategy_recognition_fallback"@)
}

/// Advice for handling the person when seeking recognition: one translation key per
/// matching trait, in order of priority, or the fallback key when none
/// matches.
pub fn recognition_strategy(p: &InsightProfile) -> (r: Vec<&'static str>)
    ensures
        keys(r@) == recognition_keys(*p),
{
    let mut s: Vec<&'static str> = Vec::new();
    let ghost mut g = Seq::<Seq<char>>::empty();
    assert(keys(s@) =~= g);
    if let Some(m) = p.top_motivation {
        if m.kind == MotivationType::Recognition {
            if m.intensity >= 8 {
                push_key(&mut s, "strategy_recognition_high");
            } else if m.intensity >= 5 {
                push_key(&mut s, "strategy_recognition_mid");
            } else {
                push_key(&mut s, "strategy_recognition_low");
            }
        }
    }
    proof {
        g = if top_motivation_is(*p, MotivationType::Recognition, 0) {
            g.push(
                if top_intensity(*p) >= 8 {
                    "strategy_recognition_high"@
                } else if top_intensity(*p) >= 5 {
                    "strategy_recognition_mid"@
                } else {
                    "strategy_recognition_low"@
                },
            )
        } else {
            g
        };
    }
    assert(keys(s@) == g);
    if is_at_least(p.ocean.extraversion, 7) {
        push_key(&mut s, "strategy_recognition_high_e");
    }
    proof {
        g = add_if(g, at_least(p.ocean.extraversion, 7), "strategy_recognition_high_e"@);
    }
    assert(keys(s@) == g);
    if is_at_most(p.ocean.extraversion, 4) {
        push_key(&mut s, "strategy_recognition_low_e");
    }
    proof {
        g = add_if(g, at_most(p.ocean.extraversion, 4), "strategy_recognition_low_e"@);
    }
    assert(keys(s@) == g);
    if s.len() == 0 {
        push_key(&mut s, "strategy_recognition_fallback");
    }
    s
}

/// The advice keys for a person when feeling threatened, in order of priority.
pub open spec fn threatened_keys(p: InsightProfile) -> Seq<Seq<char>> {
    let s = Seq::<Seq<char>>::empty();
    let s = add_if(s, at_most(p.ocean.agreeableness, 4), "strategy_threat_low_a"@);
    let s = add_if(s, at_least(p.ocean.agreeableness, 7), "strategy_threat_high_a"@);
    let s = add_if(s, at_least(p.ocean.neuroticism, 7), "strategy_threat_high_n"@);
    let s = add_if(s, top_motivation_is(p, MotivationType::Power, 7), "strategy_threat_power"@);
    or_fallback(s, "strategy_threat_fallback"@)
}

/// Advice for handling the person when feeling threatened: one translation key per
/// matching trait, in order of priority, or the fallback key when none
/// matches.
pub fn threatened_strategy(p: &InsightProfile) -> (r: Vec<&'static str>)
    ensures
        keys(r@) == threatened_keys(*p),
{
    let mut s: Vec<&'static str> = Vec::new();
    let ghost mut g = Seq::<Seq<char>>::empty();
    assert(keys(s@) =~= g);
    if is_at_most(p.ocean.agreeableness, 4) {
        push_key(&mut s, "strategy_threat_low_a");
    }
    proof {
        g = add_if(g, at_most(p.ocean.agreeableness, 4), "strategy_threat_low_a"@);
    }
    assert(keys(s@) == g);
    if is_at_least(p.ocean.agreeableness, 7) {
        push_key(&mut s, "strategy_threat_high_a");
    }
    proof {
        g = add_if(g, at_least(p.ocean.agreeableness, 7), "strategy_threat_high_a"@);
    }
    assert(keys(s@) == g);
    if is_at_least(p.ocean.neuroticism, 7) {
        push_key(&mut s, "strategy_threat_high_n");
    }
    proof {
        g = add_if(g, at_least(p.ocean.neuroticism, 7), "strategy_threat_high_n"@);
    }
    assert(keys(s@) == g);
    if has_top_motivation(p, MotivationType::Power, 7) {
        push_key(&mut s, "strategy_threat_power");
    }
    proof {
        g = add_if(g, top_motivation_is(*p, MotivationType::Power, 7), "strategy_threat_power"@);
    }
    assert(keys(s@) == g);
    if s.len() == 0 {
        push_key(&mut s, "strategy_threat_fallback");
    }
    s
}

/// The advice keys for a person when facing change, in order of priority.
pub open spec fn change_keys(p: InsightProfile) -> Seq<Seq<char>> {
    let s = Seq::<Seq<char>>::empty();
    let s = add_if(s, at_least(p.ocean.neuroticism, 7), "strategy_change_high_n"@);
    let s = add_if(s, at_most(p.ocean.neuroticism, 3), "strategy_change_low_n"@);
    let s = add_if(s, at_least(p.ocean.conscientiousness, 7), "strategy_change_high_c"@);
    let s = add_if(s, at_most(p.ocean.extraversion, 4), "strategy_change_low_e"@);
    let s = add_if(s, at_least(p.ocean.openness, 7), "strategy_change_high_o"@);
    let s = add_if(s, p.gaps.discipline_lazy, "strategy_change_discipline_rhetoric"@);
    or_fallback(s, "strategy_change_fallback"@)
}

/// Advice for handling the person when facing change: one translation key per
/// matching trait, in order of priority, or the fallback key when none
/// matches.
pub fn change_strategy(p: &InsightProfile) -> (r: Vec<&'static str>)
    ensures
        keys(r@) == change_keys(*p),
{
    let mut s: Vec<&'static str> = Vec::new();
    let ghost mut g = Seq::<Seq<char>>::empty();
    assert(keys(s@) =~= g);
    if is_at_least(p.ocean.neuroticism, 7) {
        push_key(&mut s, "strategy_change_high_n");
    }
    proof {
        g = add_if(g, at_least(p.ocean.neuroticism, 7), "strategy_change_high_n"@);
    }
    assert(keys(s@) == g);
    if is_at_most(p.ocean.neuroticism, 3) {
        push_key(&mut s, "strategy_change_low_n");
    }
    proof {
        g = add_if(g, at_most(p.ocean.neuroticism, 3), "strategy_change_low_n"@);
    }
    assert(keys(s@) == g);
    if is_at_least(p.ocean.conscientiousness, 7) {
        push_key(&mut s, "strategy_change_high_c");
    }
    proof {
        g = add_if(g, at_least(p.ocean.conscientiousness, 7), "strategy_change_high_c"@);
    }
    assert(keys(s@) == g);
    if is_at_most(p.ocean.extraversion, 4) {
        push_key(&mut s, "strategy_change_low_e");
    }
    proof {
        g = add_if(g, at_most(p.ocean.extraversion, 4), "strategy_change_low_e"@);
    }
    assert(keys(s@) == g);
    if is_at_least(p.ocean.openness, 7) {
        push_key(&mut s, "strategy_change_high_o");
    }
    proof {
        g = add_if(g, at_least(p.ocean.openness, 7), "strategy_change_high_o"@);
    }
    assert(keys(s@) == g);
    if p.gaps.discipline_lazy {
        push_key(&mut s, "strategy_change_discipline_rhetoric");
    }
    proof {
        g = add_if(g, p.gaps.discipline_lazy, "strategy_change_discipline_rhetoric"@);
    }
    assert(keys(s@) == g);
    if s.len() == 0 {
        push_key(&mut s, "strategy_change_fallback");
    }
    s
}

/// The advice keys for a person when receiving feedback, in order of priority.
pub open spec fn feedback_keys(p: InsightProfile) -> Seq<Seq<char>> {
    let s = Seq::<Seq<char>>::empty();
    let s = add_if(s, at_least(p.ocean.neuroticism, 7), "strategy_feedback_high_n"@);
    let s = add_if(s, at_most(p.ocean.neuroticism, 3), "strategy_feedback_low_n"@);
    let s = add_if(s, at_most(p.ocean.agreeableness, 4), "strategy_feedback_low_a"@);
    let s = add_if(s, at_most(p.ocean.extraversion, 4), "strategy_feedback_low_e"@);
    let s = add_if(s, at_least(p.ocean.conscientiousness, 7), "strategy_feedback_high_c"@);
    let s = add_if(s, p.gaps.helping_selfish, "strategy_feedback_helping_rhetoric"@);
    let s = add_if(s, p.gaps.warmth_blunt, "strategy_feedback_warmth_rhetoric"@);
    or_fallback(s, "strategy_feedback_fallback"@)
}

/// Advice for handling the person when receiving feedback: one translation key per
/// matching trait, in order of priority, or the fallback key when none
/// matches.
pub fn feedback_strategy(p: &InsightProfile) -> (r: Vec<&'static str>)
    ensures
        keys(r@) == feedback_keys(*p),
{
    let mut s: Vec<&'static str> = Vec::new();
    let ghost mut g = Seq::<Seq<char>>::empty();
    assert(keys(s@) =~= g);
    if is_at_least(p.ocean.neuroticism, 7) {
        push_key(&mut s, "strategy_feedback_high_n");
    }
    proof {
        g = add_if(g, at_least(p.ocean.neuroticism, 7), "strategy_feedback_high_n"@);
    }
    assert(keys(s@) == g);
    if is_at_most(p.ocean.neuroticism, 3) {
        push_key(&mut s, "strategy_feedback_low_n");
    }
    proof {
        g = add_if(g, at_most(p.ocean.neuroticism, 3), "strategy_feedback_low_n"@);
    }
    assert(keys(s@) == g);
    if is_at_most(p.ocean.agreeableness, 4) {
        push_key(&mut s, "strategy_feedback_low_a");
    }
    proof {
        g = add_if(g, at_most(p.ocean.agreeableness, 4), "strategy_feedback_low_a"@);
    }
    assert(keys(s@) == g);
    if is_at_most(p.ocean.extraversion, 4) {
        push_key(&mut s, "strategy_feedback_low_e");
    }
    proof {
        g = add_if(g, at_most(p.ocean.extraversion, 4), "strategy_feedback_low_e"@);
    }
    assert(keys(s@) == g);
    if is_at_least(p.ocean.conscientiousness, 7) {
        push_key(&mut s, "strategy_feedback_high_c");
    }
    proof {
        g = add_if(g, at_least(p.ocean.conscientiousness, 7), "strategy_feedback_high_c"@);
    }
    assert(keys(s@) == g);
    if p.gaps.helping_selfish {
        push_key(&mut s, "strategy_feedback_helping_rhetoric");
    }
    proof {
        g = add_if(g, p.gaps.helping_selfish, "strategy_feedback_helping_rhetoric"@);
    }
    assert(keys(s@) == g);
    if p.gaps.warmth_blunt {
        push_key(&mut s, "strategy_feedback_warmth_rhetoric");
    }
    proof {
        g = add_if(g, p.gaps.warmth_blunt, "strategy_feedback_warmth_rhetoric"@);
    }
    assert(keys(s@) == g);
    if s.len() == 0 {
        push_key(&mut s, "strategy_feedback_fallback");
    }
    s
}

/// The advice keys for a person when facing injustice, in order of priority.
pub open spec fn injustice_keys(p: InsightProfile) -> Seq<Seq<char>> {
    let s = Seq::<Seq<char>>::empty();
    let s = add_if(s, at_least(p.ocean.agreeableness, 7), "strategy_injustice_high_a"@);
    let s = add_if(s, at_least(p.ocean.neuroticism, 7), "strategy_injustice_high_n"@);
    let s = if p.gaps.fairness_rhetoric {
        s.push("strategy_injustice_fairness_rhetoric"@)
    } else if top_motivation_is(p, MotivationType::Fairness, 6) {
        s.push("strategy_injustice_fairness"@)
    } else {
        s
    };
    let s = if top_motivation_is(p, MotivationType::Power, 7) {
        s.push(if p.gaps.ambition_lazy { "strategy_injustice_ambition_rhetoric"@ } else { "strategy_injustice_power"@ })
    } else {
        s
    };
    or_fallback(s, "strategy_injustice_fallback"@)
}

/// Advice for handling the person when facing injustice: one translation key per
/// matching trait, in order of priority, or the fallback key when none
/// matches.
pub fn injustice_strategy(p: &InsightProfile) -> (r: Vec<&'static str>)
    ensures
        keys(r@) == injustice_keys(*p),
{
    let mut s: Vec<&'static str> = Vec::new();
    let ghost mut g = Seq::<Seq<char>>::empty();
    assert(keys(s@) =~= g);
    if is_at_least(p.ocean.agreeableness, 7) {
        push_key(&mut s, "strategy_injustice_high_a");
    }
    proof {
        g = add_if(g, at_least(p.ocean.agreeableness, 7), "strategy_injustice_high_a"@);
    }
    assert(keys(s@) == g);
    if is_at_least(p.ocean.neuroticism, 7) {
        push_key(&mut s, "strategy_injustice_high_n");
    }
    proof {
        g = add_if(g, at_least(p.ocean.neuroticism, 7), "strategy_injustice_high_n"@);
    }
    assert(keys(s@) == g);
    if p.gaps.fairness_rhetoric {
        push_key(&mut s, "strategy_injustice_fairness_rhetoric");
    } else if has_top_motivation(p, MotivationType::Fairness, 6) {
        push_key(&mut s, "strategy_injustice_fairness");
    }
    proof {
        g = if p.gaps.fairness_rhetoric {
            g.push("strategy_injustice_fairness_rhetoric"@)
        } else if top_motivation_is(*p, MotivationType::Fairness, 6) {
            g.push("strategy_injustice_fairness"@)
        } else {
            g
        };
    }
    assert(keys(s@) == g);
    proof {
        g = if top_motivation_is(*p, MotivationType::Power, 7) {
            g.push(if p.gaps.ambition_lazy { "strategy_injustice_ambition_rhetoric"@ } else { "strategy_injustice_power"@ })
        } else { g };
    }
    if has_top_motivation(p, MotivationType::Power, 7) {
        if p.gaps.ambition_lazy {
            push_key(&mut s, "strategy_injustice_ambition_rhetoric");
        } else {
            push_key(&mut s, "strategy_injustice_power");
        }
    }
    assert(keys(s@) == g);
    if s.len() == 0 {
        push_key(&mut s, "strategy_injustice_fallback");
    }
    s
}

/// The number of the stress rules that hold of a person.
pub open spec fn stress_rules_holding(p: InsightProfile) -> int {
    (if at_least(p.ocean.neuroticism, 7) { 1int } else { 0 }) + (if at_least(p.ocean.extraversion, 7) {
        1int
    } else {
        0
    }) + (if at_most(p.ocean.extraversion, 4) { 1int } else { 0 }) + (if at_least(
        p.ocean.conscientiousness,
        7,
    ) {
        1int
    } else {
        0
    }) + (if at_most(p.ocean.agreeableness, 4) { 1int } else { 0 }) + (if at_most(
        p.ocean.conscientiousness,
        4,
    ) {
        1int
    } else {
        0
    }) + (if at_least(p.ocean.openness, 7) { 1int } else { 0 }) + (if top_motivation_is(
        p,
        MotivationType::Power,
        0,
    ) {
        1int
    } else {
        0
    }) + (if top_motivation_is(p, MotivationType::Security, 0) { 1int } else { 0 })
}

/// Under stress, the fallback is the whole advice exactly when no stress
/// rule holds; otherwise the fallback is absent and each rule that holds
/// adds exactly one piece of advice.
pub proof fn lemma_stress_fallback_iff_no_rule(p: InsightProfile)
    ensures
        stress_rules_holding(p) == 0 ==> stress_keys(p) == seq!["strategy_stress_fallback"@],
        stress_rules_holding(p) > 0 ==> !stress_keys(p).contains("strategy_stress_fallback"@),
        stress_rules_holding(p) > 0 ==> stress_keys(p).len() == stress_rules_holding(p),
{
    reveal_strlit("strategy_stress_high_n");
    reveal_strlit("strategy_stress_high_e");
    reveal_strlit("strategy_stress_low_e");
    reveal_strlit("strategy_stress_high_c");
    reveal_strlit("strategy_stress_low_a");
    reveal_strlit("strategy_stress_low_c");
    reveal_strlit("strategy_stress_high_o");
    reveal_strlit("strategy_stress_ambition_rhetoric");
    reveal_strlit("strategy_stress_power");
    reveal_strlit("strategy_stress_security_rhetoric");
    reveal_strlit("strategy_stress_security");
    reveal_strlit("strategy_stress_fallback");
    let f = "strategy_stress_fallback"@;
    let o = p.ocean;
    let s0 = Seq::<Seq<char>>::empty();
    let s1 = add_if(s0, at_least(o.neuroticism, 7), "strategy_stress_high_n"@);
    let s2 = add_if(s1, at_least(o.extraversion, 7), "strategy_stress_high_e"@);
    let s3 = add_if(s2, at_most(o.extraversion, 4), "strategy_stress_low_e"@);
    let s4 = add_if(s3, at_least(o.conscientiousness, 7), "strategy_stress_high_c"@);
    let s5 = add_if(s4, at_most(o.agreeableness, 4), "strategy_stress_low_a"@);
    let s6 = add_if(s5, at_most(o.conscientiousness, 4), "strategy_stress_low_c"@);
    let s7 = add_if(s6, at_least(o.openness, 7), "strategy_stress_high_o"@);
    let s8 = if top_motivation_is(p, MotivationType::Power, 0) {
        s7.push(if p.gaps.ambition_lazy { "strategy_stress_ambition_rhetoric"@ } else { "strategy_stress_power"@ })
    } else {
        s7
    };
    let s9 = if top_motivation_is(p, MotivationType::Security, 0) {
        s8.push(if p.gaps.security_gullible { "strategy_stress_security_rhetoric"@ } else { "strategy_stress_security"@ })
    } else {
        s8
    };
    assert(stress_keys(p) == or_fallback(s9, f));
    assert(s9.len() == stress_rules_holding(p));
    assert(f.len() == 24 && f[16] == 'f');
    assert("strategy_stress_security"@[16] == 's');
    assert("strategy_stress_high_n"@.len() == 22 && "strategy_stress_high_e"@.len() == 22);
    assert("strategy_stress_low_e"@.len() == 21 && "strategy_stress_high_c"@.len() == 22);
    assert("strategy_stress_low_a"@.len() == 21 && "strategy_stress_low_c"@.len() == 21);
    assert("strategy_stress_high_o"@.len() == 22 && "strategy_stress_power"@.len() == 21);
    assert("strategy_stress_ambition_rhetoric"@.len() == 33);
    assert("strategy_stress_security_rhetoric"@.len() == 33);
    assert forall|i: int| 0 <= i < s9.len() implies #[trigger] s9[i] != f by {
        assert(s9[i] == "strategy_stress_high_n"@ || s9[i] == "strategy_stress_high_e"@ || s9[i]
            == "strategy_stress_low_e"@ || s9[i] == "strategy_stress_high_c"@ || s9[i]
            == "strategy_stress_low_a"@ || s9[i] == "strategy_stress_low_c"@ || s9[i]
            == "strategy_stress_high_o"@ || s9[i] == "strategy_stress_ambition_rhetoric"@ || s9[i]
            == "strategy_stress_power"@ || s9[i] == "strategy_stress_security_rhetoric"@ || s9[i]
            == "strategy_stress_security"@);
    }
}

/// When recognition leads a person's motivations, the first piece of advice
/// follows its intensity: high from 8, middle from 5 to 7, low up to 4; the
/// high- and low-extraversion advice come exactly when extraversion is at
/// least 7 or at most 4; and the fallback is the whole advice exactly when
/// none of these applies.
pub proof fn lemma_recognition_thresholds(p: InsightProfile)
    ensures
        ({
            let r = recognition_keys(p);
            let lead = top_motivation_is(p, MotivationType::Recognition, 0);
            &&& lead && top_intensity(p) >= 8 ==> r[0] == "strategy_recognition_high"@
            &&& lead && 5 <= top_intensity(p) <= 7 ==> r[0] == "strategy_recognition_mid"@
            &&& lead && top_intensity(p) <= 4 ==> r[0] == "strategy_recognition_low"@
            &&& r.contains("strategy_recognition_high_e"@) == at_least(p.ocean.extraversion, 7)
            &&& r.contains("strategy_recognition_low_e"@) == at_most(p.ocean.extraversion, 4)
            &&& (r == seq!["strategy_recognition_fallback"@]) == (!lead && !at_least(p.ocean.extraversion, 7)
                && !at_most(p.ocean.extraversion, 4))
        }),
{
    reveal_strlit("strategy_recognition_high");
    reveal_strlit("strategy_recognition_mid");
    reveal_strlit("strategy_recognition_low");
    reveal_strlit("strategy_recognition_high_e");
    reveal_strlit("strategy_recognition_low_e");
    reveal_strlit("strategy_recognition_fallback");
    let r = recognition_keys(p);
    let lead = top_motivation_is(p, MotivationType::Recognition, 0);
    let s0 = Seq::<Seq<char>>::empty();
    let first = if top_intensity(p) >= 8 {
        "strategy_recognition_high"@
    } else if top_intensity(p) >= 5 {
        "strategy_recognition_mid"@
    } else {
        "strategy_recognition_low"@
    };
    let s1 = if lead { s0.push(first) } else { s0 };
    let s2 = add_if(s1, at_least(p.ocean.extraversion, 7), "strategy_recognition_high_e"@);
    let s3 = add_if(s2, at_most(p.ocean.extraversion, 4), "strategy_recognition_low_e"@);
    assert(r == or_fallback(s3, "strategy_recognition_fallback"@));
    assert("strategy_recognition_high"@.len() == 25 && "strategy_recognition_mid"@.len() == 24);
    assert("strategy_recognition_low"@.len() == 24 && "strategy_recognition_high_e"@.len() == 27);
    assert("strategy_recognition_low_e"@.len() == 26);
    assert("strategy_recognition_fallback"@.len() == 29);
    assert forall|i: int| 0 <= i < s3.len() implies #[trigger] s3[i].len() != 29 && (s3[i].len() == 27
        <==> i == s2.len() - 1 && at_least(p.ocean.extraversion, 7)) && (s3[i].len() == 26 <==> i
        == s3.len() - 1 && at_most(p.ocean.extraversion, 4)) by {}
    if at_least(p.ocean.extraversion, 7) {
        assert(s3[s2.len() - 1] == "strategy_recognition_high_e"@);
    }
    if at_most(p.ocean.extraversion, 4) {
        assert(s3[s3.len() - 1] == "strategy_recognition_low_e"@);
    }
    if r == seq!["strategy_recognition_fallback"@] {
        assert(r[0] == "strategy_recognition_fallback"@);
    }
}


/// What a list of advice keys holds once a key is added under a condition.
proof fn lemma_add_if_contains(s: Seq<Seq<char>>, c: bool, k: Seq<char>)
    ensures
        forall|x: Seq<char>| #[trigger] add_if(s, c, k).contains(x) <==> s.contains(x) || (c && x == k),
        add_if(s, c, k).len() == s.len() + if c { 1int } else { 0 },
{
    if c {
        let t = s.push(k);
        assert forall|x: Seq<char>| #[trigger] t.contains(x) <==> s.contains(x) || x == k by {
            if t.contains(x) {
                let i = choose|i: int| 0 <= i < t.len() && t[i] == x;
                if i < s.len() {
                    assert(s[i] == x);
                }
            }
            if s.contains(x) {
                let i = choose|i: int| 0 <= i < s.len() && s[i] == x;
                assert(t[i] == x);
            }
            if x == k {
                assert(t[s.len() as int] == k);
            }
        }
    }
}

/// What a list of advice keys holds once an empty list falls back to `k`.
proof fn lemma_fallback_contains(s: Seq<Seq<char>>, k: Seq<char>)
    ensures
        forall|x: Seq<char>| #[trigger] or_fallback(s, k).contains(x) <==> s.contains(x) || (s.len() == 0 && x == k),
        s.len() == 0 ==> or_fallback(s, k) == seq![k],
{
    if s.len() == 0 {
        assert forall|x: Seq<char>| #[trigger] seq![k].contains(x) <==> x == k by {
            if x == k {
                assert(seq![k][0] == k);
            }
        }
    }
}

/// The advice for a person facing the stress trigger: each piece of advice is given exactly
/// when its trait condition holds, whatever the other traits, and the
/// fallback exactly when no condition holds.
pub proof fn lemma_stress_advice(p: InsightProfile)
    ensures
        strategy_keys(p, BehaviorTrigger::Stress).contains("strategy_stress_high_n"@) <==> ((at_least(p.ocean.neuroticism, 7))),
        strategy_keys(p, BehaviorTrigger::Stress).contains("strategy_stress_high_e"@) <==> ((at_least(p.ocean.extraversion, 7))),
        strategy_keys(p, BehaviorTrigger::Stress).contains("strategy_stress_low_e"@) <==> ((at_most(p.ocean.extraversion, 4))),
        strategy_keys(p, BehaviorTrigger::Stress).contains("strategy_stress_high_c"@) <==> ((at_least(p.ocean.conscientiousness, 7))),
        strategy_keys(p, BehaviorTrigger::Stress).contains("strategy_stress_low_a"@) <==> ((at_most(p.ocean.agreeableness, 4))),
        strategy_keys(p, BehaviorTrigger::Stress).contains("strategy_stress_low_c"@) <==> ((at_most(p.ocean.conscientiousness, 4))),
        strategy_keys(p, BehaviorTrigger::Stress).contains("strategy_stress_high_o"@) <==> ((at_least(p.ocean.openness, 7))),
        strategy_keys(p, BehaviorTrigger::Stress).contains("strategy_stress_ambition_rhetoric"@) <==> ((top_motivation_is(p, MotivationType::Power, 0) && p.gaps.ambition_lazy)),
        strategy_keys(p, BehaviorTrigger::Stress).contains("strategy_stress_power"@) <==> ((top_motivation_is(p, MotivationType::Power, 0) && !p.gaps.ambition_lazy)),
        strategy_keys(p, BehaviorTrigger::Stress).contains("strategy_stress_security_rhetoric"@) <==> ((top_motivation_is(p, MotivationType::Security, 0) && p.gaps.security_gullible)),
        strategy_keys(p, BehaviorTrigger::Stress).contains("strategy_stress_security"@) <==> ((top_motivation_is(p, MotivationType::Security, 0) && !p.gaps.security_gullible)),
        strategy_keys(p, BehaviorTrigger::Stress).contains("strategy_stress_fallback"@) <==> !((at_least(p.ocean.neuroticism, 7)) || (at_least(p.ocean.extraversion, 7)) || (at_most(p.ocean.extraversion, 4)) || (at_least(p.ocean.conscientiousness, 7)) || (at_most(p.ocean.agreeableness, 4)) || (at_most(p.ocean.conscientiousness, 4)) || (at_least(p.ocean.openness, 7)) || (top_motivation_is(p, MotivationType::Power, 0)) || (top_motivation_is(p, MotivationType::Security, 0))),
        strategy_keys(p, BehaviorTrigger::Stress).contains("strategy_stress_fallback"@) ==> strategy_keys(p, BehaviorTrigger::Stress) == seq!["strategy_stress_fallback"@],
{
    assert(strategy_keys(p, BehaviorTrigger::Stress) == stress_keys(p));
    reveal_strlit("strategy_stress_high_n");
    reveal_strlit("strategy_stress_high_e");
    reveal_strlit("strategy_stress_low_e");
    reveal_strlit("strategy_stress_high_c");
    reveal_strlit("strategy_stress_low_a");
    reveal_strlit("strategy_stress_low_c");
    reveal_strlit("strategy_stress_high_o");
    reveal_strlit("strategy_stress_ambition_rhetoric");
    reveal_strlit("strategy_stress_power");
    reveal_strlit("strategy_stress_security_rhetoric");
    reveal_strlit("strategy_stress_security");
    reveal_strlit("strategy_stress_fallback");
    assert("strategy_stress_high_n"@.len() == 22);
    assert("strategy_stress_high_e"@.len() == 22);
    assert("strategy_stress_low_e"@.len() == 21);
    assert("strategy_stress_high_c"@.len() == 22);
    assert("strategy_stress_low_a"@.len() == 21);
    assert("strategy_stress_low_c"@.len() == 21);
    assert("strategy_stress_high_o"@.len() == 22);
    assert("strategy_stress_ambition_rhetoric"@.len() == 33);
    assert("strategy_stress_power"@.len() == 21);
    assert("strategy_stress_security_rhetoric"@.len() == 33);
    assert("strategy_stress_security"@.len() == 24);
    assert("strategy_stress_fallback"@.len() == 24);
    assert("strategy_stress_high_n"@[21] == 'n' && "strategy_stress_high_e"@[21] == 'e');
    assert("strategy_stress_high_n"@[21] == 'n' && "strategy_stress_high_c"@[21] == 'c');
    assert("strategy_stress_high_n"@[21] == 'n' && "strategy_stress_high_o"@[21] == 'o');
    assert("strategy_stress_high_e"@[21] == 'e' && "strategy_stress_high_c"@[21] == 'c');
    assert("strategy_stress_high_e"@[21] == 'e' && "strategy_stress_high_o"@[21] == 'o');
    assert("strategy_stress_low_e"@[20] == 'e' && "strategy_stress_low_a"@[20] == 'a');
    assert("strategy_stress_low_e"@[20] == 'e' && "strategy_stress_low_c"@[20] == 'c');
    assert("strategy_stress_low_e"@[16] == 'l' && "strategy_stress_power"@[16] == 'p');
    assert("strategy_stress_high_c"@[21] == 'c' && "strategy_stress_high_o"@[21] == 'o');
    assert("strategy_stress_low_a"@[20] == 'a' && "strategy_stress_low_c"@[20] == 'c');
    assert("strategy_stress_low_a"@[16] == 'l' && "strategy_stress_power"@[16] == 'p');
    assert("strategy_stress_low_c"@[16] == 'l' && "strategy_stress_power"@[16] == 'p');
    assert("strategy_stress_ambition_rhetoric"@[16] == 'a' && "strategy_stress_security_rhetoric"@[16] == 's');
    assert("strategy_stress_security"@[16] == 's' && "strategy_stress_fallback"@[16] == 'f');
    let s0 = Seq::<Seq<char>>::empty();
    let s1 = add_if(s0, at_least(p.ocean.neuroticism, 7), "strategy_stress_high_n"@);
    lemma_add_if_contains(s0, at_least(p.ocean.neuroticism, 7), "strategy_stress_high_n"@);
    let s2 = add_if(s1, at_least(p.ocean.extraversion, 7), "strategy_stress_high_e"@);
    lemma_add_if_contains(s1, at_least(p.ocean.extraversion, 7), "strategy_stress_high_e"@);
    let s3 = add_if(s2, at_most(p.ocean.extraversion, 4), "strategy_stress_low_e"@);
    lemma_add_if_contains(s2, at_most(p.ocean.extraversion, 4), "strategy_stress_low_e"@);
    let s4 = add_if(s3, at_least(p.ocean.conscientiousness, 7), "strategy_stress_high_c"@);
    lemma_add_if_contains(s3, at_least(p.ocean.conscientiousness, 7), "strategy_stress_high_c"@);
    let s5 = add_if(s4, at_most(p.ocean.agreeableness, 4), "strategy_stress_low_a"@);
    lemma_add_if_contains(s4, at_most(p.ocean.agreeableness, 4), "strategy_stress_low_a"@);
    let s6 = add_if(s5, at_most(p.ocean.conscientiousness, 4), "strategy_stress_low_c"@);
    lemma_add_if_contains(s5, at_most(p.ocean.conscientiousness, 4), "strategy_stress_low_c"@);
    let s7 = add_if(s6, at_least(p.ocean.openness, 7), "strategy_stress_high_o"@);
    lemma_add_if_contains(s6, at_least(p.ocean.openness, 7), "strategy_stress_high_o"@);
    let s8 = if top_motivation_is(p, MotivationType::Power, 0) { s7.push(if p.gaps.ambition_lazy { "strategy_stress_ambition_rhetoric"@ } else { "strategy_stress_power"@ }) } else { s7 };
    lemma_add_if_contains(s7, top_motivation_is(p, MotivationType::Power, 0), if p.gaps.ambition_lazy { "strategy_stress_ambition_rhetoric"@ } else { "strategy_stress_power"@ });
    assert(s8 == add_if(s7, top_motivation_is(p, MotivationType::Power, 0), if p.gaps.ambition_lazy { "strategy_stress_ambition_rhetoric"@ } else { "strategy_stress_power"@ }));
    let s9 = if top_motivation_is(p, MotivationType::Security, 0) { s8.push(if p.gaps.security_gullible { "strategy_stress_security_rhetoric"@ } else { "strategy_stress_security"@ }) } else { s8 };
    lemma_add_if_contains(s8, top_motivation_is(p, MotivationType::Security, 0), if p.gaps.security_gullible { "strategy_stress_security_rhetoric"@ } else { "strategy_stress_security"@ });
    assert(s9 == add_if(s8, top_motivation_is(p, MotivationType::Security, 0), if p.gaps.security_gullible { "strategy_stress_security_rhetoric"@ } else { "strategy_stress_security"@ }));
    assert(stress_keys(p) == or_fallback(s9, "strategy_stress_fallback"@));
    lemma_fallback_contains(s9, "strategy_stress_fallback"@);
}

/// The advice for a person facing the conflict trigger: each piece of advice is given exactly
/// when its trait condition holds, whatever the other traits, and the
/// fallback exactly when no condition holds.
pub proof fn lemma_conflict_advice(p: InsightProfile)
    ensures
        strategy_keys(p, BehaviorTrigger::Conflict).contains("strategy_conflict_low_a"@) <==> ((at_most(p.ocean.agreeableness, 4))),
        strategy_keys(p, BehaviorTrigger::Conflict).contains("strategy_conflict_high_a"@) <==> ((at_least(p.ocean.agreeableness, 7))),
        strategy_keys(p, BehaviorTrigger::Conflict).contains("strategy_conflict_high_n"@) <==> ((at_least(p.ocean.neuroticism, 7))),
        strategy_keys(p, BehaviorTrigger::Conflict).contains("strategy_conflict_high_e"@) <==> ((at_least(p.ocean.extraversion, 7))),
        strategy_keys(p, BehaviorTrigger::Conflict).contains("strategy_conflict_high_c"@) <==> ((at_least(p.ocean.conscientiousness, 7))),
        strategy_keys(p, BehaviorTrigger::Conflict).contains("strategy_conflict_low_e"@) <==> ((at_most(p.ocean.extraversion, 4))),
        strategy_keys(p, BehaviorTrigger::Conflict).contains("strategy_conflict_affiliation_rhetoric"@) <==> ((p.gaps.affiliation_cold)),
        strategy_keys(p, BehaviorTrigger::Conflict).contains("strategy_conflict_affiliation_trust_rhetoric"@) <==> ((p.gaps.affiliation_distrustful)),
        strategy_keys(p, BehaviorTrigger::Conflict).contains("strategy_conflict_fallback"@) <==> !((at_most(p.ocean.agreeableness, 4)) || (at_least(p.ocean.agreeableness, 7)) || (at_least(p.ocean.neuroticism, 7)) || (at_least(p.ocean.extraversion, 7)) || (at_least(p.ocean.conscientiousness, 7)) || (at_most(p.ocean.extraversion, 4)) || (p.gaps.affiliation_cold) || (p.gaps.affiliation_distrustful)),
        strategy_keys(p, BehaviorTrigger::Conflict).contains("strategy_conflict_fallback"@) ==> strategy_keys(p, BehaviorTrigger::Conflict) == seq!["strategy_conflict_fallback"@],
{
    assert(strategy_keys(p, BehaviorTrigger::Conflict) == conflict_keys(p));
    reveal_strlit("strategy_conflict_low_a");
    reveal_strlit("strategy_conflict_high_a");
    reveal_strlit("strategy_conflict_high_n");
    reveal_strlit("strategy_conflict_high_e");
    reveal_strlit("strategy_conflict_high_c");
    reveal_strlit("strategy_conflict_low_e");
    reveal_strlit("strategy_conflict_affiliation_rhetoric");
    reveal_strlit("strategy_conflict_affiliation_trust_rhetoric");
    reveal_strlit("strategy_conflict_fallback");
    assert("strategy_conflict_low_a"@.len() == 23);
    assert("strategy_conflict_high_a"@.len() == 24);
    assert("strategy_conflict_high_n"@.len() == 24);
    assert("strategy_conflict_high_e"@.len() == 24);
    assert("strategy_conflict_high_c"@.len() == 24);
    assert("strategy_conflict_low_e"@.len() == 23);
    assert("strategy_conflict_affiliation_rhetoric"@.len() == 38);
    assert("strategy_conflict_affiliation_trust_rhetoric"@.len() == 44);
    assert("strategy_conflict_fallback"@.len() == 26);
    assert("strategy_conflict_low_a"@[22] == 'a' && "strategy_conflict_low_e"@[22] == 'e');
    assert("strategy_conflict_high_a"@[23] == 'a' && "strategy_conflict_high_n"@[23] == 'n');
    assert("strategy_conflict_high_a"@[23] == 'a' && "strategy_conflict_high_e"@[23] == 'e');
    assert("strategy_conflict_high_a"@[23] == 'a' && "strategy_conflict_high_c"@[23] == 'c');
    assert("strategy_conflict_high_n"@[23] == 'n' && "strategy_conflict_high_e"@[23] == 'e');
    assert("strategy_conflict_high_n"@[23] == 'n' && "strategy_conflict_high_c"@[23] == 'c');
    assert("strategy_conflict_high_e"@[23] == 'e' && "strategy_conflict_high_c"@[23] == 'c');
    let s0 = Seq::<Seq<char>>::empty();
    let s1 = add_if(s0, at_most(p.ocean.agreeableness, 4), "strategy_conflict_low_a"@);
    lemma_add_if_contains(s0, at_most(p.ocean.agreeableness, 4), "strategy_conflict_low_a"@);
    let s2 = add_if(s1, at_least(p.ocean.agreeableness, 7), "strategy_conflict_high_a"@);
    lemma_add_if_contains(s1, at_least(p.ocean.agreeableness, 7), "strategy_conflict_high_a"@);
    let s3 = add_if(s2, at_least(p.ocean.neuroticism, 7), "strategy_conflict_high_n"@);
    lemma_add_if_contains(s2, at_least(p.ocean.neuroticism, 7), "strategy_conflict_high_n"@);
    let s4 = add_if(s3, at_least(p.ocean.extraversion, 7), "strategy_conflict_high_e"@);
    lemma_add_if_contains(s3, at_least(p.ocean.extraversion, 7), "strategy_conflict_high_e"@);
    let s5 = add_if(s4, at_least(p.ocean.conscientiousness, 7), "strategy_conflict_high_c"@);
    lemma_add_if_contains(s4, at_least(p.ocean.conscientiousness, 7), "strategy_conflict_high_c"@);
    let s6 = add_if(s5, at_most(p.ocean.extraversion, 4), "strategy_conflict_low_e"@);
    lemma_add_if_contains(s5, at_most(p.ocean.extraversion, 4), "strategy_conflict_low_e"@);
    let s7 = add_if(s6, p.gaps.affiliation_cold, "strategy_conflict_affiliation_rhetoric"@);
    lemma_add_if_contains(s6, p.gaps.affiliation_cold, "strategy_conflict_affiliation_rhetoric"@);
    let s8 = add_if(s7, p.gaps.affiliation_distrustful, "strategy_conflict_affiliation_trust_rhetoric"@);
    lemma_add_if_contains(s7, p.gaps.affiliation_distrustful, "strategy_conflict_affiliation_trust_rhetoric"@);
    assert(conflict_keys(p) == or_fallback(s8, "strategy_conflict_fallback"@));
    lemma_fallback_contains(s8, "strategy_conflict_fallback"@);
}

/// The advice for a person facing the success trigger: each piece of advice is given exactly
/// when its trait condition holds, whatever the other traits, and the
/// fallback exactly when no condition holds.
pub proof fn lemma_success_advice(p: InsightProfile)
    ensures
        strategy_keys(p, BehaviorTrigger::Success).contains("strategy_success_high_o"@) <==> ((at_least(p.ocean.openness, 7))),
        strategy_keys(p, BehaviorTrigger::Success).contains("strategy_success_high_c"@) <==> ((at_least(p.ocean.conscientiousness, 7))),
        strategy_keys(p, BehaviorTrigger::Success).contains("strategy_success_low_e"@) <==> ((at_most(p.ocean.extraversion, 4))),
        strategy_keys(p, BehaviorTrigger::Success).contains("strategy_success_high_a"@) <==> ((at_least(p.ocean.agreeableness, 7))),
        strategy_keys(p, BehaviorTrigger::Success).contains("strategy_success_ambition_rhetoric"@) <==> ((top_motivation_is(p, MotivationType::Recognition, 7) && p.gaps.ambition_lazy) || (top_motivation_is(p, MotivationType::Power, 7) && p.gaps.ambition_lazy)),
        strategy_keys(p, BehaviorTrigger::Success).contains("strategy_success_recognition"@) <==> ((top_motivation_is(p, MotivationType::Recognition, 7) && !p.gaps.ambition_lazy)),
        strategy_keys(p, BehaviorTrigger::Success).contains("strategy_success_power"@) <==> ((top_motivation_is(p, MotivationType::Power, 7) && !p.gaps.ambition_lazy)),
        strategy_keys(p, BehaviorTrigger::Success).contains("strategy_success_fallback"@) <==> !((at_least(p.ocean.openness, 7)) || (at_least(p.ocean.conscientiousness, 7)) || (at_most(p.ocean.extraversion, 4)) || (at_least(p.ocean.agreeableness, 7)) || (top_motivation_is(p, MotivationType::Recognition, 7)) || (top_motivation_is(p, MotivationType::Power, 7))),
        strategy_keys(p, BehaviorTrigger::Success).contains("strategy_success_fallback"@) ==> strategy_keys(p, BehaviorTrigger::Success) == seq!["strategy_success_fallback"@],
{
    assert(strategy_keys(p, BehaviorTrigger::Success) == success_keys(p));
    reveal_strlit("strategy_success_high_o");
    reveal_strlit("strategy_success_high_c");
    reveal_strlit("strategy_success_low_e");
    reveal_strlit("strategy_success_high_a");
    reveal_strlit("strategy_success_ambition_rhetoric");
    reveal_strlit("strategy_success_recognition");
    reveal_strlit("strategy_success_power");
    reveal_strlit("strategy_success_fallback");
    assert("strategy_success_high_o"@.len() == 23);
    assert("strategy_success_high_c"@.len() == 23);
    assert("strategy_success_low_e"@.len() == 22);
    assert("strategy_success_high_a"@.len() == 23);
    assert("strategy_success_ambition_rhetoric"@.len() == 34);
    assert("strategy_success_recognition"@.len() == 28);
    assert("strategy_success_power"@.len() == 22);
    assert("strategy_success_fallback"@.len() == 25);
    assert("strategy_success_high_o"@[22] == 'o' && "strategy_success_high_c"@[22] == 'c');
    assert("strategy_success_high_o"@[22] == 'o' && "strategy_success_high_a"@[22] == 'a');
    assert("strategy_success_high_c"@[22] == 'c' && "strategy_success_high_a"@[22] == 'a');
    assert("strategy_success_low_e"@[17] == 'l' && "strategy_success_power"@[17] == 'p');
    let s0 = Seq::<Seq<char>>::empty();
    let s1 = add_if(s0, at_least(p.ocean.openness, 7), "strategy_success_high_o"@);
    lemma_add_if_contains(s0, at_least(p.ocean.openness, 7), "strategy_success_high_o"@);
    let s2 = add_if(s1, at_least(p.ocean.conscientiousness, 7), "strategy_success_high_c"@);
    lemma_add_if_contains(s1, at_least(p.ocean.conscientiousness, 7), "strategy_success_high_c"@);
    let s3 = add_if(s2, at_most(p.ocean.extraversion, 4), "strategy_success_low_e"@);
    lemma_add_if_contains(s2, at_most(p.ocean.extraversion, 4), "strategy_success_low_e"@);
    let s4 = add_if(s3, at_least(p.ocean.agreeableness, 7), "strategy_success_high_a"@);
    lemma_add_if_contains(s3, at_least(p.ocean.agreeableness, 7), "strategy_success_high_a"@);
    let s5 = if top_motivation_is(p, MotivationType::Recognition, 7) { s4.push(if p.gaps.ambition_lazy { "strategy_success_ambition_rhetoric"@ } else { "strategy_success_recognition"@ }) } else { s4 };
    lemma_add_if_contains(s4, top_motivation_is(p, MotivationType::Recognition, 7), if p.gaps.ambition_lazy { "strategy_success_ambition_rhetoric"@ } else { "strategy_success_recognition"@ });
    assert(s5 == add_if(s4, top_motivation_is(p, MotivationType::Recognition, 7), if p.gaps.ambition_lazy { "strategy_success_ambition_rhetoric"@ } else { "strategy_success_recognition"@ }));
    let s6 = if top_motivation_is(p, MotivationType::Power, 7) { s5.push(if p.gaps.ambition_lazy { "strategy_success_ambition_rhetoric"@ } else { "strategy_success_power"@ }) } else { s5 };
    lemma_add_if_contains(s5, top_motivation_is(p, MotivationType::Power, 7), if p.gaps.ambition_lazy { "strategy_success_ambition_rhetoric"@ } else { "strategy_success_power"@ });
    assert(s6 == add_if(s5, top_motivation_is(p, MotivationType::Power, 7), if p.gaps.ambition_lazy { "strategy_success_ambition_rhetoric"@ } else { "strategy_success_power"@ }));
    assert(success_keys(p) == or_fallback(s6, "strategy_success_fallback"@));
    lemma_fallback_contains(s6, "strategy_success_fallback"@);
}

/// The advice for a person facing the uncertainty trigger: each piece of advice is given exactly
/// when its trait condition holds, whatever the other traits, and the
/// fallback exactly when no condition holds.
pub proof fn lemma_uncertainty_advice(p: InsightProfile)
    ensures
        strategy_keys(p, BehaviorTrigger::Uncertainty).contains("strategy_uncertainty_high_n"@) <==> ((at_least(p.ocean.neuroticism, 7))),
        strategy_keys(p, BehaviorTrigger::Uncertainty).contains("strategy_uncertainty_low_n"@) <==> ((at_most(p.ocean.neuroticism, 3))),
        strategy_keys(p, BehaviorTrigger::Uncertainty).contains("strategy_uncertainty_high_o"@) <==> ((at_least(p.ocean.openness, 7))),
        strategy_keys(p, BehaviorTrigger::Uncertainty).contains("strategy_uncertainty_low_o"@) <==> ((at_most(p.ocean.openness, 4))),
        strategy_keys(p, BehaviorTrigger::Uncertainty).contains("strategy_uncertainty_high_c"@) <==> ((at_least(p.ocean.conscientiousness, 7))),
        strategy_keys(p, BehaviorTrigger::Uncertainty).contains("strategy_uncertainty_high_e"@) <==> ((at_least(p.ocean.extraversion, 7))),
        strategy_keys(p, BehaviorTrigger::Uncertainty).contains("strategy_uncertainty_fallback"@) <==> !((at_least(p.ocean.neuroticism, 7)) || (at_most(p.ocean.neuroticism, 3)) || (at_least(p.ocean.openness, 7)) || (at_most(p.ocean.openness, 4)) || (at_least(p.ocean.conscientiousness, 7)) || (at_least(p.ocean.extraversion, 7))),
        strategy_keys(p, BehaviorTrigger::Uncertainty).contains("strategy_uncertainty_fallback"@) ==> strategy_keys(p, BehaviorTrigger::Uncertainty) == seq!["strategy_uncertainty_fallback"@],
{
    assert(strategy_keys(p, BehaviorTrigger::Uncertainty) == uncertainty_keys(p));
    reveal_strlit("strategy_uncertainty_high_n");
    reveal_strlit("strategy_uncertainty_low_n");
    reveal_strlit("strategy_uncertainty_high_o");
    reveal_strlit("strategy_uncertainty_low_o");
    reveal_strlit("strategy_uncertainty_high_c");
    reveal_strlit("strategy_uncertainty_high_e");
    reveal_strlit("strategy_uncertainty_fallback");
    assert("strategy_uncertainty_high_n"@.len() == 27);
    assert("strategy_uncertainty_low_n"@.len() == 26);
    assert("strategy_uncertainty_high_o"@.len() == 27);
    assert("strategy_uncertainty_low_o"@.len() == 26);
    assert("strategy_uncertainty_high_c"@.len() == 27);
    assert("strategy_uncertainty_high_e"@.len() == 27);
    assert("strategy_uncertainty_fallback"@.len() == 29);
    assert("strategy_uncertainty_high_n"@[26] == 'n' && "strategy_uncertainty_high_o"@[26] == 'o');
    assert("strategy_uncertainty_high_n"@[26] == 'n' && "strategy_uncertainty_high_c"@[26] == 'c');
    assert("strategy_uncertainty_high_n"@[26] == 'n' && "strategy_uncertainty_high_e"@[26] == 'e');
    assert("strategy_uncertainty_low_n"@[25] == 'n' && "strategy_uncertainty_low_o"@[25] == 'o');
    assert("strategy_uncertainty_high_o"@[26] == 'o' && "strategy_uncertainty_high_c"@[26] == 'c');
    assert("strategy_uncertainty_high_o"@[26] == 'o' && "strategy_uncertainty_high_e"@[26] == 'e');
    assert("strategy_uncertainty_high_c"@[26] == 'c' && "strategy_uncertainty_high_e"@[26] == 'e');
    let s0 = Seq::<Seq<char>>::empty();
    let s1 = add_if(s0, at_least(p.ocean.neuroticism, 7), "strategy_uncertainty_high_n"@);
    lemma_add_if_contains(s0, at_least(p.ocean.neuroticism, 7), "strategy_uncertainty_high_n"@);
    let s2 = add_if(s1, at_most(p.ocean.neuroticism, 3), "strategy_uncertainty_low_n"@);
    lemma_add_if_contains(s1, at_most(p.ocean.neuroticism, 3), "strategy_uncertainty_low_n"@);
    let s3 = add_if(s2, at_least(p.ocean.openness, 7), "strategy_uncertainty_high_o"@);
    lemma_add_if_contains(s2, at_least(p.ocean.openness, 7), "strategy_uncertainty_high_o"@);
    let s4 = add_if(s3, at_most(p.ocean.openness, 4), "strategy_uncertainty_low_o"@);
    lemma_add_if_contains(s3, at_most(p.ocean.openness, 4), "strategy_uncertainty_low_o"@);
    let s5 = add_if(s4, at_least(p.ocean.conscientiousness, 7), "strategy_uncertainty_high_c"@);
    lemma_add_if_contains(s4, at_least(p.ocean.conscientiousness, 7), "strategy_uncertainty_high_c"@);
    let s6 = add_if(s5, at_least(p.ocean.extraversion, 7), "strategy_uncertainty_high_e"@);
    lemma_add_if_contains(s5, at_least(p.ocean.extraversion, 7), "strategy_uncertainty_high_e"@);
    assert(uncertainty_keys(p) == or_fallback(s6, "strategy_uncertainty_fallback"@));
    lemma_fallback_contains(s6, "strategy_uncertainty_fallback"@);
}

/// The advice for a person facing the recognition trigger: each piece of advice is given exactly
/// when its trait condition holds, whatever the other traits, and the
/// fallback exactly when no condition holds.
pub proof fn lemma_recognition_advice(p: InsightProfile)
    ensures
        strategy_keys(p, BehaviorTrigger::Recognition).contains("strategy_recognition_high"@) <==> ((top_motivation_is(p, MotivationType::Recognition, 0) && top_intensity(p) >= 8)),
        strategy_keys(p, BehaviorTrigger::Recognition).contains("strategy_recognition_mid"@) <==> ((top_motivation_is(p, MotivationType::Recognition, 0) && 5 <= top_intensity(p) < 8)),
        strategy_keys(p, BehaviorTrigger::Recognition).contains("strategy_recognition_low"@) <==> ((top_motivation_is(p, MotivationType::Recognition, 0) && top_intensity(p) < 5)),
        strategy_keys(p, BehaviorTrigger::Recognition).contains("strategy_recognition_high_e"@) <==> ((at_least(p.ocean.extraversion, 7))),
        strategy_keys(p, BehaviorTrigger::Recognition).contains("strategy_recognition_low_e"@) <==> ((at_most(p.ocean.extraversion, 4))),
        strategy_keys(p, BehaviorTrigger::Recognition).contains("strategy_recognition_fallback"@) <==> !((top_motivation_is(p, MotivationType::Recognition, 0)) || (at_least(p.ocean.extraversion, 7)) || (at_most(p.ocean.extraversion, 4))),
        strategy_keys(p, BehaviorTrigger::Recognition).contains("strategy_recognition_fallback"@) ==> strategy_keys(p, BehaviorTrigger::Recognition) == seq!["strategy_recognition_fallback"@],
{
    assert(strategy_keys(p, BehaviorTrigger::Recognition) == recognition_keys(p));
    reveal_strlit("strategy_recognition_high");
    reveal_strlit("strategy_recognition_mid");
    reveal_strlit("strategy_recognition_low");
    reveal_strlit("strategy_recognition_high_e");
    reveal_strlit("strategy_recognition_low_e");
    reveal_strlit("strategy_recognition_fallback");
    assert("strategy_recognition_high"@.len() == 25);
    assert("strategy_recognition_mid"@.len() == 24);
    assert("strategy_recognition_low"@.len() == 24);
    assert("strategy_recognition_high_e"@.len() == 27);
    assert("strategy_recognition_low_e"@.len() == 26);
    assert("strategy_recognition_fallback"@.len() == 29);
    assert("strategy_recognition_mid"@[21] == 'm' && "strategy_recognition_low"@[21] == 'l');
    let s0 = Seq::<Seq<char>>::empty();
    let s1 = if top_motivation_is(p, MotivationType::Recognition, 0) { s0.push(if top_intensity(p) >= 8 { "strategy_recognition_high"@ } else if top_intensity(p) >= 5 { "strategy_recognition_mid"@ } else { "strategy_recognition_low"@ }) } else { s0 };
    lemma_add_if_contains(s0, top_motivation_is(p, MotivationType::Recognition, 0), if top_intensity(p) >= 8 { "strategy_recognition_high"@ } else if top_intensity(p) >= 5 { "strategy_recognition_mid"@ } else { "strategy_recognition_low"@ });
    assert(s1 == add_if(s0, top_motivation_is(p, MotivationType::Recognition, 0), if top_intensity(p) >= 8 { "strategy_recognition_high"@ } else if top_intensity(p) >= 5 { "strategy_recognition_mid"@ } else { "strategy_recognition_low"@ }));
    let s2 = add_if(s1, at_least(p.ocean.extraversion, 7), "strategy_recognition_high_e"@);
    lemma_add_if_contains(s1, at_least(p.ocean.extraversion, 7), "strategy_recognition_high_e"@);
    let s3 = add_if(s2, at_most(p.ocean.extraversion, 4), "strategy_recognition_low_e"@);
    lemma_add_if_contains(s2, at_most(p.ocean.extraversion, 4), "strategy_recognition_low_e"@);
    assert(recognition_keys(p) == or_fallback(s3, "strategy_recognition_fallback"@));
    lemma_fallback_contains(s3, "strategy_recognition_fallback"@);
}

/// The advice for a person facing the threatened trigger: each piece of advice is given exactly
/// when its trait condition holds, whatever the other traits, and the
/// fallback exactly when no condition holds.
pub proof fn lemma_threatened_advice(p: InsightProfile)
    ensures
        strategy_keys(p, BehaviorTrigger::Threatened).contains("strategy_threat_low_a"@) <==> ((at_most(p.ocean.agreeableness, 4))),
        strategy_keys(p, BehaviorTrigger::Threatened).contains("strategy_threat_high_a"@) <==> ((at_least(p.ocean.agreeableness, 7))),
        strategy_keys(p, BehaviorTrigger::Threatened).contains("strategy_threat_high_n"@) <==> ((at_least(p.ocean.neuroticism, 7))),
        strategy_keys(p, BehaviorTrigger::Threatened).contains("strategy_threat_power"@) <==> ((top_motivation_is(p, MotivationType::Power, 7))),
        strategy_keys(p, BehaviorTrigger::Threatened).contains("strategy_threat_fallback"@) <==> !((at_most(p.ocean.agreeableness, 4)) || (at_least(p.ocean.agreeableness, 7)) || (at_least(p.ocean.neuroticism, 7)) || (top_motivation_is(p, MotivationType::Power, 7))),
        strategy_keys(p, BehaviorTrigger::Threatened).contains("strategy_threat_fallback"@) ==> strategy_keys(p, BehaviorTrigger::Threatened) == seq!["strategy_threat_fallback"@],
{
    assert(strategy_keys(p, BehaviorTrigger::Threatened) == threatened_keys(p));
    reveal_strlit("strategy_threat_low_a");
    reveal_strlit("strategy_threat_high_a");
    reveal_strlit("strategy_threat_high_n");
    reveal_strlit("strategy_threat_power");
    reveal_strlit("strategy_threat_fallback");
    assert("strategy_threat_low_a"@.len() == 21);
    assert("strategy_threat_high_a"@.len() == 22);
    assert("strategy_threat_high_n"@.len() == 22);
    assert("strategy_threat_power"@.len() == 21);
    assert("strategy_threat_fallback"@.len() == 24);
    assert("strategy_threat_low_a"@[16] == 'l' && "strategy_threat_power"@[16] == 'p');
    assert("strategy_threat_high_a"@[21] == 'a' && "strategy_threat_high_n"@[21] == 'n');
    let s0 = Seq::<Seq<char>>::empty();
    let s1 = add_if(s0, at_most(p.ocean.agreeableness, 4), "strategy_threat_low_a"@);
    lemma_add_if_contains(s0, at_most(p.ocean.agreeableness, 4), "strategy_threat_low_a"@);
    let s2 = add_if(s1, at_least(p.ocean.agreeableness, 7), "strategy_threat_high_a"@);
    lemma_add_if_contains(s1, at_least(p.ocean.agreeableness, 7), "strategy_threat_high_a"@);
    let s3 = add_if(s2, at_least(p.ocean.neuroticism, 7), "strategy_threat_high_n"@);
    lemma_add_if_contains(s2, at_least(p.ocean.neuroticism, 7), "strategy_threat_high_n"@);
    let s4 = add_if(s3, top_motivation_is(p, MotivationType::Power, 7), "strategy_threat_power"@);
    lemma_add_if_contains(s3, top_motivation_is(p, MotivationType::Power, 7), "strategy_threat_power"@);
    assert(threatened_keys(p) == or_fallback(s4, "strategy_threat_fallback"@));
    lemma_fallback_contains(s4, "strategy_threat_fallback"@);
}

/// The advice for a person facing the change trigger: each piece of advice is given exactly
/// when its trait condition holds, whatever the other traits, and the
/// fallback exactly when no condition holds.
pub proof fn lemma_change_advice(p: InsightProfile)
    ensures
        strategy_keys(p, BehaviorTrigger::Change).contains("strategy_change_high_n"@) <==> ((at_least(p.ocean.neuroticism, 7))),
        strategy_keys(p, BehaviorTrigger::Change).contains("strategy_change_low_n"@) <==> ((at_most(p.ocean.neuroticism, 3))),
        strategy_keys(p, BehaviorTrigger::Change).contains("strategy_change_high_c"@) <==> ((at_least(p.ocean.conscientiousness, 7))),
        strategy_keys(p, BehaviorTrigger::Change).contains("strategy_change_low_e"@) <==> ((at_most(p.ocean.extraversion, 4))),
        strategy_keys(p, BehaviorTrigger::Change).contains("strategy_change_high_o"@) <==> ((at_least(p.ocean.openness, 7))),
        strategy_keys(p, BehaviorTrigger::Change).contains("strategy_change_discipline_rhetoric"@) <==> ((p.gaps.discipline_lazy)),
        strategy_keys(p, BehaviorTrigger::Change).contains("strategy_change_fallback"@) <==> !((at_least(p.ocean.neuroticism, 7)) || (at_most(p.ocean.neuroticism, 3)) || (at_least(p.ocean.conscientiousness, 7)) || (at_most(p.ocean.extraversion, 4)) || (at_least(p.ocean.openness, 7)) || (p.gaps.discipline_lazy)),
        strategy_keys(p, BehaviorTrigger::Change).contains("strategy_change_fallback"@) ==> strategy_keys(p, BehaviorTrigger::Change) == seq!["strategy_change_fallback"@],
{
    assert(strategy_keys(p, BehaviorTrigger::Change) == change_keys(p));
    reveal_strlit("strategy_change_high_n");
    reveal_strlit("strategy_change_low_n");
    reveal_strlit("strategy_change_high_c");
    reveal_strlit("strategy_change_low_e");
    reveal_strlit("strategy_change_high_o");
    reveal_strlit("strategy_change_discipline_rhetoric");
    reveal_strlit("strategy_change_fallback");
    assert("strategy_change_high_n"@.len() == 22);
    assert("strategy_change_low_n"@.len() == 21);
    assert("strategy_change_high_c"@.len() == 22);
    assert("strategy_change_low_e"@.len() == 21);
    assert("strategy_change_high_o"@.len() == 22);
    assert("strategy_change_discipline_rhetoric"@.len() == 35);
    assert("strategy_change_fallback"@.len() == 24);
    assert("strategy_change_high_n"@[21] == 'n' && "strategy_change_high_c"@[21] == 'c');
    assert("strategy_change_high_n"@[21] == 'n' && "strategy_change_high_o"@[21] == 'o');
    assert("strategy_change_low_n"@[20] == 'n' && "strategy_change_low_e"@[20] == 'e');
    assert("strategy_change_high_c"@[21] == 'c' && "strategy_change_high_o"@[21] == 'o');
    let s0 = Seq::<Seq<char>>::empty();
    let s1 = add_if(s0, at_least(p.ocean.neuroticism, 7), "strategy_change_high_n"@);
    lemma_add_if_contains(s0, at_least(p.ocean.neuroticism, 7), "strategy_change_high_n"@);
    let s2 = add_if(s1, at_most(p.ocean.neuroticism, 3), "strategy_change_low_n"@);
    lemma_add_if_contains(s1, at_most(p.ocean.neuroticism, 3), "strategy_change_low_n"@);
    let s3 = add_if(s2, at_least(p.ocean.conscientiousness, 7), "strategy_change_high_c"@);
    lemma_add_if_contains(s2, at_least(p.ocean.conscientiousness, 7), "strategy_change_high_c"@);
    let s4 = add_if(s3, at_most(p.ocean.extraversion, 4), "strategy_change_low_e"@);
    lemma_add_if_contains(s3, at_most(p.ocean.extraversion, 4), "strategy_change_low_e"@);
    let s5 = add_if(s4, at_least(p.ocean.openness, 7), "strategy_change_high_o"@);
    lemma_add_if_contains(s4, at_least(p.ocean.openness, 7), "strategy_change_high_o"@);
    let s6 = add_if(s5, p.gaps.discipline_lazy, "strategy_change_discipline_rhetoric"@);
    lemma_add_if_contains(s5, p.gaps.discipline_lazy, "strategy_change_discipline_rhetoric"@);
    assert(change_keys(p) == or_fallback(s6, "strategy_change_fallback"@));
    lemma_fallback_contains(s6, "strategy_change_fallback"@);
}

/// The advice for a person facing the feedback trigger: each piece of advice is given exactly
/// when its trait condition holds, whatever the other traits, and the
/// fallback exactly when no condition holds.
pub proof fn lemma_feedback_advice(p: InsightProfile)
    ensures
        strategy_keys(p, BehaviorTrigger::Feedback).contains("strategy_feedback_high_n"@) <==> ((at_least(p.ocean.neuroticism, 7))),
        strategy_keys(p, BehaviorTrigger::Feedback).contains("strategy_feedback_low_n"@) <==> ((at_most(p.ocean.neuroticism, 3))),
        strategy_keys(p, BehaviorTrigger::Feedback).contains("strategy_feedback_low_a"@) <==> ((at_most(p.ocean.agreeableness, 4))),
        strategy_keys(p, BehaviorTrigger::Feedback).contains("strategy_feedback_low_e"@) <==> ((at_most(p.ocean.extraversion, 4))),
        strategy_keys(p, BehaviorTrigger::Feedback).contains("strategy_feedback_high_c"@) <==> ((at_least(p.ocean.conscientiousness, 7))),
        strategy_keys(p, BehaviorTrigger::Feedback).contains("strategy_feedback_helping_rhetoric"@) <==> ((p.gaps.helping_selfish)),
        strategy_keys(p, BehaviorTrigger::Feedback).contains("strategy_feedback_warmth_rhetoric"@) <==> ((p.gaps.warmth_blunt)),
        strategy_keys(p, BehaviorTrigger::Feedback).contains("strategy_feedback_fallback"@) <==> !((at_least(p.ocean.neuroticism, 7)) || (at_most(p.ocean.neuroticism, 3)) || (at_most(p.ocean.agreeableness, 4)) || (at_most(p.ocean.extraversion, 4)) || (at_least(p.ocean.conscientiousness, 7)) || (p.gaps.helping_selfish) || (p.gaps.warmth_blunt)),
        strategy_keys(p, BehaviorTrigger::Feedback).contains("strategy_feedback_fallback"@) ==> strategy_keys(p, BehaviorTrigger::Feedback) == seq!["strategy_feedback_fallback"@],
{
    assert(strategy_keys(p, BehaviorTrigger::Feedback) == feedback_keys(p));
    reveal_strlit("strategy_feedback_high_n");
    reveal_strlit("strategy_feedback_low_n");
    reveal_strlit("strategy_feedback_low_a");
    reveal_strlit("strategy_feedback_low_e");
    reveal_strlit("strategy_feedback_high_c");
    reveal_strlit("strategy_feedback_helping_rhetoric");
    reveal_strlit("strategy_feedback_warmth_rhetoric");
    reveal_strlit("strategy_feedback_fallback");
    assert("strategy_feedback_high_n"@.len() == 24);
    assert("strategy_feedback_low_n"@.len() == 23);
    assert("strategy_feedback_low_a"@.len() == 23);
    assert("strategy_feedback_low_e"@.len() == 23);
    assert("strategy_feedback_high_c"@.len() == 24);
    assert("strategy_feedback_helping_rhetoric"@.len() == 34);
    assert("strategy_feedback_warmth_rhetoric"@.len() == 33);
    assert("strategy_feedback_fallback"@.len() == 26);
    assert("strategy_feedback_high_n"@[23] == 'n' && "strategy_feedback_high_c"@[23] == 'c');
    assert("strategy_feedback_low_n"@[22] == 'n' && "strategy_feedback_low_a"@[22] == 'a');
    assert("strategy_feedback_low_n"@[22] == 'n' && "strategy_feedback_low_e"@[22] == 'e');
    assert("strategy_feedback_low_a"@[22] == 'a' && "strategy_feedback_low_e"@[22] == 'e');
    let s0 = Seq::<Seq<char>>::empty();
    let s1 = add_if(s0, at_least(p.ocean.neuroticism, 7), "strategy_feedback_high_n"@);
    lemma_add_if_contains(s0, at_least(p.ocean.neuroticism, 7), "strategy_feedback_high_n"@);
    let s2 = add_if(s1, at_most(p.ocean.neuroticism, 3), "strategy_feedback_low_n"@);
    lemma_add_if_contains(s1, at_most(p.ocean.neuroticism, 3), "strategy_feedback_low_n"@);
    let s3 = add_if(s2, at_most(p.ocean.agreeableness, 4), "strategy_feedback_low_a"@);
    lemma_add_if_contains(s2, at_most(p.ocean.agreeableness, 4), "strategy_feedback_low_a"@);
    let s4 = add_if(s3, at_most(p.ocean.extraversion, 4), "strategy_feedback_low_e"@);
    lemma_add_if_contains(s3, at_most(p.ocean.extraversion, 4), "strategy_feedback_low_e"@);
    let s5 = add_if(s4, at_least(p.ocean.conscientiousness, 7), "strategy_feedback_high_c"@);
    lemma_add_if_contains(s4, at_least(p.ocean.conscientiousness, 7), "strategy_feedback_high_c"@);
    let s6 = add_if(s5, p.gaps.helping_selfish, "strategy_feedback_helping_rhetoric"@);
    lemma_add_if_contains(s5, p.gaps.helping_selfish, "strategy_feedback_helping_rhetoric"@);
    let s7 = add_if(s6, p.gaps.warmth_blunt, "strategy_feedback_warmth_rhetoric"@);
    lemma_add_if_contains(s6, p.gaps.warmth_blunt, "strategy_feedback_warmth_rhetoric"@);
    assert(feedback_keys(p) == or_fallback(s7, "strategy_feedback_fallback"@));
    lemma_fallback_contains(s7, "strategy_feedback_fallback"@);
}

/// The advice for a person facing the injustice trigger: each piece of advice is given exactly
/// when its trait condition holds, whatever the other traits, and the
/// fallback exactly when no condition holds.
pub proof fn lemma_injustice_advice(p: InsightProfile)
    ensures
        strategy_keys(p, BehaviorTrigger::Injustice).contains("strategy_injustice_high_a"@) <==> ((at_least(p.ocean.agreeableness, 7))),
        strategy_keys(p, BehaviorTrigger::Injustice).contains("strategy_injustice_high_n"@) <==> ((at_least(p.ocean.neuroticism, 7))),
        strategy_keys(p, BehaviorTrigger::Injustice).contains("strategy_injustice_fairness_rhetoric"@) <==> ((p.gaps.fairness_rhetoric)),
        strategy_keys(p, BehaviorTrigger::Injustice).contains("strategy_injustice_fairness"@) <==> ((!p.gaps.fairness_rhetoric && top_motivation_is(p, MotivationType::Fairness, 6))),
        strategy_keys(p, BehaviorTrigger::Injustice).contains("strategy_injustice_ambition_rhetoric"@) <==> ((top_motivation_is(p, MotivationType::Power, 7) && p.gaps.ambition_lazy)),
        strategy_keys(p, BehaviorTrigger::Injustice).contains("strategy_injustice_power"@) <==> ((top_motivation_is(p, MotivationType::Power, 7) && !p.gaps.ambition_lazy)),
        strategy_keys(p, BehaviorTrigger::Injustice).contains("strategy_injustice_fallback"@) <==> !((at_least(p.ocean.agreeableness, 7)) || (at_least(p.ocean.neuroticism, 7)) || ((p.gaps.fairness_rhetoric || top_motivation_is(p, MotivationType::Fairness, 6))) || (top_motivation_is(p, MotivationType::Power, 7))),
        strategy_keys(p, BehaviorTrigger::Injustice).contains("strategy_injustice_fallback"@) ==> strategy_keys(p, BehaviorTrigger::Injustice) == seq!["strategy_injustice_fallback"@],
{
    assert(strategy_keys(p, BehaviorTrigger::Injustice) == injustice_keys(p));
    reveal_strlit("strategy_injustice_high_a");
    reveal_strlit("strategy_injustice_high_n");
    reveal_strlit("strategy_injustice_fairness_rhetoric");
    reveal_strlit("strategy_injustice_fairness");
    reveal_strlit("strategy_injustice_ambition_rhetoric");
    reveal_strlit("strategy_injustice_power");
    reveal_strlit("strategy_injustice_fallback");
    assert("strategy_injustice_high_a"@.len() == 25);
    assert("strategy_injustice_high_n"@.len() == 25);
    assert("strategy_injustice_fairness_rhetoric"@.len() == 36);
    assert("strategy_injustice_fairness"@.len() == 27);
    assert("strategy_injustice_ambition_rhetoric"@.len() == 36);
    assert("strategy_injustice_power"@.len() == 24);
    assert("strategy_injustice_fallback"@.len() == 27);
    assert("strategy_injustice_high_a"@[24] == 'a' && "strategy_injustice_high_n"@[24] == 'n');
    assert("strategy_injustice_fairness_rhetoric"@[19] == 'f' && "strategy_injustice_ambition_rhetoric"@[19] == 'a');
    assert("strategy_injustice_fairness"@[21] == 'i' && "strategy_injustice_fallback"@[21] == 'l');
    let s0 = Seq::<Seq<char>>::empty();
    let s1 = add_if(s0, at_least(p.ocean.agreeableness, 7), "strategy_injustice_high_a"@);
    lemma_add_if_contains(s0, at_least(p.ocean.agreeableness, 7), "strategy_injustice_high_a"@);
    let s2 = add_if(s1, at_least(p.ocean.neuroticism, 7), "strategy_injustice_high_n"@);
    lemma_add_if_contains(s1, at_least(p.ocean.neuroticism, 7), "strategy_injustice_high_n"@);
    let s3 = if p.gaps.fairness_rhetoric { s2.push("strategy_injustice_fairness_rhetoric"@) } else if top_motivation_is(p, MotivationType::Fairness, 6) { s2.push("strategy_injustice_fairness"@) } else { s2 };
    lemma_add_if_contains(s2, true, "strategy_injustice_fairness_rhetoric"@);
    lemma_add_if_contains(s2, true, "strategy_injustice_fairness"@);
    lemma_add_if_contains(s2, false, "strategy_injustice_fairness"@);
    let s4 = if top_motivation_is(p, MotivationType::Power, 7) { s3.push(if p.gaps.ambition_lazy { "strategy_injustice_ambition_rhetoric"@ } else { "strategy_injustice_power"@ }) } else { s3 };
    lemma_add_if_contains(s3, top_motivation_is(p, MotivationType::Power, 7), if p.gaps.ambition_lazy { "strategy_injustice_ambition_rhetoric"@ } else { "strategy_injustice_power"@ });
    assert(s4 == add_if(s3, top_motivation_is(p, MotivationType::Power, 7), if p.gaps.ambition_lazy { "strategy_injustice_ambition_rhetoric"@ } else { "strategy_injustice_power"@ }));
    assert(injustice_keys(p) == or_fallback(s4, "strategy_injustice_fallback"@));
    lemma_fallback_contains(s4, "strategy_injustice_fallback"@);
}

} // verus!

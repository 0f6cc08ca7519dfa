use vstd::prelude::*;
use crate::model::{
    rep_dim, rep_dim_at, rep_score, BehaviorTrigger, BiasType, FacetKind, MotivationType,
    OceanScores, RepDim, RepScores, StyleCategory, ValueType, REP_DIM_COUNT,
};
use crate::person::{
    mask_of, mask_spec, opt_seq, or_five, replicate_opt_vec, replicate_vec, slot, with_slot,
    BehavioralPattern, Bias, MaskView, Motivation, Person, PersonView, PersonaMask, PersonalStyle,
    Tag, Value,
};
use crate::templates::Archetype;
use crate::text::{comma_pieces, decimal, push_decimal_u64, split_commas, text_eq, trim_text, trimmed};

verus! {

/// A group of traits that a persona can override as a whole.
#[derive(Clone, Copy, Debug, PartialEq, Eq, Structural)]
pub enum FacetBucket {
    Ocean,
    Reputation,
    Motivations,
    Biases,
    Patterns,
    Styles,
    Values,
    Resilience,
    RiskAppetite,
}

/// An owned copy of one bucket of the base profile.
#[derive(Clone, Debug, PartialEq)]
pub enum BucketValue {
    Ocean(OceanScores),
    Rep(RepScores),
    Motivations(Vec<Motivation>),
    Biases(Vec<Bias>),
    Patterns(Vec<BehavioralPattern>),
    Styles(Vec<PersonalStyle>),
    Values(Vec<Value>),
    Resilience(u8),
    RiskAppetite(u8),
}

/// A bucket value, lists taken by their views.
pub enum BucketView {
    Ocean(OceanScores),
    Rep(RepScores),
    Motivations(Seq<Motivation>),
    Biases(Seq<Bias>),
    Patterns(Seq<BehavioralPattern>),
    Styles(Seq<PersonalStyle>),
    Values(Seq<Value>),
    Resilience(u8),
    RiskAppetite(u8),
}

impl View for BucketValue {
    type V = BucketView;

    open spec fn view(&self) -> BucketView {
        match self {
            BucketValue::Ocean(v) => BucketView::Ocean(*v),
            BucketValue::Rep(v) => BucketView::Rep(*v),
            BucketValue::Motivations(v) => BucketView::Motivations(v@),
            BucketValue::Biases(v) => BucketView::Biases(v@),
            BucketValue::Patterns(v) => BucketView::Patterns(v@),
            BucketValue::Styles(v) => BucketView::Styles(v@),
            BucketValue::Values(v) => BucketView::Values(v@),
            BucketValue::Resilience(v) => BucketView::Resilience(*v),
            BucketValue::RiskAppetite(v) => BucketView::RiskAppetite(*v),
        }
    }
}

/// Whether a bucket value is of the kind that bucket `b` holds.
pub open spec fn fits(b: FacetBucket, v: BucketView) -> bool {
    match b {
        FacetBucket::Ocean => v is Ocean,
        FacetBucket::Reputation => v is Rep,
        FacetBucket::Motivations => v is Motivations,
        FacetBucket::Biases => v is Biases,
        FacetBucket::Patterns => v is Patterns,
        FacetBucket::Styles => v is Styles,
        FacetBucket::Values => v is Values,
        FacetBucket::Resilience => v is Resilience,
        FacetBucket::RiskAppetite => v is RiskAppetite,
    }
}

/// The base profile's value of bucket `b`; unset resilience and risk
/// appetite read as 5.
pub open spec fn bucket_base(b: FacetBucket, p: PersonView) -> BucketView {
    match b {
        FacetBucket::Ocean => BucketView::Ocean(p.ocean),
        FacetBucket::Reputation => BucketView::Rep(p.rep_scores),
        FacetBucket::Motivations => BucketView::Motivations(p.motivations),
        FacetBucket::Biases => BucketView::Biases(p.biases),
        FacetBucket::Patterns => BucketView::Patterns(p.behavioral_patterns),
        FacetBucket::Styles => BucketView::Styles(p.styles),
        FacetBucket::Values => BucketView::Values(p.values),
        FacetBucket::Resilience => BucketView::Resilience(or_five(p.resilience)),
        FacetBucket::RiskAppetite => BucketView::RiskAppetite(or_five(p.risk_appetite)),
    }
}

/// Whether a mask overrides bucket `b`.
pub open spec fn defined(b: FacetBucket, m: MaskView) -> bool {
    match b {
        FacetBucket::Ocean => m.ocean is Some,
        FacetBucket::Reputation => m.rep_scores is Some,
        FacetBucket::Motivations => m.motivations is Some,
        FacetBucket::Biases => m.biases is Some,
        FacetBucket::Patterns => m.behavioral_patterns is Some,
        FacetBucket::Styles => m.styles is Some,
        FacetBucket::Values => m.values is Some,
        FacetBucket::Resilience => m.resilience is Some,
        FacetBucket::RiskAppetite => m.risk_appetite is Some,
    }
}

/// An optional override after a toggle: off clears it; on keeps an existing
/// override and otherwise takes `v`.
pub open spec fn toggled<T>(cur: Option<T>, on: bool, v: T) -> Option<T> {
    if !on {
        None
    } else if cur is None {
        Some(v)
    } else {
        cur
    }
}

/// The mask with bucket `b` returned to inheritance.
pub open spec fn cleared(m: MaskView, b: FacetBucket) -> MaskView {
    match b {
        FacetBucket::Ocean => MaskView { ocean: None, ..m },
        FacetBucket::Reputation => MaskView { rep_scores: None, ..m },
        FacetBucket::Motivations => MaskView { motivations: None, ..m },
        FacetBucket::Biases => MaskView { biases: None, ..m },
        FacetBucket::Patterns => MaskView { behavioral_patterns: None, ..m },
        FacetBucket::Styles => MaskView { styles: None, ..m },
        FacetBucket::Values => MaskView { values: None, ..m },
        FacetBucket::Resilience => MaskView { resilience: None, ..m },
        FacetBucket::RiskAppetite => MaskView { risk_appetite: None, ..m },
    }
}

/// The mask after bucket `b` is switched `on` (materialising `base`) or off.
pub open spec fn mask_with(m: MaskView, b: FacetBucket, on: bool, base: BucketView) -> MaskView {
    match (b, base) {
        (FacetBucket::Ocean, BucketView::Ocean(v)) => MaskView {
            ocean: toggled(m.ocean, on, v),
            ..m
        },
        (FacetBucket::Reputation, BucketView::Rep(v)) => MaskView {
            rep_scores: toggled(m.rep_scores, on, v),
            ..m
        },
        (FacetBucket::Motivations, BucketView::Motivations(v)) => MaskView {
            motivations: toggled(m.motivations, on, v),
            ..m
        },
        (FacetBucket::Biases, BucketView::Biases(v)) => MaskView {
            biases: toggled(m.biases, on, v),
            ..m
        },
        (FacetBucket::Patterns, BucketView::Patterns(v)) => MaskView {
            behavioral_patterns: toggled(m.behavioral_patterns, on, v),
            ..m
        },
        (FacetBucket::Styles, BucketView::Styles(v)) => MaskView {
            styles: toggled(m.styles, on, v),
            ..m
        },
        (FacetBucket::Values, BucketView::Values(v)) => MaskView {
            values: toggled(m.values, on, v),
            ..m
        },
        (FacetBucket::Resilience, BucketView::Resilience(v)) => MaskView {
            resilience: toggled(m.resilience, on, v),
            ..m
        },
        (FacetBucket::RiskAppetite, BucketView::RiskAppetite(v)) => MaskView {
            risk_appetite: toggled(m.risk_appetite, on, v),
            ..m
        },
        _ => if on {
            m
        } else {
            cleared(m, b)
        },
    }
}

impl BucketValue {
    /// The value held, for a value of the Ocean kind.
    pub fn into_ocean(self) -> (r: OceanScores)
        requires
            self is Ocean,
        ensures
            self matches BucketValue::Ocean(v) && r == v,
    {
        match self {
            BucketValue::Ocean(v) => v,
            _ => {
                proof {
                    assert(false);
                }
                OceanScores::unset()
            },
        }
    }

    /// The value held, for a value of the Rep kind.
    pub fn into_rep(self) -> (r: RepScores)
        requires
            self is Rep,
        ensures
            self matches BucketValue::Rep(v) && r == v,
    {
        match self {
            BucketValue::Rep(v) => v,
            _ => {
                proof {
                    assert(false);
                }
                RepScores::unset()
            },
        }
    }

    /// The value held, for a value of the Motivations kind.
    pub fn into_motivations(self) -> (r: Vec<Motivation>)
        requires
            self is Motivations,
        ensures
            self matches BucketValue::Motivations(v) && r@ == v@,
    {
        match self {
            BucketValue::Motivations(v) => v,
            _ => {
                proof {
                    assert(false);
                }
                Vec::new()
            },
        }
    }

    /// The value held, for a value of the Biases kind.
    pub fn into_biases(self) -> (r: Vec<Bias>)
        requires
            self is Biases,
        ensures
            self matches BucketValue::Biases(v) && r@ == v@,
    {
        match self {
            BucketValue::Biases(v) => v,
            _ => {
                proof {
                    assert(false);
                }
                Vec::new()
            },
        }
    }

    /// The value held, for a value of the Patterns kind.
    pub fn into_patterns(self) -> (r: Vec<BehavioralPattern>)
        requires
            self is Patterns,
        ensures
            self matches BucketValue::Patterns(v) && r@ == v@,
    {
        match self {
            BucketValue::Patterns(v) => v,
            _ => {
                proof {
                    assert(false);
                }
                Vec::new()
            },
        }
    }

    /// The value held, for a value of the Styles kind.
    pub fn into_styles(self) -> (r: Vec<PersonalStyle>)
        requires
            self is Styles,
        ensures
            self matches BucketValue::Styles(v) && r@ == v@,
    {
        match self {
            BucketValue::Styles(v) => v,
            _ => {
                proof {
                    assert(false);
                }
                Vec::new()
            },
        }
    }

    /// The value held, for a value of the Values kind.
    pub fn into_values(self) -> (r: Vec<Value>)
        requires
            self is Values,
        ensures
            self matches BucketValue::Values(v) && r@ == v@,
    {
        match self {
            BucketValue::Values(v) => v,
            _ => {
                proof {
                    assert(false);
                }
                Vec::new()
            },
        }
    }

    /// The value held, for a value of the Resilience kind.
    pub fn into_resilience(self) -> (r: u8)
        requires
            self is Resilience,
        ensures
            self matches BucketValue::Resilience(v) && r == v,
    {
        match self {
            BucketValue::Resilience(v) => v,
            _ => {
                proof {
                    assert(false);
                }
                0
            },
        }
    }

    /// The value held, for a value of the RiskAppetite kind.
    pub fn into_risk_appetite(self) -> (r: u8)
        requires
            self is RiskAppetite,
        ensures
            self matches BucketValue::RiskAppetite(v) && r == v,
    {
        match self {
            BucketValue::RiskAppetite(v) => v,
            _ => {
                proof {
                    assert(false);
                }
                0
            },
        }
    }

}

impl FacetBucket {
    /// A copy of the base profile's value of this bucket.
    pub fn base_value(&self, p: &Person) -> (r: BucketValue)
        ensures
            r@ == bucket_base(*self, p@),
    {
        match self {
            FacetBucket::Ocean => BucketValue::Ocean(p.ocean),
            FacetBucket::Reputation => BucketValue::Rep(p.rep_scores),
            FacetBucket::Motivations => BucketValue::Motivations(replicate_vec(&p.motivations)),
            FacetBucket::Biases => BucketValue::Biases(replicate_vec(&p.biases)),
            FacetBucket::Patterns => BucketValue::Patterns(replicate_vec(&p.behavioral_patterns)),
            FacetBucket::Styles => BucketValue::Styles(replicate_vec(&p.styles)),
            FacetBucket::Values => BucketValue::Values(replicate_vec(&p.values)),
            FacetBucket::Resilience => BucketValue::Resilience(
                match p.resilience {
                    Some(v) => v,
                    None => 5,
                },
            ),
            FacetBucket::RiskAppetite => BucketValue::RiskAppetite(
                match p.risk_appetite {
                    Some(v) => v,
                    None => 5,
                },
            ),
        }
    }

    /// Whether the mask overrides this bucket.
    pub fn is_defined(&self, m: &PersonaMask) -> (r: bool)
        ensures
            r == defined(*self, m@),
    {
        match self {
            FacetBucket::Ocean => m.ocean.is_some(),
            FacetBucket::Reputation => m.rep_scores.is_some(),
            FacetBucket::Motivations => m.motivations.is_some(),
            FacetBucket::Biases => m.biases.is_some(),
            FacetBucket::Patterns => m.behavioral_patterns.is_some(),
            FacetBucket::Styles => m.styles.is_some(),
            FacetBucket::Values => m.values.is_some(),
            FacetBucket::Resilience => m.resilience.is_some(),
            FacetBucket::RiskAppetite => m.risk_appetite.is_some(),
        }
    }

    /// Switches the override of this bucket: on materialises `base` unless
    /// the bucket is already overridden; off returns to inheritance.
    pub fn set_on_mask(&self, m: &mut PersonaMask, on: bool, base: BucketValue)
        requires
            on && !defined(*self, old(m)@) ==> fits(*self, base@),
        ensures
            final(m)@ == mask_with(old(m)@, *self, on, base@),
    {
        if !on {
            match self {
                FacetBucket::Ocean => m.ocean = None,
                FacetBucket::Reputation => m.rep_scores = None,
                FacetBucket::Motivations => m.motivations = None,
                FacetBucket::Biases => m.biases = None,
                FacetBucket::Patterns => m.behavioral_patterns = None,
                FacetBucket::Styles => m.styles = None,
                FacetBucket::Values => m.values = None,
                FacetBucket::Resilience => m.resilience = None,
                FacetBucket::RiskAppetite => m.risk_appetite = None,
            }
            return;
        }
        match (self, base) {
            (FacetBucket::Ocean, BucketValue::Ocean(v)) => {
                if m.ocean.is_none() {
                    m.ocean = Some(v);
                }
            },
            (FacetBucket::Reputation, BucketValue::Rep(v)) => {
                if m.rep_scores.is_none() {
                    m.rep_scores = Some(v);
                }
            },
            (FacetBucket::Motivations, BucketValue::Motivations(v)) => {
                if m.motivations.is_none() {
                    m.motivations = Some(v);
                }
            },
            (FacetBucket::Biases, BucketValue::Biases(v)) => {
                if m.biases.is_none() {
                    m.biases = Some(v);
                }
            },
            (FacetBucket::Patterns, BucketValue::Patterns(v)) => {
                if m.behavioral_patterns.is_none() {
                    m.behavioral_patterns = Some(v);
                }
            },
            (FacetBucket::Styles, BucketValue::Styles(v)) => {
                if m.styles.is_none() {
                    m.styles = Some(v);
                }
            },
            (FacetBucket::Values, BucketValue::Values(v)) => {
                if m.values.is_none() {
                    m.values = Some(v);
                }
            },
            (FacetBucket::Resilience, BucketValue::Resilience(v)) => {
                if m.resilience.is_none() {
                    m.resilience = Some(v);
                }
            },
            (FacetBucket::RiskAppetite, BucketValue::RiskAppetite(v)) => {
                if m.risk_appetite.is_none() {
                    m.risk_appetite = Some(v);
                }
            },
            _ => {},
        }
    }
}

/// Whether `bucket` is overridden by the persona of `facet` (never in the
/// anchor arena, which has no mask).
pub fn bucket_defined_in(p: &Person, facet: FacetKind, bucket: FacetBucket) -> (r: bool)
    ensures
        r == (mask_spec(p@, facet) matches Some(m) && defined(bucket, m)),
{
    match mask_of(p, facet) {
        Some(m) => bucket.is_defined(m),
        None => false,
    }
}

/// The person after `bucket` is switched on or off in the persona of
/// `facet`; a person without that persona (or the anchor arena) is unchanged.
pub open spec fn bucket_toggled(p: PersonView, facet: FacetKind, bucket: FacetBucket, on: bool) -> PersonView {
    match mask_spec(p, facet) {
        Some(m) => with_slot(p, facet, Some(mask_with(m, bucket, on, bucket_base(bucket, p)))),
        None => p,
    }
}

/// Switches the override of `bucket` in the persona of `facet`, seeding it
/// from the base profile.
pub fn set_bucket_state(p: &mut Person, facet: FacetKind, bucket: FacetBucket, on: bool)
    ensures
        final(p)@ == bucket_toggled(old(p)@, facet, bucket, on),
{
    let base = bucket.base_value(p);
    if facet == p.primary_facet {
        return;
    }
    let mut cur: Option<PersonaMask> = None;
    match facet {
        FacetKind::Base => std::mem::swap(&mut cur, &mut p.private_persona),
        FacetKind::Work => std::mem::swap(&mut cur, &mut p.persona),
        FacetKind::Online => std::mem::swap(&mut cur, &mut p.online_persona),
    }
    match cur {
        Some(mut m) => {
            bucket.set_on_mask(&mut m, on, base);
            match facet {
                FacetKind::Base => p.private_persona = Some(m),
                FacetKind::Work => p.persona = Some(m),
                FacetKind::Online => p.online_persona = Some(m),
            }
        },
        None => {},
    }
}

/// Whether the action row of a persona is hidden while `mode` is edited:
/// the anchor arena's row always, the others unless they are being edited.
pub fn persona_row_hidden(primary: FacetKind, mode: FacetKind, facet: FacetKind) -> (r: bool)
    ensures
        r == (facet == primary || mode != facet),
{
    facet == primary || mode != facet
}

/// Whether a section panel is editable: an explicit activity flag wins;
/// otherwise the bucket override decides; with neither it is not.
pub fn section_panel_active(active: Option<bool>, bucket_defined: Option<bool>) -> (r: bool)
    ensures
        r == (match (active, bucket_defined) {
            (Some(a), _) => a,
            (None, Some(d)) => d,
            _ => false,
        }),
{
    match (active, bucket_defined) {
        (Some(active), _) => active,
        (None, Some(defined)) => defined,
        _ => false,
    }
}

/// Whether a progress badge reads complete: a capped list once `filled`
/// reaches the cap, an uncapped one always.
pub fn progress_complete(filled: usize, total: Option<usize>) -> (r: bool)
    ensures
        r == (match total {
            Some(t) => filled >= t,
            None => true,
        }),
{
    match total {
        Some(t) => filled >= t,
        None => true,
    }
}

/// The text of a progress badge: "filled/total" for a capped list, the
/// filled count alone otherwise.
pub fn progress_text(filled: usize, total: Option<usize>) -> (r: String)
    ensures
        r@ == (match total {
            Some(t) => decimal(filled as nat) + "/"@ + decimal(t as nat),
            None => decimal(filled as nat),
        }),
{
    let mut s = String::new();
    push_decimal_u64(&mut s, filled as u64);
    match total {
        Some(t) => {
            s.append("/");
            push_decimal_u64(&mut s, t as u64);
        },
        None => {},
    }
    s
}

/// The value after the stepper's minus button: one less (not below zero),
/// and not below `min`.
pub fn stepper_down(value: u8, min: u8) -> (r: u8)
    ensures
        value > min ==> r == value - 1,
        value <= min ==> r == min,
{
    let v = if value == 0 { 0 } else { value - 1 };
    if v < min { min } else { v }
}

/// The value after the stepper's plus button: one more, and not above `max`.
pub fn stepper_up(value: u8, max: u8) -> (r: u8)
    requires
        value < 255,
    ensures
        value < max ==> r == value + 1,
        value >= max ==> r == max,
{
    let v = value + 1;
    if v > max { max } else { v }
}

/// Whether `names` holds the name `sel`.
pub open spec fn names_hold(names: Seq<String>, sel: Seq<char>) -> bool {
    exists|k: int| 0 <= k < names.len() && #[trigger] names[k]@ == sel
}

/// The style kept for a category whose style options (by stored name, in
/// their listed order) are `options`: the selected style when the category
/// offers it, else the category's first style.
pub fn coerce_style_to_category(options: &Vec<String>, sel: &str) -> (r: String)
    requires
        options.len() > 0,
    ensures
        names_hold(options@, sel@) ==> r@ == sel@,
        !names_hold(options@, sel@) ==> r@ == options@[0]@,
{
    let mut k: usize = 0;
    while k < options.len()
        invariant
            k <= options.len(),
            forall|m: int| 0 <= m < k ==> options@[m]@ != sel@,
        decreases options.len() - k,
    {
        if text_eq(options[k].as_str(), sel) {
            return sel.to_string();
        }
        k = k + 1;
    }
    options[0].clone()
}

/// The change a newly chosen category makes to the selected style: none when
/// the category offers it, else its first style.
pub fn style_selection_reconcile(options: &Vec<String>, sel: &str) -> (r: Option<String>)
    requires
        options.len() > 0,
    ensures
        names_hold(options@, sel@) ==> r is None,
        !names_hold(options@, sel@) ==> (r matches Some(s) && s@ == options@[0]@),
{
    let coerced = coerce_style_to_category(options, sel);
    if text_eq(coerced.as_str(), sel) {
        None
    } else {
        Some(coerced)
    }
}

/// Whether the pattern editor clears its notes: only when the list shrank.
pub fn notes_clear_on_shrink(len: usize, last: usize) -> (r: bool)
    ensures
        r == (len < last),
{
    len < last
}

/// Whether a persona panel is active: either flag suffices.
pub fn persona_panel_active(a: bool, b: bool) -> (r: bool)
    ensures
        r == (a || b),
{
    a || b
}

/// Whether an arena is shown as a persona panel: every arena but the anchor.
pub fn is_persona_facet(facet: FacetKind, primary: FacetKind) -> (r: bool)
    ensures
        r == (facet != primary),
{
    facet != primary
}

/// The next value of a render counter.
pub fn next_render_count(current: u32) -> (r: u32)
    requires
        current < u32::MAX,
    ensures
        r == current + 1,
{
    current + 1
}

/// The number of items of a list bucket as seen in arena `facet`: the
/// persona's override when it has one, otherwise the base list; 0 for the
/// buckets that are not lists.
pub open spec fn resolved_len(p: PersonView, facet: FacetKind, bucket: FacetBucket) -> nat {
    let m = mask_spec(p, facet);
    match bucket {
        FacetBucket::Motivations => match m {
            Some(mv) if mv.motivations is Some => mv.motivations.unwrap().len(),
            _ => p.motivations.len(),
        },
        FacetBucket::Biases => match m {
            Some(mv) if mv.biases is Some => mv.biases.unwrap().len(),
            _ => p.biases.len(),
        },
        FacetBucket::Patterns => match m {
            Some(mv) if mv.behavioral_patterns is Some => mv.behavioral_patterns.unwrap().len(),
            _ => p.behavioral_patterns.len(),
        },
        FacetBucket::Styles => match m {
            Some(mv) if mv.styles is Some => mv.styles.unwrap().len(),
            _ => p.styles.len(),
        },
        FacetBucket::Values => match m {
            Some(mv) if mv.values is Some => mv.values.unwrap().len(),
            _ => p.values.len(),
        },
        _ => 0,
    }
}

/// The number of items of a list bucket as seen in arena `facet`.
pub fn list_len(p: &Person, facet: FacetKind, bucket: FacetBucket) -> (r: usize)
    ensures
        r == resolved_len(p@, facet, bucket),
{
    let m = mask_of(p, facet);
    match bucket {
        FacetBucket::Motivations => match m {
            Some(mv) => match &mv.motivations {
                Some(v) => v.len(),
                None => p.motivations.len(),
            },
            None => p.motivations.len(),
        },
        FacetBucket::Biases => match m {
            Some(mv) => match &mv.biases {
                Some(v) => v.len(),
                None => p.biases.len(),
            },
            None => p.biases.len(),
        },
        FacetBucket::Patterns => match m {
            Some(mv) => match &mv.behavioral_patterns {
                Some(v) => v.len(),
                None => p.behavioral_patterns.len(),
            },
            None => p.behavioral_patterns.len(),
        },
        FacetBucket::Styles => match m {
            Some(mv) => match &mv.styles {
                Some(v) => v.len(),
                None => p.styles.len(),
            },
            None => p.styles.len(),
        },
        FacetBucket::Values => match m {
            Some(mv) => match &mv.values {
                Some(v) => v.len(),
                None => p.values.len(),
            },
            None => p.values.len(),
        },
        _ => 0,
    }
}


/// A section of the person editor.
#[derive(Clone, Copy, Debug, PartialEq, Eq, Structural)]
pub enum EditSectionId {
    ResilienceRisk,
    Ocean,
    Motivations,
    Biases,
    Reputation,
    Patterns,
    Styles,
    Values,
}

/// The sections of the person editor, in display order.
pub const ALL_EDIT_SECTIONS: [EditSectionId; 8] = [
    EditSectionId::ResilienceRisk,
    EditSectionId::Ocean,
    EditSectionId::Motivations,
    EditSectionId::Biases,
    EditSectionId::Reputation,
    EditSectionId::Patterns,
    EditSectionId::Styles,
    EditSectionId::Values,
];

/// The base profile `d` with section `sec` restored from `s`.
pub open spec fn base_section_restored(d: PersonView, s: PersonView, sec: EditSectionId) -> PersonView {
    match sec {
        EditSectionId::ResilienceRisk => PersonView {
            resilience: s.resilience,
            risk_appetite: s.risk_appetite,
            ..d
        },
        EditSectionId::Ocean => PersonView { ocean: s.ocean, ..d },
        EditSectionId::Motivations => PersonView { motivations: s.motivations, ..d },
        EditSectionId::Biases => PersonView { biases: s.biases, ..d },
        EditSectionId::Reputation => PersonView { rep_scores: s.rep_scores, ..d },
        EditSectionId::Patterns => PersonView { behavioral_patterns: s.behavioral_patterns, ..d },
        EditSectionId::Styles => PersonView { styles: s.styles, ..d },
        EditSectionId::Values => PersonView { values: s.values, ..d },
    }
}

/// The mask `m` with section `sec` restored from the saved mask (an absent
/// saved mask restoring inheritance).
pub open spec fn mask_section_restored(m: MaskView, saved: Option<MaskView>, sec: EditSectionId) -> MaskView {
    match sec {
        EditSectionId::ResilienceRisk => MaskView {
            resilience: match saved {
                Some(sm) => sm.resilience,
                None => None,
            },
            risk_appetite: match saved {
                Some(sm) => sm.risk_appetite,
                None => None,
            },
            ..m
        },
        EditSectionId::Ocean => MaskView {
            ocean: match saved {
                Some(sm) => sm.ocean,
                None => None,
            },
            ..m
        },
        EditSectionId::Motivations => MaskView {
            motivations: match saved {
                Some(sm) => sm.motivations,
                None => None,
            },
            ..m
        },
        EditSectionId::Biases => MaskView {
            biases: match saved {
                Some(sm) => sm.biases,
                None => None,
            },
            ..m
        },
        EditSectionId::Reputation => MaskView {
            rep_scores: match saved {
                Some(sm) => sm.rep_scores,
                None => None,
            },
            ..m
        },
        EditSectionId::Patterns => MaskView {
            behavioral_patterns: match saved {
                Some(sm) => sm.behavioral_patterns,
                None => None,
            },
            ..m
        },
        EditSectionId::Styles => MaskView {
            styles: match saved {
                Some(sm) => sm.styles,
                None => None,
            },
            ..m
        },
        EditSectionId::Values => MaskView {
            values: match saved {
                Some(sm) => sm.values,
                None => None,
            },
            ..m
        },
    }
}

/// The draft after "Discard" of one section in arena `facet`: in the anchor
/// arena the base profile's section is restored from `saved`; in another
/// arena the draft's persona has that section restored from the saved
/// persona (inheritance when none was saved); without a draft persona
/// nothing changes.
pub open spec fn discarded(sec: EditSectionId, facet: FacetKind, saved: PersonView, draft: PersonView) -> PersonView {
    if facet == draft.primary_facet {
        base_section_restored(draft, saved, sec)
    } else {
        match slot(draft, facet) {
            Some(m) => with_slot(
                draft,
                facet,
                Some(mask_section_restored(m, mask_spec(saved, facet), sec)),
            ),
            None => draft,
        }
    }
}

fn restore_mask_section(m: &mut PersonaMask, saved: Option<&PersonaMask>, sec: EditSectionId)
    ensures
        final(m)@ == mask_section_restored(
            old(m)@,
            match saved {
                Some(sm) => Some(sm@),
                None => None,
            },
            sec,
        ),
{
    match sec {
        EditSectionId::ResilienceRisk => {
            m.resilience = match saved {
                Some(sm) => sm.resilience,
                None => None,
            };
            m.risk_appetite = match saved {
                Some(sm) => sm.risk_appetite,
                None => None,
            };
        },
        EditSectionId::Ocean => {
            m.ocean = match saved {
                Some(sm) => sm.ocean,
                None => None,
            };
        },
        EditSectionId::Motivations => {
            m.motivations = match saved {
                Some(sm) => replicate_opt_vec(&sm.motivations),
                None => None,
            };
        },
        EditSectionId::Biases => {
            m.biases = match saved {
                Some(sm) => replicate_opt_vec(&sm.biases),
                None => None,
            };
        },
        EditSectionId::Reputation => {
            m.rep_scores = match saved {
                Some(sm) => sm.rep_scores,
                None => None,
            };
        },
        EditSectionId::Patterns => {
            m.behavioral_patterns = match saved {
                Some(sm) => replicate_opt_vec(&sm.behavioral_patterns),
                None => None,
            };
        },
        EditSectionId::Styles => {
            m.styles = match saved {
                Some(sm) => replicate_opt_vec(&sm.styles),
                None => None,
            };
        },
        EditSectionId::Values => {
            m.values = match saved {
                Some(sm) => replicate_opt_vec(&sm.values),
                None => None,
            };
        },
    }
}

/// "Discard": restores one section of the draft from the saved person, in
/// the arena being edited.
pub fn discard_section(section: EditSectionId, facet: FacetKind, saved: &Person, draft: &mut Person)
    ensures
        final(draft)@ == discarded(section, facet, saved@, old(draft)@),
{
    if facet == draft.primary_facet {
        match section {
            EditSectionId::ResilienceRisk => {
                draft.resilience = saved.resilience;
                draft.risk_appetite = saved.risk_appetite;
            },
            EditSectionId::Ocean => draft.ocean = saved.ocean,
            EditSectionId::Motivations => draft.motivations = replicate_vec(&saved.motivations),
            EditSectionId::Biases => draft.biases = replicate_vec(&saved.biases),
            EditSectionId::Reputation => draft.rep_scores = saved.rep_scores,
            EditSectionId::Patterns => {
                draft.behavioral_patterns = replicate_vec(&saved.behavioral_patterns);
            },
            EditSectionId::Styles => draft.styles = replicate_vec(&saved.styles),
            EditSectionId::Values => draft.values = replicate_vec(&saved.values),
        }
        return;
    }
    let saved_mask = mask_of(saved, facet);
    let mut cur: Option<PersonaMask> = None;
    match facet {
        FacetKind::Base => std::mem::swap(&mut cur, &mut draft.private_persona),
        FacetKind::Work => std::mem::swap(&mut cur, &mut draft.persona),
        FacetKind::Online => std::mem::swap(&mut cur, &mut draft.online_persona),
    }
    match cur {
        Some(mut m) => {
            restore_mask_section(&mut m, saved_mask, section);
            match facet {
                FacetKind::Base => draft.private_persona = Some(m),
                FacetKind::Work => draft.persona = Some(m),
                FacetKind::Online => draft.online_persona = Some(m),
            }
        },
        None => {},
    }
}

/// The position of the first occurrence of `t` in `v` (when it occurs).
pub open spec fn first_index_of(v: Seq<EditSectionId>, t: EditSectionId) -> int {
    choose|i: int| 0 <= i < v.len() && v[i] == t && forall|j: int| 0 <= j < i ==> v[j] != t
}

/// The open sections after `t` is toggled: appended when closed, its first
/// occurrence removed when open.
pub open spec fn toggled_sections(v: Seq<EditSectionId>, t: EditSectionId) -> Seq<EditSectionId> {
    if v.contains(t) {
        v.remove(first_index_of(v, t))
    } else {
        v.push(t)
    }
}

/// Opens `target` when it is closed (appending it) and closes it when it is
/// open (removing its first occurrence); other sections are untouched.
pub fn toggle_section(current: Vec<EditSectionId>, target: EditSectionId) -> (r: Vec<EditSectionId>)
    ensures
        r@ == toggled_sections(current@, target),
        !current@.contains(target) ==> r@ == current@.push(target),
        current@.contains(target) ==> exists|i: int|
            0 <= i < current@.len() && current@[i] == target && (forall|j: int|
                0 <= j < i ==> current@[j] != target) && r@ == current@.remove(i),
{
    let mut current = current;
    let mut pos: usize = 0;
    while pos < current.len() && current[pos] != target
        invariant
            pos <= current@.len(),
            forall|j: int| 0 <= j < pos ==> current@[j] != target,
        decreases current@.len() - pos,
    {
        pos = pos + 1;
    }
    let ghost v = current@;
    if pos < current.len() {
        proof {
            assert(v[pos as int] == target);
            let f = first_index_of(v, target);
            assert(0 <= f < v.len() && v[f] == target && forall|j: int| 0 <= j < f ==> v[j] != target);
            if f < pos {
                assert(v[f] != target);
            }
            if pos < f {
                assert(v[pos as int] != target);
            }
            assert(f == pos);
        }
        current.remove(pos);
    } else {
        current.push(target);
    }
    current
}

/// A motivation by its stored name; unknown names give Achievement.
pub open spec fn motivation_named(s: Seq<char>) -> MotivationType {
    if s == "Power"@ {
        MotivationType::Power
    } else if s == "Affiliation"@ {
        MotivationType::Affiliation
    } else if s == "Security"@ {
        MotivationType::Security
    } else if s == "Autonomy"@ {
        MotivationType::Autonomy
    } else if s == "Recognition"@ {
        MotivationType::Recognition
    } else if s == "Learning"@ {
        MotivationType::Learning
    } else if s == "Helping"@ {
        MotivationType::Helping
    } else if s == "Creativity"@ {
        MotivationType::Creativity
    } else if s == "Fairness"@ {
        MotivationType::Fairness
    } else {
        MotivationType::Achievement
    }
}

/// A motivation by its stored name; unknown names give Achievement.
pub fn parse_mot_type(s: &str) -> (r: MotivationType)
    ensures
        r == motivation_named(s@),
{
    if text_eq(s, "Power") {
        MotivationType::Power
    } else if text_eq(s, "Affiliation") {
        MotivationType::Affiliation
    } else if text_eq(s, "Security") {
        MotivationType::Security
    } else if text_eq(s, "Autonomy") {
        MotivationType::Autonomy
    } else if text_eq(s, "Recognition") {
        MotivationType::Recognition
    } else if text_eq(s, "Learning") {
        MotivationType::Learning
    } else if text_eq(s, "Helping") {
        MotivationType::Helping
    } else if text_eq(s, "Creativity") {
        MotivationType::Creativity
    } else if text_eq(s, "Fairness") {
        MotivationType::Fairness
    } else {
        MotivationType::Achievement
    }
}

/// A personal value by its stored name; unknown names give Career.
pub open spec fn value_named(s: Seq<char>) -> ValueType {
    if s == "Family"@ {
        ValueType::Family
    } else if s == "Health"@ {
        ValueType::Health
    } else if s == "Wealth"@ {
        ValueType::Wealth
    } else if s == "Stability"@ {
        ValueType::Stability
    } else if s == "Adventure"@ {
        ValueType::Adventure
    } else if s == "Community"@ {
        ValueType::Community
    } else if s == "Knowledge"@ {
        ValueType::Knowledge
    } else if s == "Faith"@ {
        ValueType::Faith
    } else if s == "Loyalty"@ {
        ValueType::Loyalty
    } else {
        ValueType::Career
    }
}

/// A personal value by its stored name; unknown names give Career.
pub fn parse_val_type(s: &str) -> (r: ValueType)
    ensures
        r == value_named(s@),
{
    if text_eq(s, "Family") {
        ValueType::Family
    } else if text_eq(s, "Health") {
        ValueType::Health
    } else if text_eq(s, "Wealth") {
        ValueType::Wealth
    } else if text_eq(s, "Stability") {
        ValueType::Stability
    } else if text_eq(s, "Adventure") {
        ValueType::Adventure
    } else if text_eq(s, "Community") {
        ValueType::Community
    } else if text_eq(s, "Knowledge") {
        ValueType::Knowledge
    } else if text_eq(s, "Faith") {
        ValueType::Faith
    } else if text_eq(s, "Loyalty") {
        ValueType::Loyalty
    } else {
        ValueType::Career
    }
}

/// A bias by its stored name; unknown names give Confirmation.
pub open spec fn bias_named(s: Seq<char>) -> BiasType {
    if s == "Anchoring"@ {
        BiasType::Anchoring
    } else if s == "Availability"@ {
        BiasType::Availability
    } else if s == "SunkCost"@ {
        BiasType::SunkCost
    } else if s == "DunningKruger"@ {
        BiasType::DunningKruger
    } else if s == "Impostor"@ {
        BiasType::Impostor
    } else if s == "LossAversion"@ {
        BiasType::LossAversion
    } else if s == "SocialProof"@ {
        BiasType::SocialProof
    } else if s == "Authority"@ {
        BiasType::Authority
    } else if s == "Recency"@ {
        BiasType::Recency
    } else if s == "InGroup"@ {
        BiasType::InGroup
    } else if s == "Favoritism"@ {
        BiasType::Favoritism
    } else {
        BiasType::Confirmation
    }
}

/// A bias by its stored name; unknown names give Confirmation.
pub fn parse_bias_type(s: &str) -> (r: BiasType)
    ensures
        r == bias_named(s@),
{
    if text_eq(s, "Anchoring") {
        BiasType::Anchoring
    } else if text_eq(s, "Availability") {
        BiasType::Availability
    } else if text_eq(s, "SunkCost") {
        BiasType::SunkCost
    } else if text_eq(s, "DunningKruger") {
        BiasType::DunningKruger
    } else if text_eq(s, "Impostor") {
        BiasType::Impostor
    } else if text_eq(s, "LossAversion") {
        BiasType::LossAversion
    } else if text_eq(s, "SocialProof") {
        BiasType::SocialProof
    } else if text_eq(s, "Authority") {
        BiasType::Authority
    } else if text_eq(s, "Recency") {
        BiasType::Recency
    } else if text_eq(s, "InGroup") {
        BiasType::InGroup
    } else if text_eq(s, "Favoritism") {
        BiasType::Favoritism
    } else {
        BiasType::Confirmation
    }
}

/// A trigger by its stored name; unknown names give Stress.
pub open spec fn trigger_named(s: Seq<char>) -> BehaviorTrigger {
    if s == "Conflict"@ {
        BehaviorTrigger::Conflict
    } else if s == "Success"@ {
        BehaviorTrigger::Success
    } else if s == "Uncertainty"@ {
        BehaviorTrigger::Uncertainty
    } else if s == "Recognition"@ {
        BehaviorTrigger::Recognition
    } else if s == "Threatened"@ {
        BehaviorTrigger::Threatened
    } else if s == "Change"@ {
        BehaviorTrigger::Change
    } else if s == "Feedback"@ {
        BehaviorTrigger::Feedback
    } else if s == "Injustice"@ {
        BehaviorTrigger::Injustice
    } else {
        BehaviorTrigger::Stress
    }
}

/// A trigger by its stored name; unknown names give Stress.
pub fn parse_trigger(s: &str) -> (r: BehaviorTrigger)
    ensures
        r == trigger_named(s@),
{
    if text_eq(s, "Conflict") {
        BehaviorTrigger::Conflict
    } else if text_eq(s, "Success") {
        BehaviorTrigger::Success
    } else if text_eq(s, "Uncertainty") {
        BehaviorTrigger::Uncertainty
    } else if text_eq(s, "Recognition") {
        BehaviorTrigger::Recognition
    } else if text_eq(s, "Threatened") {
        BehaviorTrigger::Threatened
    } else if text_eq(s, "Change") {
        BehaviorTrigger::Change
    } else if text_eq(s, "Feedback") {
        BehaviorTrigger::Feedback
    } else if text_eq(s, "Injustice") {
        BehaviorTrigger::Injustice
    } else {
        BehaviorTrigger::Stress
    }
}

/// A style category by its stored name; unknown names give Communication.
pub open spec fn style_category_named(s: Seq<char>) -> StyleCategory {
    if s == "ConflictResolution"@ {
        StyleCategory::ConflictResolution
    } else if s == "DecisionMaking"@ {
        StyleCategory::DecisionMaking
    } else if s == "Leadership"@ {
        StyleCategory::Leadership
    } else if s == "TimeOrientation"@ {
        StyleCategory::TimeOrientation
    } else if s == "MoralFramework"@ {
        StyleCategory::MoralFramework
    } else if s == "InterpersonalConduct"@ {
        StyleCategory::InterpersonalConduct
    } else if s == "TrustStyle"@ {
        StyleCategory::TrustStyle
    } else {
        StyleCategory::Communication
    }
}

/// A style category by its stored name; unknown names give Communication.
pub fn parse_style_category(s: &str) -> (r: StyleCategory)
    ensures
        r == style_category_named(s@),
{
    if text_eq(s, "ConflictResolution") {
        StyleCategory::ConflictResolution
    } else if text_eq(s, "DecisionMaking") {
        StyleCategory::DecisionMaking
    } else if text_eq(s, "Leadership") {
        StyleCategory::Leadership
    } else if text_eq(s, "TimeOrientation") {
        StyleCategory::TimeOrientation
    } else if text_eq(s, "MoralFramework") {
        StyleCategory::MoralFramework
    } else if text_eq(s, "InterpersonalConduct") {
        StyleCategory::InterpersonalConduct
    } else if text_eq(s, "TrustStyle") {
        StyleCategory::TrustStyle
    } else {
        StyleCategory::Communication
    }
}

/// An edit of a list bucket.
pub enum ListOp<T> {
    Push(T),
    Replace(usize, T),
    Remove(usize),
    Swap(usize, usize),
}

/// Whether an edit can be applied to a list of `len` items: removal and
/// swapping need existing positions.
pub open spec fn op_applicable<T>(len: nat, op: ListOp<T>) -> bool {
    match op {
        ListOp::Remove(i) => i < len,
        ListOp::Swap(i, j) => i < len && j < len,
        _ => true,
    }
}

/// The list after an edit: a push appends, a replacement overwrites an
/// existing position (and is ignored past the end), a removal deletes, a
/// swap exchanges two positions.
pub open spec fn op_applied<T>(s: Seq<T>, op: ListOp<T>) -> Seq<T> {
    match op {
        ListOp::Push(x) => s.push(x),
        ListOp::Replace(i, x) => if i < s.len() {
            s.update(i as int, x)
        } else {
            s
        },
        ListOp::Remove(i) => s.remove(i as int),
        ListOp::Swap(i, j) => s.update(i as int, s[j as int]).update(j as int, s[i as int]),
    }
}

/// Applies one edit to a list.
pub fn apply_list_op<T>(list: &mut Vec<T>, op: ListOp<T>)
    requires
        op_applicable(old(list)@.len(), op),
    ensures
        final(list)@ == op_applied(old(list)@, op),
{
    match op {
        ListOp::Push(item) => list.push(item),
        ListOp::Replace(i, item) => {
            if i < list.len() {
                list.set(i, item);
            }
        },
        ListOp::Remove(i) => {
            list.remove(i);
        },
        ListOp::Swap(i, j) => {
            if i != j {
                let ghost s = list@;
                let (lo, hi) = if i < j {
                    (i, j)
                } else {
                    (j, i)
                };
                let x = list.remove(hi);
                let y = list.remove(lo);
                list.insert(lo, x);
                list.insert(hi, y);
                assert(list@ =~= s.update(i as int, s[j as int]).update(j as int, s[i as int]));
            }
        },
    }
}

/// How many OCEAN traits are assessed.
pub open spec fn ocean_filled(o: OceanScores) -> nat {
    (if o.openness is Some { 1nat } else { 0nat }) + (if o.conscientiousness is Some {
        1nat
    } else {
        0nat
    }) + (if o.extraversion is Some { 1nat } else { 0nat }) + (if o.agreeableness is Some {
        1nat
    } else {
        0nat
    }) + (if o.neuroticism is Some { 1nat } else { 0nat })
}

/// How many OCEAN traits are assessed.
pub fn ocean_filled_count(o: &OceanScores) -> (r: usize)
    ensures
        r == ocean_filled(*o),
{
    let mut n: usize = 0;
    if o.openness.is_some() {
        n = n + 1;
    }
    if o.conscientiousness.is_some() {
        n = n + 1;
    }
    if o.extraversion.is_some() {
        n = n + 1;
    }
    if o.agreeableness.is_some() {
        n = n + 1;
    }
    if o.neuroticism.is_some() {
        n = n + 1;
    }
    n
}

/// How many of the first `k` reputation dimensions are assessed.
pub open spec fn rep_filled(r: RepScores, k: nat) -> nat
    decreases k,
{
    if k == 0 {
        0
    } else {
        rep_filled(r, (k - 1) as nat) + if rep_score(r, rep_dim_at(k - 1)) is Some {
            1nat
        } else {
            0nat
        }
    }
}

/// How many reputation dimensions are assessed.
pub fn rep_filled_count(r: &RepScores) -> (n: usize)
    ensures
        n == rep_filled(*r, REP_DIM_COUNT as nat),
        n <= REP_DIM_COUNT,
{
    let mut n: usize = 0;
    let mut i: usize = 0;
    while i < REP_DIM_COUNT
        invariant
            i <= REP_DIM_COUNT,
            n == rep_filled(*r, i as nat),
            n <= i,
        decreases REP_DIM_COUNT - i,
    {
        if r.score(rep_dim(i)).is_some() {
            n = n + 1;
        }
        i = i + 1;
    }
    n
}

/// Sets the score of one reputation dimension, leaving the others alone.
pub fn set_rep_dim(r: &mut RepScores, dim: RepDim, new: Option<u8>)
    ensures
        rep_score(*final(r), dim) == new,
        forall|d: RepDim| d != dim ==> rep_score(*final(r), d) == rep_score(*old(r), d),
{
    match dim {
        RepDim::HardworkerLazy => r.hardworker_lazy = new,
        RepDim::AuthoritativeSubmissive => r.authoritative_submissive = new,
        RepDim::HonestDeceitful => r.honest_deceitful = new,
        RepDim::ReliableFlaky => r.reliable_flaky = new,
        RepDim::HumbleArrogant => r.humble_arrogant = new,
        RepDim::CalmReactive => r.calm_reactive = new,
        RepDim::DiplomaticBlunt => r.diplomatic_blunt = new,
        RepDim::GenerousSelfish => r.generous_selfish = new,
        RepDim::FairFavoritism => r.fair_favoritism = new,
        RepDim::TrustingSuspicious => r.trusting_suspicious = new,
        RepDim::AssertivePassive => r.assertive_passive = new,
        RepDim::EmpatheticDetached => r.empathetic_detached = new,
        RepDim::AdaptableRigid => r.adaptable_rigid = new,
    }
}


/// Whether `p` is a blank person: anchored in `primary`, with the given id
/// and creation time, no name, role, context, tags, notes, traits or
/// history, the 👤 avatar and a confidence of 5.
pub open spec fn is_blank(p: PersonView, primary: FacetKind, id: String, now: i64) -> bool {
    &&& p.id == id
    &&& p.primary_facet == primary
    &&& p.name@.len() == 0 && p.role@.len() == 0 && p.context@.len() == 0 && p.notes@.len() == 0
    &&& p.avatar_emoji@ == "👤"@
    &&& p.tags.len() == 0 && p.motivations.len() == 0 && p.biases.len() == 0
    &&& p.behavioral_patterns.len() == 0 && p.styles.len() == 0 && p.values.len() == 0
    &&& p.rep_scores == RepScores::unset_spec()
    &&& p.ocean == (OceanScores {
        openness: None,
        conscientiousness: None,
        extraversion: None,
        agreeableness: None,
        neuroticism: None,
    })
    &&& p.persona is None && p.online_persona is None && p.private_persona is None
    &&& p.resilience is None && p.risk_appetite is None
    &&& p.log.len() == 0
    &&& p.confidence == 5
    &&& p.created_at == now && p.updated_at == now
}

/// A blank person anchored in the arena `primary`.
pub fn blank_person_with_facet(primary: FacetKind, id: String, now: i64) -> (r: Person)
    ensures
        is_blank(r@, primary, id, now),
{
    Person {
        persona: None,
        online_persona: None,
        private_persona: None,
        primary_facet: primary,
        id,
        name: String::new(),
        role: String::new(),
        context: String::new(),
        avatar_emoji: String::from_str("👤"),
        tags: Vec::new(),
        notes: String::new(),
        motivations: Vec::new(),
        biases: Vec::new(),
        rep_scores: RepScores::unset(),
        behavioral_patterns: Vec::new(),
        styles: Vec::new(),
        values: Vec::new(),
        ocean: OceanScores::unset(),
        resilience: None,
        risk_appetite: None,
        log: Vec::new(),
        confidence: 5,
        created_at: now,
        updated_at: now,
    }
}

/// A new person seeded from archetype `idx`: the blank person takes the
/// archetype's OCEAN scores, motivations, biases and reputation scores; an
/// index past the archetypes leaves it blank.
pub fn person_from_template(idx: usize, templates: &Vec<Archetype>, blank: Person) -> (r: Person)
    ensures
        idx >= templates@.len() ==> r@ == blank@,
        idx < templates@.len() ==> r@ == (PersonView {
            ocean: templates@[idx as int].ocean,
            motivations: templates@[idx as int].motivations@,
            biases: templates@[idx as int].biases@,
            rep_scores: templates@[idx as int].rep_scores,
            ..blank@
        }),
{
    if idx < templates.len() {
        let t = &templates[idx];
        let mut person = blank;
        person.ocean = t.ocean;
        person.motivations = replicate_vec(&t.motivations);
        person.biases = replicate_vec(&t.biases);
        person.rep_scores = t.rep_scores;
        person
    } else {
        blank
    }
}


/// The trimmed pieces that are not empty, in order.
pub open spec fn kept_names(pieces: Seq<Seq<char>>) -> Seq<Seq<char>>
    decreases pieces.len(),
{
    if pieces.len() == 0 {
        Seq::empty()
    } else {
        let prev = kept_names(pieces.drop_last());
        let t = trimmed(pieces.last());
        if t.len() == 0 {
            prev
        } else {
            prev.push(t)
        }
    }
}

/// The tags typed as a comma-separated list: each piece trimmed of white
/// space, empty pieces dropped, no colour.
pub fn parse_tags(s: &str) -> (r: Vec<Tag>)
    ensures
        r@.map_values(|t: Tag| t.name@) == kept_names(comma_pieces(s@)),
        forall|k: int| 0 <= k < r@.len() ==> (#[trigger] r@[k]).color is None,
{
    let pieces = split_commas(s);
    let ghost views = pieces@.map_values(|x: String| x@);
    let mut tags: Vec<Tag> = Vec::new();
    let mut i: usize = 0;
    assert(views.subrange(0, 0) =~= Seq::<Seq<char>>::empty());
    assert(tags@.map_values(|t: Tag| t.name@) =~= kept_names(views.subrange(0, 0)));
    while i < pieces.len()
        invariant
            i <= pieces@.len(),
            views == pieces@.map_values(|x: String| x@),
            tags@.map_values(|t: Tag| t.name@) == kept_names(views.subrange(0, i as int)),
            forall|k: int| 0 <= k < tags@.len() ==> (#[trigger] tags@[k]).color is None,
        decreases pieces@.len() - i,
    {
        let t = trim_text(pieces[i].as_str());
        let ghost before = views.subrange(0, i as int);
        let ghost after = views.subrange(0, i + 1);
        assert(after.drop_last() =~= before);
        assert(after.last() == pieces@[i as int]@);
        let ghost old_tags = tags@;
        if !t.as_str().is_empty() {
            tags.push(Tag { name: t, color: None });
            assert(tags@.map_values(|x: Tag| x.name@) =~= old_tags.map_values(|x: Tag| x.name@).push(
                trimmed(pieces@[i as int]@),
            ));
        }
        i = i + 1;
    }
    assert(views.subrange(0, i as int) =~= views);
    tags
}


/// Switching a bucket on twice is the same as once, switching it on always
/// leaves it overridden, and switching it off always returns it to
/// inheritance.
pub proof fn lemma_bucket_toggle_laws(m: MaskView, b: FacetBucket, v: BucketView)
    requires
        fits(b, v),
    ensures
        mask_with(mask_with(m, b, true, v), b, true, v) == mask_with(m, b, true, v),
        defined(b, mask_with(m, b, true, v)),
        !defined(b, mask_with(m, b, false, v)),
        mask_with(mask_with(m, b, false, v), b, false, v) == mask_with(m, b, false, v),
{
}

/// Materialising an undefined bucket stores exactly the base value.
pub proof fn lemma_bucket_materializes_base(m: MaskView, b: FacetBucket, p: PersonView)
    requires
        !defined(b, m),
    ensures
        defined(b, mask_with(m, b, true, bucket_base(b, p))),
        b == FacetBucket::Ocean ==> mask_with(m, b, true, bucket_base(b, p)).ocean == Some(p.ocean),
        b == FacetBucket::Motivations ==> mask_with(m, b, true, bucket_base(b, p)).motivations == Some(
            p.motivations,
        ),
        b == FacetBucket::Resilience ==> mask_with(m, b, true, bucket_base(b, p)).resilience == Some(
            or_five(p.resilience),
        ),
{
}

/// Discarding a section in the anchor arena restores exactly that section
/// of the saved base profile and leaves every persona as it was.
pub proof fn lemma_discard_anchor_restores(sec: EditSectionId, saved: PersonView, draft: PersonView)
    ensures
        ({
            let r = discarded(sec, draft.primary_facet, saved, draft);
            &&& sec == EditSectionId::Ocean ==> r.ocean == saved.ocean
            &&& sec == EditSectionId::Motivations ==> r.motivations == saved.motivations
            &&& sec == EditSectionId::Biases ==> r.biases == saved.biases
            &&& sec == EditSectionId::Reputation ==> r.rep_scores == saved.rep_scores
            &&& sec == EditSectionId::Patterns ==> r.behavioral_patterns == saved.behavioral_patterns
            &&& sec == EditSectionId::Styles ==> r.styles == saved.styles
            &&& sec == EditSectionId::Values ==> r.values == saved.values
            &&& sec == EditSectionId::ResilienceRisk ==> r.resilience == saved.resilience
                && r.risk_appetite == saved.risk_appetite
            &&& r.persona == draft.persona && r.online_persona == draft.online_persona
                && r.private_persona == draft.private_persona
            &&& r.name == draft.name && r.primary_facet == draft.primary_facet
        }),
{
}

/// Discarding a section in a persona arena restores that bucket of the
/// saved persona (inheritance when none was saved) and leaves the base
/// profile as it was.
pub proof fn lemma_discard_persona_restores(
    sec: EditSectionId,
    facet: FacetKind,
    saved: PersonView,
    draft: PersonView,
)
    requires
        facet != draft.primary_facet,
        slot(draft, facet) is Some,
    ensures
        ({
            let r = discarded(sec, facet, saved, draft);
            let sm = mask_spec(saved, facet);
            &&& slot(r, facet) is Some
            &&& sec == EditSectionId::Ocean ==> slot(r, facet).unwrap().ocean == (match sm {
                Some(x) => x.ocean,
                None => None,
            })
            &&& sec == EditSectionId::Biases ==> slot(r, facet).unwrap().biases == (match sm {
                Some(x) => x.biases,
                None => None,
            })
            &&& r.ocean == draft.ocean && r.motivations == draft.motivations && r.biases
                == draft.biases && r.resilience == draft.resilience
        }),
{
}

/// An edit section not yet open is opened by a toggle and closed again by a
/// second toggle.
pub proof fn lemma_toggle_section_twice(v: Seq<EditSectionId>, t: EditSectionId)
    requires
        !v.contains(t),
    ensures
        v.push(t).contains(t),
        v.push(t).remove(v.len() as int) == v,
        forall|j: int| 0 <= j < v.len() ==> v.push(t)[j] != t,
{
    assert(v.push(t)[v.len() as int] == t);
    assert(v.push(t).remove(v.len() as int) =~= v);
}

/// Toggling one section in a list without repeats: that section changes
/// state, every other stays as it was, no section repeats, and without the
/// toggled section the list is the same, in the same order; a closed section
/// is appended.
proof fn lemma_toggle_once(v: Seq<EditSectionId>, t: EditSectionId)
    requires
        v.no_duplicates(),
    ensures
        toggled_sections(v, t).contains(t) == !v.contains(t),
        forall|x: EditSectionId| x != t ==> toggled_sections(v, t).contains(x) == v.contains(x),
        toggled_sections(v, t).no_duplicates(),
        toggled_sections(v, t).filter(|x: EditSectionId| x != t) == v.filter(|x: EditSectionId| x != t),
{
    let keep = |x: EditSectionId| x != t;
    let r = toggled_sections(v, t);
    if v.contains(t) {
        let w = choose|k: int| 0 <= k < v.len() && v[k] == t;
        assert(0 <= w < v.len() && v[w] == t && forall|j: int| 0 <= j < w ==> v[j] != t) by {
            assert forall|j: int| 0 <= j < w implies v[j] != t by {
                if v[j] == t {
                    assert(j != w);
                }
            }
        }
        let i = first_index_of(v, t);
        assert(0 <= i < v.len() && v[i] == t);
        let a = v.subrange(0, i);
        let b = v.subrange(i + 1, v.len() as int);
        assert(r == a + b);
        assert(forall|k: int| 0 <= k < i ==> #[trigger] r[k] == v[k]);
        assert(forall|k: int| i <= k < r.len() ==> #[trigger] r[k] == v[k + 1]);
        assert(!r.contains(t)) by {
            if r.contains(t) {
                let k = choose|k: int| 0 <= k < r.len() && r[k] == t;
                if k < i {
                    assert(v[k] == v[i]);
                } else {
                    assert(v[k + 1] == v[i]);
                }
            }
        }
        assert forall|x: EditSectionId| x != t implies r.contains(x) == v.contains(x) by {
            if v.contains(x) {
                let k = choose|k: int| 0 <= k < v.len() && v[k] == x;
                if k < i {
                    assert(r[k] == x);
                } else {
                    assert(k != i);
                    assert(r[k - 1] == x);
                }
            }
            if r.contains(x) {
                let k = choose|k: int| 0 <= k < r.len() && r[k] == x;
                if k < i {
                    assert(v[k] == x);
                } else {
                    assert(v[k + 1] == x);
                }
            }
        }
        assert forall|p: int, q: int| 0 <= p < r.len() && 0 <= q < r.len() && p != q implies r[p] != r[q] by {
            let pp = if p < i { p } else { p + 1 };
            let qq = if q < i { q } else { q + 1 };
            assert(r[p] == v[pp] && r[q] == v[qq]);
        }
        assert(v =~= a + seq![t] + b);
        Seq::filter_distributes_over_add(a + seq![t], b, keep);
        Seq::filter_distributes_over_add(a, seq![t], keep);
        Seq::filter_distributes_over_add(a, b, keep);
        assert(seq![t].filter(keep) =~= Seq::<EditSectionId>::empty()) by {
            reveal_with_fuel(Seq::filter, 2);
            assert(seq![t].drop_last() =~= Seq::<EditSectionId>::empty());
        }
        assert(a + Seq::<EditSectionId>::empty() =~= a);
        assert(a.filter(keep) + Seq::<EditSectionId>::empty() =~= a.filter(keep));
    } else {
        assert(r == v.push(t));
        assert(r[v.len() as int] == t);
        assert forall|x: EditSectionId| x != t implies r.contains(x) == v.contains(x) by {
            if v.contains(x) {
                let k = choose|k: int| 0 <= k < v.len() && v[k] == x;
                assert(r[k] == x);
            }
            if r.contains(x) {
                let k = choose|k: int| 0 <= k < r.len() && r[k] == x;
                assert(k < v.len());
                assert(v[k] == x);
            }
        }
        assert forall|p: int, q: int| 0 <= p < r.len() && 0 <= q < r.len() && p != q implies r[p] != r[q] by {
            if p == v.len() {
                assert(r[q] == v[q]);
            } else if q == v.len() {
                assert(r[p] == v[p]);
            } else {
                assert(r[p] == v[p] && r[q] == v[q]);
            }
        }
        v.lemma_filter_push(t, keep);
    }
}

/// Toggling a section in a list of open sections without repeats: the
/// section changes state and every other stays as it was; no section
/// repeats; without the toggled section the list is unchanged, in order; a
/// closed section is appended; and toggling the same section again gives
/// back the same open sections.
pub proof fn lemma_toggle_section_laws(v: Seq<EditSectionId>, t: EditSectionId)
    requires
        v.no_duplicates(),
    ensures
        toggled_sections(v, t).contains(t) == !v.contains(t),
        forall|x: EditSectionId| x != t ==> toggled_sections(v, t).contains(x) == v.contains(x),
        toggled_sections(v, t).no_duplicates(),
        toggled_sections(v, t).filter(|x: EditSectionId| x != t) == v.filter(|x: EditSectionId| x != t),
        !v.contains(t) ==> toggled_sections(v, t) == v.push(t),
        forall|x: EditSectionId|
            toggled_sections(toggled_sections(v, t), t).contains(x) == v.contains(x),
{
    lemma_toggle_once(v, t);
    lemma_toggle_once(toggled_sections(v, t), t);
}

/// Swapping two positions twice gives back the list.
pub proof fn lemma_swap_twice<T>(s: Seq<T>, i: usize, j: usize)
    requires
        i < s.len(),
        j < s.len(),
    ensures
        op_applied(op_applied(s, ListOp::Swap(i, j)), ListOp::Swap(i, j)) == s,
        op_applied(s, ListOp::Swap(i, j)).len() == s.len(),
{
    let t = op_applied(s, ListOp::Swap(i, j));
    assert(op_applied(t, ListOp::Swap(i, j)) =~= s);
}


/// What each list edit does: a push adds the item at the end; a
/// replacement puts the item at an existing position (and changes nothing
/// past the end); a removal closes the gap; a swap exchanges the items at
/// its two positions, adjacent or not. No other position changes.
pub proof fn lemma_list_op_effects<T>(s: Seq<T>, op: ListOp<T>)
    requires
        op_applicable(s.len(), op),
    ensures
        ({
            let r = op_applied(s, op);
            match op {
                ListOp::Push(x) => r.len() == s.len() + 1 && r[s.len() as int] == x && forall|k: int|
                    0 <= k < s.len() ==> #[trigger] r[k] == s[k],
                ListOp::Replace(i, x) => r.len() == s.len() && (i < s.len() ==> r[i as int] == x) && forall|k: int|
                    0 <= k < s.len() && k != i ==> #[trigger] r[k] == s[k],
                ListOp::Remove(i) => r.len() == s.len() - 1 && (forall|k: int| 0 <= k < i ==> #[trigger] r[k] == s[k])
                    && forall|k: int| i <= k < r.len() ==> #[trigger] r[k] == s[k + 1],
                ListOp::Swap(i, j) => r.len() == s.len() && r[i as int] == s[j as int] && r[j as int] == s[i as int]
                    && forall|k: int| 0 <= k < s.len() && k != i && k != j ==> #[trigger] r[k] == s[k],
            }
        }),
{
}

/// The name a motivation is stored under: the name of its variant.
pub open spec fn motivation_stored_name(k: MotivationType) -> Seq<char> {
    match k {
        MotivationType::Power => "Power"@,
        MotivationType::Affiliation => "Affiliation"@,
        MotivationType::Security => "Security"@,
        MotivationType::Autonomy => "Autonomy"@,
        MotivationType::Recognition => "Recognition"@,
        MotivationType::Learning => "Learning"@,
        MotivationType::Helping => "Helping"@,
        MotivationType::Creativity => "Creativity"@,
        MotivationType::Fairness => "Fairness"@,
        MotivationType::Achievement => "Achievement"@,
    }
}

/// Every motivation is read back from the name it is stored under, and no
/// two of them share a name.
pub proof fn lemma_motivation_stored_name_reads_back(k: MotivationType, j: MotivationType)
    ensures
        motivation_named(motivation_stored_name(k)) == k,
        k != j ==> motivation_stored_name(k) != motivation_stored_name(j),
{
    reveal_strlit("Power");
    reveal_strlit("Affiliation");
    reveal_strlit("Security");
    reveal_strlit("Autonomy");
    reveal_strlit("Recognition");
    reveal_strlit("Learning");
    reveal_strlit("Helping");
    reveal_strlit("Creativity");
    reveal_strlit("Fairness");
    reveal_strlit("Achievement");
    assert("Power"@.len() == 5);
    assert("Affiliation"@.len() == 11);
    assert("Security"@.len() == 8);
    assert("Autonomy"@.len() == 8);
    assert("Recognition"@.len() == 11);
    assert("Learning"@.len() == 8);
    assert("Helping"@.len() == 7);
    assert("Creativity"@.len() == 10);
    assert("Fairness"@.len() == 8);
    assert("Achievement"@.len() == 11);
    assert("Affiliation"@[0] == 'A' && "Recognition"@[0] == 'R');
    assert("Affiliation"@[1] == 'f' && "Achievement"@[1] == 'c');
    assert("Security"@[0] == 'S' && "Autonomy"@[0] == 'A');
    assert("Security"@[0] == 'S' && "Learning"@[0] == 'L');
    assert("Security"@[0] == 'S' && "Fairness"@[0] == 'F');
    assert("Autonomy"@[0] == 'A' && "Learning"@[0] == 'L');
    assert("Autonomy"@[0] == 'A' && "Fairness"@[0] == 'F');
    assert("Recognition"@[0] == 'R' && "Achievement"@[0] == 'A');
    assert("Learning"@[0] == 'L' && "Fairness"@[0] == 'F');
}

/// The name a personal value is stored under: the name of its variant.
pub open spec fn value_stored_name(k: ValueType) -> Seq<char> {
    match k {
        ValueType::Family => "Family"@,
        ValueType::Health => "Health"@,
        ValueType::Wealth => "Wealth"@,
        ValueType::Stability => "Stability"@,
        ValueType::Adventure => "Adventure"@,
        ValueType::Community => "Community"@,
        ValueType::Knowledge => "Knowledge"@,
        ValueType::Faith => "Faith"@,
        ValueType::Loyalty => "Loyalty"@,
        ValueType::Career => "Career"@,
    }
}

/// Every personal value is read back from the name it is stored under, and no
/// two of them share a name.
pub proof fn lemma_value_stored_name_reads_back(k: ValueType, j: ValueType)
    ensures
        value_named(value_stored_name(k)) == k,
        k != j ==> value_stored_name(k) != value_stored_name(j),
{
    reveal_strlit("Family");
    reveal_strlit("Health");
    reveal_strlit("Wealth");
    reveal_strlit("Stability");
    reveal_strlit("Adventure");
    reveal_strlit("Community");
    reveal_strlit("Knowledge");
    reveal_strlit("Faith");
    reveal_strlit("Loyalty");
    reveal_strlit("Career");
    assert("Family"@.len() == 6);
    assert("Health"@.len() == 6);
    assert("Wealth"@.len() == 6);
    assert("Stability"@.len() == 9);
    assert("Adventure"@.len() == 9);
    assert("Community"@.len() == 9);
    assert("Knowledge"@.len() == 9);
    assert("Faith"@.len() == 5);
    assert("Loyalty"@.len() == 7);
    assert("Career"@.len() == 6);
    assert("Family"@[0] == 'F' && "Health"@[0] == 'H');
    assert("Family"@[0] == 'F' && "Wealth"@[0] == 'W');
    assert("Family"@[0] == 'F' && "Career"@[0] == 'C');
    assert("Health"@[0] == 'H' && "Wealth"@[0] == 'W');
    assert("Health"@[0] == 'H' && "Career"@[0] == 'C');
    assert("Wealth"@[0] == 'W' && "Career"@[0] == 'C');
    assert("Stability"@[0] == 'S' && "Adventure"@[0] == 'A');
    assert("Stability"@[0] == 'S' && "Community"@[0] == 'C');
    assert("Stability"@[0] == 'S' && "Knowledge"@[0] == 'K');
    assert("Adventure"@[0] == 'A' && "Community"@[0] == 'C');
    assert("Adventure"@[0] == 'A' && "Knowledge"@[0] == 'K');
    assert("Community"@[0] == 'C' && "Knowledge"@[0] == 'K');
}

/// The name a bias is stored under: the name of its variant.
pub open spec fn bias_stored_name(k: BiasType) -> Seq<char> {
    match k {
        BiasType::Anchoring => "Anchoring"@,
        BiasType::Availability => "Availability"@,
        BiasType::SunkCost => "SunkCost"@,
        BiasType::DunningKruger => "DunningKruger"@,
        BiasType::Impostor => "Impostor"@,
        BiasType::LossAversion => "LossAversion"@,
        BiasType::SocialProof => "SocialProof"@,
        BiasType::Authority => "Authority"@,
        BiasType::Recency => "Recency"@,
        BiasType::InGroup => "InGroup"@,
        BiasType::Favoritism => "Favoritism"@,
        BiasType::Confirmation => "Confirmation"@,
    }
}

/// Every bias is read back from the name it is stored under, and no
/// two of them share a name.
pub proof fn lemma_bias_stored_name_reads_back(k: BiasType, j: BiasType)
    ensures
        bias_named(bias_stored_name(k)) == k,
        k != j ==> bias_stored_name(k) != bias_stored_name(j),
{
    reveal_strlit("Anchoring");
    reveal_strlit("Availability");
    reveal_strlit("SunkCost");
    reveal_strlit("DunningKruger");
    reveal_strlit("Impostor");
    reveal_strlit("LossAversion");
    reveal_strlit("SocialProof");
    reveal_strlit("Authority");
    reveal_strlit("Recency");
    reveal_strlit("InGroup");
    reveal_strlit("Favoritism");
    reveal_strlit("Confirmation");
    assert("Anchoring"@.len() == 9);
    assert("Availability"@.len() == 12);
    assert("SunkCost"@.len() == 8);
    assert("DunningKruger"@.len() == 13);
    assert("Impostor"@.len() == 8);
    assert("LossAversion"@.len() == 12);
    assert("SocialProof"@.len() == 11);
    assert("Authority"@.len() == 9);
    assert("Recency"@.len() == 7);
    assert("InGroup"@.len() == 7);
    assert("Favoritism"@.len() == 10);
    assert("Confirmation"@.len() == 12);
    assert("Anchoring"@[1] == 'n' && "Authority"@[1] == 'u');
    assert("Availability"@[0] == 'A' && "LossAversion"@[0] == 'L');
    assert("Availability"@[0] == 'A' && "Confirmation"@[0] == 'C');
    assert("SunkCost"@[0] == 'S' && "Impostor"@[0] == 'I');
    assert("LossAversion"@[0] == 'L' && "Confirmation"@[0] == 'C');
    assert("Recency"@[0] == 'R' && "InGroup"@[0] == 'I');
}

/// The name a trigger is stored under: the name of its variant.
pub open spec fn trigger_stored_name(k: BehaviorTrigger) -> Seq<char> {
    match k {
        BehaviorTrigger::Conflict => "Conflict"@,
        BehaviorTrigger::Success => "Success"@,
        BehaviorTrigger::Uncertainty => "Uncertainty"@,
        BehaviorTrigger::Recognition => "Recognition"@,
        BehaviorTrigger::Threatened => "Threatened"@,
        BehaviorTrigger::Change => "Change"@,
        BehaviorTrigger::Feedback => "Feedback"@,
        BehaviorTrigger::Injustice => "Injustice"@,
        BehaviorTrigger::Stress => "Stress"@,
    }
}

/// Every trigger is read back from the name it is stored under, and no
/// two of them share a name.
pub proof fn lemma_trigger_stored_name_reads_back(k: BehaviorTrigger, j: BehaviorTrigger)
    ensures
        trigger_named(trigger_stored_name(k)) == k,
        k != j ==> trigger_stored_name(k) != trigger_stored_name(j),
{
    reveal_strlit("Conflict");
    reveal_strlit("Success");
    reveal_strlit("Uncertainty");
    reveal_strlit("Recognition");
    reveal_strlit("Threatened");
    reveal_strlit("Change");
    reveal_strlit("Feedback");
    reveal_strlit("Injustice");
    reveal_strlit("Stress");
    assert("Conflict"@.len() == 8);
    assert("Success"@.len() == 7);
    assert("Uncertainty"@.len() == 11);
    assert("Recognition"@.len() == 11);
    assert("Threatened"@.len() == 10);
    assert("Change"@.len() == 6);
    assert("Feedback"@.len() == 8);
    assert("Injustice"@.len() == 9);
    assert("Stress"@.len() == 6);
    assert("Conflict"@[0] == 'C' && "Feedback"@[0] == 'F');
    assert("Uncertainty"@[0] == 'U' && "Recognition"@[0] == 'R');
    assert("Change"@[0] == 'C' && "Stress"@[0] == 'S');
}

/// The name a style category is stored under: the name of its variant.
pub open spec fn style_category_stored_name(k: StyleCategory) -> Seq<char> {
    match k {
        StyleCategory::ConflictResolution => "ConflictResolution"@,
        StyleCategory::DecisionMaking => "DecisionMaking"@,
        StyleCategory::Leadership => "Leadership"@,
        StyleCategory::TimeOrientation => "TimeOrientation"@,
        StyleCategory::MoralFramework => "MoralFramework"@,
        StyleCategory::InterpersonalConduct => "InterpersonalConduct"@,
        StyleCategory::TrustStyle => "TrustStyle"@,
        StyleCategory::Communication => "Communication"@,
    }
}

/// Every style category is read back from the name it is stored under, and no
/// two of them share a name.
pub proof fn lemma_style_category_stored_name_reads_back(k: StyleCategory, j: StyleCategory)
    ensures
        style_category_named(style_category_stored_name(k)) == k,
        k != j ==> style_category_stored_name(k) != style_category_stored_name(j),
{
    reveal_strlit("ConflictResolution");
    reveal_strlit("DecisionMaking");
    reveal_strlit("Leadership");
    reveal_strlit("TimeOrientation");
    reveal_strlit("MoralFramework");
    reveal_strlit("InterpersonalConduct");
    reveal_strlit("TrustStyle");
    reveal_strlit("Communication");
    assert("ConflictResolution"@.len() == 18);
    assert("DecisionMaking"@.len() == 14);
    assert("Leadership"@.len() == 10);
    assert("TimeOrientation"@.len() == 15);
    assert("MoralFramework"@.len() == 14);
    assert("InterpersonalConduct"@.len() == 20);
    assert("TrustStyle"@.len() == 10);
    assert("Communication"@.len() == 13);
    assert("DecisionMaking"@[0] == 'D' && "MoralFramework"@[0] == 'M');
    assert("Leadership"@[0] == 'L' && "TrustStyle"@[0] == 'T');
}

} // verus!

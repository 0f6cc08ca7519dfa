use vstd::prelude::*;
use crate::compare::{
    compare_analysis, or_note, raw_frictions, raw_strategies, raw_synergies, Analysis, Note,
    PairProfile, Pole, Side,
};
use crate::model::{dim_index, RepDim};

verus! {

/// The language the comparison is written in.
#[derive(Clone, Copy, Debug, PartialEq, Eq, Structural)]
pub enum Lang {
    En,
    Fr,
}

/// The words the comparison quotes, in the language it is written in: the
/// two names, the labels of the two top motivations, of the two top biases
/// and of the responses of the two first behavioural patterns, and the
/// labels of the two poles of each reputation dimension (high, low) in
/// display order.
pub struct NoteWords {
    pub a_name: String,
    pub b_name: String,
    pub a_motivation: String,
    pub b_motivation: String,
    pub a_bias: String,
    pub b_bias: String,
    pub a_response: String,
    pub b_response: String,
    pub rep_labels: Vec<(String, String)>,
}

/// The other side.
pub open spec fn other_side(s: Side) -> Side {
    match s {
        Side::A => Side::B,
        Side::B => Side::A,
    }
}

/// The name of the person on side `s`.
pub open spec fn name_of(w: NoteWords, s: Side) -> Seq<char> {
    match s {
        Side::A => w.a_name@,
        Side::B => w.b_name@,
    }
}

/// The label of one pole of a reputation dimension (empty when the table
/// has no row for it).
pub open spec fn rep_label(w: NoteWords, d: RepDim, pole: Pole) -> Seq<char> {
    let i = dim_index(d);
    if i < w.rep_labels@.len() {
        match pole {
            Pole::First => w.rep_labels@[i].0@,
            Pole::Second => w.rep_labels@[i].1@,
        }
    } else {
        Seq::empty()
    }
}

/// The sentence of a comparison note in `lang`, quoting `w`.
pub open spec fn note_sentence(n: Note, w: NoteWords, lang: Lang) -> Seq<char> {
        match n {
            Note::CreativeExecution { visionary } => if lang == Lang::Fr {
                name_of(w, visionary) + " apporte la vision créative, "@ + name_of(w, other_side(visionary)) + " assure l'exécution rigoureuse"@
            } else {
                name_of(w, visionary) + " brings creative vision, "@ + name_of(w, other_side(visionary)) + " ensures rigorous execution"@
            },
            Note::SimilarOcean => if lang == Lang::Fr {
                "Profils OCEAN très proches — communication fluide et attentes alignées"@
            } else {
                "Very similar OCEAN profiles — smooth communication and aligned expectations"@
            },
            Note::DriveHarmony => if lang == Lang::Fr {
                "Extraversion et agréabilité se compensent : l'un conduit, l'autre harmonise"@
            } else {
                "Extraversion and agreeableness complement: one drives, one harmonizes"@
            },
            Note::ComplementaryMotivations => if lang == Lang::Fr {
                "Motivations complémentaires — "@ + w.a_motivation@ + " et "@ + w.b_motivation@ + " se renforcent mutuellement"@
            } else {
                "Complementary motivations — "@ + w.a_motivation@ + " and "@ + w.b_motivation@ + " reinforce each other"@
            },
            Note::CompetingMotivations => if lang == Lang::Fr {
                "Motivations concurrentes — "@ + w.a_motivation@ + " et "@ + w.b_motivation@ + " peuvent créer des tensions"@
            } else {
                "Competing motivations — "@ + w.a_motivation@ + " and "@ + w.b_motivation@ + " may create tension"@
            },
            Note::SharedMotivation => if lang == Lang::Fr {
                "Motivation "@ + w.a_motivation@ + " partagée — même langage, mêmes priorités"@
            } else {
                "Shared "@ + w.a_motivation@ + " motivation — same language, same priorities"@
            },
            Note::AgreeablenessGap { low } => if lang == Lang::Fr {
                name_of(w, low) + " (faible A) peut sembler agressif pour "@ + name_of(w, other_side(low)) + " (haute A)"@
            } else {
                name_of(w, low) + " (low A) may seem aggressive to "@ + name_of(w, other_side(low)) + " (high A)"@
            },
            Note::StressReactivity { reactive } => if lang == Lang::Fr {
                name_of(w, reactive) + " plus réactif au stress que "@ + name_of(w, other_side(reactive)) + " — risque d'incompréhension"@
            } else {
                name_of(w, reactive) + " more reactive to stress than "@ + name_of(w, other_side(reactive)) + " — risk of misunderstanding"@
            },
            Note::RepAffinityHigh { dim } => if lang == Lang::Fr {
                "Tous deux "@ + rep_label(w, dim, Pole::First) + " — affinité naturelle"@
            } else {
                "Both "@ + rep_label(w, dim, Pole::First) + " — natural affinity"@
            },
            Note::RepAffinityLow { dim } => if lang == Lang::Fr {
                "Tous deux "@ + rep_label(w, dim, Pole::Second) + " — complicité inattendue"@
            } else {
                "Both "@ + rep_label(w, dim, Pole::Second) + " — unexpected camaraderie"@
            },
            Note::RepImbalance { dim, pole } => if lang == Lang::Fr {
                w.a_name@ + " plus "@ + rep_label(w, dim, pole) + " que "@ + w.b_name@ + " — déséquilibre sur ce trait"@
            } else {
                w.a_name@ + " more "@ + rep_label(w, dim, pole) + " than "@ + w.b_name@ + " — imbalance on this trait"@
            },
            Note::BiasClash => if lang == Lang::Fr {
                "Biais "@ + w.a_bias@ + " vs "@ + w.b_bias@ + " : désaccords sur les références de décision"@
            } else {
                "Bias "@ + w.a_bias@ + " vs "@ + w.b_bias@ + " : disagreements on decision references"@
            },
            Note::SameBias => if lang == Lang::Fr {
                "Même biais "@ + w.a_bias@ + " des deux côtés — angles morts renforcés"@
            } else {
                "Same "@ + w.a_bias@ + " bias on both sides — reinforced blind spots"@
            },
            Note::PatternResponses => if lang == Lang::Fr {
                "A réagit par «"@ + w.a_response@ + "» | B réagit par «"@ + w.b_response@ + "»"@
            } else {
                "A responds with «"@ + w.a_response@ + "» | B responds with «"@ + w.b_response@ + "»"@
            },
            Note::BothAdaptChange => if lang == Lang::Fr {
                "Tous deux s'adaptent au changement — organisation fluide"@
            } else {
                "Both adapt well to change — smooth transitions"@
            },
            Note::BothReceptiveFeedback => if lang == Lang::Fr {
                "Tous deux réceptifs aux retours — culture d'amélioration continue"@
            } else {
                "Both receptive to feedback — culture of continuous improvement"@
            },
            Note::BothCombative => if lang == Lang::Fr {
                "Tous deux conflictuels en situation tendue — risque d'escalade"@
            } else {
                "Both combative under tension — risk of escalation"@
            },
            Note::BothStressed => if lang == Lang::Fr {
                "Tous deux stressés sous pression — anxiété contagieuse"@
            } else {
                "Both stressed under pressure — contagious anxiety"@
            },
            Note::AdaptAndLearn => if lang == Lang::Fr {
                "L'un s'adapte, l'autre apprend — duo qui évolue ensemble"@
            } else {
                "One adapts, one learns — a duo that grows together"@
            },
            Note::ExtraversionGap => if lang == Lang::Fr {
                "Écart d'extraversion important — rythme social et besoin de stimulation différents"@
            } else {
                "Large extraversion gap — different social pace and stimulation needs"@
            },
            Note::NoSynergy => if lang == Lang::Fr {
                "Aucune synergie évidente détectée"@
            } else {
                "No obvious synergy detected"@
            },
            Note::NoFriction => if lang == Lang::Fr {
                "Aucun point de friction majeur identifié"@
            } else {
                "No major friction points identified"@
            },
            Note::PowerInitiative => if lang == Lang::Fr {
                "Donner des espaces d'initiative à la personne motivée par le pouvoir"@
            } else {
                "Give the power-driven person opportunities to take initiative"@
            },
            Note::PublicRecognition => if lang == Lang::Fr {
                "Reconnaître publiquement les contributions de chacun"@
            } else {
                "Publicly acknowledge each person's contributions"@
            },
            Note::StableFrameworks => if lang == Lang::Fr {
                "Fournir des cadres stables et des procédures claires"@
            } else {
                "Provide stable frameworks and clear procedures"@
            },
            Note::StructuredInfo => if lang == Lang::Fr {
                "Présenter les informations de manière structurée avec des données tangibles"@
            } else {
                "Present information in a structured way with tangible data"@
            },
            Note::Mediation => if lang == Lang::Fr {
                "En cas de conflit, privilégier la médiation — les deux parties chercheront l'harmonie"@
            } else {
                "In conflict, prioritize mediation — both parties will seek harmony"@
            },
            Note::Directness => if lang == Lang::Fr {
                "En cas de désaccord, aller droit au fait — les deux préfèrent la franchise"@
            } else {
                "When disagreeing, get straight to the point — both prefer directness"@
            },
            Note::SocialPace { more } => if lang == Lang::Fr {
                "Rythme social très différent — "@ + name_of(w, more) + " préfère plus d'échanges, "@ + name_of(w, other_side(more)) + " plus de calme"@
            } else {
                "Very different social pace — "@ + name_of(w, more) + " prefers more interaction, "@ + name_of(w, other_side(more)) + " more quiet time"@
            },
            Note::ConflictStyles => if lang == Lang::Fr {
                "Styles de conflit différents — l'un cherche l'harmonie, l'autre la franchise"@
            } else {
                "Different conflict styles — one seeks harmony, the other directness"@
            },
            Note::OrganizationLevels => if lang == Lang::Fr {
                "Niveaux d'organisation différents — adapter le niveau de détail et de structure"@
            } else {
                "Different organization levels — adjust detail and structure expectations"@
            },
            Note::MutualTriggering => if lang == Lang::Fr {
                "Risque de déclenchement mutuel — leurs réactions au stress s'amplifient (A: "@ + w.a_response@ + " | B: "@ + w.b_response@ + ")"@
            } else {
                "Risk of mutual triggering — their stress responses amplify each other (A: "@ + w.a_response@ + " | B: "@ + w.b_response@ + ")"@
            },
            Note::BehavioralComplementarity => if lang == Lang::Fr {
                "Complémentarité comportementale — leurs réactions s'équilibrent (A: "@ + w.a_response@ + " | B: "@ + w.b_response@ + ")"@
            } else {
                "Natural behavioral complementarity — their responses balance each other (A: "@ + w.a_response@ + " | B: "@ + w.b_response@ + ")"@
            },
            Note::OpenCommunication => if lang == Lang::Fr {
                "Communiquer ouvertement et observer les réactions"@
            } else {
                "Communicate openly and observe reactions"@
            },
        }
}

/// The sentences of a list of notes, in order.
pub open spec fn sentences_of(notes: Seq<Note>, w: NoteWords, lang: Lang) -> Seq<Seq<char>> {
    notes.map_values(|n: Note| note_sentence(n, w, lang))
}

fn flip(s: Side) -> (r: Side)
    ensures
        r == other_side(s),
{
    match s {
        Side::A => Side::B,
        Side::B => Side::A,
    }
}

fn side_name(w: &NoteWords, s: Side) -> (r: &str)
    ensures
        r@ == name_of(*w, s),
{
    match s {
        Side::A => w.a_name.as_str(),
        Side::B => w.b_name.as_str(),
    }
}

fn rep_dim_index(d: RepDim) -> (r: usize)
    ensures
        r == dim_index(d),
{
    match d {
        RepDim::HardworkerLazy => 0,
        RepDim::AuthoritativeSubmissive => 1,
        RepDim::HonestDeceitful => 2,
        RepDim::ReliableFlaky => 3,
        RepDim::HumbleArrogant => 4,
        RepDim::CalmReactive => 5,
        RepDim::DiplomaticBlunt => 6,
        RepDim::GenerousSelfish => 7,
        RepDim::FairFavoritism => 8,
        RepDim::TrustingSuspicious => 9,
        RepDim::AssertivePassive => 10,
        RepDim::EmpatheticDetached => 11,
        RepDim::AdaptableRigid => 12,
    }
}

fn rep_label_text(w: &NoteWords, d: RepDim, pole: Pole) -> (r: &str)
    ensures
        r@ == rep_label(*w, d, pole),
{
    let i = rep_dim_index(d);
    if i < w.rep_labels.len() {
        match pole {
            Pole::First => w.rep_labels[i].0.as_str(),
            Pole::Second => w.rep_labels[i].1.as_str(),
        }
    } else {
        proof {
            reveal_strlit("");
        }
        ""
    }
}

fn join3(x0: &str, x1: &str, x2: &str) -> (r: String)
    ensures
        r@ == x0@ + x1@ + x2@,
{
    let mut s = String::from_str(x0);
    s.append(x1);
    s.append(x2);
    s
}

fn join4(x0: &str, x1: &str, x2: &str, x3: &str) -> (r: String)
    ensures
        r@ == x0@ + x1@ + x2@ + x3@,
{
    let mut s = String::from_str(x0);
    s.append(x1);
    s.append(x2);
    s.append(x3);
    s
}

fn join5(x0: &str, x1: &str, x2: &str, x3: &str, x4: &str) -> (r: String)
    ensures
        r@ == x0@ + x1@ + x2@ + x3@ + x4@,
{
    let mut s = String::from_str(x0);
    s.append(x1);
    s.append(x2);
    s.append(x3);
    s.append(x4);
    s
}

fn join6(x0: &str, x1: &str, x2: &str, x3: &str, x4: &str, x5: &str) -> (r: String)
    ensures
        r@ == x0@ + x1@ + x2@ + x3@ + x4@ + x5@,
{
    let mut s = String::from_str(x0);
    s.append(x1);
    s.append(x2);
    s.append(x3);
    s.append(x4);
    s.append(x5);
    s
}

/// The sentence of a comparison note in English or French, with the names
/// and labels of `w`.
pub fn note_text(n: Note, w: &NoteWords, lang: Lang) -> (r: String)
    ensures
        r@ == note_sentence(n, *w, lang),
{
    match n {
        Note::CreativeExecution { visionary } => if lang == Lang::Fr {
            join4(side_name(w, visionary), " apporte la vision créative, ", side_name(w, flip(visionary)), " assure l'exécution rigoureuse")
        } else {
            join4(side_name(w, visionary), " brings creative vision, ", side_name(w, flip(visionary)), " ensures rigorous execution")
        },
        Note::SimilarOcean => if lang == Lang::Fr {
            String::from_str("Profils OCEAN très proches — communication fluide et attentes alignées")
        } else {
            String::from_str("Very similar OCEAN profiles — smooth communication and aligned expectations")
        },
        Note::DriveHarmony => if lang == Lang::Fr {
            String::from_str("Extraversion et agréabilité se compensent : l'un conduit, l'autre harmonise")
        } else {
            String::from_str("Extraversion and agreeableness complement: one drives, one harmonizes")
        },
        Note::ComplementaryMotivations => if lang == Lang::Fr {
            join5("Motivations complémentaires — ", w.a_motivation.as_str(), " et ", w.b_motivation.as_str(), " se renforcent mutuellement")
        } else {
            join5("Complementary motivations — ", w.a_motivation.as_str(), " and ", w.b_motivation.as_str(), " reinforce each other")
        },
        Note::CompetingMotivations => if lang == Lang::Fr {
            join5("Motivations concurrentes — ", w.a_motivation.as_str(), " et ", w.b_motivation.as_str(), " peuvent créer des tensions")
        } else {
            join5("Competing motivations — ", w.a_motivation.as_str(), " and ", w.b_motivation.as_str(), " may create tension")
        },
        Note::SharedMotivation => if lang == Lang::Fr {
            join3("Motivation ", w.a_motivation.as_str(), " partagée — même langage, mêmes priorités")
        } else {
            join3("Shared ", w.a_motivation.as_str(), " motivation — same language, same priorities")
        },
        Note::AgreeablenessGap { low } => if lang == Lang::Fr {
            join4(side_name(w, low), " (faible A) peut sembler agressif pour ", side_name(w, flip(low)), " (haute A)")
        } else {
            join4(side_name(w, low), " (low A) may seem aggressive to ", side_name(w, flip(low)), " (high A)")
        },
        Note::StressReactivity { reactive } => if lang == Lang::Fr {
            join4(side_name(w, reactive), " plus réactif au stress que ", side_name(w, flip(reactive)), " — risque d'incompréhension")
        } else {
            join4(side_name(w, reactive), " more reactive to stress than ", side_name(w, flip(reactive)), " — risk of misunderstanding")
        },
        Note::RepAffinityHigh { dim } => if lang == Lang::Fr {
            join3("Tous deux ", rep_label_text(w, dim, Pole::First), " — affinité naturelle")
        } else {
            join3("Both ", rep_label_text(w, dim, Pole::First), " — natural affinity")
        },
        Note::RepAffinityLow { dim } => if lang == Lang::Fr {
            join3("Tous deux ", rep_label_text(w, dim, Pole::Second), " — complicité inattendue")
        } else {
            join3("Both ", rep_label_text(w, dim, Pole::Second), " — unexpected camaraderie")
        },
        Note::RepImbalance { dim, pole } => if lang == Lang::Fr {
            join6(w.a_name.as_str(), " plus ", rep_label_text(w, dim, pole), " que ", w.b_name.as_str(), " — déséquilibre sur ce trait")
        } else {
            join6(w.a_name.as_str(), " more ", rep_label_text(w, dim, pole), " than ", w.b_name.as_str(), " — imbalance on this trait")
        },
        Note::BiasClash => if lang == Lang::Fr {
            join5("Biais ", w.a_bias.as_str(), " vs ", w.b_bias.as_str(), " : désaccords sur les références de décision")
        } else {
            join5("Bias ", w.a_bias.as_str(), " vs ", w.b_bias.as_str(), " : disagreements on decision references")
        },
        Note::SameBias => if lang == Lang::Fr {
            join3("Même biais ", w.a_bias.as_str(), " des deux côtés — angles morts renforcés")
        } else {
            join3("Same ", w.a_bias.as_str(), " bias on both sides — reinforced blind spots")
        },
        Note::PatternResponses => if lang == Lang::Fr {
            join5("A réagit par «", w.a_response.as_str(), "» | B réagit par «", w.b_response.as_str(), "»")
        } else {
            join5("A responds with «", w.a_response.as_str(), "» | B responds with «", w.b_response.as_str(), "»")
        },
        Note::BothAdaptChange => if lang == Lang::Fr {
            String::from_str("Tous deux s'adaptent au changement — organisation fluide")
        } else {
            String::from_str("Both adapt well to change — smooth transitions")
        },
        Note::BothReceptiveFeedback => if lang == Lang::Fr {
            String::from_str("Tous deux réceptifs aux retours — culture d'amélioration continue")
        } else {
            String::from_str("Both receptive to feedback — culture of continuous improvement")
        },
        Note::BothCombative => if lang == Lang::Fr {
            String::from_str("Tous deux conflictuels en situation tendue — risque d'escalade")
        } else {
            String::from_str("Both combative under tension — risk of escalation")
        },
        Note::BothStressed => if lang == Lang::Fr {
            String::from_str("Tous deux stressés sous pression — anxiété contagieuse")
        } else {
            String::from_str("Both stressed under pressure — contagious anxiety")
        },
        Note::AdaptAndLearn => if lang == Lang::Fr {
            String::from_str("L'un s'adapte, l'autre apprend — duo qui évolue ensemble")
        } else {
            String::from_str("One adapts, one learns — a duo that grows together")
        },
        Note::ExtraversionGap => if lang == Lang::Fr {
            String::from_str("Écart d'extraversion important — rythme social et besoin de stimulation différents")
        } else {
            String::from_str("Large extraversion gap — different social pace and stimulation needs")
        },
        Note::NoSynergy => if lang == Lang::Fr {
            String::from_str("Aucune synergie évidente détectée")
        } else {
            String::from_str("No obvious synergy detected")
        },
        Note::NoFriction => if lang == Lang::Fr {
            String::from_str("Aucun point de friction majeur identifié")
        } else {
            String::from_str("No major friction points identified")
        },
        Note::PowerInitiative => if lang == Lang::Fr {
            String::from_str("Donner des espaces d'initiative à la personne motivée par le pouvoir")
        } else {
            String::from_str("Give the power-driven person opportunities to take initiative")
        },
        Note::PublicRecognition => if lang == Lang::Fr {
            String::from_str("Reconnaître publiquement les contributions de chacun")
        } else {
            String::from_str("Publicly acknowledge each person's contributions")
        },
        Note::StableFrameworks => if lang == Lang::Fr {
            String::from_str("Fournir des cadres stables et des procédures claires")
        } else {
            String::from_str("Provide stable frameworks and clear procedures")
        },
        Note::StructuredInfo => if lang == Lang::Fr {
            String::from_str("Présenter les informations de manière structurée avec des données tangibles")
        } else {
            String::from_str("Present information in a structured way with tangible data")
        },
        Note::Mediation => if lang == Lang::Fr {
            String::from_str("En cas de conflit, privilégier la médiation — les deux parties chercheront l'harmonie")
        } else {
            String::from_str("In conflict, prioritize mediation — both parties will seek harmony")
        },
        Note::Directness => if lang == Lang::Fr {
            String::from_str("En cas de désaccord, aller droit au fait — les deux préfèrent la franchise")
        } else {
            String::from_str("When disagreeing, get straight to the point — both prefer directness")
        },
        Note::SocialPace { more } => if lang == Lang::Fr {
            join5("Rythme social très différent — ", side_name(w, more), " préfère plus d'échanges, ", side_name(w, flip(more)), " plus de calme")
        } else {
            join5("Very different social pace — ", side_name(w, more), " prefers more interaction, ", side_name(w, flip(more)), " more quiet time")
        },
        Note::ConflictStyles => if lang == Lang::Fr {
            String::from_str("Styles de conflit différents — l'un cherche l'harmonie, l'autre la franchise")
        } else {
            String::from_str("Different conflict styles — one seeks harmony, the other directness")
        },
        Note::OrganizationLevels => if lang == Lang::Fr {
            String::from_str("Niveaux d'organisation différents — adapter le niveau de détail et de structure")
        } else {
            String::from_str("Different organization levels — adjust detail and structure expectations")
        },
        Note::MutualTriggering => if lang == Lang::Fr {
            join5("Risque de déclenchement mutuel — leurs réactions au stress s'amplifient (A: ", w.a_response.as_str(), " | B: ", w.b_response.as_str(), ")")
        } else {
            join5("Risk of mutual triggering — their stress responses amplify each other (A: ", w.a_response.as_str(), " | B: ", w.b_response.as_str(), ")")
        },
        Note::BehavioralComplementarity => if lang == Lang::Fr {
            join5("Complémentarité comportementale — leurs réactions s'équilibrent (A: ", w.a_response.as_str(), " | B: ", w.b_response.as_str(), ")")
        } else {
            join5("Natural behavioral complementarity — their responses balance each other (A: ", w.a_response.as_str(), " | B: ", w.b_response.as_str(), ")")
        },
        Note::OpenCommunication => if lang == Lang::Fr {
            String::from_str("Communiquer ouvertement et observer les réactions")
        } else {
            String::from_str("Communicate openly and observe reactions")
        },
    }
}

/// The sentences of a list of notes, in order.
pub fn note_texts(notes: &Vec<Note>, w: &NoteWords, lang: Lang) -> (r: Vec<String>)
    ensures
        r@.len() == notes@.len(),
        forall|i: int| 0 <= i < notes@.len() ==> #[trigger] r@[i]@ == note_sentence(notes@[i], *w, lang),
{
    let mut out: Vec<String> = Vec::new();
    let mut i: usize = 0;
    while i < notes.len()
        invariant
            i <= notes@.len(),
            out@.len() == i,
            forall|k: int| 0 <= k < i ==> #[trigger] out@[k]@ == note_sentence(notes@[k], *w, lang),
        decreases notes@.len() - i,
    {
        out.push(note_text(notes[i], w, lang));
        i = i + 1;
    }
    out
}

/// The comparison of two people as the page shows it: the synergy and
/// friction sentences, and the headline strategy with every strategy
/// sentence, each list in the order of the analysis (see
/// `compare_analysis`), written in `lang` with the names and labels of `w`.
pub fn compare_texts(p: &PairProfile, w: &NoteWords, lang: Lang) -> (r: (
    Vec<String>,
    Vec<String>,
    (String, Vec<String>),
))
    ensures
        r.0@.len() == or_note(raw_synergies(*p), Note::NoSynergy).len(),
        forall|i: int|
            0 <= i < r.0@.len() ==> #[trigger] r.0@[i]@ == note_sentence(
                or_note(raw_synergies(*p), Note::NoSynergy)[i],
                *w,
                lang,
            ),
        r.1@.len() == or_note(raw_frictions(*p), Note::NoFriction).len(),
        forall|i: int|
            0 <= i < r.1@.len() ==> #[trigger] r.1@[i]@ == note_sentence(
                or_note(raw_frictions(*p), Note::NoFriction)[i],
                *w,
                lang,
            ),
        r.2.1@.len() == or_note(raw_strategies(*p), Note::OpenCommunication).len(),
        forall|i: int|
            0 <= i < r.2.1@.len() ==> #[trigger] r.2.1@[i]@ == note_sentence(
                or_note(raw_strategies(*p), Note::OpenCommunication)[i],
                *w,
                lang,
            ),
        r.2.0@ == note_sentence(or_note(raw_strategies(*p), Note::OpenCommunication)[0], *w, lang),
{
    let an: Analysis = compare_analysis(p);
    let syn = note_texts(&an.synergies, w, lang);
    let fri = note_texts(&an.frictions, w, lang);
    let strs = note_texts(&an.strategies, w, lang);
    let top = note_text(an.top_strategy, w, lang);
    (syn, fri, (top, strs))
}

} // verus!

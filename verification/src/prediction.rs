use vstd::prelude::*;
use chrono::DateTime;
use crate::text::{decimal, push_decimal, text_eq};

verus! {

/// A forecast of how a person will act in some situation, later resolved
/// with the actual outcome and an accuracy grade out of 10.
pub struct Prediction {
    pub id: String,
    pub person_id: String,
    pub context: String,
    pub predicted_outcome: String,
    pub actual_outcome: Option<String>,
    pub accuracy: Option<u8>,
    pub created_at: i64,
    pub resolved_at: Option<i64>,
    pub resolved: bool,
}

/// Whether a new prediction lacks its situation or its forecast, in which
/// case it is not added.
pub fn should_skip_add(ctx: &str, predicted: &str) -> (r: bool)
    ensures
        r == (ctx@.len() == 0 || predicted@.len() == 0),
{
    ctx.is_empty() || predicted.is_empty()
}

/// Whether a prediction is about the person `pid`.
pub fn matches_person(pred: &Prediction, pid: &str) -> (r: bool)
    ensures
        r == (pred.person_id@ == pid@),
{
    text_eq(pred.person_id.as_str(), pid)
}

/// The predictions kept by a person filter, in their original order.
pub open spec fn kept(preds: Seq<Prediction>, filter: Option<Seq<char>>) -> Seq<Prediction>
    decreases preds.len(),
{
    if preds.len() == 0 {
        Seq::empty()
    } else {
        let prev = kept(preds.drop_last(), filter);
        match filter {
            Some(pid) => if preds.last().person_id@ == pid {
                prev.push(preds.last())
            } else {
                prev
            },
            None => prev.push(preds.last()),
        }
    }
}

/// A person filter keeps only that person's predictions, and keeps all of
/// them; without a filter every prediction is kept.
pub proof fn lemma_filter_exact(preds: Seq<Prediction>, pid: Seq<char>)
    ensures
        forall|k: int| 0 <= k < kept(preds, Some(pid)).len() ==> (#[trigger] kept(
            preds,
            Some(pid),
        )[k]).person_id@ == pid,
        forall|i: int|
            0 <= i < preds.len() && (#[trigger] preds[i]).person_id@ == pid ==> kept(
                preds,
                Some(pid),
            ).contains(preds[i]),
        kept(preds, None) == preds,
    decreases preds.len(),
{
    if preds.len() > 0 {
        let prev = preds.drop_last();
        lemma_filter_exact(prev, pid);
        let w = kept(prev, Some(pid));
        assert forall|k: int| 0 <= k < kept(preds, Some(pid)).len() implies (#[trigger] kept(
            preds,
            Some(pid),
        )[k]).person_id@ == pid by {
            if k < w.len() {
                assert(kept(preds, Some(pid))[k] == w[k]);
            }
        }
        assert forall|i: int|
            0 <= i < preds.len() && (#[trigger] preds[i]).person_id@ == pid implies kept(
                preds,
                Some(pid),
            ).contains(preds[i]) by {
            if i < preds.len() - 1 {
                assert(prev[i] == preds[i]);
                let j = choose|j: int| 0 <= j < w.len() && w[j] == preds[i];
                assert(kept(preds, Some(pid))[j] == preds[i]);
            } else {
                assert(kept(preds, Some(pid))[w.len() as int] == preds[i]);
            }
        }
        assert(kept(preds, None) =~= preds);
    } else {
        assert(kept(preds, None) =~= preds);
    }
}

/// The predictions a list shows: all of them without a person filter,
/// otherwise those about the filtered person, in their original order.
pub fn filter_predictions(predictions: Vec<Prediction>, person_filter: Option<&str>) -> (r: Vec<
    Prediction,
>)
    ensures
        r@ == kept(
            predictions@,
            match person_filter {
                Some(p) => Some(p@),
                None => None,
            },
        ),
{
    let ghost all = predictions@;
    let ghost filter = match person_filter {
        Some(p) => Some(p@),
        None => None,
    };
    let mut rest = predictions;
    let total = rest.len();
    let mut out: Vec<Prediction> = Vec::new();
    let mut i: usize = 0;
    assert(all.subrange(0, 0) =~= Seq::<Prediction>::empty());
    while rest.len() > 0
        invariant
            i + rest@.len() == all.len(),
            all.len() == total,
            rest@ == all.subrange(i as int, all.len() as int),
            out@ == kept(all.subrange(0, i as int), filter),
            filter == (match person_filter {
                Some(p) => Some(p@),
                None => None,
            }),
        decreases rest@.len(),
    {
        let p = rest.remove(0);
        let ghost prefix = all.subrange(0, i as int);
        let ghost next = all.subrange(0, i + 1);
        assert(next.drop_last() =~= prefix);
        assert(next.last() == p);
        let keep = match person_filter {
            Some(pid) => matches_person(&p, pid),
            None => true,
        };
        if keep {
            out.push(p);
        }
        i = i + 1;
    }
    assert(all.subrange(0, i as int) =~= all);
    out
}

/// A new, unresolved prediction about `person_id`; `None` when the situation
/// or the forecast is empty.
pub fn new_prediction(
    id: String,
    person_id: String,
    context: String,
    predicted_outcome: String,
    created_at: i64,
) -> (r: Option<Prediction>)
    ensures
        (context@.len() == 0 || predicted_outcome@.len() == 0) <==> r is None,
        r matches Some(p) ==> p.id == id && p.person_id == person_id && p.context == context
            && p.predicted_outcome == predicted_outcome && p.actual_outcome is None
            && p.accuracy is None && p.created_at == created_at && p.resolved_at is None
            && !p.resolved,
{
    if should_skip_add(context.as_str(), predicted_outcome.as_str()) {
        return None;
    }
    Some(
        Prediction {
            id,
            person_id,
            context,
            predicted_outcome,
            actual_outcome: None,
            accuracy: None,
            created_at,
            resolved_at: None,
            resolved: false,
        },
    )
}

/// Resolves a prediction with what actually happened and an accuracy grade;
/// `None` (nothing to save) when the actual outcome is empty.
pub fn resolve_prediction(pred: Prediction, actual: String, accuracy: u8, resolved_at: i64) -> (r:
    Option<Prediction>)
    ensures
        actual@.len() == 0 <==> r is None,
        r matches Some(p) ==> p.id == pred.id && p.person_id == pred.person_id && p.context
            == pred.context && p.predicted_outcome == pred.predicted_outcome && p.actual_outcome
            == Some(actual) && p.accuracy == Some(accuracy) && p.created_at == pred.created_at
            && p.resolved_at == Some(resolved_at) && p.resolved,
{
    if actual.as_str().is_empty() {
        return None;
    }
    let mut p = pred;
    p.actual_outcome = Some(actual);
    p.accuracy = Some(accuracy);
    p.resolved = true;
    p.resolved_at = Some(resolved_at);
    Some(p)
}

/// The recorded outcome of a prediction, or "N/A".
pub fn outcome_text(pred: &Prediction) -> (r: String)
    ensures
        r@ == (match pred.actual_outcome {
            Some(a) => a@,
            None => "N/A"@,
        }),
{
    match &pred.actual_outcome {
        Some(a) => a.clone(),
        None => String::from_str("N/A"),
    }
}

/// The accuracy line of a prediction: "label: n/10", or nothing when it has
/// no grade.
pub fn accuracy_text(label: &str, accuracy: Option<u8>) -> (r: String)
    ensures
        r@ == (match accuracy {
            Some(a) => label@ + ": "@ + decimal(a as nat) + "/10"@,
            None => Seq::<char>::empty(),
        }),
{
    match accuracy {
        Some(a) => {
            let mut s = String::from_str(label);
            s.append(": ");
            push_decimal(&mut s, a);
            s.append("/10");
            s
        },
        None => String::new(),
    }
}

/// The first instant chrono's `DateTime<Utc>` holds, in milliseconds since
/// the Unix epoch: the start of January 1, 262144 BCE.
pub const CHRONO_MIN_MILLIS: i64 = -8_334_601_228_800_000;

/// The last instant chrono's `DateTime<Utc>` holds, in milliseconds since
/// the Unix epoch: the end of December 31, 262142 CE.
pub const CHRONO_MAX_MILLIS: i64 = 8_210_266_876_799_999;

/// Whether chrono can represent the instant `ms` milliseconds after the Unix
/// epoch (`DateTime::from_timestamp_millis` gives `None` past its range).
pub open spec fn chrono_millis_representable(ms: int) -> bool {
    CHRONO_MIN_MILLIS <= ms <= CHRONO_MAX_MILLIS
}

/// The proleptic Gregorian calendar date (year, month, day) of the day
/// `days` days after January 1, 1970.
pub open spec fn civil_date(days: int) -> (int, int, int) {
    let z = days + 719468;
    let era = z / 146097;
    let doe = z - era * 146097;
    let yoe = (doe - doe / 1460 + doe / 36524 - doe / 146096) / 365;
    let doy = doe - (365 * yoe + yoe / 4 - yoe / 100);
    let mp = (5 * doy + 2) / 153;
    let d = doy - (153 * mp + 2) / 5 + 1;
    let m = if mp < 10 { mp + 3 } else { mp - 9 };
    let y = yoe + era * 400 + if m <= 2 { 1int } else { 0 };
    (y, m, d)
}

/// The decimal notation of `n`, padded with leading zeros to `width` digits.
pub open spec fn zero_padded(n: nat, width: nat) -> Seq<char>
    decreases width,
{
    if decimal(n).len() >= width || width == 0 {
        decimal(n)
    } else {
        "0"@ + zero_padded(n, (width - 1) as nat)
    }
}

/// A year as chrono's "%Y" writes it: four digits from 0 to 9999, otherwise
/// a sign and at least four digits.
pub open spec fn year_text(y: int) -> Seq<char> {
    if 0 <= y <= 9999 {
        zero_padded(y as nat, 4)
    } else if y > 9999 {
        "+"@ + decimal(y as nat)
    } else {
        "-"@ + zero_padded((-y) as nat, 4)
    }
}

/// The UTC calendar date, as chrono writes it with the pattern "%Y-%m-%d",
/// of the instant `ms` milliseconds after the Unix epoch: the year, then the
/// month and the day on two digits each.
pub open spec fn utc_date_text(ms: int) -> Seq<char> {
    let (y, m, d) = civil_date(ms / 86_400_000);
    year_text(y) + "-"@ + zero_padded(m as nat, 2) + "-"@ + zero_padded(d as nat, 2)
}

/// Calls chrono's `DateTime::from_timestamp_millis`, takes the naive UTC
/// date and time of the result and formats it with "%Y-%m-%d". Trusted:
/// there is a result exactly when the instant lies in chrono's range (years
/// 262144 BCE to 262142 CE, as its `MIN_YEAR`/`MAX_YEAR` bounds give), and
/// its text is the UTC calendar date of `ms` written as chrono's "%Y-%m-%d"
/// writes it (its `write_year` and two-digit month and day).
#[verifier::external_body]
fn utc_date_of_millis(ms: i64) -> (r: Option<String>)
    ensures
        r is Some <==> chrono_millis_representable(ms as int),
        r matches Some(s) ==> s@ == utc_date_text(ms as int),
{
    match DateTime::from_timestamp_millis(ms) {
        Some(d) => Some(d.naive_utc().format("%Y-%m-%d").to_string()),
        None => None,
    }
}

/// The date shown for a prediction: the formatted date, or "unknown" when
/// there is none.
pub fn date_or_unknown(date: Option<String>) -> (r: String)
    ensures
        r@ == (match date {
            Some(s) => s@,
            None => "unknown"@,
        }),
{
    match date {
        Some(s) => s,
        None => String::from_str("unknown"),
    }
}

/// The creation date of a prediction (a time in milliseconds since the
/// epoch) as "YYYY-MM-DD" in UTC, or "unknown" when it is out of range.
pub fn format_date(ts: i64) -> (r: String)
    ensures
        chrono_millis_representable(ts as int) ==> r@ == utc_date_text(ts as int),
        !chrono_millis_representable(ts as int) ==> r@ == "unknown"@,
{
    date_or_unknown(utc_date_of_millis(ts))
}

} // verus!

//! From a score to what the user sees.
//!
//! A score falls into one of three severity bands, set by a warning and a
//! danger threshold, and is shown in the colour of its band with two decimal
//! places. A failed prediction is shown as an error with its reason. The
//! status line shows where the pointer is in three coordinate systems.

use vstd::prelude::*;
use vstd::string::StringExecFns;
use vstd::string::StrSliceExecFns;
use crate::dispatch::GeoCoordinate;
use crate::dispatch::ScoringError;
use crate::input::CursorReadout;

verus! {

/// Number of score units that make a score of one.
pub const SCORE_SCALE: i64 = 1_000_000;

/// Number of coordinate units that make one degree.
pub const DEGREE_SCALE: i64 = 1_000_000;

/// Number of projected units that make one metre.
pub const METER_SCALE: i64 = 1000;

/// Scores above 150 are at least a warning.
pub const WARNING_CUTOFF: i64 = 150_000_000;

/// Scores above 200 mean danger.
pub const DANGER_CUTOFF: i64 = 200_000_000;

/// The band that a score falls into.
#[derive(Clone, Copy, Debug, PartialEq, Eq, Structural)]
pub enum Severity {
    Safe,
    Warning,
    Danger,
}

/// The band of `score` for the thresholds `warning` and `danger`: danger
/// above `danger`, else a warning above `warning`, else safe.
pub open spec fn severity(score: int, warning: int, danger: int) -> Severity {
    if score > danger {
        Severity::Danger
    } else if score > warning {
        Severity::Warning
    } else {
        Severity::Safe
    }
}

/// The colour in which a band is shown.
pub open spec fn color_name(band: Severity) -> Seq<char> {
    match band {
        Severity::Safe => "green"@,
        Severity::Warning => "orange"@,
        Severity::Danger => "red"@,
    }
}

/// The decimal digit `d` as a character.
pub open spec fn digit(d: int) -> char
    recommends
        0 <= d <= 9,
{
    "0123456789"@[d]
}

/// The decimal numeral of `n`, without leading zeros.
pub open spec fn decimal(n: nat) -> Seq<char>
    decreases n,
{
    if n < 10 {
        seq![digit(n as int)]
    } else {
        decimal(n / 10).push(digit((n % 10) as int))
    }
}

/// The magnitude of `value / scale` in hundredths, rounded to the nearest
/// hundredth, halves away from zero.
pub open spec fn hundredths(value: int, scale: int) -> nat
    recommends
        scale > 0,
{
    let magnitude = if value < 0 {
        -value
    } else {
        value
    };
    ((200 * magnitude + scale) / (2 * scale)) as nat
}

/// The numeral of `value / scale` with two decimal places: a minus sign if
/// `value` is negative, the whole part, a point and two digits.
pub open spec fn fixed2(value: int, scale: int) -> Seq<char>
    recommends
        scale > 0,
{
    let h = hundredths(value, scale);
    let sign = if value < 0 {
        "-"@
    } else {
        Seq::<char>::empty()
    };
    sign + decimal(h / 100) + "."@ + seq![digit((h / 10 % 10) as int), digit((h % 10) as int)]
}

/// The reason of a failed prediction, as shown to the user.
pub open spec fn reason(error: ScoringError) -> Seq<char> {
    match error {
        ScoringError::NoModel => "NoModelError"@,
        ScoringError::Backend(text) => text@,
    }
}

/// The markup that shows the outcome of a prediction.
pub open spec fn prediction_text(pred: Result<i64, ScoringError>) -> Seq<char> {
    match pred {
        Ok(score) => "Prediction: <span color=\""@ + color_name(
            severity(score as int, WARNING_CUTOFF as int, DANGER_CUTOFF as int),
        ) + "\" size=\"x-large\">"@ + fixed2(score as int, SCORE_SCALE as int) + "</span>"@,
        Err(error) => "<span color=\"red\" size=\"x-large\">\u{e2}\u{161}\u{a0} Error:</span> "@
            + reason(error),
    }
}

/// The status line for a pointer at `cursor` that lies over `lonlat`.
pub open spec fn status_text(cursor: CursorReadout, lonlat: GeoCoordinate) -> Seq<char> {
    "ABS: ("@ + fixed2(cursor.image@.x, cursor.image@.scale) + ", "@ + fixed2(
        cursor.image@.y,
        cursor.image@.scale,
    ) + "), MERC: ("@ + fixed2(cursor.meters.0 as int, METER_SCALE as int) + ", "@ + fixed2(
        cursor.meters.1 as int,
        METER_SCALE as int,
    ) + "), LON/LAT: ("@ + fixed2(lonlat.longitude as int, DEGREE_SCALE as int) + ", "@ + fixed2(
        lonlat.latitude as int,
        DEGREE_SCALE as int,
    ) + ")"@
}

/// For ordered thresholds the bands are: safe up to and including `warning`,
/// a warning above it up to and including `danger`, danger above that.
pub proof fn lemma_severity_bands(score: int, warning: int, danger: int)
    requires
        warning < danger,
    ensures
        severity(score, warning, danger) == Severity::Safe <==> score <= warning,
        severity(score, warning, danger) == Severity::Warning <==> warning < score <= danger,
        severity(score, warning, danger) == Severity::Danger <==> score > danger,
{
}

/// The markup of a failed prediction is never the markup of a score.
pub proof fn lemma_error_text_is_no_score_text(error: ScoringError, score: i64)
    ensures
        prediction_text(Err(error)) != prediction_text(Ok(score)),
{
    reveal_strlit("Prediction: <span color=\"");
    reveal_strlit("<span color=\"red\" size=\"x-large\">\u{e2}\u{161}\u{a0} Error:</span> ");
    let bad = prediction_text(Err(error));
    let good = prediction_text(Ok(score));
    assert(bad[0] == '<');
    assert(good[0] == 'P');
}

/// Sorts a score into its band.
pub fn classify(score: i64, warning: i64, danger: i64) -> (band: Severity)
    ensures
        band == severity(score as int, warning as int, danger as int),
{
    if score > danger {
        Severity::Danger
    } else if score > warning {
        Severity::Warning
    } else {
        Severity::Safe
    }
}

/// The colour of a band.
fn color(band: Severity) -> (name: &'static str)
    ensures
        name@ == color_name(band),
{
    match band {
        Severity::Safe => "green",
        Severity::Warning => "orange",
        Severity::Danger => "red",
    }
}

/// Appends one decimal digit.
fn push_digit(out: &mut String, d: u8)
    requires
        d <= 9,
    ensures
        final(out)@ == old(out)@.push(digit(d as int)),
{
    proof {
        reveal_strlit("0123456789");
    }
    let digits = "0123456789";
    let one = digits.substring_ascii(d as usize, d as usize + 1);
    assert(one@ =~= seq![digit(d as int)]);
    out.append(one);
}

/// Appends the decimal numeral of `n`.
fn push_decimal(out: &mut String, n: u128)
    ensures
        final(out)@ == old(out)@ + decimal(n as nat),
{
    let mut low: Vec<u8> = Vec::new();
    let mut rest: u128 = n;
    let ghost mut tail: Seq<char> = Seq::empty();
    while rest >= 10
        invariant
            decimal(n as nat) == decimal(rest as nat) + tail,
            tail.len() == low.len(),
            forall|j: int| 0 <= j < low.len() ==> low[j] <= 9,
            forall|j: int|
                0 <= j < low.len() ==> #[trigger] tail[j] == digit(low[low.len() - 1 - j] as int),
        decreases rest,
    {
        let d: u8 = (rest % 10) as u8;
        proof {
            assert(decimal(rest as nat) == decimal((rest / 10) as nat).push(digit(d as int)));
            assert(decimal((rest / 10) as nat).push(digit(d as int)) + tail =~= decimal(
                (rest / 10) as nat,
            ) + (seq![digit(d as int)] + tail));
            tail = seq![digit(d as int)] + tail;
        }
        low.push(d);
        rest = rest / 10;
    }
    push_digit(out, rest as u8);
    let mut i: usize = low.len();
    while i > 0
        invariant
            i <= low.len(),
            tail.len() == low.len(),
            forall|j: int| 0 <= j < low.len() ==> low[j] <= 9,
            forall|j: int|
                0 <= j < low.len() ==> #[trigger] tail[j] == digit(low[low.len() - 1 - j] as int),
            out@ == old(out)@ + decimal(rest as nat) + tail.subrange(0, low.len() - i),
        decreases i,
    {
        i = i - 1;
        let ghost before = out@;
        push_digit(out, low[i]);
        proof {
            let k = low.len() - 1 - i;
            assert(tail[k] == digit(low[i as int] as int));
            assert(tail.subrange(0, k + 1) =~= tail.subrange(0, k).push(tail[k]));
            assert(out@ =~= old(out)@ + decimal(rest as nat) + tail.subrange(0, k + 1));
        }
    }
    proof {
        assert(tail.subrange(0, low.len() as int) =~= tail);
        assert(old(out)@ + decimal(rest as nat) + tail =~= old(out)@ + (decimal(rest as nat)
            + tail));
    }
}

/// Appends `value / scale` with two decimal places.
fn push_fixed2(out: &mut String, value: i64, scale: i64)
    requires
        scale > 0,
    ensures
        final(out)@ == old(out)@ + fixed2(value as int, scale as int),
{
    let magnitude: u128 = if value < 0 {
        (-(value as i128)) as u128
    } else {
        value as u128
    };
    let h: u128 = (200 * magnitude + scale as u128) / (2 * scale as u128);
    assert(h == hundredths(value as int, scale as int));
    if value < 0 {
        out.append("-");
    }
    let ghost signed = out@;
    push_decimal(out, h / 100);
    out.append(".");
    push_digit(out, (h / 10 % 10) as u8);
    push_digit(out, (h % 10) as u8);
    proof {
        let sign = if value < 0 {
            "-"@
        } else {
            Seq::<char>::empty()
        };
        let last = seq![digit((h / 10 % 10) as int), digit((h % 10) as int)];
        assert(signed =~= old(out)@ + sign);
        assert(out@ =~= old(out)@ + (sign + decimal((h / 100) as nat) + "."@ + last));
    }
}

/// The markup that shows the outcome of a prediction: a score in the colour
/// of its band with two decimal places, or an error with its reason.
pub fn format_prediction(pred: Result<i64, ScoringError>) -> (text: String)
    ensures
        text@ == prediction_text(pred),
{
    let mut out = String::new();
    match pred {
        Ok(score) => {
            let band = classify(score, WARNING_CUTOFF, DANGER_CUTOFF);
            out.append("Prediction: <span color=\"");
            out.append(color(band));
            out.append("\" size=\"x-large\">");
            push_fixed2(&mut out, score, SCORE_SCALE);
            out.append("</span>");
            assert(out@ =~= prediction_text(pred));
        },
        Err(error) => {
            out.append("<span color=\"red\" size=\"x-large\">\u{e2}\u{161}\u{a0} Error:</span> ");
            match error {
                ScoringError::NoModel => {
                    out.append("NoModelError");
                },
                ScoringError::Backend(text) => {
                    out.append(text.as_str());
                },
            }
            assert(out@ =~= prediction_text(pred));
        },
    }
    out
}

/// The status line for a pointer at `cursor` that lies over `lonlat`: its
/// position in the image in pixels, its projected position in metres, and its
/// longitude and latitude in degrees, each with two decimal places.
pub fn format_status(cursor: CursorReadout, lonlat: GeoCoordinate) -> (text: String)
    ensures
        text@ == status_text(cursor, lonlat),
{
    let mut out = String::new();
    out.append("ABS: (");
    push_fixed2(&mut out, cursor.image.x(), cursor.image.scale());
    out.append(", ");
    push_fixed2(&mut out, cursor.image.y(), cursor.image.scale());
    out.append("), MERC: (");
    push_fixed2(&mut out, cursor.meters.0, METER_SCALE);
    out.append(", ");
    push_fixed2(&mut out, cursor.meters.1, METER_SCALE);
    out.append("), LON/LAT: (");
    push_fixed2(&mut out, lonlat.longitude, DEGREE_SCALE);
    out.append(", ");
    push_fixed2(&mut out, lonlat.latitude, DEGREE_SCALE);
    out.append(")");
    assert(out@ =~= status_text(cursor, lonlat));
    out
}

} // verus!

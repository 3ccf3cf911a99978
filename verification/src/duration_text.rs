//! Durations as the planner's text fields show and read them.

use crate::text::{chars_of, lemma_chars_deep_view, lemma_digits_no_colon, lemma_split_three, lemma_zero_padded_value, i64_text_value, lemma_split_text_nonempty, parse_i64, push_zero_padded_2, push_zero_padded_3, split_chars, split_text, zero_padded};
use crate::time::{abs, duration_in_range, trunc_div, Duration, NANOS_PER_HOUR, NANOS_PER_MILLI, NANOS_PER_MINUTE, NANOS_PER_SEC};
use vstd::prelude::*;
use vstd::string::*;

verus! {

/// How a duration is written.
#[derive(Clone, Copy, Debug, PartialEq, Eq, Structural)]
pub enum DurationFormat {
    /// `HH:MM:SS`; reading also takes `MM:SS` and `SS`.
    HourMinSec,
    /// `MM:SS.mmm`; reading also takes `MM:SS`, `SS.mmm` and `SS`.
    MinSecMilli,
}

/// Why a duration could not be read.
#[derive(Clone, Copy, Debug, PartialEq, Eq, Structural)]
pub enum DurationParseError {
    /// The text does not have the shape of the format.
    Unparseable,
    /// The text has the shape, but a part of it is not a number, or the
    /// duration does not fit.
    Malformed,
}

impl DurationParseError {
    /// A sentence that describes the error.
    pub fn message(&self) -> (m: &'static str) {
        match self {
            DurationParseError::Unparseable => "the duration could not be parsed",
            DurationParseError::Malformed => "the duration has a part that is not a number in range",
        }
    }
}

/// `x` is an `i64`.
pub open spec fn fits_i64(x: int) -> bool {
    i64::MIN <= x <= i64::MAX
}

/// Whole seconds from the colon-separated numbers of an `HH:MM:SS`, `MM:SS`
/// or `SS` text, computed as `((h * 60) + m) * 60 + s` with every step in
/// `i64` range; `None` for another count of parts or an overflow.
pub open spec fn hour_min_sec_seconds(v: Seq<int>) -> Option<int> {
    if v.len() == 3 {
        let a = v[0] * 60;
        let b = a + v[1];
        let c = b * 60;
        let d = c + v[2];
        if fits_i64(a) && fits_i64(b) && fits_i64(c) && fits_i64(d) {
            Some(d)
        } else {
            None
        }
    } else if v.len() == 2 {
        let a = v[0] * 60;
        let b = a + v[1];
        if fits_i64(a) && fits_i64(b) {
            Some(b)
        } else {
            None
        }
    } else if v.len() == 1 {
        Some(v[0])
    } else {
        None
    }
}

/// Reading `s` as `HH:MM:SS`: the result is in nanoseconds.
///
/// Every colon-separated part must read as an `i64`; one, two or three parts
/// make hours, minutes and seconds from the right; more parts are
/// `Unparseable`; a part that does not read, an overflow on the way, or a
/// duration out of range is `Malformed`.
pub open spec fn hour_min_sec_result(s: Seq<char>) -> Result<int, DurationParseError> {
    let parts = split_text(s, ':');
    if forall|i: int| 0 <= i < parts.len() ==> (#[trigger] i64_text_value(parts[i])) is Some {
        let values = Seq::new(parts.len(), |i: int| i64_text_value(parts[i])->0);
        if parts.len() > 3 {
            Err(DurationParseError::Unparseable)
        } else {
            match hour_min_sec_seconds(values) {
                Some(secs) => if duration_in_range(secs * NANOS_PER_SEC) {
                    Ok(secs * NANOS_PER_SEC)
                } else {
                    Err(DurationParseError::Malformed)
                },
                None => Err(DurationParseError::Malformed),
            }
        }
    } else {
        Err(DurationParseError::Malformed)
    }
}

/// The pattern that a `MM:SS.mmm` text is matched against, and the capture
/// groups that it has: 1 and 4 minutes; 2, 5, 6 and 8 seconds; 3 and 7 the
/// fraction of a second.
pub open spec fn lap_time_pattern() -> Seq<char> {
    LAP_TIME_PATTERN@
}

/// The lap-time pattern: `MM:SS.mmm`, `MM:SS`, `SS.mmm` or `SS`.
pub const LAP_TIME_PATTERN: &'static str = "(?P<M1>\\d{1,2}):(?P<S1>\\d{1,2}).(?P<mil1>\\d+)|(?P<M2>\\d{1,2}):(?P<S2>\\d{1,2})|(?P<S3>\\d{1,2}).(?P<mil2>\\d+)|(?P<S4>\\d+)";

/// The text of capture group `i`, if the pattern has it and it took part in
/// the match.
pub open spec fn group(groups: Seq<Option<Seq<char>>>, i: int) -> Option<Seq<char>> {
    if 0 <= i < groups.len() {
        groups[i]
    } else {
        None
    }
}

/// The first of two optional texts that is there.
pub open spec fn first_present(a: Option<Seq<char>>, b: Option<Seq<char>>) -> Option<Seq<char>> {
    if a is Some {
        a
    } else {
        b
    }
}

/// The digits after the point, read as a whole number `v` and taken as
/// milliseconds after scaling: times ten while below 10, then times ten
/// again while below 100. So `2` is 200, `25` is 250, `250` is 250, and
/// `05` or `050` (read as 5 and 50) are 500. `None` on overflow.
pub open spec fn scaled_millis(v: int) -> Option<int> {
    let once = if v < 10 {
        v * 10
    } else {
        v
    };
    let twice = if once < 100 {
        once * 10
    } else {
        once
    };
    if fits_i64(once) && fits_i64(twice) {
        Some(twice)
    } else {
        None
    }
}

/// The milliseconds that the capture groups of a `MM:SS.mmm` match spell:
/// `(minutes * 60 + seconds) * 1000 + milliseconds`, each step in `i64` range.
///
/// Minutes come from group 1, else group 4, and count as 0 when absent or
/// unreadable. Seconds come from the first of groups 2, 5, 6, 8 that took
/// part, and must read. The fraction comes from group 3, else group 7, must
/// read when present, is scaled by `scaled_millis`, and counts as 0 when
/// absent. `None` where one of these fails or a step overflows.
pub open spec fn lap_time_millis(groups: Seq<Option<Seq<char>>>) -> Option<int> {
    let minutes = match first_present(group(groups, 1), group(groups, 4)) {
        Some(t) => match i64_text_value(t) {
            Some(v) => v,
            None => 0,
        },
        None => 0,
    };
    let seconds_text = first_present(
        first_present(first_present(group(groups, 2), group(groups, 5)), group(groups, 6)),
        group(groups, 8),
    );
    let millis = match first_present(group(groups, 3), group(groups, 7)) {
        Some(t) => match i64_text_value(t) {
            Some(v) => scaled_millis(v),
            None => None,
        },
        None => Some(0),
    };
    match seconds_text {
        Some(t) => match (i64_text_value(t), millis) {
            (Some(seconds), Some(ms)) => {
                let a = minutes * 60;
                let b = a + seconds;
                let c = b * 1000;
                let d = c + ms;
                if fits_i64(a) && fits_i64(b) && fits_i64(c) && fits_i64(d) {
                    Some(d)
                } else {
                    None
                }
            },
            _ => None,
        },
        None => None,
    }
}

/// Reading a `MM:SS.mmm` text from what matching it against the pattern
/// gave: the result is in nanoseconds.
pub open spec fn min_sec_milli_result(matched: Option<Option<Seq<Option<Seq<char>>>>>) -> Result<
    int,
    DurationParseError,
> {
    match matched {
        Some(Some(groups)) => match lap_time_millis(groups) {
            Some(ms) => if ms >= -i64::MAX {
                Ok(ms * NANOS_PER_MILLI)
            } else {
                Err(DurationParseError::Malformed)
            },
            None => Err(DurationParseError::Malformed),
        },
        _ => Err(DurationParseError::Unparseable),
    }
}

/// What `regex::Regex::new(pattern)` followed by `Regex::captures(text)`
/// gives: `None` if the pattern does not compile; else `Some(None)` if
/// `text` has no match, or `Some(Some(groups))` with the text of each
/// capture group of the leftmost-first match, group 0 being the whole match.
pub uninterp spec fn regex_capture_groups(pattern: Seq<char>, text: Seq<char>) -> Option<
    Option<Seq<Option<Seq<char>>>>,
>;

/// Compiles `pattern` with `regex::Regex::new` and runs `Regex::captures`
/// on `text`. The contract claims only that the result is the one that
/// `regex_capture_groups` names for these two texts, each group copied out
/// as an owned string.
#[verifier::external_body]
fn capture_groups(pattern: &str, text: &str) -> (r: Option<Option<Vec<Option<String>>>>)
    ensures
        r.deep_view() == regex_capture_groups(pattern@, text@),
{
    match regex::Regex::new(pattern) {
        Ok(re) => Some(
            re.captures(text).map(
                |c| c.iter().map(|m| m.map(|m| m.as_str().to_string())).collect(),
            ),
        ),
        Err(_) => None,
    }
}


/// Reads `s` as `HH:MM:SS`, `MM:SS` or `SS`.
fn parse_hour_min_sec(s: &str) -> (r: Result<Duration, DurationParseError>)
    ensures
        match r {
            Ok(d) => hour_min_sec_result(s@) == Ok::<int, DurationParseError>(d@),
            Err(e) => hour_min_sec_result(s@) == Err::<int, DurationParseError>(e),
        },
{
    let chars = chars_of(s);
    let parts = split_chars(&chars, ':');
    let ghost parts_view = split_text(s@, ':');
    proof {
        lemma_split_text_nonempty(s@, ':');
    }
    let mut values: Vec<i64> = Vec::new();
    let mut i: usize = 0;
    while i < parts.len()
        invariant
            i <= parts.len(),
            parts.deep_view() == parts_view,
            parts_view == split_text(s@, ':'),
            values.len() == i,
            forall|j: int|
                0 <= j < i ==> i64_text_value(#[trigger] parts_view[j]) == Some(values[j] as int),
        decreases parts.len() - i,
    {
        assert(parts[i as int]@ == parts_view[i as int]);
        match parse_i64(&parts[i]) {
            Some(v) => values.push(v),
            None => {
                assert(i64_text_value(parts_view[i as int]) is None);
                assert(!(forall|j: int|
                    0 <= j < parts_view.len() ==> (#[trigger] i64_text_value(parts_view[j])) is Some));
                return Err(DurationParseError::Malformed);
            },
        }
        i = i + 1;
    }
    let ghost vals = Seq::new(parts_view.len(), |j: int| i64_text_value(parts_view[j])->0);
    proof {
        assert(forall|j: int| 0 <= j < parts_view.len() ==> (#[trigger] i64_text_value(parts_view[j])) is Some);
        assert(vals.len() == values.len());
        assert forall|j: int| 0 <= j < vals.len() implies vals[j] == values[j] as int by {
            assert(i64_text_value(parts_view[j]) == Some(values[j] as int));
        }
    }
    let n = values.len();
    let secs: i128 = if n > 3 {
        return Err(DurationParseError::Unparseable);
    } else if n == 3 {
        let a = values[0] as i128 * 60;
        let b = a + values[1] as i128;
        let c = b * 60;
        let d = c + values[2] as i128;
        if a < i64::MIN as i128 || a > i64::MAX as i128 || b < i64::MIN as i128 || b
            > i64::MAX as i128 || c < i64::MIN as i128 || c > i64::MAX as i128 || d
            < i64::MIN as i128 || d > i64::MAX as i128 {
            return Err(DurationParseError::Malformed);
        }
        d
    } else if n == 2 {
        let a = values[0] as i128 * 60;
        let b = a + values[1] as i128;
        if a < i64::MIN as i128 || a > i64::MAX as i128 || b < i64::MIN as i128 || b
            > i64::MAX as i128 {
            return Err(DurationParseError::Malformed);
        }
        b
    } else {
        values[0] as i128
    };
    assert(hour_min_sec_seconds(vals) == Some(secs as int));
    if secs < -9_223_372_036_854_775 || secs > 9_223_372_036_854_775 {
        return Err(DurationParseError::Malformed);
    }
    Ok(Duration::seconds(secs as i64))
}

/// The text of capture group `i`.
fn group_chars(groups: &Vec<Option<String>>, i: usize) -> (r: Option<Vec<char>>)
    ensures
        r.deep_view() == group(groups.deep_view(), i as int),
{
    if i < groups.len() {
        match &groups[i] {
            Some(t) => Some(chars_of(t.as_str())),
            None => None,
        }
    } else {
        None
    }
}

fn first_present_chars(a: Option<Vec<char>>, b: Option<Vec<char>>) -> (r: Option<Vec<char>>)
    ensures
        r.deep_view() == first_present(a.deep_view(), b.deep_view()),
{
    if a.is_some() {
        a
    } else {
        b
    }
}

/// Reads the text of a capture group as an `i64`.
fn read_group(t: &Option<Vec<char>>) -> (r: Option<Option<i64>>)
    ensures
        match t.deep_view() {
            Some(text) => r matches Some(v) && match v {
                Some(x) => i64_text_value(text) == Some(x as int),
                None => i64_text_value(text) is None,
            },
            None => r is None,
        },
{
    match t {
        Some(chars) => {
            proof {
                lemma_chars_deep_view(*chars);
            }
            Some(parse_i64(chars))
        },
        None => None,
    }
}

/// The duration that the capture groups of a `MM:SS.mmm` match spell, from
/// what `regex::Regex::captures` gave for the lap-time pattern (`None` when
/// the pattern does not compile, `Some(None)` when the text has no match).
pub fn duration_from_lap_time_groups(matched: &Option<Option<Vec<Option<String>>>>) -> (r: Result<
    Duration,
    DurationParseError,
>)
    ensures
        match r {
            Ok(d) => min_sec_milli_result(matched.deep_view()) == Ok::<int, DurationParseError>(
                d@,
            ),
            Err(e) => min_sec_milli_result(matched.deep_view()) == Err::<int, DurationParseError>(
                e,
            ),
        },
{
    let groups = match matched {
        Some(Some(g)) => g,
        _ => {
            return Err(DurationParseError::Unparseable);
        },
    };
    let ghost g = groups.deep_view();
    assert(matched.deep_view() == Some(Some(g)));
    let minutes_text = first_present_chars(group_chars(groups, 1), group_chars(groups, 4));
    let minutes: i128 = match read_group(&minutes_text) {
        Some(Some(v)) => v as i128,
        _ => 0,
    };
    let seconds_text = first_present_chars(
        first_present_chars(
            first_present_chars(group_chars(groups, 2), group_chars(groups, 5)),
            group_chars(groups, 6),
        ),
        group_chars(groups, 8),
    );
    let millis_text = first_present_chars(group_chars(groups, 3), group_chars(groups, 7));
    let seconds: i128 = match read_group(&seconds_text) {
        Some(Some(v)) => v as i128,
        _ => {
            return Err(DurationParseError::Malformed);
        },
    };
    let millis: i128 = match read_group(&millis_text) {
        Some(Some(v)) => {
            let v = v as i128;
            let once = if v < 10 {
                v * 10
            } else {
                v
            };
            let twice = if once < 100 {
                once * 10
            } else {
                once
            };
            if once < i64::MIN as i128 || once > i64::MAX as i128 || twice < i64::MIN as i128
                || twice > i64::MAX as i128 {
                return Err(DurationParseError::Malformed);
            }
            twice
        },
        Some(None) => {
            return Err(DurationParseError::Malformed);
        },
        None => 0,
    };
    let a = minutes * 60;
    let b = a + seconds;
    let c = b * 1000;
    let d = c + millis;
    if a < i64::MIN as i128 || a > i64::MAX as i128 || b < i64::MIN as i128 || b > i64::MAX as i128
        || c < i64::MIN as i128 || c > i64::MAX as i128 || d < i64::MIN as i128 || d
        > i64::MAX as i128 {
        return Err(DurationParseError::Malformed);
    }
    assert(lap_time_millis(g) == Some(d as int));
    if d < -(i64::MAX as i128) {
        return Err(DurationParseError::Malformed);
    }
    Ok(Duration::milliseconds(d as i64))
}

/// What reading `s` in `format` gives, in nanoseconds; for `MinSecMilli`
/// this goes through what the lap-time pattern matches in `s`.
pub open spec fn parse_duration_result(s: Seq<char>, format: DurationFormat) -> Result<
    int,
    DurationParseError,
> {
    match format {
        DurationFormat::HourMinSec => hour_min_sec_result(s),
        DurationFormat::MinSecMilli => min_sec_milli_result(
            regex_capture_groups(lap_time_pattern(), s),
        ),
    }
}

/// Reads a duration written in `format`.
pub fn parse_duration_from_str(s: &str, format: DurationFormat) -> (r: Result<
    Duration,
    DurationParseError,
>)
    ensures
        match r {
            Ok(d) => parse_duration_result(s@, format) == Ok::<int, DurationParseError>(d@),
            Err(e) => parse_duration_result(s@, format) == Err::<int, DurationParseError>(e),
        },
{
    match format {
        DurationFormat::HourMinSec => parse_hour_min_sec(s),
        DurationFormat::MinSecMilli => {
            let matched = capture_groups(LAP_TIME_PATTERN, s);
            duration_from_lap_time_groups(&matched)
        },
    }
}

/// The text of a duration in `format`, from its whole milliseconds (rounded
/// toward zero): a `-` for a negative count, then the parts of its magnitude.
pub open spec fn format_duration_text(nanos: int, format: DurationFormat) -> Seq<char> {
    let ms = trunc_div(nanos, NANOS_PER_MILLI as int);
    let a = abs(ms);
    let prefix = if ms < 0 {
        seq!['-']
    } else {
        Seq::<char>::empty()
    };
    match format {
        DurationFormat::HourMinSec => prefix + zero_padded((a / 3_600_000) as nat, 2) + seq![':']
            + zero_padded(((a / 60_000) % 60) as nat, 2) + seq![':'] + zero_padded(
            ((a / 1000) % 60) as nat,
            2,
        ),
        DurationFormat::MinSecMilli => prefix + zero_padded(((a / 60_000) % 60) as nat, 2) + seq![
            ':',
        ] + zero_padded(((a / 1000) % 60) as nat, 2) + seq!['.'] + zero_padded(
            (a % 1000) as nat,
            3,
        ),
    }
}

proof fn lemma_abs_trunc_div(n: int, unit: int)
    requires
        unit > 0,
    ensures
        abs(trunc_div(n, unit)) == abs(n) / unit,
{
}

proof fn lemma_nested_units(a: int, unit: int, per: int)
    requires
        a >= 0,
        unit > 0,
        per > 0,
    ensures
        (a / unit) / per == a / (unit * per),
{
    vstd::arithmetic::div_mod::lemma_div_denominator(a, unit, per);
}

/// A duration of whole, non-negative seconds, written as `HH:MM:SS`, reads
/// back as itself.
pub proof fn lemma_hour_min_sec_round_trip(secs: int)
    requires
        0 <= secs,
        duration_in_range(secs * NANOS_PER_SEC),
    ensures
        parse_duration_result(
            format_duration_text(secs * NANOS_PER_SEC, DurationFormat::HourMinSec),
            DurationFormat::HourMinSec,
        ) == Ok::<int, DurationParseError>(secs * NANOS_PER_SEC),
{
    let n = secs * NANOS_PER_SEC;
    assert(secs <= 9_223_372_036_854_776) by (nonlinear_arith)
        requires
            0 <= secs,
            secs * 1_000_000_000 <= 9_223_372_036_854_775_807_000_000,
    ;
    assert(trunc_div(n, NANOS_PER_MILLI as int) == secs * 1000) by (nonlinear_arith)
        requires
            n == secs * 1_000_000_000,
            secs >= 0,
            trunc_div(n, NANOS_PER_MILLI as int) == n / 1_000_000,
    ;
    let a = secs * 1000;
    let h = secs / 3600;
    let m = (secs / 60) % 60;
    let sc = secs % 60;
    assert(a / 3_600_000 == h) by (nonlinear_arith)
        requires
            a == secs * 1000,
            secs >= 0,
            h == secs / 3600,
    ;
    assert(a / 60_000 == secs / 60) by (nonlinear_arith)
        requires
            a == secs * 1000,
            secs >= 0,
    ;
    assert(a / 1000 == secs) by (nonlinear_arith)
        requires
            a == secs * 1000,
    ;
    assert(h * 3600 + m * 60 + sc == secs) by (nonlinear_arith)
        requires
            secs >= 0,
            h == secs / 3600,
            m == (secs / 60) % 60,
            sc == secs % 60,
    {
        vstd::arithmetic::div_mod::lemma_fundamental_div_mod(secs, 60);
        vstd::arithmetic::div_mod::lemma_fundamental_div_mod(secs / 60, 60);
        vstd::arithmetic::div_mod::lemma_div_denominator(secs, 60, 60);
    }
    assert(0 <= h <= secs && 0 <= m < 60 && 0 <= sc < 60) by (nonlinear_arith)
        requires
            secs >= 0,
            h == secs / 3600,
            m == (secs / 60) % 60,
            sc == secs % 60,
    ;
    let ha = zero_padded(h as nat, 2);
    let ma = zero_padded(m as nat, 2);
    let sa = zero_padded(sc as nat, 2);
    lemma_zero_padded_value(h as nat, 2);
    lemma_zero_padded_value(m as nat, 2);
    lemma_zero_padded_value(sc as nat, 2);
    lemma_digits_no_colon(ha);
    lemma_digits_no_colon(ma);
    lemma_digits_no_colon(sa);
    let text = format_duration_text(n, DurationFormat::HourMinSec);
    assert(text =~= ha + seq![':'] + ma + seq![':'] + sa);
    lemma_split_three(ha, ma, sa);
    let parts = split_text(text, ':');
    assert(parts == seq![ha, ma, sa]);
    assert(forall|i: int| 0 <= i < parts.len() ==> (#[trigger] i64_text_value(parts[i])) is Some) by {
        assert(parts[0] == ha && parts[1] == ma && parts[2] == sa);
    }
    let values = Seq::new(parts.len(), |i: int| i64_text_value(parts[i])->0);
    assert(values =~= seq![h, m, sc]) by {
        assert(parts[0] == ha && parts[1] == ma && parts[2] == sa);
    }
    assert(hour_min_sec_seconds(values) == Some(secs)) by {
        assert((h * 60 + m) * 60 + sc == secs) by (nonlinear_arith)
            requires
                h * 3600 + m * 60 + sc == secs,
        ;
        assert(0 <= h * 60 <= secs) by (nonlinear_arith)
            requires
                h * 3600 <= secs,
                h >= 0,
        ;
        assert(0 <= (h * 60 + m) * 60 <= secs) by (nonlinear_arith)
            requires
                h * 3600 + m * 60 + sc == secs,
                h >= 0,
                m >= 0,
                sc >= 0,
        ;
    }
}

/// Reading back what the lap-time field shows: where the lap-time pattern's
/// match of the text that `format_duration` writes for a lap of `ms`
/// milliseconds, under an hour, holds the minutes, the seconds and the
/// thousandths of that text in groups 1 to 3, the lap read is `ms`
/// milliseconds again. This holds where the thousandths are 000 or 100 to
/// 999: a fraction such as `050` reads as 50 and is scaled to 500.
pub proof fn lemma_lap_time_read_back(ms: int, groups: Seq<Option<Seq<char>>>)
    requires
        0 <= ms < 3_600_000,
        ms % 1000 == 0 || ms % 1000 >= 100,
        group(groups, 1) == Some(zero_padded((ms / 60_000) as nat, 2)),
        group(groups, 2) == Some(zero_padded(((ms / 1000) % 60) as nat, 2)),
        group(groups, 3) == Some(zero_padded((ms % 1000) as nat, 3)),
    ensures
        format_duration_text(ms * NANOS_PER_MILLI, DurationFormat::MinSecMilli) == group(groups, 1)->0
            + seq![':'] + group(groups, 2)->0 + seq!['.'] + group(groups, 3)->0,
        min_sec_milli_result(Some(Some(groups))) == Ok::<int, DurationParseError>(
            ms * NANOS_PER_MILLI,
        ),
{
    let m = ms / 60_000;
    let sc = (ms / 1000) % 60;
    let f = ms % 1000;
    assert(trunc_div(ms * NANOS_PER_MILLI, NANOS_PER_MILLI as int) == ms) by (nonlinear_arith)
        requires
            ms >= 0,
    ;
    assert((ms / 60_000) % 60 == m && 0 <= m < 60 && 0 <= sc < 60 && 0 <= f < 1000) by (nonlinear_arith)
        requires
            0 <= ms < 3_600_000,
            m == ms / 60_000,
            sc == (ms / 1000) % 60,
            f == ms % 1000,
    ;
    assert((m * 60 + sc) * 1000 + f == ms) by (nonlinear_arith)
        requires
            ms >= 0,
            m == ms / 60_000,
            sc == (ms / 1000) % 60,
            f == ms % 1000,
    {
        vstd::arithmetic::div_mod::lemma_fundamental_div_mod(ms, 1000);
        vstd::arithmetic::div_mod::lemma_fundamental_div_mod(ms / 1000, 60);
        vstd::arithmetic::div_mod::lemma_div_denominator(ms, 1000, 60);
    }
    lemma_zero_padded_value(m as nat, 2);
    lemma_zero_padded_value(sc as nat, 2);
    lemma_zero_padded_value(f as nat, 3);
    assert(scaled_millis(f) == Some(f));
    assert(lap_time_millis(groups) == Some(ms));
}

/// Writes a duration in `format`.
pub fn format_duration(duration: Duration, format: DurationFormat) -> (s: String)
    ensures
        s@ == format_duration_text(duration@, format),
{
    let ms = duration.num_milliseconds();
    let ghost a = abs(ms as int);
    let ghost n = duration@;
    let nanos = duration.as_nanos();
    proof {
        lemma_abs_trunc_div(n, NANOS_PER_MILLI as int);
        lemma_abs_trunc_div(n, NANOS_PER_SEC as int);
        lemma_abs_trunc_div(n, NANOS_PER_MINUTE as int);
        lemma_abs_trunc_div(n, NANOS_PER_HOUR as int);
        lemma_nested_units(abs(n), NANOS_PER_MILLI as int, 1000);
        lemma_nested_units(abs(n), NANOS_PER_MILLI as int, 60_000);
        lemma_nested_units(abs(n), NANOS_PER_MILLI as int, 3_600_000);
    }
    let mut out = String::new();
    proof {
        reveal_strlit("-");
        reveal_strlit(":");
        reveal_strlit(".");
    }
    if ms < 0 {
        out.append("-");
    }
    let seconds = duration.num_seconds();
    let minutes = duration.num_minutes();
    let seconds_abs: i64 = if seconds < 0 {
        -seconds
    } else {
        seconds
    };
    let minutes_abs: i64 = if minutes < 0 {
        -minutes
    } else {
        minutes
    };
    let ms_abs: i64 = if ms < 0 {
        -ms
    } else {
        ms
    };
    match format {
        DurationFormat::HourMinSec => {
            let hours = duration.num_hours();
            let hours_abs: i64 = if hours < 0 {
                -hours
            } else {
                hours
            };
            push_zero_padded_2(&mut out, hours_abs as u64);
            out.append(":");
            push_zero_padded_2(&mut out, (minutes_abs % 60) as u64);
            out.append(":");
            push_zero_padded_2(&mut out, (seconds_abs % 60) as u64);
        },
        DurationFormat::MinSecMilli => {
            push_zero_padded_2(&mut out, (minutes_abs % 60) as u64);
            out.append(":");
            push_zero_padded_2(&mut out, (seconds_abs % 60) as u64);
            out.append(".");
            push_zero_padded_3(&mut out, (ms_abs % 1000) as u64);
        },
    }
    proof {
        assert(out@ =~= format_duration_text(n, format));
    }
    out
}
} // verus!

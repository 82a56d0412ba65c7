//! Metrics derived from a repository's counts, and their display forms.

use vstd::prelude::*;
use vstd::string::StringExecFns;
use crate::escape::{escaped, is_plain, lemma_escaped_plain};
use crate::text::{
    decimal_int, decimal_string, lemma_decimal_nat_plain, two_digit_string, two_digits,
};

verus! {

/// The style class of a percentage: excellent from 90, good from 75, warning from
/// 50, critical below. A value above 100 is no percentage and is styled critical.
pub open spec fn rate_class_text(rate: int) -> Seq<char> {
    if 90 <= rate <= 100 {
        "rate-excellent"@
    } else if 75 <= rate <= 89 {
        "rate-good"@
    } else if 50 <= rate <= 74 {
        "rate-warning"@
    } else {
        "rate-critical"@
    }
}

/// The share of dependencies that are up to date, as a percentage rounded to the
/// nearest integer, halves upwards. With no dependencies the share is 100.
pub open spec fn freshness_rate(up_to_date: int, total: int) -> int {
    if total == 0 {
        100
    } else {
        (200 * up_to_date + total) / (2 * total)
    }
}

/// A run time for display: minutes and two-digit seconds, or a dash where the run
/// has not been measured. Minutes are the seconds divided by 60 and rounded down,
/// so the seconds shown are never negative.
pub open spec fn duration_text(seconds: Option<i64>) -> Seq<char> {
    match seconds {
        None => "\u{2014}"@,
        Some(s) => decimal_int(s as int / 60) + "m "@ + two_digits(s as int % 60) + "s"@,
    }
}

/// The display form of a run time holds no character that escaping replaces, so
/// it stands in markup as it is.
pub proof fn lemma_duration_text_plain(seconds: Option<i64>)
    ensures
        is_plain(duration_text(seconds)),
        escaped(duration_text(seconds)) == duration_text(seconds),
{
    reveal_strlit("\u{2014}");
    reveal_strlit("m ");
    reveal_strlit("s");
    match seconds {
        None => {},
        Some(s) => {
            let minutes = s as int / 60;
            if minutes < 0 {
                lemma_decimal_nat_plain((-minutes) as nat);
            } else {
                lemma_decimal_nat_plain(minutes as nat);
            }
        },
    }
    lemma_escaped_plain(duration_text(seconds));
}

/// Returns the style class for a success or freshness rate.
pub fn rate_class(rate: u8) -> (class: &'static str)
    ensures
        class@ == rate_class_text(rate as int),
{
    if 90 <= rate && rate <= 100 {
        "rate-excellent"
    } else if 75 <= rate && rate <= 89 {
        "rate-good"
    } else if 50 <= rate && rate <= 74 {
        "rate-warning"
    } else {
        "rate-critical"
    }
}

/// The freshness rate lies between 0 and 100 and is the integer nearest to the
/// exact percentage: it differs from it by at most a half, and where two integers
/// are equally near it is the larger one.
pub proof fn lemma_freshness_rate_is_nearest(up_to_date: int, total: int)
    requires
        0 <= up_to_date <= total,
        0 < total,
    ensures
        0 <= freshness_rate(up_to_date, total) <= 100,
        (2 * freshness_rate(up_to_date, total) - 1) * total <= 200 * up_to_date,
        200 * up_to_date < (2 * freshness_rate(up_to_date, total) + 1) * total,
{
    let n = 200 * up_to_date + total;
    let d = 2 * total;
    let r = n / d;
    vstd::arithmetic::div_mod::lemma_fundamental_div_mod(n, d);
    assert((2 * r - 1) * total == d * r - total) by (nonlinear_arith)
        requires
            d == 2 * total,
    ;
    assert((2 * r + 1) * total == d * r + total) by (nonlinear_arith)
        requires
            d == 2 * total,
    ;
    assert(0 <= r <= 100) by (nonlinear_arith)
        requires
            0 <= up_to_date <= total,
            0 < total,
            d == 2 * total,
            n == 200 * up_to_date + total,
            n == d * r + n % d,
            0 <= n % d < d,
    ;
}

/// Computes the dependency freshness rate from the counts of a repository.
pub fn deps_rate(up_to_date: u32, total: u32) -> (rate: u8)
    requires
        up_to_date <= total,
    ensures
        rate as int == freshness_rate(up_to_date as int, total as int),
        rate <= 100,
{
    if total == 0 {
        return 100;
    }
    proof {
        lemma_freshness_rate_is_nearest(up_to_date as int, total as int);
    }
    let rate: u64 = (200 * (up_to_date as u64) + (total as u64)) / (2 * (total as u64));
    rate as u8
}

/// Formats a run time, given in whole seconds, for display.
pub fn format_duration(duration: Option<i64>) -> (text: String)
    ensures
        text@ == duration_text(duration),
{
    match duration {
        None => "\u{2014}".to_owned(),
        Some(seconds) => {
            let mut text: String;
            let rest: u64;
            if seconds >= 0 {
                let total: u64 = seconds as u64;
                text = decimal_string(total / 60);
                rest = total % 60;
            } else {
                // Counted from -1 downwards, every 60 seconds are one more minute below zero.
                let below: u64 = (-(seconds + 1)) as u64;
                text = "-".to_owned();
                proof {
                    reveal_strlit("-");
                }
                let minutes = decimal_string(below / 60 + 1);
                text.append(minutes.as_str());
                rest = 59 - below % 60;
            }
            text.append("m ");
            let padded = two_digit_string(rest);
            text.append(padded.as_str());
            text.append("s");
            text
        },
    }
}

} // verus!

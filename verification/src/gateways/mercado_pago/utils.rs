//! ISO 8601 durations for Mercado Pago expiration times.

use vstd::prelude::*;

use crate::text::{decimal, push, push_decimal};
use vstd::arithmetic::div_mod::lemma_fundamental_div_mod_converse;

verus! {

/// `decimal(n)` followed by `unit` when `n > 0`, nothing otherwise.
pub open spec fn designator(n: nat, unit: char) -> Seq<char> {
    if n > 0 {
        decimal(n).push(unit)
    } else {
        seq![]
    }
}

/// The ISO 8601 duration of `total` seconds, split into days, hours, minutes
/// and seconds with zero components left out: `"P1DT2H3M4S"`, `"PT30M"`,
/// `"P30D"`, and `"P"` for zero.
pub open spec fn iso8601_duration(total: nat) -> Seq<char> {
    let days = total / 86_400;
    let hours = (total % 86_400) / 3_600;
    let minutes = (total % 3_600) / 60;
    let seconds = total % 60;
    let time = if hours > 0 || minutes > 0 || seconds > 0 {
        seq!['T'] + designator(hours, 'H') + designator(minutes, 'M') + designator(seconds, 'S')
    } else {
        seq![]
    };
    seq!['P'] + designator(days, 'D') + time
}

/// The days, hours, minutes and seconds of [`iso8601_duration`] add up to the
/// total, with hours below 24 and minutes and seconds below 60.
pub proof fn law_duration_components(total: nat)
    ensures
        (total / 86_400) * 86_400 + ((total % 86_400) / 3_600) * 3_600 + ((total % 3_600) / 60) * 60
            + total % 60 == total,
        (total % 86_400) / 3_600 < 24,
        (total % 3_600) / 60 < 60,
        total % 60 < 60,
{
    assert((total / 86_400) * 86_400 + ((total % 86_400) / 3_600) * 3_600 + ((total % 3_600) / 60) * 60
        + total % 60 == total) by (nonlinear_arith);
}

/// The duration text of `total` seconds is written from its unique split into
/// whole days and then hours below 24, minutes below 60 and seconds below 60:
/// for any such split `total = d*86400 + h*3600 + m*60 + s`, the text is `P`,
/// then `dD` when `d > 0`, then — when some of `h`, `m`, `s` is non-zero — `T`
/// followed by `hH`, `mM`, `sS` for the non-zero ones. So `43200` is `PT12H`.
pub proof fn law_duration_reads_back(total: nat, d: nat, h: nat, m: nat, s: nat)
    requires
        total == d * 86_400 + h * 3_600 + m * 60 + s,
        h < 24,
        m < 60,
        s < 60,
    ensures
        iso8601_duration(total) == seq!['P'] + designator(d, 'D') + (if h > 0 || m > 0 || s > 0 {
            seq!['T'] + designator(h, 'H') + designator(m, 'M') + designator(s, 'S')
        } else {
            seq![]
        }),
{
    let r1: int = (h * 3_600 + m * 60 + s) as int;
    let r2: int = (m * 60 + s) as int;
    assert(0 <= r1 < 86_400 && 0 <= r2 < 3_600) by (nonlinear_arith)
        requires
            r1 == h * 3_600 + m * 60 + s,
            r2 == m * 60 + s,
            h < 24,
            m < 60,
            s < 60,
            h >= 0,
            m >= 0,
            s >= 0,
    ;
    lemma_fundamental_div_mod_converse(total as int, 86_400, d as int, r1);
    lemma_fundamental_div_mod_converse(r1, 3_600, h as int, r2);
    let q2: int = (d * 24 + h) as int;
    assert(total == q2 * 3_600 + r2) by (nonlinear_arith)
        requires
            total == d * 86_400 + h * 3_600 + m * 60 + s,
            q2 == d * 24 + h,
            r2 == m * 60 + s,
    ;
    lemma_fundamental_div_mod_converse(total as int, 3_600, q2, r2);
    lemma_fundamental_div_mod_converse(r2, 60, m as int, s as int);
    let q3: int = q2 * 60 + m;
    assert(total == q3 * 60 + s) by (nonlinear_arith)
        requires
            total == q2 * 3_600 + r2,
            q3 == q2 * 60 + m,
            r2 == m * 60 + s,
    ;
    lemma_fundamental_div_mod_converse(total as int, 60, q3, s as int);
}

/// Renders `total_secs` as an ISO 8601 duration, as [`iso8601_duration`] says.
pub fn seconds_to_iso8601(total_secs: u32) -> (r: String)
    ensures
        r@ == iso8601_duration(total_secs as nat),
{
    let days = total_secs / 86_400;
    let hours = (total_secs % 86_400) / 3_600;
    let minutes = (total_secs % 3_600) / 60;
    let seconds = total_secs % 60;

    let mut iso = String::new();
    push(&mut iso, 'P');
    let ghost p = iso@;

    if days > 0 {
        push_decimal(&mut iso, days as u64);
        push(&mut iso, 'D');
    }
    let ghost d = iso@;
    assert(d == p + designator(days as nat, 'D'));

    if hours > 0 || minutes > 0 || seconds > 0 {
        push(&mut iso, 'T');
        let ghost t = iso@;
        if hours > 0 {
            push_decimal(&mut iso, hours as u64);
            push(&mut iso, 'H');
        }
        let ghost h = iso@;
        assert(h == t + designator(hours as nat, 'H'));
        if minutes > 0 {
            push_decimal(&mut iso, minutes as u64);
            push(&mut iso, 'M');
        }
        let ghost m = iso@;
        assert(m == h + designator(minutes as nat, 'M'));
        if seconds > 0 {
            push_decimal(&mut iso, seconds as u64);
            push(&mut iso, 'S');
        }
        assert(iso@ == m + designator(seconds as nat, 'S'));
    }
    assert(iso@ =~= iso8601_duration(total_secs as nat));
    iso
}

} // verus!

//! Progress rendering: turns step/total or byte-count measurements into a
//! single in-place progress line with a two-decimal percentage.

use vstd::prelude::*;
use vstd::string::*;

verus! {

/// The character for a decimal digit `d` (0 through 9).
pub open spec fn digit_char(d: nat) -> char {
    if d == 0 { '0' }
    else if d == 1 { '1' }
    else if d == 2 { '2' }
    else if d == 3 { '3' }
    else if d == 4 { '4' }
    else if d == 5 { '5' }
    else if d == 6 { '6' }
    else if d == 7 { '7' }
    else if d == 8 { '8' }
    else { '9' }
}

/// Decimal notation of `n`, without leading zeros.
pub open spec fn decimal(n: nat) -> Seq<char>
    decreases n,
{
    if n < 10 {
        seq![digit_char(n)]
    } else {
        decimal(n / 10).push(digit_char(n % 10))
    }
}

/// A percentage given in hundredths of a percent, rendered with exactly two
/// decimal places: `3333` is `33.33%`.
pub open spec fn percent_text(h: nat) -> Seq<char> {
    decimal(h / 100) + seq!['.', digit_char((h % 100) / 10), digit_char(h % 10), '%']
}

/// `completed / total * 100`, in hundredths of a percent, rounded to nearest
/// (halves up).
pub open spec fn hundredths(completed: nat, total: nat) -> nat
    recommends
        total > 0,
{
    ((completed * 20000 + total) / (2 * total)) as nat
}

/// The progress line for a measurement: the percentage when the total is
/// known, an explicit indeterminable marker when it is zero.
pub open spec fn progress_text(completed: nat, total: nat) -> Seq<char> {
    if total == 0 {
        "\rProgress: Indeterminable"@
    } else {
        "\rProgress: "@ + percent_text(hundredths(completed, total))
    }
}

/// With a known total, the line always ends in a point, exactly two digits and
/// a percent sign.
pub proof fn lemma_two_decimal_places(completed: nat, total: nat)
    requires
        total > 0,
    ensures
        ({
            let t = progress_text(completed, total);
            let n = t.len() as int;
            &&& n >= 4
            &&& t[n - 4] == '.'
            &&& '0' <= t[n - 3] <= '9'
            &&& '0' <= t[n - 2] <= '9'
            &&& t[n - 1] == '%'
        }),
{
    let h = hundredths(completed, total);
    let t = progress_text(completed, total);
    let tail = seq!['.', digit_char((h % 100) / 10), digit_char(h % 10), '%'];
    assert(t =~= "\rProgress: "@ + decimal(h / 100) + tail);
    assert(t.subrange(t.len() - 4, t.len() as int) =~= tail);
}

fn digit_str(d: u128) -> (r: &'static str)
    requires
        d < 10,
    ensures
        r@ == seq![digit_char(d as nat)],
{
    proof {
        reveal_strlit("0");
        reveal_strlit("1");
        reveal_strlit("2");
        reveal_strlit("3");
        reveal_strlit("4");
        reveal_strlit("5");
        reveal_strlit("6");
        reveal_strlit("7");
        reveal_strlit("8");
        reveal_strlit("9");
    }
    if d == 0 { "0" }
    else if d == 1 { "1" }
    else if d == 2 { "2" }
    else if d == 3 { "3" }
    else if d == 4 { "4" }
    else if d == 5 { "5" }
    else if d == 6 { "6" }
    else if d == 7 { "7" }
    else if d == 8 { "8" }
    else { "9" }
}

/// Appends the decimal notation of `n` to `s`.
pub fn push_decimal(s: &mut String, n: u128)
    ensures
        final(s)@ == old(s)@ + decimal(n as nat),
    decreases n,
{
    if n >= 10 {
        push_decimal(s, n / 10);
        s.append(digit_str(n % 10));
        assert(final(s)@ =~= old(s)@ + decimal(n as nat));
    } else {
        s.append(digit_str(n));
        assert(final(s)@ =~= old(s)@ + decimal(n as nat));
    }
}

/// Decimal notation of `n` as a new string.
pub fn decimal_string(n: u64) -> (r: String)
    ensures
        r@ == decimal(n as nat),
{
    let mut s = String::new();
    push_decimal(&mut s, n as u128);
    assert(s@ =~= decimal(n as nat));
    s
}

fn render(completed: u128, total: u128) -> (r: String)
    requires
        completed <= u64::MAX,
        total <= u64::MAX,
    ensures
        r@ == progress_text(completed as nat, total as nat),
{
    if total == 0 {
        let r = String::from_str("\rProgress: Indeterminable");
        return r;
    }
    let h: u128 = (completed * 20000 + total) / (2 * total);
    let mut s = String::from_str("\rProgress: ");
    push_decimal(&mut s, h / 100);
    s.append(".");
    s.append(digit_str((h % 100) / 10));
    s.append(digit_str(h % 10));
    s.append("%");
    proof {
        reveal_strlit(".");
        reveal_strlit("%");
    }
    assert(s@ =~= progress_text(completed as nat, total as nat));
    s
}

/// The progress line for a checkout event of `step` processed objects out of
/// `total`. Never divides by zero: a zero total gives the indeterminable
/// marker.
pub fn progress_line(step: usize, total: usize) -> (r: String)
    ensures
        r@ == progress_text(step as nat, total as nat),
{
    render(step as u128, total as u128)
}

/// The progress line for a byte stream of `copied` bytes out of `total`.
pub fn byte_progress_line(copied: u64, total: u64) -> (r: String)
    ensures
        r@ == progress_text(copied as nat, total as nat),
{
    render(copied as u128, total as u128)
}

/// Whole mebibytes in `bytes`, rounded down.
pub fn megabytes(bytes: u64) -> (r: u64)
    ensures
        r == bytes / 1048576,
{
    bytes / 1024 / 1024
}

/// The summary line once a copy of `bytes` bytes is done.
pub fn copied_summary(bytes: u64) -> (r: String)
    ensures
        r@ == "Copied "@ + decimal((bytes / 1048576) as nat) + " MB"@,
{
    let mut s = String::from_str("Copied ");
    push_decimal(&mut s, megabytes(bytes) as u128);
    s.append(" MB");
    s
}

} // verus!

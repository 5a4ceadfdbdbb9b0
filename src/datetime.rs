//! A calendar date and time of day in UTC, and its RFC 3339 text.
use vstd::prelude::*;
use crate::text::{decimal_text, digit_char, lemma_decimal_text_len, pow10, push_char, push_padded, zero_pad};

verus! {

/// A point in time in UTC, as calendar fields.
#[derive(Debug, Clone, Copy, PartialEq, Eq, Structural)]
pub struct DateTime {
    pub year: i32,
    pub month: u8,
    pub day: u8,
    pub hour: u8,
    pub minute: u8,
    pub second: u8,
    pub nanosecond: u32,
}

impl DateTime {
    /// The fields lie in their calendar ranges.
    pub open spec fn wf(self) -> bool {
        &&& -9999 <= self.year <= 9999
        &&& 1 <= self.month <= 12
        &&& 1 <= self.day <= 31
        &&& self.hour < 24
        &&& self.minute < 60
        &&& self.second < 60
        &&& self.nanosecond < 1_000_000_000
    }
}

/// `s` without its trailing `0` characters.
pub open spec fn trim_zeros(s: Seq<char>) -> Seq<char>
    decreases s.len(),
{
    if s.len() > 0 && s.last() == '0' {
        trim_zeros(s.drop_last())
    } else {
        s
    }
}

/// The year in four digits, or a `-` and three digits before the epoch of the era.
pub open spec fn year_text(y: int) -> Seq<char> {
    if y < 0 {
        seq!['-'] + zero_pad(decimal_text((-y) as nat), 3)
    } else {
        zero_pad(decimal_text(y as nat), 4)
    }
}

pub open spec fn two_digits(n: nat) -> Seq<char> {
    zero_pad(decimal_text(n), 2)
}

/// The fraction of a second: nothing for zero nanoseconds, else a `.` and
/// the nine-digit nanoseconds without their trailing zeros.
pub open spec fn fraction_text(nanos: nat) -> Seq<char> {
    if nanos == 0 {
        Seq::empty()
    } else {
        seq!['.'] + trim_zeros(zero_pad(decimal_text(nanos), 9))
    }
}

/// `YYYY-MM-DDTHH:MM:SS[.fraction]Z`.
pub open spec fn rfc3339_text(t: DateTime) -> Seq<char> {
    year_text(t.year as int)
        + seq!['-'] + two_digits(t.month as nat)
        + seq!['-'] + two_digits(t.day as nat)
        + seq!['T'] + two_digits(t.hour as nat)
        + seq![':'] + two_digits(t.minute as nat)
        + seq![':'] + two_digits(t.second as nat)
        + fraction_text(t.nanosecond as nat)
        + seq!['Z']
}

fn push_fraction(f: &mut String, nanos: u32)
    ensures
        final(f)@ == old(f)@ + fraction_text(nanos as nat),
{
    if nanos == 0 {
        assert(final(f)@ =~= old(f)@ + fraction_text(nanos as nat));
        return;
    }
    let mut digits = String::new();
    push_padded(&mut digits, nanos as u128, 9);
    assert(digits@ =~= zero_pad(decimal_text(nanos as nat), 9));
    let ghost s = digits@;
    let len = digits.as_str().unicode_len();
    let mut end: usize = len;
    assert(s.subrange(0, len as int) =~= s);
    while end > 0 && digits.as_str().get_char(end - 1) == '0'
        invariant
            s == digits@,
            len == s.len(),
            end <= len,
            trim_zeros(s) == trim_zeros(s.subrange(0, end as int)),
        decreases end,
    {
        let ghost sub = s.subrange(0, end as int);
        assert(sub.drop_last() =~= s.subrange(0, end - 1));
        end = end - 1;
    }
    assert(trim_zeros(s.subrange(0, end as int)) == s.subrange(0, end as int));
    push_char(f, '.');
    f.append(digits.as_str().substring_char(0, end));
    assert(final(f)@ =~= old(f)@ + fraction_text(nanos as nat));
}

fn push_field(f: &mut String, sep: char, n: u8)
    ensures
        final(f)@ == old(f)@ + seq![sep] + two_digits(n as nat),
{
    push_char(f, sep);
    push_padded(f, n as u128, 2);
    assert(final(f)@ =~= old(f)@ + seq![sep] + two_digits(n as nat));
}

/// Appends the RFC 3339 text of `t` to `f`.
#[verifier::spinoff_prover]
#[verifier::rlimit(50)]
pub fn fmt_as_rfc3339_nanos(t: &DateTime, f: &mut String)
    ensures
        final(f)@ == old(f)@ + rfc3339_text(*t),
{
    let ghost start = f@;
    if t.year < 0 {
        push_char(f, '-');
        push_padded(f, (-(t.year as i64)) as u128, 3);
    } else {
        push_padded(f, t.year as u128, 4);
    }
    let ghost p0 = year_text(t.year as int);
    assert(f@ =~= start + p0);
    push_field(f, '-', t.month);
    let ghost p1 = p0 + seq!['-'] + two_digits(t.month as nat);
    assert(f@ =~= start + p1);
    push_field(f, '-', t.day);
    let ghost p2 = p1 + seq!['-'] + two_digits(t.day as nat);
    assert(f@ =~= start + p2);
    push_field(f, 'T', t.hour);
    let ghost p3 = p2 + seq!['T'] + two_digits(t.hour as nat);
    assert(f@ =~= start + p3);
    push_field(f, ':', t.minute);
    let ghost p4 = p3 + seq![':'] + two_digits(t.minute as nat);
    assert(f@ =~= start + p4);
    push_field(f, ':', t.second);
    let ghost p5 = p4 + seq![':'] + two_digits(t.second as nat);
    assert(f@ =~= start + p5);
    push_fraction(f, t.nanosecond);
    let ghost p6 = p5 + fraction_text(t.nanosecond as nat);
    assert(f@ =~= start + p6);
    push_char(f, 'Z');
    assert(p6 + seq!['Z'] == rfc3339_text(*t));
    assert(f@ =~= start + rfc3339_text(*t));
}

/// The RFC 3339 text of `t`, with as many fraction digits as it needs.
pub fn to_rfc3339_nanos(t: DateTime) -> (r: String)
    ensures
        r@ == rfc3339_text(t),
{
    let mut s = String::new();
    fmt_as_rfc3339_nanos(&t, &mut s);
    assert(s@ =~= rfc3339_text(t));
    s
}

/// Relies on `time::OffsetDateTime::now_utc`: the current time in UTC, whose
/// fields lie in the ranges that the `time` crate documents.
#[verifier::external_body]
pub(crate) fn now_utc() -> (r: DateTime)
    ensures
        r.wf(),
{
    let t = time::OffsetDateTime::now_utc();
    DateTime {
        year: t.year(),
        month: t.month() as u8,
        day: t.day(),
        hour: t.hour(),
        minute: t.minute(),
        second: t.second(),
        nanosecond: t.nanosecond(),
    }
}

proof fn lemma_padded_len(n: nat, width: nat)
    requires
        width >= 1,
        n < pow10(width),
    ensures
        zero_pad(decimal_text(n), width).len() == width,
{
    lemma_decimal_text_len(n, width);
}

proof fn lemma_digits_not_dot(n: nat)
    ensures
        forall|i: int| 0 <= i < decimal_text(n).len() ==> #[trigger] decimal_text(n)[i] != '.',
    decreases n,
{
    if n >= 10 {
        lemma_digits_not_dot(n / 10);
        assert(decimal_text(n) == decimal_text(n / 10).push(digit_char(n % 10)));
    }
}

proof fn lemma_padded_not_dot(n: nat, width: nat)
    ensures
        forall|i: int| 0 <= i < zero_pad(decimal_text(n), width).len()
            ==> #[trigger] zero_pad(decimal_text(n), width)[i] != '.',
{
    lemma_digits_not_dot(n);
    let t = decimal_text(n);
    if t.len() < width {
        let z = Seq::new((width - t.len()) as nat, |i: int| '0');
        assert forall|i: int| 0 <= i < (z + t).len() implies #[trigger] (z + t)[i] != '.' by {
            if i >= z.len() {
                assert((z + t)[i] == t[i - z.len()]);
            }
        }
    }
}

/// A time on a whole second, in a year from 0 to 9999, is written in twenty
/// characters, `YYYY-MM-DDTHH:MM:SSZ`, with no fraction.
pub proof fn lemma_whole_second_text(t: DateTime)
    requires
        t.wf(),
        t.year >= 0,
        t.nanosecond == 0,
    ensures
        rfc3339_text(t) == zero_pad(decimal_text(t.year as nat), 4)
            + seq!['-'] + two_digits(t.month as nat)
            + seq!['-'] + two_digits(t.day as nat)
            + seq!['T'] + two_digits(t.hour as nat)
            + seq![':'] + two_digits(t.minute as nat)
            + seq![':'] + two_digits(t.second as nat)
            + seq!['Z'],
        rfc3339_text(t).len() == 20,
        forall|i: int| 0 <= i < 20 ==> #[trigger] rfc3339_text(t)[i] != '.',
{
    reveal_with_fuel(pow10, 5);
    assert(pow10(2) == 100);
    assert(pow10(4) == 10000);
    lemma_padded_len(t.year as nat, 4);
    lemma_padded_len(t.month as nat, 2);
    lemma_padded_len(t.day as nat, 2);
    lemma_padded_len(t.hour as nat, 2);
    lemma_padded_len(t.minute as nat, 2);
    lemma_padded_len(t.second as nat, 2);
    assert(fraction_text(0) =~= Seq::<char>::empty());
    let y = zero_pad(decimal_text(t.year as nat), 4);
    let mo = two_digits(t.month as nat);
    let d = two_digits(t.day as nat);
    let h = two_digits(t.hour as nat);
    let mi = two_digits(t.minute as nat);
    let s = two_digits(t.second as nat);
    let text = y + seq!['-'] + mo + seq!['-'] + d + seq!['T'] + h + seq![':'] + mi + seq![':'] + s + seq!['Z'];
    assert(rfc3339_text(t) =~= text);
    lemma_padded_not_dot(t.year as nat, 4);
    lemma_padded_not_dot(t.month as nat, 2);
    lemma_padded_not_dot(t.day as nat, 2);
    lemma_padded_not_dot(t.hour as nat, 2);
    lemma_padded_not_dot(t.minute as nat, 2);
    lemma_padded_not_dot(t.second as nat, 2);
    assert forall|i: int| 0 <= i < 20 implies #[trigger] text[i] != '.' by {
        if i < 4 {
            assert(text[i] == y[i]);
        } else if 5 <= i < 7 {
            assert(text[i] == mo[i - 5]);
        } else if 8 <= i < 10 {
            assert(text[i] == d[i - 8]);
        } else if 11 <= i < 13 {
            assert(text[i] == h[i - 11]);
        } else if 14 <= i < 16 {
            assert(text[i] == mi[i - 14]);
        } else if 17 <= i < 19 {
            assert(text[i] == s[i - 17]);
        }
    }
}

proof fn lemma_trim_zeros(s: Seq<char>)
    ensures
        trim_zeros(s).len() <= s.len(),
        trim_zeros(s) == s.subrange(0, trim_zeros(s).len() as int),
        forall|i: int| trim_zeros(s).len() <= i < s.len() ==> #[trigger] s[i] == '0',
        trim_zeros(s).len() > 0 ==> trim_zeros(s).last() != '0',
        (exists|i: int| 0 <= i < s.len() && #[trigger] s[i] != '0') ==> trim_zeros(s).len() > 0,
    decreases s.len(),
{
    if s.len() > 0 && s.last() == '0' {
        let p = s.drop_last();
        lemma_trim_zeros(p);
        assert forall|i: int| trim_zeros(s).len() <= i < s.len() implies #[trigger] s[i] == '0' by {
            if i < p.len() {
                assert(s[i] == p[i]);
            }
        }
        assert(trim_zeros(s) =~= s.subrange(0, trim_zeros(s).len() as int));
        if exists|i: int| 0 <= i < s.len() && #[trigger] s[i] != '0' {
            let i = choose|i: int| 0 <= i < s.len() && #[trigger] s[i] != '0';
            assert(p[i] != '0');
        }
    } else {
        assert(s.subrange(0, s.len() as int) =~= s);
    }
}

proof fn lemma_nonzero_digit(n: nat)
    requires
        n > 0,
    ensures
        exists|i: int| 0 <= i < decimal_text(n).len() && #[trigger] decimal_text(n)[i] != '0',
    decreases n,
{
    if n >= 10 {
        assert(decimal_text(n) == decimal_text(n / 10).push(digit_char(n % 10)));
        if n % 10 == 0 {
            lemma_nonzero_digit(n / 10);
            let i = choose|i: int| 0 <= i < decimal_text(n / 10).len() && #[trigger] decimal_text(n / 10)[i] != '0';
            assert(decimal_text(n)[i] == decimal_text(n / 10)[i]);
        } else {
            assert(decimal_text(n)[decimal_text(n).len() - 1] != '0');
        }
    } else {
        assert(decimal_text(n)[0] != '0');
    }
}

/// A fraction of a second below one second and above zero is written as a
/// `.` and between one and nine digits, the last of them not `0`: the
/// nine-digit nanoseconds with their trailing zeros, and only those, left out.
pub proof fn lemma_fraction_minimal(nanos: nat)
    requires
        0 < nanos < 1_000_000_000,
    ensures
        fraction_text(nanos)[0] == '.',
        1 <= fraction_text(nanos).len() - 1 <= 9,
        fraction_text(nanos).last() != '0',
        fraction_text(nanos).drop_first()
            == zero_pad(decimal_text(nanos), 9).subrange(0, fraction_text(nanos).len() - 1),
        forall|i: int| fraction_text(nanos).len() - 1 <= i < 9
            ==> #[trigger] zero_pad(decimal_text(nanos), 9)[i] == '0',
{
    reveal_with_fuel(pow10, 10);
    assert(pow10(9) == 1_000_000_000);
    lemma_padded_len(nanos, 9);
    let t = decimal_text(nanos);
    let s = zero_pad(t, 9);
    lemma_trim_zeros(s);
    lemma_nonzero_digit(nanos);
    let i = choose|i: int| 0 <= i < t.len() && #[trigger] t[i] != '0';
    assert(s[9 - t.len() + i] == t[i]);
    let f = fraction_text(nanos);
    assert(f.drop_first() =~= trim_zeros(s));
}

} // verus!

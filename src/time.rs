use vstd::arithmetic::div_mod::lemma_fundamental_div_mod_converse;
use vstd::prelude::*;

verus! {

/// The character of a decimal digit `d < 10`.
pub open spec fn digit_char(d: nat) -> char {
    if d == 0 {
        '0'
    } else if d == 1 {
        '1'
    } else if d == 2 {
        '2'
    } else if d == 3 {
        '3'
    } else if d == 4 {
        '4'
    } else if d == 5 {
        '5'
    } else if d == 6 {
        '6'
    } else if d == 7 {
        '7'
    } else if d == 8 {
        '8'
    } else {
        '9'
    }
}

/// The decimal digits of `n`, most significant first, without leading zeros.
pub open spec fn decimal(n: nat) -> Seq<char>
    decreases n,
{
    if n < 10 {
        seq![digit_char(n)]
    } else {
        decimal(n / 10).push(digit_char(n % 10))
    }
}

/// `n` in decimal, zero-padded to at least two digits.
pub open spec fn pad2(n: nat) -> Seq<char> {
    if n < 10 {
        seq!['0', digit_char(n)]
    } else {
        decimal(n)
    }
}

/// A span of `total` seconds written as `MM:SS`; minutes are not capped at 59.
pub open spec fn format_mm_ss(total: nat) -> Seq<char> {
    pad2(total / 60) + seq![':'] + pad2(total % 60)
}

/// An absolute point in time, in whole seconds since the clock's epoch.
#[derive(Clone, Copy, Debug, PartialEq, Eq, Structural)]
pub struct Unixtime {
    pub number: u64,
}

impl Unixtime {
    /// The instant `add_sec` seconds after the clock reading `now`.
    pub fn from_clock(now: u32, add_sec: u32) -> (r: Unixtime)
        ensures
            r.number == now as int + add_sec as int,
    {
        Unixtime { number: now as u64 + add_sec as u64 }
    }
}

/// A non-negative span of whole seconds.
#[derive(Clone, Copy, Debug, PartialEq, Eq, Structural)]
pub struct UnixtimeInterval {
    pub number: u64,
}

/// Why a span between two instants could not be formed.
#[derive(Clone, Copy, Debug, PartialEq, Eq, Structural)]
pub enum IntervalError {
    /// The end lies before the start.
    InvalidInterval,
}

/// The span from `start` to `end`, or an error when `end` precedes `start`.
pub open spec fn spec_new_interval(start: Unixtime, end: Unixtime) -> Result<
    UnixtimeInterval,
    IntervalError,
> {
    if start.number <= end.number {
        Ok(UnixtimeInterval { number: (end.number - start.number) as u64 })
    } else {
        Err(IntervalError::InvalidInterval)
    }
}

/// The span of `m` minutes and `s` seconds.
pub fn from_m_s(m: u32, s: u32) -> (r: UnixtimeInterval)
    ensures
        r.number == m as int * 60 + s as int,
{
    UnixtimeInterval { number: m as u64 * 60 + s as u64 }
}

/// The span from `start` to `end`; a reversed pair is refused, never wrapped.
pub fn new_interval(start: &Unixtime, end: &Unixtime) -> (r: Result<UnixtimeInterval, IntervalError>)
    ensures
        r == spec_new_interval(*start, *end),
{
    if start.number <= end.number {
        Ok(UnixtimeInterval { number: end.number - start.number })
    } else {
        Err(IntervalError::InvalidInterval)
    }
}

/// A span built from `m` minutes and `s` seconds formats as the two fields
/// zero-padded and joined by a colon, whole minutes in `s` carried over into
/// the minutes field; with `s < 60` the fields are `m` and `s` themselves.
pub proof fn lemma_from_m_s_format(m: nat, s: nat)
    ensures
        format_mm_ss(m * 60 + s) == pad2(m + s / 60) + seq![':'] + pad2(s % 60),
        s < 60 ==> format_mm_ss(m * 60 + s) == pad2(m) + seq![':'] + pad2(s),
{
    let q: int = (s / 60) as int;
    let r = s % 60;
    assert(s == q * 60 + r);
    assert(m * 60 + s == (m + q) * 60 + r) by (nonlinear_arith)
        requires
            s == q * 60 + r,
    ;
    lemma_fundamental_div_mod_converse((m * 60 + s) as int, 60, m + q, r as int);
    if s < 60 {
        lemma_fundamental_div_mod_converse(s as int, 60, 0, s as int);
    }
}

/// For instants `a <= b` the span from `a` to `b` is `b - a` seconds, and the
/// reversed pair never yields a longer span: it is refused unless `a == b`.
pub proof fn lemma_between(a: Unixtime, b: Unixtime)
    requires
        a.number <= b.number,
    ensures
        spec_new_interval(a, b) == Ok::<UnixtimeInterval, IntervalError>(
            UnixtimeInterval { number: (b.number - a.number) as u64 },
        ),
        a.number < b.number ==> spec_new_interval(b, a) == Err::<UnixtimeInterval, IntervalError>(
            IntervalError::InvalidInterval,
        ),
        spec_new_interval(b, a) matches Ok(d) ==> d.number <= b.number - a.number,
{
}

/// The one-character string of the digit `d`.
fn digit_str(d: u64) -> (r: &'static str)
    requires
        d < 10,
    ensures
        r@ == seq![digit_char(d as nat)],
{
    if d == 0 {
        proof { reveal_strlit("0"); }
        "0"
    } else if d == 1 {
        proof { reveal_strlit("1"); }
        "1"
    } else if d == 2 {
        proof { reveal_strlit("2"); }
        "2"
    } else if d == 3 {
        proof { reveal_strlit("3"); }
        "3"
    } else if d == 4 {
        proof { reveal_strlit("4"); }
        "4"
    } else if d == 5 {
        proof { reveal_strlit("5"); }
        "5"
    } else if d == 6 {
        proof { reveal_strlit("6"); }
        "6"
    } else if d == 7 {
        proof { reveal_strlit("7"); }
        "7"
    } else if d == 8 {
        proof { reveal_strlit("8"); }
        "8"
    } else {
        proof { reveal_strlit("9"); }
        "9"
    }
}

/// Appends the decimal digits of `n` to `out`.
fn push_decimal(out: &mut String, n: u64)
    ensures
        final(out)@ == old(out)@ + decimal(n as nat),
    decreases n,
{
    if n < 10 {
        out.append(digit_str(n));
    } else {
        push_decimal(out, n / 10);
        out.append(digit_str(n % 10));
        assert(final(out)@ =~= old(out)@ + decimal(n as nat));
    }
}

/// Appends `n` zero-padded to two digits to `out`.
fn push_pad2(out: &mut String, n: u64)
    ensures
        final(out)@ == old(out)@ + pad2(n as nat),
{
    if n < 10 {
        out.append(digit_str(0));
        out.append(digit_str(n));
        assert(final(out)@ =~= old(out)@ + pad2(n as nat));
    } else {
        push_decimal(out, n);
    }
}

impl UnixtimeInterval {
    /// The span as `MM:SS`, each field zero-padded to two digits.
    pub fn to_string(&self) -> (r: String)
        ensures
            r@ == format_mm_ss(self.number as nat),
    {
        let mut out = String::new();
        push_pad2(&mut out, self.number / 60);
        let colon = ":";
        proof { reveal_strlit(":"); }
        out.append(colon);
        push_pad2(&mut out, self.number % 60);
        assert(out@ =~= format_mm_ss(self.number as nat));
        out
    }

    /// Whether this span is strictly longer than `given`.
    pub fn gt(&self, given: &UnixtimeInterval) -> (r: bool)
        ensures
            r == (self.number > given.number),
    {
        self.number > given.number
    }
}

} // verus!

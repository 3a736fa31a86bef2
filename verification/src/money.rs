use vstd::prelude::*;

verus! {

/// An exact currency amount: a signed count of ten-thousandths of a
/// unit, that is, the rational number `units / 10^4`. Equality,
/// ordering and arithmetic are exact integer operations; no floating
/// point is involved anywhere.
#[derive(Clone, Copy, Debug, PartialEq, Eq, Structural)]
pub struct Money {
    units: i128,
}

impl View for Money {
    type V = int;

    closed spec fn view(&self) -> int {
        self.units as int
    }
}

/// The amounts a `Money` value can hold: counts of ten-thousandths
/// that fit the machine word backing the type.
pub open spec fn in_units_range(v: int) -> bool {
    i128::MIN <= v <= i128::MAX
}

impl Money {
    /// The amount worth `v` ten-thousandths of a unit.
    pub closed spec fn from_units(v: int) -> Money {
        Money { units: v as i128 }
    }

    /// The zero amount.
    pub fn zero() -> (r: Money)
        ensures
            r@ == 0,
            r == Money::from_units(0),
    {
        Money { units: 0 }
    }

    /// Exact addition; `None` exactly when the sum does not fit.
    pub fn checked_add(self, other: Money) -> (r: Option<Money>)
        ensures
            match r {
                Some(m) => in_units_range(self@ + other@) && m == Money::from_units(self@ + other@)
                    && m@ == self@ + other@,
                None => !in_units_range(self@ + other@),
            },
    {
        match self.units.checked_add(other.units) {
            Some(u) => Some(Money { units: u }),
            None => None,
        }
    }

    /// Exact subtraction; `None` exactly when the difference does not fit.
    pub fn checked_sub(self, other: Money) -> (r: Option<Money>)
        ensures
            match r {
                Some(m) => in_units_range(self@ - other@) && m == Money::from_units(self@ - other@)
                    && m@ == self@ - other@,
                None => !in_units_range(self@ - other@),
            },
    {
        match self.units.checked_sub(other.units) {
            Some(u) => Some(Money { units: u }),
            None => None,
        }
    }

    /// Exact comparison.
    pub fn lt(&self, other: &Money) -> (r: bool)
        ensures
            r == (self@ < other@),
    {
        self.units < other.units
    }

    /// The raw count of ten-thousandths, for callers that render amounts.
    pub fn to_units(&self) -> (r: i128)
        ensures
            r as int == self@,
    {
        self.units
    }
}

/// A malformed or unrepresentable money literal.
#[derive(Clone, Copy, Debug, PartialEq, Eq, Structural)]
pub struct ParseError;

/// Decimal digits as characters.
pub open spec fn is_digit(c: char) -> bool {
    48 <= c as int <= 57
}

pub open spec fn digit_val(c: char) -> int {
    c as int - 48
}

pub open spec fn all_digits(s: Seq<char>) -> bool {
    forall|i: int| 0 <= i < s.len() ==> is_digit(#[trigger] s[i])
}

/// The number a string of decimal digits denotes.
pub open spec fn digits_val(s: Seq<char>) -> int
    decreases s.len(),
{
    if s.len() == 0 {
        0
    } else {
        digits_val(s.drop_last()) * 10 + digit_val(s.last())
    }
}

/// The digits of an integer literal, the optional leading sign stripped.
pub open spec fn int_body(s: Seq<char>) -> Seq<char> {
    if s.len() > 0 && (s[0] == '+' || s[0] == '-') {
        s.drop_first()
    } else {
        s
    }
}

pub open spec fn int_negative(s: Seq<char>) -> bool {
    s.len() > 0 && s[0] == '-'
}

/// An optional sign followed by at least one decimal digit.
pub open spec fn is_int_literal(s: Seq<char>) -> bool {
    int_body(s).len() > 0 && all_digits(int_body(s))
}

pub open spec fn int_literal_val(s: Seq<char>) -> int {
    if int_negative(s) {
        -digits_val(int_body(s))
    } else {
        digits_val(int_body(s))
    }
}

/// Integer parts are read with the same width the rest of the ledger's
/// arithmetic grew from; a literal beyond it is rejected.
pub open spec fn in_i64_range(v: int) -> bool {
    i64::MIN <= v <= i64::MAX
}

/// Ten-thousandths contributed by one fractional digit position.
pub open spec fn frac_scale(len: int) -> int {
    if len == 1 {
        1000
    } else if len == 2 {
        100
    } else if len == 3 {
        10
    } else {
        1
    }
}

/// Strict upper bound on the value of `len` decimal digits, for the
/// lengths a fractional part can have.
pub open spec fn digit_cap(len: int) -> int {
    if len <= 0 {
        1
    } else if len == 1 {
        10
    } else if len == 2 {
        100
    } else if len == 3 {
        1000
    } else {
        10000
    }
}

/// A well-formed decimal amount: either an integer literal, or an
/// integer literal, a point, and a fractional part whose first at most
/// four characters are digits. Only those four digits count; a fifth
/// and later are truncated away unread, the format's stated precision
/// cap.
pub open spec fn spec_valid_amount(s: Seq<char>) -> bool {
    match s.index_of_first('.') {
        Some(dot) => {
            let ip = s.take(dot);
            let fall = s.skip(dot + 1);
            let f = fall.take(if fall.len() <= 4 { fall.len() as int } else { 4 });
            &&& is_int_literal(ip)
            &&& in_i64_range(int_literal_val(ip))
            &&& f.len() > 0
            &&& all_digits(f)
        },
        None => is_int_literal(s) && in_i64_range(int_literal_val(s)),
    }
}

/// The ten-thousandths a well-formed decimal amount denotes: the
/// integer part plus the (always nonnegative) fractional part, as the
/// format prescribes.
pub open spec fn spec_amount_units(s: Seq<char>) -> int {
    match s.index_of_first('.') {
        Some(dot) => {
            let ip = s.take(dot);
            let fall = s.skip(dot + 1);
            let f = fall.take(if fall.len() <= 4 { fall.len() as int } else { 4 });
            int_literal_val(ip) * 10000 + digits_val(f) * frac_scale(f.len() as int)
        },
        None => int_literal_val(s) * 10000,
    }
}

/// What `parse` returns for any input, as a value: no amount for the
/// empty string, the denoted amount for a well-formed literal, an
/// error otherwise.
pub open spec fn spec_parse(s: Seq<char>) -> Result<Option<Money>, ParseError> {
    if s.len() == 0 {
        Ok(None)
    } else if spec_valid_amount(s) {
        Ok(Some(Money::from_units(spec_amount_units(s))))
    } else {
        Err(ParseError)
    }
}

/// Every amount's count of ten-thousandths lies in the representable range.
pub broadcast proof fn lemma_view_in_range(m: Money)
    ensures
        in_units_range(#[trigger] m@),
{
}

/// An in-range count of ten-thousandths reads back as itself.
pub broadcast proof fn lemma_from_units_view(v: int)
    requires
        in_units_range(v),
    ensures
        (#[trigger] Money::from_units(v))@ == v,
{
}

/// An amount is determined by its count of ten-thousandths.
pub broadcast proof fn lemma_view_from_units(m: Money)
    ensures
        Money::from_units(#[trigger] m@) == m,
{
}

/// Saturation ceiling for digit accumulation: one above every value
/// whose sign-applied magnitude could still be a valid integer part.
const DIGIT_SAT: u128 = 0x10000000000000000;

/// Index of the first occurrence of `needle`, or the length if there
/// is none.
#[verifier::loop_isolation(false)]
fn find_first(s: &str, needle: char) -> (r: usize)
    ensures
        r <= s@.len(),
        r == s@.len() ==> s@.index_of_first(needle) is None,
        r < s@.len() ==> s@.index_of_first(needle) == Some(r as int),
{
    let n = s.unicode_len();
    let mut i: usize = 0;
    while i < n
        invariant
            i <= n,
            n == s@.len(),
            forall|k: int| 0 <= k < i ==> s@[k] != needle,
        decreases n - i,
    {
        if s.get_char(i) == needle {
            proof {
                s@.index_of_first_ensures(needle);
                assert(s@.contains(needle)) by {
                    assert(s@[i as int] == needle);
                }
            }
            return i;
        }
        i += 1;
    }
    proof {
        s@.index_of_first_ensures(needle);
        if s@.contains(needle) {
            let w = choose|k: int| 0 <= k < s@.len() && s@[k] == needle;
            assert(s@[w] != needle);
        }
    }
    n
}

/// Reads an optionally signed run of decimal digits as an integer;
/// `None` for anything malformed or beyond the accepted range.
#[verifier::loop_isolation(false)]
fn parse_int_literal(t: &str) -> (r: Option<i64>)
    ensures
        match r {
            Some(v) => is_int_literal(t@) && in_i64_range(int_literal_val(t@)) && v as int
                == int_literal_val(t@),
            None => !(is_int_literal(t@) && in_i64_range(int_literal_val(t@))),
        },
{
    let n = t.unicode_len();
    if n == 0 {
        return None;
    }
    let c0 = t.get_char(0);
    let neg = c0 == '-';
    let start: usize = if c0 == '-' || c0 == '+' {
        1
    } else {
        0
    };
    if start >= n {
        // a bare sign has no digits
        return None;
    }
    proof {
        assert(int_body(t@) =~= t@.subrange(start as int, n as int));
    }
    let ghost body = t@.subrange(start as int, n as int);
    let mut acc: u128 = 0;
    let mut j: usize = start;
    while j < n
        invariant
            start <= j <= n,
            n == t@.len(),
            start < n,
            body == t@.subrange(start as int, n as int),
            forall|k: int| start <= k < j ==> is_digit(#[trigger] t@[k]),
            0 <= digits_val(t@.subrange(start as int, j as int)),
            acc == if digits_val(t@.subrange(start as int, j as int)) <= DIGIT_SAT {
                digits_val(t@.subrange(start as int, j as int))
            } else {
                DIGIT_SAT as int
            },
        decreases n - j,
    {
        let c = t.get_char(j);
        let cu = c as u32;
        if cu < 48 || cu > 57 {
            proof {
                assert(!is_digit(int_body(t@)[j - start]));
            }
            return None;
        }
        let d = (cu - 48) as u128;
        proof {
            let pref = t@.subrange(start as int, j as int);
            let prefx = t@.subrange(start as int, j as int + 1);
            assert(prefx.drop_last() =~= pref);
            assert(prefx.last() == c);
        }
        acc = if acc >= DIGIT_SAT {
            DIGIT_SAT
        } else {
            let tmp: u128 = acc * 10 + d;
            if tmp > DIGIT_SAT {
                DIGIT_SAT
            } else {
                tmp
            }
        };
        j += 1;
    }
    proof {
        assert(body =~= t@.subrange(start as int, n as int));
        assert forall|i2: int| 0 <= i2 < body.len() implies is_digit(#[trigger] body[i2]) by {
            assert(body[i2] == t@[start + i2]);
        }
    }
    if neg {
        if acc > 9223372036854775808 {
            return None;
        }
        let v: i128 = -(acc as i128);
        Some(v as i64)
    } else {
        if acc > 9223372036854775807 {
            return None;
        }
        Some(acc as i64)
    }
}

/// Reads at most four fractional digits; `None` unless the characters
/// are one to four digits.
#[verifier::loop_isolation(false)]
fn parse_frac(t: &str) -> (r: Option<u32>)
    requires
        t@.len() <= 4,
    ensures
        match r {
            Some(v) => t@.len() > 0 && all_digits(t@) && v as int == digits_val(t@) && v <= 9999,
            None => !(t@.len() > 0 && all_digits(t@)),
        },
{
    let n = t.unicode_len();
    if n == 0 {
        return None;
    }
    let mut acc: u32 = 0;
    let mut j: usize = 0;
    while j < n
        invariant
            j <= n,
            n == t@.len() <= 4,
            forall|k: int| 0 <= k < j ==> is_digit(#[trigger] t@[k]),
            acc == digits_val(t@.subrange(0, j as int)),
            acc < digit_cap(j as int),
        decreases n - j,
    {
        let c = t.get_char(j);
        let cu = c as u32;
        if cu < 48 || cu > 57 {
            proof {
                assert(!is_digit(t@[j as int]));
            }
            return None;
        }
        proof {
            let pref = t@.subrange(0, j as int);
            let prefx = t@.subrange(0, j as int + 1);
            assert(prefx.drop_last() =~= pref);
            assert(prefx.last() == c);
        }
        acc = acc * 10 + (cu - 48);
        j += 1;
    }
    proof {
        assert(t@.subrange(0, n as int) =~= t@);
    }
    Some(acc)
}

impl Money {
    /// Reads one decimal amount field, the way the input format
    /// prescribes: an empty field means no amount; otherwise the text
    /// is split at the first point, the integer part is read as a
    /// signed integer, the fractional part is truncated to at most
    /// four digits, and the two parts are summed.
    pub fn parse(s: &str) -> (r: Result<Option<Money>, ParseError>)
        ensures
            r == spec_parse(s@),
    {
        let n = s.unicode_len();
        if n == 0 {
            return Ok(None);
        }
        let dot = find_first(s, '.');
        if dot == n {
            match parse_int_literal(s) {
                Some(v) => {
                    let m = Money { units: (v as i128) * 10000 };
                    proof {
                        assert(spec_valid_amount(s@));
                        assert(spec_amount_units(s@) == v as int * 10000);
                        assert(m == Money::from_units(spec_amount_units(s@)));
                    }
                    Ok(Some(m))
                },
                None => {
                    proof {
                        assert(!spec_valid_amount(s@));
                    }
                    Err(ParseError)
                },
            }
        } else {
            let ip = s.substring_char(0, dot);
            let rest = n - (dot + 1);
            let frac_end = if rest > 4 {
                dot + 1 + 4
            } else {
                n
            };
            let fp = s.substring_char(dot + 1, frac_end);
            proof {
                let fall = s@.skip(dot as int + 1);
                let f = fall.take(if fall.len() <= 4 { fall.len() as int } else { 4 });
                assert(ip@ =~= s@.take(dot as int));
                assert(fp@ =~= f);
            }
            match (parse_int_literal(ip), parse_frac(fp)) {
                (Some(v), Some(f)) => {
                    let fl = frac_end - (dot + 1);
                    let scaled: i128 = if fl == 1 {
                        (f as i128) * 1000
                    } else if fl == 2 {
                        (f as i128) * 100
                    } else if fl == 3 {
                        (f as i128) * 10
                    } else {
                        f as i128
                    };
                    let m = Money { units: (v as i128) * 10000 + scaled };
                    proof {
                        assert(fl as int == fp@.len());
                        assert(scaled as int == f as int * frac_scale(fp@.len() as int));
                        assert(spec_valid_amount(s@));
                        assert(spec_amount_units(s@) == v as int * 10000 + f as int * frac_scale(
                            fp@.len() as int,
                        ));
                        assert(m == Money::from_units(spec_amount_units(s@)));
                    }
                    Ok(Some(m))
                },
                _ => {
                    proof {
                        assert(!spec_valid_amount(s@));
                    }
                    Err(ParseError)
                },
            }
        }
    }
}

/// Magnitude of an integer.
pub open spec fn int_abs(v: int) -> int {
    if v < 0 {
        -v
    } else {
        v
    }
}

/// A well-formed ratio literal: an integer literal, optionally
/// followed by a slash and a nonzero integer literal, denoting an
/// amount the type can hold exactly.
pub open spec fn spec_valid_ratio(s: Seq<char>) -> bool {
    match s.index_of_first('/') {
        Some(k) => {
            let num = s.take(k);
            let den = s.skip(k + 1);
            &&& is_int_literal(num)
            &&& in_i64_range(int_literal_val(num))
            &&& is_int_literal(den)
            &&& in_i64_range(int_literal_val(den))
            &&& int_literal_val(den) != 0
            &&& (10000 * int_abs(int_literal_val(num))) % int_abs(int_literal_val(den)) == 0
        },
        None => is_int_literal(s) && in_i64_range(int_literal_val(s)),
    }
}

/// Numerator of a ratio literal; the whole text when there is no slash.
pub open spec fn spec_ratio_num(s: Seq<char>) -> int {
    match s.index_of_first('/') {
        Some(k) => int_literal_val(s.take(k)),
        None => int_literal_val(s),
    }
}

/// Denominator of a ratio literal; one when there is no slash.
pub open spec fn spec_ratio_den(s: Seq<char>) -> int {
    match s.index_of_first('/') {
        Some(k) => int_literal_val(s.skip(k + 1)),
        None => 1,
    }
}

impl Money {
    /// Reads a ratio literal `numerator/denominator` (or a bare
    /// integer), accepting exactly the values the type represents: the
    /// result is the unique amount with `r@ * den == 10^4 * num`.
    pub fn from_str(s: &str) -> (r: Result<Money, ParseError>)
        ensures
            match r {
                Ok(m) => spec_valid_ratio(s@) && m@ * spec_ratio_den(s@) == 10000 * spec_ratio_num(
                    s@,
                ),
                Err(_) => !spec_valid_ratio(s@),
            },
    {
        let n = s.unicode_len();
        let slash = find_first(s, '/');
        if slash == n {
            match parse_int_literal(s) {
                Some(v) => Ok(Money { units: (v as i128) * 10000 }),
                None => Err(ParseError),
            }
        } else {
            let ns = s.substring_char(0, slash);
            let ds = s.substring_char(slash + 1, n);
            proof {
                assert(ns@ =~= s@.take(slash as int));
                assert(ds@ =~= s@.skip(slash as int + 1));
            }
            match (parse_int_literal(ns), parse_int_literal(ds)) {
                (Some(nv), Some(dv)) => {
                    if dv == 0 {
                        return Err(ParseError);
                    }
                    let nn: i128 = (nv as i128) * 10000;
                    let un: u128 = if nn < 0 {
                        (-nn) as u128
                    } else {
                        nn as u128
                    };
                    let ud: u128 = if dv < 0 {
                        (-(dv as i128)) as u128
                    } else {
                        (dv as i128) as u128
                    };
                    let q: u128 = un / ud;
                    let rem: u128 = un % ud;
                    proof {
                        vstd::arithmetic::div_mod::lemma_fundamental_div_mod(
                            un as int,
                            ud as int,
                        );
                        assert(un as int == 10000 * int_abs(nv as int));
                        assert(ud as int == int_abs(dv as int));
                    }
                    if rem != 0 {
                        return Err(ParseError);
                    }
                    proof {
                        assert(q as int * ud as int == un as int) by (nonlinear_arith)
                            requires
                                un as int == ud as int * (un as int / ud as int) + un as int
                                    % ud as int,
                                q == un as int / ud as int,
                                un as int % ud as int == 0,
                        ;
                        assert(q as int <= un as int) by (nonlinear_arith)
                            requires
                                q as int * ud as int == un as int,
                                ud as int >= 1,
                                q as int >= 0,
                        ;
                    }
                    let neg = (nv < 0) != (dv < 0);
                    let units: i128 = if neg {
                        -(q as i128)
                    } else {
                        q as i128
                    };
                    proof {
                        if nv < 0 && dv > 0 {
                            assert((-(q as int)) * (dv as int) == 10000 * (nv as int))
                                by (nonlinear_arith)
                                requires
                                    q as int * (ud as int) == un as int,
                                    un as int == -(10000 * (nv as int)),
                                    ud as int == dv as int,
                            ;
                        } else if nv >= 0 && dv < 0 {
                            assert((-(q as int)) * (dv as int) == 10000 * (nv as int))
                                by (nonlinear_arith)
                                requires
                                    q as int * (ud as int) == un as int,
                                    un as int == 10000 * (nv as int),
                                    ud as int == -(dv as int),
                            ;
                        } else if nv < 0 && dv < 0 {
                            assert((q as int) * (dv as int) == 10000 * (nv as int))
                                by (nonlinear_arith)
                                requires
                                    q as int * (ud as int) == un as int,
                                    un as int == -(10000 * (nv as int)),
                                    ud as int == -(dv as int),
                            ;
                        } else {
                            assert((q as int) * (dv as int) == 10000 * (nv as int))
                                by (nonlinear_arith)
                                requires
                                    q as int * (ud as int) == un as int,
                                    un as int == 10000 * (nv as int),
                                    ud as int == dv as int,
                            ;
                        }
                    }
                    Ok(Money { units })
                },
                _ => Err(ParseError),
            }
        }
    }
}

/// The decimal-amount reader for one field of an input row, kept as a
/// value so row decoders can hold it.
#[derive(Clone, Copy, Debug)]
pub struct MoneyVisitor;

impl MoneyVisitor {
    /// Reads one amount field; see [`Money::parse`].
    pub fn visit_str(&self, value: &str) -> (r: Result<Option<Money>, ParseError>)
        ensures
            r == spec_parse(value@),
    {
        Money::parse(value)
    }
}

} // verus!

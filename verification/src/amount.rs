//! The amount codec: decimal text to base units at a fixed number of decimal
//! places. Excess fractional digits are dropped, never rounded.

use vstd::prelude::*;
use vstd::string::*;

verus! {

/// The characters with the Unicode property `White_Space`.
pub open spec fn is_whitespace(c: char) -> bool {
    let u = c as u32;
    ||| 0x09 <= u <= 0x0d
    ||| u == 0x20
    ||| u == 0x85
    ||| u == 0xa0
    ||| u == 0x1680
    ||| 0x2000 <= u <= 0x200a
    ||| u == 0x2028
    ||| u == 0x2029
    ||| u == 0x202f
    ||| u == 0x205f
    ||| u == 0x3000
}

/// `s` without its leading whitespace.
pub open spec fn trim_start_spec(s: Seq<char>) -> Seq<char>
    decreases s.len(),
{
    if s.len() > 0 && is_whitespace(s.first()) {
        trim_start_spec(s.drop_first())
    } else {
        s
    }
}

/// `s` without its trailing whitespace.
pub open spec fn trim_end_spec(s: Seq<char>) -> Seq<char>
    decreases s.len(),
{
    if s.len() > 0 && is_whitespace(s.last()) {
        trim_end_spec(s.drop_last())
    } else {
        s
    }
}

/// `s` without its leading and trailing whitespace.
pub open spec fn trim_spec(s: Seq<char>) -> Seq<char> {
    trim_end_spec(trim_start_spec(s))
}

pub open spec fn is_digit(c: char) -> bool {
    '0' <= c <= '9'
}

pub open spec fn digit_value(c: char) -> nat {
    (c as u32 - '0' as u32) as nat
}

pub open spec fn all_digits(s: Seq<char>) -> bool {
    forall|i: int| 0 <= i < s.len() ==> is_digit(#[trigger] s[i])
}

/// The number that a string of decimal digits writes; 0 for the empty string.
pub open spec fn digits_value(s: Seq<char>) -> nat
    decreases s.len(),
{
    if s.len() == 0 {
        0
    } else {
        10 * digits_value(s.drop_last()) + digit_value(s.last())
    }
}

pub open spec fn pow10(n: nat) -> nat
    decreases n,
{
    if n == 0 {
        1
    } else {
        10 * pow10((n - 1) as nat)
    }
}

/// The fractional digits `frac` read at exactly `d` places: padded with
/// zeros on the right, or cut after the first `d` digits.
pub open spec fn scaled_fraction(frac: Seq<char>, d: nat) -> nat {
    if frac.len() <= d {
        digits_value(frac) * pow10((d - frac.len()) as nat)
    } else {
        digits_value(frac.take(d as int))
    }
}

/// `t` has its one `.` at `p`, with nothing but digits on either side.
pub open spec fn splits_at(t: Seq<char>, p: int) -> bool {
    &&& 0 <= p < t.len()
    &&& t[p] == '.'
    &&& all_digits(t.take(p))
    &&& all_digits(t.skip(p + 1))
}

/// The integer and fractional digits of a trimmed amount, where it is well
/// formed: not empty, digits only, with at most one `.` among them.
pub open spec fn decimal_parts(t: Seq<char>) -> Option<(Seq<char>, Seq<char>)> {
    if t.len() == 0 {
        None
    } else if all_digits(t) {
        Some((t, Seq::empty()))
    } else if exists|p: int| splits_at(t, p) {
        let p = choose|p: int| splits_at(t, p);
        Some((t.take(p), t.skip(p + 1)))
    } else {
        None
    }
}

/// The base units that the integer digits `int_part` and the fractional
/// digits `frac` stand for at `d` decimal places.
pub open spec fn base_units(int_part: Seq<char>, frac: Seq<char>, d: nat) -> nat {
    digits_value(int_part) * pow10(d) + scaled_fraction(frac, d)
}

/// The base units that the text `s` stands for at `d` decimal places, where
/// `s` is a well-formed amount.
pub open spec fn amount_spec(s: Seq<char>, d: nat) -> Option<nat> {
    match decimal_parts(trim_spec(s)) {
        Some((int_part, frac)) => Some(base_units(int_part, frac, d)),
        None => None,
    }
}

/// What `parse_amount` returns on `s` at `d` decimal places.
pub open spec fn parse_amount_spec(s: Seq<char>, d: nat) -> Result<u128, ()> {
    match amount_spec(s, d) {
        Some(v) => if v <= u128::MAX {
            Ok(v as u128)
        } else {
            Err(())
        },
        None => Err(()),
    }
}

/// `str::trim` of std: the slice of `s` that is left when the leading and
/// the trailing characters with the Unicode property `White_Space` are
/// taken away.
#[verifier::external_body]
fn trim(s: &str) -> (r: &str)
    ensures
        r@ == trim_spec(s@),
{
    s.trim()
}

proof fn lemma_digits_value_take(s: Seq<char>, k: int)
    requires
        0 <= k < s.len(),
    ensures
        digits_value(s.take(k + 1)) == 10 * digits_value(s.take(k)) + digit_value(s[k]),
{
    assert(s.take(k + 1).drop_last() =~= s.take(k));
}

proof fn lemma_digits_value_prefix(s: Seq<char>, k: int)
    requires
        0 <= k <= s.len(),
    ensures
        digits_value(s.take(k)) <= digits_value(s),
    decreases s.len() - k,
{
    if k == s.len() {
        assert(s.take(k) =~= s);
    } else {
        lemma_digits_value_take(s, k);
        lemma_digits_value_prefix(s, k + 1);
    }
}

proof fn lemma_scaled_fraction_step(frac: Seq<char>, j: nat)
    ensures
        scaled_fraction(frac, j + 1) == 10 * scaled_fraction(frac, j) + (if j < frac.len() {
            digit_value(frac[j as int])
        } else {
            0
        }),
{
    if j < frac.len() {
        lemma_digits_value_take(frac, j as int);
        if j + 1 == frac.len() {
            assert(frac.take((j + 1) as int) =~= frac);
            assert(pow10(0) == 1);
            assert(digits_value(frac) * pow10(0) == digits_value(frac)) by (nonlinear_arith)
                requires
                    pow10(0) == 1,
            ;
        }
    } else {
        let e = (j - frac.len()) as nat;
        assert(pow10(e + 1) == 10 * pow10(e));
        assert(digits_value(frac) * (10 * pow10(e)) == 10 * (digits_value(frac) * pow10(e)))
            by (nonlinear_arith);
    }
}

proof fn lemma_base_units_step(int_part: Seq<char>, frac: Seq<char>, j: nat)
    ensures
        base_units(int_part, frac, j + 1) == 10 * base_units(int_part, frac, j) + (if j
            < frac.len() {
            digit_value(frac[j as int])
        } else {
            0
        }),
{
    lemma_scaled_fraction_step(frac, j);
    assert(pow10(j + 1) == 10 * pow10(j));
    assert(digits_value(int_part) * (10 * pow10(j)) == 10 * (digits_value(int_part) * pow10(j)))
        by (nonlinear_arith);
}

proof fn lemma_base_units_monotone(int_part: Seq<char>, frac: Seq<char>, j: nat, d: nat)
    requires
        j <= d,
    ensures
        base_units(int_part, frac, j) <= base_units(int_part, frac, d),
    decreases d - j,
{
    if j < d {
        lemma_base_units_step(int_part, frac, j);
        lemma_base_units_monotone(int_part, frac, j + 1, d);
    }
}

proof fn lemma_base_units_zero(int_part: Seq<char>, frac: Seq<char>)
    ensures
        base_units(int_part, frac, 0) == digits_value(int_part),
{
    assert(frac.take(0) =~= Seq::<char>::empty());
    assert(pow10(0) == 1);
    if frac.len() == 0 {
        assert(digits_value(frac) == 0);
    }
}

/// A `.` at `p` with digits on either side is the only such place, so
/// `decimal_parts` splits there.
proof fn lemma_split_unique(t: Seq<char>, p: int)
    requires
        splits_at(t, p),
    ensures
        decimal_parts(t) == Some((t.take(p), t.skip(p + 1))),
{
    assert(!is_digit(t[p]));
    assert(!all_digits(t));
    let q = choose|q: int| splits_at(t, q);
    if q < p {
        assert(t.take(p)[q] == t[q]);
        assert(is_digit(t.take(p)[q]));
    } else if q > p {
        assert(t.skip(p + 1)[q - p - 1] == t[q]);
        assert(is_digit(t.skip(p + 1)[q - p - 1]));
    }
}

fn is_digit_byte(b: u8) -> (r: bool)
    ensures
        r == (48 <= b <= 57),
{
    48 <= b && b <= 57
}

/// Converts a decimal amount such as `"123"`, `"123.45"` or `"0.000001"` to
/// base units at `decimals` places. Whitespace around the text is ignored.
/// The text must not be empty and must be digits with at most one `.`; the
/// digits on either side of a `.` may be missing and then count as zero, so
/// `".5"`, `"5."` and `"."` are amounts. Fractional digits beyond `decimals`
/// are dropped; a value over `u128::MAX` is refused.
pub fn parse_amount(amount_str: &str, decimals: u8) -> (r: Result<u128, ()>)
    ensures
        r == parse_amount_spec(amount_str@, decimals as nat),
{
    let t = trim(amount_str);
    if !t.is_ascii() {
        proof {
            lemma_not_ascii_malformed(t@);
        }
        return Err(());
    }
    let bytes = t.as_bytes();
    let n = bytes.len();
    proof {
        is_ascii_spec_bytes(t);
        vstd::utf8::is_ascii_chars_nat_bound(t@);
        assert(bytes@.len() == t@.len());
        assert forall|i: int| 0 <= i < n implies (#[trigger] t@[i]) as int == bytes@[i] as int by {
            assert(bytes@[i] == t@[i] as u8);
        }
    }
    if n == 0 {
        return Err(());
    }
    // The integer digits end at the first character that is not a digit.
    let mut p: usize = 0;
    while p < n && is_digit_byte(bytes[p])
        invariant
            p <= n,
            n == bytes@.len(),
            n == t@.len(),
            forall|i: int| 0 <= i < n ==> (#[trigger] t@[i]) as int == bytes@[i] as int,
            forall|i: int| 0 <= i < p ==> is_digit(#[trigger] t@[i]),
        decreases n - p,
    {
        p = p + 1;
    }
    let mut q: usize = n;
    if p < n {
        if bytes[p] != 46 {
            proof {
                lemma_stray_character(t@, p as int);
            }
            return Err(());
        }
        q = p + 1;
        while q < n && is_digit_byte(bytes[q])
            invariant
                p < q <= n,
                n == bytes@.len(),
                n == t@.len(),
                forall|i: int| 0 <= i < n ==> (#[trigger] t@[i]) as int == bytes@[i] as int,
                forall|i: int| p < i < q ==> is_digit(#[trigger] t@[i]),
            decreases n - q,
        {
            q = q + 1;
        }
        if q < n {
            proof {
                assert(t@[p as int] == '.');
                assert(!is_digit(t@[q as int]));
                lemma_second_stray_character(t@, p as int, q as int);
            }
            return Err(());
        }
    }
    let ghost int_part = t@.take(p as int);
    let ghost frac = if p < n {
        t@.skip(p + 1)
    } else {
        Seq::<char>::empty()
    };
    proof {
        if p < n {
            assert(t@[p as int] == '.');
            assert(splits_at(t@, p as int));
            lemma_split_unique(t@, p as int);
        } else {
            assert(t@.take(p as int) =~= t@);
            assert(all_digits(t@));
        }
        assert(decimal_parts(t@) == Some((int_part, frac)));
        assert(amount_spec(amount_str@, decimals as nat) == Some(
            base_units(int_part, frac, decimals as nat),
        ));
    }
    let ghost total = base_units(int_part, frac, decimals as nat);
    let mut acc: u128 = 0;
    let mut i: usize = 0;
    while i < p
        invariant
            i <= p <= n,
            n == bytes@.len(),
            n == t@.len(),
            forall|k: int| 0 <= k < n ==> (#[trigger] t@[k]) as int == bytes@[k] as int,
            forall|k: int| 0 <= k < p ==> is_digit(#[trigger] t@[k]),
            int_part == t@.take(p as int),
            acc == digits_value(int_part.take(i as int)),
            total == base_units(int_part, frac, decimals as nat),
            amount_spec(amount_str@, decimals as nat) == Some(total),
        decreases p - i,
    {
        assert(is_digit(t@[i as int]));
        let digit: u128 = (bytes[i] - 48) as u128;
        proof {
            assert(int_part[i as int] == t@[i as int]);
            lemma_digits_value_take(int_part, i as int);
            assert(digit == digit_value(int_part[i as int]));
        }
        if acc > (u128::MAX - digit) / 10 {
            proof {
                lemma_digits_value_prefix(int_part, i + 1);
                lemma_base_units_zero(int_part, frac);
                lemma_base_units_monotone(int_part, frac, 0, decimals as nat);
            }
            return Err(());
        }
        acc = acc * 10 + digit;
        i = i + 1;
    }
    proof {
        assert(int_part.take(p as int) =~= int_part);
        lemma_base_units_zero(int_part, frac);
    }
    let frac_len: usize = if p < n {
        n - p - 1
    } else {
        0
    };
    let mut j: u8 = 0;
    while j < decimals
        invariant
            j <= decimals,
            p <= n,
            n == bytes@.len(),
            n == t@.len(),
            forall|k: int| 0 <= k < n ==> (#[trigger] t@[k]) as int == bytes@[k] as int,
            forall|k: int| p < k < n ==> is_digit(#[trigger] t@[k]),
            frac.len() == frac_len,
            p < n ==> frac == t@.skip(p + 1) && frac_len == n - p - 1,
            p == n ==> frac_len == 0,
            acc == base_units(int_part, frac, j as nat),
            total == base_units(int_part, frac, decimals as nat),
            amount_spec(amount_str@, decimals as nat) == Some(total),
        decreases decimals - j,
    {
        proof {
            lemma_base_units_step(int_part, frac, j as nat);
            if j < frac_len {
                assert(frac[j as int] == t@[p + 1 + j]);
                assert(is_digit(t@[p + 1 + j]));
            }
        }
        let digit: u128 = if (j as usize) < frac_len {
            (bytes[p + 1 + j as usize] - 48) as u128
        } else {
            0
        };
        if acc > (u128::MAX - digit) / 10 {
            proof {
                lemma_base_units_monotone(int_part, frac, (j + 1) as nat, decimals as nat);
            }
            return Err(());
        }
        acc = acc * 10 + digit;
        j = j + 1;
    }
    Ok(acc)
}

/// A character that is not ASCII is neither a digit nor a `.`.
proof fn lemma_not_ascii_malformed(t: Seq<char>)
    requires
        !vstd::utf8::is_ascii_chars(t),
    ensures
        decimal_parts(t) is None,
{
    let i = choose|i: int| 0 <= i < t.len() && !('\0' <= #[trigger] t[i] <= '\u{7f}');
    lemma_stray_character(t, i);
}

/// A character that is neither a digit nor a `.` makes the text malformed.
proof fn lemma_stray_character(t: Seq<char>, i: int)
    requires
        0 <= i < t.len(),
        !is_digit(t[i]),
        t[i] != '.',
    ensures
        decimal_parts(t) is None,
{
    assert(!all_digits(t));
    if exists|p: int| splits_at(t, p) {
        let p = choose|p: int| splits_at(t, p);
        if i < p {
            assert(t.take(p)[i] == t[i]);
        } else {
            assert(t.skip(p + 1)[i - p - 1] == t[i]);
        }
    }
}

/// Two characters that are not digits make the text malformed.
proof fn lemma_second_stray_character(t: Seq<char>, i: int, k: int)
    requires
        0 <= i < k < t.len(),
        !is_digit(t[i]),
        !is_digit(t[k]),
    ensures
        decimal_parts(t) is None,
{
    assert(!all_digits(t));
    if exists|p: int| splits_at(t, p) {
        let p = choose|p: int| splits_at(t, p);
        if i < p {
            assert(t.take(p)[i] == t[i]);
        } else if k > p {
            assert(t.skip(p + 1)[k - p - 1] == t[k]);
        } else {
            assert(t.take(p)[i] == t[i]);
        }
    }
}

proof fn lemma_pow10_sum(a: nat, b: nat)
    ensures
        pow10(a + b) == pow10(a) * pow10(b),
    decreases b,
{
    if b == 0 {
        assert(pow10(a) * pow10(0) == pow10(a)) by (nonlinear_arith)
            requires
                pow10(0) == 1,
        ;
    } else {
        lemma_pow10_sum(a, (b - 1) as nat);
        assert(pow10(a + b) == 10 * pow10((a + b - 1) as nat));
        assert(pow10(a) * (10 * pow10((b - 1) as nat)) == 10 * (pow10(a) * pow10((b - 1) as nat)))
            by (nonlinear_arith);
    }
}

proof fn lemma_digits_value_concat(a: Seq<char>, b: Seq<char>)
    ensures
        digits_value(a + b) == digits_value(a) * pow10(b.len()) + digits_value(b),
    decreases b.len(),
{
    if b.len() == 0 {
        assert(a + b =~= a);
        assert(digits_value(a) * pow10(0) == digits_value(a)) by (nonlinear_arith)
            requires
                pow10(0) == 1,
        ;
    } else {
        assert((a + b).drop_last() =~= a + b.drop_last());
        assert((a + b).last() == b.last());
        lemma_digits_value_concat(a, b.drop_last());
        let e = (b.len() - 1) as nat;
        assert(pow10(b.len()) == 10 * pow10(e));
        assert(10 * (digits_value(a) * pow10(e)) == digits_value(a) * (10 * pow10(e)))
            by (nonlinear_arith);
    }
}

/// Text that neither starts nor ends with whitespace is its own trimming.
proof fn lemma_trim_identity(t: Seq<char>)
    requires
        t.len() > 0,
        !is_whitespace(t.first()),
        !is_whitespace(t.last()),
    ensures
        trim_spec(t) == t,
{
}

/// The text `int_part . frac`, both parts digits, is well formed and has
/// those parts.
proof fn lemma_parts_of_decimal(int_part: Seq<char>, frac: Seq<char>)
    requires
        all_digits(int_part),
        all_digits(frac),
    ensures
        decimal_parts(trim_spec(int_part + seq!['.'] + frac)) == Some((int_part, frac)),
{
    let t = int_part + seq!['.'] + frac;
    let p = int_part.len() as int;
    assert(t[p] == '.');
    assert(t.take(p) =~= int_part);
    assert(t.skip(p + 1) =~= frac);
    if p > 0 {
        assert(is_digit(int_part[0]));
        assert(t.first() == int_part[0]);
    }
    if frac.len() > 0 {
        assert(is_digit(frac[frac.len() - 1]));
        assert(t.last() == frac[frac.len() - 1]);
    }
    lemma_trim_identity(t);
    lemma_split_unique(t, p);
}

/// With no more fractional digits than decimal places nothing is lost: the
/// base units over `10^d` are exactly the number that the text writes, the
/// digits of both parts over `10^frac.len()`.
pub proof fn law_amount_exact(int_part: Seq<char>, frac: Seq<char>, d: nat)
    requires
        all_digits(int_part),
        all_digits(frac),
        frac.len() <= d,
    ensures
        amount_spec(int_part + seq!['.'] + frac, d) == Some(base_units(int_part, frac, d)),
        base_units(int_part, frac, d) * pow10(frac.len()) == digits_value(int_part + frac)
            * pow10(d),
{
    lemma_parts_of_decimal(int_part, frac);
    lemma_digits_value_concat(int_part, frac);
    let e = (d - frac.len()) as nat;
    lemma_pow10_sum(e, frac.len());
    let i = digits_value(int_part);
    let f = digits_value(frac);
    let pf = pow10(frac.len());
    let pe = pow10(e);
    assert((i * (pe * pf) + f * pe) * pf == (i * pf + f) * (pe * pf)) by (nonlinear_arith);
}

/// Fractional digits beyond the decimal places are dropped, not rounded: the
/// text stands for the same base units as the text cut after `d` fractional
/// digits.
pub proof fn law_amount_truncates(int_part: Seq<char>, frac: Seq<char>, d: nat)
    requires
        all_digits(int_part),
        all_digits(frac),
        frac.len() >= d,
    ensures
        amount_spec(int_part + seq!['.'] + frac, d) == amount_spec(
            int_part + seq!['.'] + frac.take(d as int),
            d,
        ),
        amount_spec(int_part + seq!['.'] + frac, d) == Some(
            digits_value(int_part) * pow10(d) + digits_value(frac.take(d as int)),
        ),
{
    let cut = frac.take(d as int);
    lemma_parts_of_decimal(int_part, frac);
    lemma_parts_of_decimal(int_part, cut);
    assert(cut.take(d as int) =~= cut);
    assert(frac.take(d as int) =~= cut);
    assert(digits_value(cut) * pow10(0) == digits_value(cut)) by (nonlinear_arith)
        requires
            pow10(0) == 1,
    ;
    if frac.len() == d {
        assert(cut =~= frac);
    }
}

} // verus!

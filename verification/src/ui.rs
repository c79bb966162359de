//! The pure amount/UI-string conversions: a raw amount is rendered as an
//! ASCII decimal string with exactly the mint's number of fractional
//! digits, and a UI string is parsed back into a raw amount, truncating
//! fractional digits beyond the mint's precision and rejecting malformed
//! text or values over 64 bits.

use vstd::prelude::*;
use vstd::slice::slice_subrange;

use crate::error::TokenError;

verus! {

/// ASCII digit test.
pub open spec fn spec_is_digit(b: u8) -> bool {
    48 <= b <= 57
}

/// Every byte of `s` is an ASCII digit.
pub open spec fn spec_all_digits(s: Seq<u8>) -> bool {
    forall|i: int| 0 <= i < s.len() ==> spec_is_digit(#[trigger] s[i])
}

/// The integer a digit string denotes, most significant digit first.
pub open spec fn spec_digits_value(s: Seq<u8>) -> int
    decreases s.len(),
{
    if s.len() == 0 {
        0
    } else {
        spec_digits_value(s.drop_last()) * 10 + (s.last() - 48)
    }
}

/// The canonical digit string of `x`: no leading zero except for `x == 0`.
pub open spec fn spec_u64_digits(x: u64) -> Seq<u8>
    decreases x,
{
    if x < 10 {
        seq![(x + 48) as u8]
    } else {
        spec_u64_digits((x / 10) as u64).push((x % 10 + 48) as u8)
    }
}

/// A run of `n` ASCII zeros.
pub open spec fn spec_zeros(n: int) -> Seq<u8> {
    Seq::new(n as nat, |i: int| 48u8)
}

/// The rendering of `amount` under `decimals`: the canonical digits when
/// `decimals` is zero, otherwise the digits padded on the left with zeros
/// to at least `decimals + 1` places, with a dot before the last
/// `decimals` of them.
pub open spec fn spec_ui_amount(amount: u64, decimals: u8) -> Seq<u8> {
    let ds = spec_u64_digits(amount);
    if decimals == 0 {
        ds
    } else {
        let d = decimals as int;
        let padded = if ds.len() >= d + 1 {
            ds
        } else {
            spec_zeros(d + 1 - ds.len()) + ds
        };
        padded.take(padded.len() - d) + seq![46u8] + padded.skip(padded.len() - d)
    }
}

/// Ten to the `n`th.
pub open spec fn spec_pow10(n: nat) -> int
    decreases n,
{
    if n == 0 {
        1
    } else {
        10 * spec_pow10((n - 1) as nat)
    }
}

/// The index of the first dot of `s`, or `s.len()` when there is none.
pub open spec fn spec_dot_index(s: Seq<u8>) -> int
    decreases s.len(),
{
    if s.len() == 0 {
        0
    } else if s[0] == 46 {
        0
    } else {
        1 + spec_dot_index(s.drop_first())
    }
}

/// A well-formed UI amount: digits with at most one dot, and at least one
/// digit somewhere.
pub open spec fn spec_ui_valid(s: Seq<u8>) -> bool {
    let di = spec_dot_index(s);
    &&& s.len() > 0
    &&& spec_all_digits(s.take(di))
    &&& (di == s.len() || (spec_all_digits(s.skip(di + 1)) && s.len() > 1))
}

/// The value a well-formed UI amount denotes under `decimals`: the integer
/// part scaled up, plus the fractional digits truncated to `decimals`
/// places and scaled to their position.
pub open spec fn spec_ui_value(s: Seq<u8>, decimals: u8) -> int {
    let di = spec_dot_index(s);
    let ip = s.take(di);
    let fp = if di == s.len() {
        Seq::<u8>::empty()
    } else {
        s.skip(di + 1)
    };
    let ft = fp.take(
        if fp.len() <= decimals {
            fp.len() as int
        } else {
            decimals as int
        },
    );
    spec_digits_value(ip) * spec_pow10(decimals as nat) + spec_digits_value(ft) * spec_pow10(
        (decimals - ft.len()) as nat,
    )
}

/// The outcome of parsing a UI amount: `InvalidAccountData` on malformed
/// text, `Overflow` when the denoted value exceeds 64 bits.
pub open spec fn spec_ui_to_amount(s: Seq<u8>, decimals: u8) -> Result<u64, TokenError> {
    if !spec_ui_valid(s) {
        Err(TokenError::InvalidAccountData)
    } else if spec_ui_value(s, decimals) > u64::MAX {
        Err(TokenError::Overflow)
    } else {
        Ok(spec_ui_value(s, decimals) as u64)
    }
}

// ---------------------------------------------------------------------------
// Digit-string lemmas
// ---------------------------------------------------------------------------

/// The canonical digit string is nonempty and all digits.
pub proof fn lemma_u64_digits_wf(x: u64)
    ensures
        spec_u64_digits(x).len() >= 1,
        spec_all_digits(spec_u64_digits(x)),
    decreases x,
{
    if x >= 10 {
        lemma_u64_digits_wf((x / 10) as u64);
    }
}

/// The canonical digit string denotes its number.
pub proof fn lemma_u64_digits_value(x: u64)
    ensures
        spec_digits_value(spec_u64_digits(x)) == x,
    decreases x,
{
    if x < 10 {
        assert(spec_u64_digits(x).drop_last() =~= Seq::<u8>::empty());
        assert(spec_digits_value(Seq::<u8>::empty()) == 0);
        assert(spec_u64_digits(x).last() == (x + 48) as u8);
        assert(((x + 48) as u8) - 48 == x);
    } else {
        lemma_u64_digits_value((x / 10) as u64);
        assert(spec_u64_digits(x).drop_last() =~= spec_u64_digits((x / 10) as u64));
        assert(spec_u64_digits(x).last() == (x % 10 + 48) as u8);
        assert(((x % 10 + 48) as u8) - 48 == x % 10);
        assert(spec_digits_value(spec_u64_digits(x)) == (x / 10) * 10 + x % 10);
        assert((x / 10) * 10 + x % 10 == x);
    }
}

/// A run of zeros denotes zero.
pub proof fn lemma_zeros_value(n: int)
    requires
        n >= 0,
    ensures
        spec_digits_value(spec_zeros(n)) == 0,
        spec_all_digits(spec_zeros(n)),
    decreases n,
{
    if n > 0 {
        lemma_zeros_value(n - 1);
        assert(spec_zeros(n).drop_last() =~= spec_zeros(n - 1));
        assert(spec_zeros(n).last() == 48);
    }
}

/// Ten to any power is positive.
pub proof fn lemma_pow10_pos(n: nat)
    ensures
        spec_pow10(n) >= 1,
    decreases n,
{
    if n > 0 {
        lemma_pow10_pos((n - 1) as nat);
    }
}

/// A digit string's value is nonnegative.
pub proof fn lemma_digits_value_nonneg(s: Seq<u8>)
    requires
        spec_all_digits(s),
    ensures
        spec_digits_value(s) >= 0,
    decreases s.len(),
{
    if s.len() > 0 {
        assert(spec_all_digits(s.drop_last())) by {
            assert(forall|i: int|
                0 <= i < s.len() - 1 ==> #[trigger] s.drop_last()[i] == s[i]);
        }
        lemma_digits_value_nonneg(s.drop_last());
        assert(s.last() >= 48);
    }
}

/// Concatenation law for digit values: the left part is scaled by ten to
/// the length of the right part.
pub proof fn lemma_digits_value_concat(a: Seq<u8>, b: Seq<u8>)
    ensures
        spec_digits_value(a + b) == spec_digits_value(a) * spec_pow10(b.len()) + spec_digits_value(
            b,
        ),
    decreases b.len(),
{
    if b.len() == 0 {
        assert(a + b =~= a);
        assert(spec_pow10(0) == 1);
    } else {
        let b2 = b.drop_last();
        lemma_digits_value_concat(a, b2);
        assert(a + b =~= (a + b2).push(b.last()));
        assert((a + b2).push(b.last()).drop_last() =~= a + b2);
        let va = spec_digits_value(a);
        let vb2 = spec_digits_value(b2);
        let p = spec_pow10(b2.len());
        assert((va * p + vb2) * 10 == va * (10 * p) + vb2 * 10) by (nonlinear_arith);
    }
}

/// Extending a digit prefix by one digit multiplies its value by ten and
/// adds the digit.
pub proof fn lemma_digits_value_step(s: Seq<u8>, k: int)
    requires
        0 <= k < s.len(),
    ensures
        spec_digits_value(s.take(k + 1)) == spec_digits_value(s.take(k)) * 10 + (s[k] - 48),
{
    assert(s.take(k + 1).drop_last() =~= s.take(k));
    assert(s.take(k + 1).last() == s[k]);
}

/// A digit string's value dominates any prefix scaled to its position.
pub proof fn lemma_digits_value_prefix_bound(s: Seq<u8>, k: int)
    requires
        spec_all_digits(s),
        0 <= k <= s.len(),
    ensures
        spec_digits_value(s) >= spec_digits_value(s.take(k)) * spec_pow10((s.len() - k) as nat),
{
    assert(s =~= s.take(k) + s.skip(k));
    lemma_digits_value_concat(s.take(k), s.skip(k));
    assert(spec_all_digits(s.skip(k))) by {
        assert(forall|i: int|
            0 <= i < s.len() - k ==> #[trigger] s.skip(k)[i] == s[i + k]);
    }
    lemma_digits_value_nonneg(s.skip(k));
}

/// Characterizes the dot index: the position of the first dot, or the
/// length when no byte is a dot.
pub proof fn lemma_dot_index_at(s: Seq<u8>, i: int)
    requires
        0 <= i <= s.len(),
        forall|j: int| 0 <= j < i ==> s[j] != 46,
        i < s.len() ==> s[i] == 46,
    ensures
        spec_dot_index(s) == i,
    decreases s.len(),
{
    if s.len() == 0 {
    } else if s[0] == 46 {
        assert(i == 0);
    } else {
        assert(i >= 1);
        let t = s.drop_first();
        assert(forall|j: int| 0 <= j < i - 1 ==> #[trigger] t[j] == s[j + 1]);
        assert(i - 1 < t.len() ==> t[i - 1] == 46);
        lemma_dot_index_at(t, i - 1);
    }
}

// ---------------------------------------------------------------------------
// Rendering
// ---------------------------------------------------------------------------

/// The canonical ASCII digits of `x`, most significant first; they denote
/// `x` itself.
pub fn u64_to_digits(x: u64) -> (r: Vec<u8>)
    ensures
        r@ == spec_u64_digits(x),
        spec_digits_value(r@) == x,
{
    proof {
        lemma_u64_digits_value(x);
    }
    let mut rev: Vec<u8> = Vec::new();
    let mut n: u64 = x;
    proof {
        assert(rev@.reverse() =~= Seq::<u8>::empty());
        assert(spec_u64_digits(n) + rev@.reverse() =~= spec_u64_digits(x));
    }
    while n >= 10
        invariant
            spec_u64_digits(x) == spec_u64_digits(n) + rev@.reverse(),
        decreases n,
    {
        let ghost prev = rev@;
        rev.push((n % 10) as u8 + 48);
        proof {
            let b = ((n % 10) as u8 + 48) as u8;
            assert(rev@.reverse() =~= seq![b] + prev.reverse());
            assert(spec_u64_digits(n) =~= spec_u64_digits((n / 10) as u64) + seq![b]);
            assert(spec_u64_digits((n / 10) as u64) + rev@.reverse() =~= spec_u64_digits(n)
                + prev.reverse());
        }
        n = n / 10;
    }
    let ghost prev = rev@;
    rev.push(n as u8 + 48);
    proof {
        let b = (n as u8 + 48) as u8;
        assert(rev@.reverse() =~= seq![b] + prev.reverse());
        assert(spec_u64_digits(n) =~= seq![b]);
        assert(rev@.reverse() =~= spec_u64_digits(x));
    }
    let mut out: Vec<u8> = Vec::new();
    let mut i: usize = rev.len();
    while i > 0
        invariant
            i <= rev@.len(),
            out@.len() == rev@.len() - i,
            forall|k: int| 0 <= k < out@.len() ==> out@[k] == rev@[rev@.len() - 1 - k],
        decreases i,
    {
        i = i - 1;
        out.push(rev[i]);
    }
    proof {
        assert(out@ =~= rev@.reverse());
    }
    out
}

/// Renders `amount` as a UI amount string with exactly `decimals`
/// fractional digits (none, and no dot, when `decimals` is zero).
pub fn amount_to_ui_amount(amount: u64, decimals: u8) -> (r: Vec<u8>)
    ensures
        r@ == spec_ui_amount(amount, decimals),
{
    let digits = u64_to_digits(amount);
    proof {
        lemma_u64_digits_wf(amount);
    }
    if decimals == 0 {
        return digits;
    }
    let d = decimals as usize;
    let mut padded: Vec<u8> = Vec::new();
    if digits.len() < d + 1 {
        let pad = d + 1 - digits.len();
        let mut z: usize = 0;
        while z < pad
            invariant
                z <= pad,
                padded@.len() == z,
                forall|k: int| 0 <= k < z ==> padded@[k] == 48u8,
            decreases pad - z,
        {
            padded.push(48u8);
            z += 1;
        }
        proof {
            assert(padded@ =~= spec_zeros(pad as int));
        }
    }
    let ghost pre = padded@;
    padded.extend_from_slice(digits.as_slice());
    let n = padded.len();
    let mut out: Vec<u8> = Vec::new();
    out.extend_from_slice(slice_subrange(padded.as_slice(), 0, n - d));
    out.push(46u8);
    out.extend_from_slice(slice_subrange(padded.as_slice(), n - d, n));
    proof {
        let ds = spec_u64_digits(amount);
        let spadded = if ds.len() >= decimals as int + 1 {
            ds
        } else {
            spec_zeros(decimals as int + 1 - ds.len()) + ds
        };
        assert(padded@ =~= spadded);
        assert(out@ =~= spec_ui_amount(amount, decimals));
    }
    out
}

// ---------------------------------------------------------------------------
// Parsing
// ---------------------------------------------------------------------------

/// Parses a UI amount string under `decimals`, truncating fractional
/// digits beyond `decimals` places; rejects malformed text with
/// `InvalidAccountData` and values over 64 bits with `Overflow`.
pub fn ui_amount_to_amount(s: &Vec<u8>, decimals: u8) -> (r: Result<u64, TokenError>)
    ensures
        r == spec_ui_to_amount(s@, decimals),
{
    let len = s.len();
    // Find the first dot.
    let mut di: usize = 0;
    while di < len && s[di] != 46
        invariant
            di <= len,
            len == s@.len(),
            forall|j: int| 0 <= j < di ==> s@[j] != 46,
        decreases len - di,
    {
        di += 1;
    }
    proof {
        lemma_dot_index_at(s@, di as int);
    }
    // Validate the shape.
    if len == 0 {
        return Err(TokenError::InvalidAccountData);
    }
    if di < len && len <= 1 {
        return Err(TokenError::InvalidAccountData);
    }
    let mut j: usize = 0;
    while j < di
        invariant
            j <= di,
            di <= len,
            len == s@.len(),
            len > 0,
            spec_dot_index(s@) == di as int,
            di < len ==> len > 1,
            forall|k: int| 0 <= k < j ==> spec_is_digit(#[trigger] s@[k]),
        decreases di - j,
    {
        if s[j] < 48 || s[j] > 57 {
            proof {
                assert(s@.take(di as int)[j as int] == s@[j as int]);
                assert(!spec_all_digits(s@.take(di as int)));
            }
            return Err(TokenError::InvalidAccountData);
        }
        j += 1;
    }
    proof {
        assert(forall|k: int|
            0 <= k < di ==> #[trigger] s@.take(di as int)[k] == s@[k]);
        assert(spec_all_digits(s@.take(di as int)));
    }
    let fstart = if di == len {
        len
    } else {
        di + 1
    };
    let mut j2: usize = fstart;
    while j2 < len
        invariant
            fstart <= j2 <= len,
            di <= len,
            fstart as int == (if di == len { len as int } else { di as int + 1 }),
            len == s@.len(),
            len > 0,
            spec_dot_index(s@) == di as int,
            di < len ==> len > 1,
            forall|k: int| fstart <= k < j2 ==> spec_is_digit(#[trigger] s@[k]),
        decreases len - j2,
    {
        if s[j2] < 48 || s[j2] > 57 {
            proof {
                if di < len {
                    assert(s@.skip(di as int + 1)[j2 - di - 1] == s@[j2 as int]);
                    assert(!spec_all_digits(s@.skip(di as int + 1)));
                }
            }
            return Err(TokenError::InvalidAccountData);
        }
        j2 += 1;
    }
    proof {
        if di < len {
            assert(forall|k: int|
                0 <= k < len - di - 1 ==> #[trigger] s@.skip(di as int + 1)[k] == s@[k + di
                    + 1]);
            assert(spec_all_digits(s@.skip(di as int + 1)));
        }
        assert(spec_ui_valid(s@));
    }
    // The fractional digits kept, and the full scaled digit string.
    let flen = len - fstart;
    let ft_len = if flen <= decimals as usize {
        flen
    } else {
        decimals as usize
    };
    let ghost ip = s@.take(di as int);
    let ghost fp = if di as int == s@.len() {
        Seq::<u8>::empty()
    } else {
        s@.skip(di as int + 1)
    };
    let ghost ft = fp.take(ft_len as int);
    let ghost dd = ip + ft + spec_zeros(decimals as int - ft_len as int);
    proof {
        lemma_digits_value_concat(ip + ft, spec_zeros(decimals as int - ft_len as int));
        lemma_digits_value_concat(ip, ft);
        lemma_zeros_value(decimals as int - ft_len as int);
        assert(spec_all_digits(ft)) by {
            assert(forall|k: int| 0 <= k < ft.len() ==> #[trigger] ft[k] == fp[k]);
        }
        assert(spec_all_digits(dd)) by {
            assert(forall|k: int| 0 <= k < di ==> #[trigger] dd[k] == s@[k]);
            assert(forall|k: int|
                di <= k < di + ft_len ==> #[trigger] dd[k] == ft[k - di]);
            assert(forall|k: int|
                di + ft_len <= k < dd.len() ==> #[trigger] dd[k] == 48u8);
        }
        // The denoted value is the value of the full scaled digit string.
        let p1 = spec_pow10(ft.len() as nat);
        let p2 = spec_pow10((decimals as int - ft_len as int) as nat);
        let vi = spec_digits_value(ip);
        let vf = spec_digits_value(ft);
        assert(spec_pow10(decimals as nat) == p1 * p2) by {
            lemma_pow10_mul(ft.len() as nat, (decimals as int - ft_len as int) as nat);
        }
        assert((vi * p1 + vf) * p2 == vi * (p1 * p2) + vf * p2) by (nonlinear_arith);
        assert(spec_digits_value(dd) == spec_ui_value(s@, decimals));
        assert(forall|j: int| 0 <= j < di ==> #[trigger] dd[j] == s@[j]);
        assert(forall|j: int| 0 <= j < ft_len ==> #[trigger] dd[di + j] == s@[fstart + j]);
        assert(forall|j: int|
            ft_len <= j < decimals as int ==> #[trigger] dd[di + j] == 48u8);
    }
    // Accumulate the digits with checked arithmetic: first the integer
    // part, then exactly `decimals` fractional positions.
    let mut acc: u64 = 0;
    let mut k: usize = 0;
    proof {
        assert(dd.take(0) =~= Seq::<u8>::empty());
        assert(dd.len() == di + decimals as int);
    }
    while k < di
        invariant
            k <= di,
            di <= len,
            len == s@.len(),
            ip == s@.take(di as int),
            dd.len() == di + decimals as int,
            spec_all_digits(dd),
            spec_ui_valid(s@),
            spec_digits_value(dd) == spec_ui_value(s@, decimals),
            forall|j: int| 0 <= j < di ==> #[trigger] dd[j] == s@[j],
            acc == spec_digits_value(dd.take(k as int)),
        decreases di - k,
    {
        proof {
            assert(dd[k as int] == s@[k as int]);
            assert(spec_is_digit(dd[k as int]));
        }
        let digit: u8 = s[k] - 48;
        proof {
            lemma_digits_value_step(dd, k as int);
        }
        let scaled = match acc.checked_mul(10) {
            Some(v) => v,
            None => {
                proof {
                    lemma_overflow_implies_big(dd, k as int);
                }
                return Err(TokenError::Overflow);
            },
        };
        let next = match scaled.checked_add(digit as u64) {
            Some(v) => v,
            None => {
                proof {
                    lemma_overflow_implies_big(dd, k as int);
                }
                return Err(TokenError::Overflow);
            },
        };
        acc = next;
        k += 1;
    }
    let mut k2: usize = 0;
    while k2 < decimals as usize
        invariant
            k2 <= decimals as usize,
            di <= len,
            fstart <= len,
            len == s@.len(),
            fstart as int == (if di == len { len as int } else { di as int + 1 }),
            ft_len <= decimals as usize,
            ft_len <= len - fstart,
            dd.len() == di + decimals as int,
            spec_all_digits(dd),
            spec_ui_valid(s@),
            spec_digits_value(dd) == spec_ui_value(s@, decimals),
            forall|j: int| 0 <= j < ft_len ==> #[trigger] dd[di + j] == s@[fstart + j],
            forall|j: int| ft_len <= j < decimals as int ==> #[trigger] dd[di + j] == 48u8,
            acc == spec_digits_value(dd.take(di + k2 as int)),
        decreases decimals as usize - k2,
    {
        proof {
            if k2 < ft_len {
                assert(dd[di + k2 as int] == s@[fstart + k2 as int]);
            } else {
                assert(dd[di + k2 as int] == 48u8);
            }
            assert(spec_is_digit(dd[di + k2 as int]));
        }
        let digit: u8 = if k2 < ft_len {
            s[fstart + k2] - 48
        } else {
            0
        };
        proof {
            assert(digit == dd[di + k2 as int] - 48);
            lemma_digits_value_step(dd, di + k2 as int);
        }
        let scaled = match acc.checked_mul(10) {
            Some(v) => v,
            None => {
                proof {
                    lemma_overflow_implies_big(dd, di + k2 as int);
                }
                return Err(TokenError::Overflow);
            },
        };
        let next = match scaled.checked_add(digit as u64) {
            Some(v) => v,
            None => {
                proof {
                    lemma_overflow_implies_big(dd, di + k2 as int);
                }
                return Err(TokenError::Overflow);
            },
        };
        acc = next;
        k2 += 1;
    }
    proof {
        assert(dd.take(di + decimals as int) =~= dd);
    }
    Ok(acc)
}

/// Ten-to-the-power distributes over addition of exponents.
pub proof fn lemma_pow10_mul(a: nat, b: nat)
    ensures
        spec_pow10(a + b) == spec_pow10(a) * spec_pow10(b),
    decreases a,
{
    if a == 0 {
    } else {
        lemma_pow10_mul((a - 1) as nat, b);
        let pa = spec_pow10((a - 1) as nat);
        let pb = spec_pow10(b);
        assert(10 * (pa * pb) == (10 * pa) * pb) by (nonlinear_arith);
        assert(a + b == 1 + ((a - 1) as nat + b));
    }
}

/// When one more digit no longer fits in 64 bits, the whole digit string
/// denotes a value over 64 bits.
proof fn lemma_overflow_implies_big(dd: Seq<u8>, k: int)
    requires
        spec_all_digits(dd),
        0 <= k < dd.len(),
        spec_digits_value(dd.take(k)) * 10 + (dd[k] - 48) > u64::MAX,
    ensures
        spec_digits_value(dd) > u64::MAX,
{
    lemma_digits_value_step(dd, k);
    lemma_digits_value_prefix_bound(dd, k + 1);
    let v = spec_digits_value(dd.take(k + 1));
    let p = spec_pow10((dd.len() - k - 1) as nat);
    lemma_pow10_pos((dd.len() - k - 1) as nat);
    assert(v * p >= v) by (nonlinear_arith)
        requires
            v > 0,
            p >= 1,
    ;
}

/// Faithfulness law for the conversions: parsing a rendered amount under
/// the same decimals gives the amount back exactly — rendering and
/// parsing hide no rounding.
pub proof fn lemma_ui_amount_round_trip(amount: u64, decimals: u8)
    ensures
        spec_ui_to_amount(spec_ui_amount(amount, decimals), decimals) == Ok::<u64, TokenError>(
            amount,
        ),
{
    lemma_u64_digits_wf(amount);
    lemma_u64_digits_value(amount);
    let ds = spec_u64_digits(amount);
    if decimals == 0 {
        let s = ds;
        assert(forall|j: int| 0 <= j < s.len() ==> s[j] != 46);
        lemma_dot_index_at(s, s.len() as int);
        assert(s.take(s.len() as int) =~= s);
        assert(spec_ui_valid(s));
        let fp = Seq::<u8>::empty();
        assert(fp.take(0) =~= fp);
        assert(spec_pow10(0) == 1);
        assert(spec_digits_value(fp) == 0);
        assert(spec_ui_value(s, 0) == amount);
    } else {
        let d = decimals as int;
        let padded = if ds.len() >= d + 1 {
            ds
        } else {
            spec_zeros(d + 1 - ds.len()) + ds
        };
        if ds.len() < d + 1 {
            lemma_zeros_value(d + 1 - ds.len());
            lemma_digits_value_concat(spec_zeros(d + 1 - ds.len()), ds);
            assert(spec_all_digits(padded)) by {
                assert(forall|j: int|
                    0 <= j < d + 1 - ds.len() ==> #[trigger] padded[j] == 48u8);
                assert(forall|j: int|
                    d + 1 - ds.len() <= j < padded.len() ==> #[trigger] padded[j] == ds[j - (d
                        + 1 - ds.len())]);
            }
        }
        assert(spec_all_digits(padded));
        assert(spec_digits_value(padded) == amount);
        let ll = padded.len() as int;
        let s = padded.take(ll - d) + seq![46u8] + padded.skip(ll - d);
        assert(s == spec_ui_amount(amount, decimals));
        assert(s.len() == ll + 1);
        assert(forall|j: int| 0 <= j < ll - d ==> #[trigger] s[j] == padded[j]);
        assert(s[ll - d] == 46);
        assert(forall|j: int|
            ll - d < j < s.len() ==> #[trigger] s[j] == padded[j - 1]);
        assert(forall|j: int| 0 <= j < ll - d ==> s[j] != 46);
        lemma_dot_index_at(s, ll - d);
        let ip = s.take(ll - d);
        let fp = s.skip(ll - d + 1);
        assert(ip =~= padded.take(ll - d));
        assert(fp =~= padded.skip(ll - d));
        assert(spec_all_digits(ip)) by {
            assert(forall|j: int|
                0 <= j < ll - d ==> #[trigger] ip[j] == padded[j]);
        }
        assert(spec_all_digits(fp)) by {
            assert(forall|j: int|
                0 <= j < d ==> #[trigger] fp[j] == padded[j + ll - d]);
        }
        assert(spec_ui_valid(s));
        assert(fp.len() == d);
        let ft = fp.take(d);
        assert(ft =~= fp);
        assert(padded =~= padded.take(ll - d) + padded.skip(ll - d));
        lemma_digits_value_concat(padded.take(ll - d), padded.skip(ll - d));
        assert(spec_pow10((decimals - ft.len()) as nat) == 1);
        assert(spec_ui_value(s, decimals) == spec_digits_value(ip) * spec_pow10(decimals as nat)
            + spec_digits_value(ft));
        assert(spec_ui_value(s, decimals) == amount);
    }
}

} // verus!

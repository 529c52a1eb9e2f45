//! Reading a price such as `33.2564125398239201`: whole units, and a fraction in parts per million.

use crate::permill::{Permill, ACCURACY};
use vstd::arithmetic::power::{lemma_pow0, lemma_pow1, lemma_pow_adds, lemma_pow_increases};
use vstd::arithmetic::power::{lemma_pow_positive, pow};
use vstd::prelude::*;
use vstd::slice::slice_subrange;
use vstd::utf8::encode_utf8;

verus! {

/// The decimal point.
pub const POINT: u8 = 46;

/// The sign that may stand before a number.
pub const PLUS: u8 = 43;

/// The digit zero.
pub const ZERO: u8 = 48;

/// The digit nine.
pub const NINE: u8 = 57;

/// The digits behind the point that are read.
pub const PLACES: usize = 6;

/// Every byte is a digit.
pub open spec fn all_digits(s: Seq<u8>) -> bool {
    forall|i: int| 0 <= i < s.len() ==> ZERO <= #[trigger] s[i] <= NINE
}

/// The number that digits stand for in decimal.
pub open spec fn decimal(s: Seq<u8>) -> nat
    decreases s.len(),
{
    if s.len() == 0 {
        0
    } else {
        decimal(s.drop_last()) * 10 + (s.last() - ZERO) as nat
    }
}

/// What follows the plus sign, where there is one in front.
pub open spec fn unsigned(s: Seq<u8>) -> Seq<u8> {
    if s.len() > 0 && s[0] == PLUS {
        s.drop_first()
    } else {
        s
    }
}

/// A plus sign or none, then at least one digit and nothing else, for a number up to `max`.
pub open spec fn is_number(s: Seq<u8>, max: nat) -> bool {
    &&& unsigned(s).len() > 0
    &&& all_digits(unsigned(s))
    &&& decimal(unsigned(s)) <= max
}

/// Where the first point stands; at the start where there is none.
pub open spec fn point_of(p: Seq<u8>) -> int {
    match p.index_of_first(POINT) {
        Some(i) => i,
        None => 0,
    }
}

/// What stands before the first point.
pub open spec fn integer_part(p: Seq<u8>) -> Seq<u8> {
    p.subrange(0, point_of(p))
}

/// What stands behind the first point, as far as it is read.
pub open spec fn fraction_part(p: Seq<u8>) -> Seq<u8> {
    let start = point_of(p) + 1;
    if p.len() >= start + PLACES {
        p.subrange(start, start + PLACES)
    } else {
        p.subrange(start, p.len() as int)
    }
}

/// A price that can be read: a number on either side of the point.
pub open spec fn is_price(p: Seq<u8>) -> bool {
    &&& is_number(integer_part(p), u64::MAX as nat)
    &&& is_number(fraction_part(p), u32::MAX as nat)
}

/// The parts per million that the digits behind a point stand for, where they are no more than are
/// read: the first digit counts tenths, the second hundredths, and so on.
pub open spec fn in_millionths(digits: Seq<u8>) -> int {
    decimal(digits) * pow(10, (PLACES - digits.len()) as nat)
}

/// The parts per million that what stands behind the point is read as. Digits count from the point;
/// behind a plus sign they are no decimal places, but the number of parts as it stands.
pub open spec fn parts_in(fraction: Seq<u8>) -> int {
    if fraction.len() > 0 && fraction[0] == PLUS {
        decimal(unsigned(fraction)) as int
    } else {
        in_millionths(fraction)
    }
}

/// The whole units and the parts per million that a price stands for.
pub open spec fn reads_as(p: Seq<u8>, price: (u64, Permill)) -> bool {
    &&& price.0 == decimal(unsigned(integer_part(p)))
    &&& price.1.parts() == parts_in(fraction_part(p))
}

proof fn lemma_decimal_of_prefix(s: Seq<u8>, n: int)
    requires
        0 <= n <= s.len(),
    ensures
        decimal(s.take(n)) <= decimal(s),
    decreases s.len(),
{
    if n == s.len() {
        assert(s.take(n) =~= s);
    } else {
        assert(s.drop_last().take(n) =~= s.take(n));
        lemma_decimal_of_prefix(s.drop_last(), n);
    }
}

/// So many digits stand for less than that power of ten.
proof fn lemma_decimal_bound(s: Seq<u8>)
    requires
        all_digits(s),
    ensures
        decimal(s) < pow(10, s.len()),
    decreases s.len(),
{
    if s.len() == 0 {
        lemma_pow0(10);
    } else {
        lemma_decimal_bound(s.drop_last());
        lemma_pow_adds(10, (s.len() - 1) as nat, 1);
        lemma_pow1(10);
    }
}

proof fn lemma_decimal_concat(a: Seq<u8>, b: Seq<u8>)
    ensures
        decimal(a + b) == decimal(a) * pow(10, b.len()) + decimal(b),
    decreases b.len(),
{
    if b.len() == 0 {
        lemma_pow0(10);
        assert(a + b =~= a);
    } else {
        let c = b.drop_last();
        lemma_decimal_concat(a, c);
        assert((a + b).drop_last() =~= a + c);
        lemma_pow_adds(10, c.len(), 1);
        lemma_pow1(10);
        let x = decimal(a) as int;
        let y = pow(10, c.len());
        assert((x * y) * 10 == x * (y * 10)) by (nonlinear_arith);
        assert((a + b).last() == b.last());
    }
}

proof fn lemma_million()
    ensures
        pow(10, PLACES as nat) == ACCURACY,
{
    reveal_with_fuel(pow, 7);
}

/// What counts so many places behind the point, scaled to the last place that is read, stays below
/// one.
proof fn lemma_scaled_bound(parts: int, count: nat)
    requires
        count <= PLACES,
        0 <= parts < pow(10, count),
    ensures
        0 <= parts * pow(10, (PLACES - count) as nat) < ACCURACY,
{
    let whole = pow(10, count);
    let unit = pow(10, (PLACES - count) as nat);
    lemma_pow_adds(10, count, (PLACES - count) as nat);
    lemma_pow_positive(10, (PLACES - count) as nat);
    lemma_million();
    assert(0 <= parts * unit < whole * unit) by (nonlinear_arith)
        requires
            0 <= parts < whole,
            unit > 0,
    ;
}

/// The fraction that is read of a price is less than one.
pub proof fn fraction_is_less_than_one(p: Seq<u8>)
    requires
        is_price(p),
    ensures
        0 <= parts_in(fraction_part(p)) < ACCURACY,
{
    let digits = unsigned(fraction_part(p));
    lemma_point(p);
    lemma_decimal_bound(digits);
    lemma_scaled_bound(decimal(digits) as int, digits.len());
    lemma_pow_increases(10, digits.len(), PLACES as nat);
    lemma_million();
}

/// The point stands within the price.
proof fn lemma_point(p: Seq<u8>)
    ensures
        0 <= point_of(p) <= p.len(),
        p.len() > 0 ==> point_of(p) < p.len(),
{
    p.index_of_first_ensures(POINT);
}

/// Digits count by their place: a digit alone counts itself, and what stands before other digits
/// counts as many tens as they have places.
pub proof fn digits_count_by_their_place(d: u8, a: Seq<u8>, b: Seq<u8>)
    requires
        48 <= d <= 57,
        all_digits(b),
    ensures
        decimal(seq![d]) == d - 48,
        decimal(a + b) == decimal(a) * pow(10, b.len()) + decimal(b),
        decimal(b) < pow(10, b.len()),
{
    assert(seq![d].drop_last() =~= seq![]);
    reveal_with_fuel(decimal, 2);
    lemma_decimal_concat(a, b);
    lemma_decimal_bound(b);
}

/// Digits, a point and more digits are a price, wherever the units fit. What stands before the
/// point is its integer part, and the first six digits behind it are its fraction.
pub proof fn digits_around_a_point_are_a_price(a: Seq<u8>, b: Seq<u8>)
    requires
        a.len() > 0,
        b.len() > 0,
        all_digits(a),
        all_digits(b),
        decimal(a) <= u64::MAX,
    ensures
        is_price(a + seq![POINT] + b),
        integer_part(a + seq![POINT] + b) == a,
        fraction_part(a + seq![POINT] + b) == (if b.len() >= PLACES {
            b.take(PLACES as int)
        } else {
            b
        }),
{
    let p = a + seq![POINT] + b;
    p.index_of_first_ensures(POINT);
    assert(p[a.len() as int] == POINT);
    assert(point_of(p) == a.len()) by {
        assert(forall|j: int| 0 <= j < a.len() ==> p[j] == a[j]);
    }
    assert(integer_part(p) =~= a);
    let f = fraction_part(p);
    if b.len() >= PLACES {
        assert(f =~= b.take(PLACES as int));
    } else {
        assert(f =~= b);
    }
    lemma_decimal_bound(f);
    lemma_pow_increases(10, f.len(), PLACES as nat);
    lemma_million();
}

/// A price is read to six places. With no more digits than that behind the point it is read
/// exactly; what stands further behind is cut off: in units of the last place that is written, the
/// price lies between what was read and the next part per million.
pub proof fn price_is_read_to_six_places(a: Seq<u8>, b: Seq<u8>, price: (u64, Permill))
    requires
        a.len() > 0,
        b.len() > 0,
        all_digits(a),
        all_digits(b),
        decimal(a) <= u64::MAX,
        reads_as(a + seq![POINT] + b, price),
    ensures
        ({
            let parts_read = price.0 * ACCURACY + price.1.parts();
            if b.len() <= PLACES {
                parts_read == decimal(a + b) * pow(10, (PLACES - b.len()) as nat)
            } else {
                let unit = pow(10, (b.len() - PLACES) as nat);
                parts_read * unit <= decimal(a + b) < (parts_read + 1) * unit
            }
        }),
{
    digits_around_a_point_are_a_price(a, b);
    lemma_million();
    let parts_read = price.0 * ACCURACY + price.1.parts();
    if b.len() <= PLACES {
        assert(fraction_part(a + seq![POINT] + b) =~= b);
        let x = decimal(a) as int;
        let y = decimal(b) as int;
        let whole = pow(10, b.len());
        let unit = pow(10, (PLACES - b.len()) as nat);
        lemma_decimal_concat(a, b);
        lemma_pow_adds(10, b.len(), (PLACES - b.len()) as nat);
        assert((x * whole + y) * unit == x * (whole * unit) + y * unit) by (nonlinear_arith);
    } else {
        let head = b.take(PLACES as int);
        let tail = b.skip(PLACES as int);
        let unit = pow(10, tail.len());
        assert(a + b =~= (a + head) + tail);
        lemma_decimal_concat(a, head);
        lemma_decimal_concat(a + head, tail);
        lemma_decimal_bound(tail);
        lemma_pow0(10);
        assert((parts_read + 1) * unit == parts_read * unit + unit) by (nonlinear_arith);
    }
}

/// Reads a number of at most `max`.
fn parse_number(s: &[u8], max: u64) -> (number: Option<u64>)
    ensures
        number is Some <==> is_number(s@, max as nat),
        number matches Some(n) ==> n == decimal(unsigned(s@)),
{
    let signed: bool = s.len() > 0 && s[0] == PLUS;
    let digits: &[u8] = if signed {
        slice_subrange(s, 1, s.len())
    } else {
        s
    };
    assert(digits@ =~= unsigned(s@));
    if digits.len() == 0 {
        return None;
    }
    let mut number: u64 = 0;
    let mut i: usize = 0;
    while i < digits.len()
        invariant
            i <= digits.len(),
            digits@ == unsigned(s@),
            all_digits(digits@.take(i as int)),
            number == decimal(digits@.take(i as int)),
            number <= max,
        decreases digits.len() - i,
    {
        let d: u8 = digits[i];
        if d < ZERO || d > NINE {
            assert(digits@[i as int] == d);
            return None;
        }
        let next: u128 = number as u128 * 10 + (d - ZERO) as u128;
        proof {
            let longer = digits@.take(i + 1);
            assert(longer.drop_last() =~= digits@.take(i as int));
            assert(longer.last() == d);
            assert(next == decimal(longer));
            lemma_decimal_of_prefix(digits@, i + 1);
        }
        if next > max as u128 {
            return None;
        }
        number = next as u64;
        i = i + 1;
    }
    assert(digits@.take(i as int) =~= digits@);
    Some(number)
}

/// Where the first point stands; at the start where there is none.
fn find_point(p: &[u8]) -> (position: usize)
    ensures
        position == point_of(p@),
{
    let mut i: usize = 0;
    while i < p.len()
        invariant
            i <= p.len(),
            forall|j: int| 0 <= j < i ==> p@[j] != POINT,
        decreases p.len() - i,
    {
        if p[i] == POINT {
            proof {
                p@.index_of_first_ensures(POINT);
                assert(p@.contains(p@[i as int]));
            }
            return i;
        }
        i = i + 1;
    }
    assert(!p@.contains(POINT));
    proof {
        p@.index_of_first_ensures(POINT);
    }
    0
}

/// What stands on either side of the first point, as far as it is read.
fn split_at_point(p: &[u8]) -> (parts: (&[u8], &[u8]))
    requires
        p@.len() > 0,
    ensures
        parts.0@ == integer_part(p@),
        parts.1@ == fraction_part(p@),
{
    let position: usize = find_point(p);
    proof {
        lemma_point(p@);
    }
    let integer: &[u8] = slice_subrange(p, 0, position);
    let behind: usize = p.len() - position - 1;
    let end: usize = if behind >= PLACES {
        position + 1 + PLACES
    } else {
        p.len()
    };
    (integer, slice_subrange(p, position + 1, end))
}

/// Whether `parse_price` can read a price.
pub fn can_parse_price(price_str: &str) -> (can: bool)
    ensures
        can == is_price(encode_utf8(price_str@)),
{
    let p: &[u8] = price_str.as_bytes();
    if p.len() == 0 {
        proof {
            lemma_point(p@);
        }
        return false;
    }
    let (integer, fraction) = split_at_point(p);
    parse_number(integer, u64::MAX).is_some() && parse_number(fraction, u32::MAX as u64).is_some()
}

/// Scales what counts so many places behind the point to parts per million.
fn scale(parts: u64, count: usize) -> (scaled: u64)
    requires
        count <= PLACES,
        parts < pow(10, count as nat),
    ensures
        scaled == parts * pow(10, (PLACES - count) as nat),
        scaled < ACCURACY,
{
    let mut scaled: u64 = parts;
    let mut place: usize = count;
    proof {
        lemma_pow0(10);
        lemma_scaled_bound(parts as int, count as nat);
    }
    while place < PLACES
        invariant
            count <= place <= PLACES,
            scaled == parts * pow(10, (place - count) as nat),
            scaled < pow(10, place as nat),
        decreases PLACES - place,
    {
        proof {
            lemma_pow_adds(10, (place - count) as nat, 1);
            lemma_pow_adds(10, place as nat, 1);
            lemma_pow1(10);
            lemma_pow_increases(10, place as nat, PLACES as nat);
            lemma_million();
            let unit = pow(10, (place - count) as nat);
            assert((parts * unit) * 10 == parts * (unit * 10)) by (nonlinear_arith);
        }
        scaled = scaled * 10;
        place = place + 1;
    }
    scaled
}

/// Reads the price in US dollars as it was fetched: the units before the point, and the fraction
/// behind it in parts per million, of which the first six places are read. A plus sign may stand
/// before either; behind it the parts are read as they stand.
pub fn parse_price(price_str: &str) -> (price: Option<(u64, Permill)>)
    requires
        is_price(encode_utf8(price_str@)),
    ensures
        price matches Some(read) && reads_as(encode_utf8(price_str@), read),
{
    let p: &[u8] = price_str.as_bytes();
    proof {
        lemma_point(p@);
        lemma_decimal_bound(unsigned(fraction_part(p@)));
        fraction_is_less_than_one(p@);
    }
    let (integer, fraction) = split_at_point(p);
    let units: u64 = parse_number(integer, u64::MAX).unwrap();
    let parts: u64 = parse_number(fraction, u32::MAX as u64).unwrap();
    let scaled: u64 = if fraction[0] == PLUS {
        parts
    } else {
        scale(parts, fraction.len())
    };
    Some((units, Permill::from_parts(scaled as u32)))
}

} // verus!

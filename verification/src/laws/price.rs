//! Laws of reading a price.

use crate::permill::Permill;
use crate::price::{all_digits, can_parse_price, decimal, digits_count_by_their_place};
use crate::price::{digits_around_a_point_are_a_price, fraction_part, integer_part, parse_price};
use crate::price::{point_of, price_is_read_to_six_places, unsigned};
use vstd::arithmetic::power::{lemma_pow_increases, pow};
use vstd::prelude::*;
use vstd::utf8::encode_utf8;

verus! {

/// What is left without a plus sign in front.
pub open spec fn without_plus(s: Seq<u8>) -> Seq<u8> {
    if s.len() > 0 && s[0] == 43 {
        s.skip(1)
    } else {
        s
    }
}

/// The first six of what stands behind a point.
pub open spec fn six_places(b: Seq<u8>) -> Seq<u8> {
    if b.len() > 6 {
        b.take(6)
    } else {
        b
    }
}

/// The parts that a price falls into at its first point.
proof fn lemma_parts(a: Seq<u8>, b: Seq<u8>)
    requires
        !a.contains(46u8),
    ensures
        integer_part(a + seq![46u8] + b) == a,
        fraction_part(a + seq![46u8] + b) == six_places(b),
        unsigned(a) == without_plus(a),
        unsigned(six_places(b)) == without_plus(six_places(b)),
{
    let p = a + seq![46u8] + b;
    p.index_of_first_ensures(46u8);
    assert(p[a.len() as int] == 46);
    assert(point_of(p) == a.len()) by {
        assert(forall|j: int| 0 <= j < a.len() ==> p[j] == a[j]);
        assert(forall|j: int| 0 <= j < a.len() ==> a.contains(#[trigger] a[j]));
    }
    assert(integer_part(p) =~= a);
    assert(fraction_part(p) =~= six_places(b));
    assert(unsigned(a) =~= without_plus(a));
    assert(unsigned(six_places(b)) =~= without_plus(six_places(b)));
}

/// A price can be read exactly where both sides of its first point are numbers, of the second side
/// as far as six places: digits and nothing else, at least one, after a plus sign or none; and
/// where the units fit.
pub proof fn price_is_two_numbers_around_a_point(
    price_str: &str,
    a: Seq<u8>,
    b: Seq<u8>,
    can: bool,
)
    requires
        call_ensures(can_parse_price, (price_str,), can),
        encode_utf8(price_str@) == a + seq![46u8] + b,
        !a.contains(46u8),
    ensures
        can <==> {
            let units = without_plus(a);
            let places = without_plus(six_places(b));
            &&& units.len() > 0
            &&& forall|i: int| 0 <= i < units.len() ==> 48 <= #[trigger] units[i] <= 57
            &&& decimal(units) <= u64::MAX
            &&& places.len() > 0
            &&& forall|i: int| 0 <= i < places.len() ==> 48 <= #[trigger] places[i] <= 57
        },
{
    let places = without_plus(six_places(b));
    lemma_parts(a, b);
    if all_digits(places) {
        digits_count_by_their_place(48, seq![], places);
        lemma_pow_increases(10, places.len(), 6);
        assert(pow(10, 6) == 1_000_000) by {
            reveal_with_fuel(pow, 7);
        }
    }
}

/// Without a point there is no price.
pub proof fn price_has_a_point(price_str: &str, can: bool)
    requires
        call_ensures(can_parse_price, (price_str,), can),
        !encode_utf8(price_str@).contains(46u8),
    ensures
        !can,
{
    let p = encode_utf8(price_str@);
    p.index_of_first_ensures(46u8);
    assert(integer_part(p) =~= seq![]);
}

/// What is read of a price are the units before its first point, and the parts per million behind
/// it: digits count from the point, and behind a plus sign they are the parts as they stand.
pub proof fn price_is_read_on_both_sides_of_its_point(
    price_str: &str,
    a: Seq<u8>,
    b: Seq<u8>,
    price: Option<(u64, Permill)>,
)
    requires
        call_ensures(parse_price, (price_str,), price),
        encode_utf8(price_str@) == a + seq![46u8] + b,
        !a.contains(46u8),
    ensures
        price matches Some(read) && {
            let digits = six_places(b);
            &&& read.0 == decimal(without_plus(a))
            &&& read.1.parts() == (if without_plus(digits) != digits {
                decimal(without_plus(digits)) as int
            } else {
                decimal(digits) * pow(10, (6 - digits.len()) as nat)
            })
        },
{
    lemma_parts(a, b);
}

/// Every price of digits, a point and digits can be read, wherever the units fit, and is read to
/// six places: exactly where no more are written, and otherwise within one part per million below.
pub proof fn written_price_is_read_to_six_places(
    price_str: &str,
    a: Seq<u8>,
    b: Seq<u8>,
    can: bool,
    price: Option<(u64, Permill)>,
)
    requires
        call_ensures(can_parse_price, (price_str,), can),
        call_ensures(parse_price, (price_str,), price),
        encode_utf8(price_str@) == a + seq![46u8] + b,
        a.len() > 0,
        b.len() > 0,
        forall|i: int| 0 <= i < a.len() ==> 48 <= #[trigger] a[i] <= 57,
        forall|i: int| 0 <= i < b.len() ==> 48 <= #[trigger] b[i] <= 57,
        decimal(a) <= u64::MAX,
    ensures
        can,
        price matches Some(read) && {
            let parts_read = read.0 * 1_000_000 + read.1.parts();
            &&& b.len() <= 6 ==> parts_read == decimal(a + b) * pow(10, (6 - b.len()) as nat)
            &&& b.len() > 6 ==> {
                let unit = pow(10, (b.len() - 6) as nat);
                parts_read * unit <= decimal(a + b) < (parts_read + 1) * unit
            }
        },
{
    digits_around_a_point_are_a_price(a, b);
    price_is_read_to_six_places(a, b, price->0);
}

/// A price that can be read may be read.
pub proof fn price_that_can_be_read_may_be(price_str: &str, can: bool)
    requires
        call_ensures(can_parse_price, (price_str,), can),
    ensures
        can ==> call_requires(parse_price, (price_str,)),
{
}

/// A fraction keeps its parts up to a whole, and no more.
pub proof fn fraction_keeps_its_parts(parts: u32, fraction: Permill, kept: u32)
    requires
        call_ensures(Permill::from_parts, (parts,), fraction),
        call_ensures(Permill::deconstruct, (fraction,), kept),
    ensures
        parts <= 1_000_000 ==> kept == parts,
        parts > 1_000_000 ==> kept == 1_000_000,
        kept == fraction.parts(),
{
}

} // verus!

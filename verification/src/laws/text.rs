//! Laws of text, and of showing what is kept.

use crate::info::{GithubInfo, PriceInfo};
use crate::price::decimal;
use crate::text::{de_string_to_bytes, decimal_text, push_decimal};
use vstd::prelude::*;
use vstd::utf8::*;

verus! {

/// The bytes of a string are read back as that string, and an error stays the error it is.
pub proof fn strings_can_be_read_back<E>(text: Result<&str, E>, bytes: Result<Vec<u8>, E>)
    requires
        call_ensures(de_string_to_bytes::<E>, (text,), bytes),
    ensures
        text matches Ok(s) ==> (bytes matches Ok(b) && valid_utf8(b@) && decode_utf8(b@) == s@),
        text matches Err(e) ==> bytes == Err::<Vec<u8>, E>(e),
{
    if let Ok(s) = text {
        encode_utf8_valid_utf8(s@);
        encode_utf8_decode_utf8(s@);
    }
}

/// A number in decimal is made of digits alone, with no zero in front but for zero itself, and is
/// read back as that number.
pub proof fn decimals_can_be_read_back(n: nat)
    ensures
        decimal_text(n).len() > 0,
        forall|i: int| 0 <= i < decimal_text(n).len() ==> '0' <= #[trigger] decimal_text(n)[i] <= '9',
        n > 0 ==> decimal_text(n)[0] != '0',
        decimal(decimal_text(n).map_values(|c: char| c as u8)) == n,
    decreases n,
{
    let as_bytes = |c: char| c as u8;
    let bytes = decimal_text(n).map_values(as_bytes);
    reveal_with_fuel(decimal, 2);
    if n < 10 {
        assert(bytes.drop_last() =~= seq![]);
    } else {
        decimals_can_be_read_back(n / 10);
        assert(bytes.drop_last() =~= decimal_text(n / 10).map_values(as_bytes));
        assert(bytes.last() == 48 + n % 10);
    }
}

/// A number is written behind what was there, in decimal.
pub proof fn numbers_are_written_behind(out: &mut String, n: u32)
    requires
        call_ensures(push_decimal, (out, n), ()),
    ensures
        final(out)@.len() > old(out)@.len(),
        final(out)@.take(old(out)@.len() as int) == old(out)@,
        decimal(
            final(out)@.skip(old(out)@.len() as int).map_values(|c: char| c as u8),
        ) == n,
{
    decimals_can_be_read_back(n as nat);
    assert(final(out)@.skip(old(out)@.len() as int) =~= decimal_text(n as nat));
    assert(final(out)@.take(old(out)@.len() as int) =~= old(out)@);
}

/// What is kept is shown exactly where it is text, with nothing left out.
pub proof fn all_that_is_kept_is_shown(
    info: &GithubInfo,
    price: &PriceInfo,
    shown_info: Option<String>,
    shown_price: Option<String>,
)
    requires
        call_ensures(GithubInfo::debug_text, (info,), shown_info),
        call_ensures(PriceInfo::debug_text, (price,), shown_price),
    ensures
        shown_info is Some <==> valid_utf8(info.login@) && valid_utf8(info.blog@),
        shown_info matches Some(text) ==> text@ == "{ login: "@ + decode_utf8(info.login@)
            + ", blog: "@ + decode_utf8(info.blog@) + ", public_repos: "@ + decimal_text(
            info.public_repos as nat,
        ) + " }"@,
        shown_price is Some <==> valid_utf8(price.price_vec@),
        shown_price matches Some(text) ==> text@ == "{ priceUsd: "@ + decode_utf8(price.price_vec@)
            + " }"@,
{
}

} // verus!

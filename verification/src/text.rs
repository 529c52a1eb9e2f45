//! Text as bytes and numbers as text.

use vstd::prelude::*;
use vstd::utf8::*;

verus! {

/// Where bytes stop being UTF-8.
#[verifier::external_type_specification]
#[verifier::external_body]
pub struct ExUtf8Error(core::str::Utf8Error);

/// `core::str::from_utf8` reads bytes as text. Trusted: it succeeds exactly on valid UTF-8, and the
/// text that comes back has those bytes.
pub assume_specification<'a>[ core::str::from_utf8 ](bytes: &'a [u8]) -> (text: Result<
    &'a str,
    core::str::Utf8Error,
>)
    ensures
        text is Ok <==> valid_utf8(bytes@),
        text matches Ok(s) ==> encode_utf8(s@) == bytes@,
;

/// Takes what a deserializer made of a string, and gives its bytes.
pub fn de_string_to_bytes<E>(text: Result<&str, E>) -> (bytes: Result<Vec<u8>, E>)
    ensures
        match text {
            Ok(s) => bytes matches Ok(b) && b@ == encode_utf8(s@),
            Err(e) => bytes == Err::<Vec<u8>, E>(e),
        },
{
    match text {
        Ok(s) => Ok(s.as_bytes_vec()),
        Err(e) => Err(e),
    }
}

/// The text of the digit `d`.
pub open spec fn digit_text(d: nat) -> char {
    (('0' as nat + d) as char)
}

/// The number `n` in decimal, without leading zeros.
pub open spec fn decimal_text(n: nat) -> Seq<char>
    decreases n,
{
    if n < 10 {
        seq![digit_text(n)]
    } else {
        decimal_text(n / 10).push(digit_text(n % 10))
    }
}

fn push_digit(out: &mut String, d: u32)
    requires
        d < 10,
    ensures
        final(out)@ == old(out)@.push(digit_text(d as nat)),
{
    let digit = match d {
        0 => "0",
        1 => "1",
        2 => "2",
        3 => "3",
        4 => "4",
        5 => "5",
        6 => "6",
        7 => "7",
        8 => "8",
        _ => "9",
    };
    proof {
        reveal_strlit("0");
        reveal_strlit("1");
        reveal_strlit("2");
        reveal_strlit("3");
        reveal_strlit("4");
        reveal_strlit("5");
        reveal_strlit("6");
        reveal_strlit("7");
        reveal_strlit("8");
        reveal_strlit("9");
        assert(digit@ =~= seq![digit_text(d as nat)]);
    }
    out.append(digit);
    assert(out@ =~= old(out)@.push(digit_text(d as nat)));
}

/// Writes a number in decimal behind a text.
pub fn push_decimal(out: &mut String, n: u32)
    ensures
        final(out)@ == old(out)@ + decimal_text(n as nat),
    decreases n,
{
    if n >= 10 {
        push_decimal(out, n / 10);
    }
    push_digit(out, n % 10);
    assert(out@ =~= old(out)@ + decimal_text(n as nat));
}

} // verus!

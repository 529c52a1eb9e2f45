//! Laws of the state on the chain, and of which transactions are let in.

use crate::pallet::{ensure_none, ensure_signed, DispatchError, Event, Origin, Pallet};
use crate::payload::{number_payload, price_payload, Payload, PricePayload};
use crate::permill::Permill;
use crate::validity::{compact_length, little_endian, validate_unsigned};
use crate::validity::{Call, InvalidTransaction, ValidTransaction};
use std::collections::VecDeque;
use vstd::prelude::*;
use vstd::utf8::*;

verus! {

/// Only what is signed has a sender, and it is the account that signed; only what is not signed
/// passes as such.
pub proof fn origins_are_told_apart<AccountId>(
    origin: Origin<AccountId>,
    who: Result<AccountId, DispatchError>,
    allowed: Result<(), DispatchError>,
)
    requires
        call_ensures(ensure_signed::<AccountId>, (origin,), who),
        call_ensures(ensure_none::<AccountId>, (origin,), allowed),
    ensures
        who is Ok <==> origin is Signed,
        who matches Ok(account) ==> origin == Origin::Signed(account),
        who matches Err(e) ==> e == DispatchError::BadOrigin,
        allowed is Ok <==> origin is Unsigned,
        allowed matches Err(e) ==> e == DispatchError::BadOrigin,
{
}

/// What is taken out of storage and put back without a call is the same.
pub proof fn storage_is_put_back_as_it_was<AccountId>(
    numbers: VecDeque<u64>,
    prices: VecDeque<(u64, Permill)>,
    pallet: Pallet<AccountId>,
    stored: (VecDeque<u64>, VecDeque<(u64, Permill)>, Vec<Event<AccountId>>),
)
    requires
        call_ensures(Pallet::<AccountId>::from_storage, (numbers, prices), pallet),
        call_ensures(Pallet::<AccountId>::into_storage, (pallet,), stored),
    ensures
        stored.0@ == numbers@,
        stored.1@ == prices@,
        stored.2@.len() == 0,
        pallet@.numbers == numbers@,
        pallet@.prices == prices@,
{
}

/// What a pallet shows is what it puts back in storage.
pub proof fn pallet_shows_what_it_stores<AccountId>(
    pallet: Pallet<AccountId>,
    numbers: &VecDeque<u64>,
    prices: &VecDeque<(u64, Permill)>,
    events: &Vec<Event<AccountId>>,
    stored: (VecDeque<u64>, VecDeque<(u64, Permill)>, Vec<Event<AccountId>>),
)
    requires
        call_ensures(Pallet::<AccountId>::numbers, (&pallet,), numbers),
        call_ensures(Pallet::<AccountId>::prices, (&pallet,), prices),
        call_ensures(Pallet::<AccountId>::events, (&pallet,), events),
        call_ensures(Pallet::<AccountId>::into_storage, (pallet,), stored),
    ensures
        numbers@ == stored.0@,
        prices@ == stored.1@,
        events@ == stored.2@,
        numbers@ == pallet@.numbers,
        prices@ == pallet@.prices,
        events@ == pallet@.events,
{
}

/// Every number that is added stands at the tail, and nothing leaves but the head of a queue of
/// ten.
pub proof fn added_number_stands_at_the_tail<AccountId>(pallet: &mut Pallet<AccountId>, number: u64)
    requires
        call_ensures(Pallet::<AccountId>::append_or_replace_number, (pallet, number), ()),
    ensures
        old(pallet)@.numbers.len() == 10 ==> final(pallet)@.numbers == old(pallet)@.numbers.skip(
            1,
        ).push(number),
        old(pallet)@.numbers.len() != 10 ==> final(pallet)@.numbers == old(pallet)@.numbers.push(
            number,
        ),
        final(pallet)@.prices == old(pallet)@.prices,
        final(pallet)@.events == old(pallet)@.events,
{
}

/// Every price that is added stands at the tail, and nothing leaves but the head of a queue of
/// ten.
pub proof fn added_price_stands_at_the_tail<AccountId>(
    pallet: &mut Pallet<AccountId>,
    price: (u64, Permill),
)
    requires
        call_ensures(Pallet::<AccountId>::append_or_replace_price, (pallet, price), ()),
    ensures
        old(pallet)@.prices.len() == 10 ==> final(pallet)@.prices == old(pallet)@.prices.skip(
            1,
        ).push(price),
        old(pallet)@.prices.len() != 10 ==> final(pallet)@.prices == old(pallet)@.prices.push(
            price,
        ),
        final(pallet)@.numbers == old(pallet)@.numbers,
        final(pallet)@.events == old(pallet)@.events,
{
}

/// Every signed number is kept, with an event that names its account; and nothing else is.
pub proof fn signed_number_is_kept<AccountId>(
    pallet: &mut Pallet<AccountId>,
    origin: Origin<AccountId>,
    number: u64,
    result: Result<(), DispatchError>,
)
    requires
        call_ensures(
            Pallet::<AccountId>::submit_number_signed,
            (pallet, origin, number),
            result,
        ),
    ensures
        result is Ok <==> origin is Signed,
        result matches Err(e) ==> e == DispatchError::BadOrigin && final(pallet)@ == old(pallet)@,
        origin matches Origin::Signed(who) ==> {
            let before = old(pallet)@;
            let after = final(pallet)@;
            &&& before.numbers.len() == 10 ==> after.numbers == before.numbers.skip(1).push(number)
            &&& before.numbers.len() != 10 ==> after.numbers == before.numbers.push(number)
            &&& after.prices == before.prices
            &&& after.events == before.events.push(Event::NewNumber(Some(who), number))
        },
{
}

/// Every unsigned number is kept, with an event that names nobody; and nothing else is.
pub proof fn unsigned_number_is_kept<AccountId>(
    pallet: &mut Pallet<AccountId>,
    origin: Origin<AccountId>,
    number: u64,
    result: Result<(), DispatchError>,
)
    requires
        call_ensures(
            Pallet::<AccountId>::submit_number_unsigned,
            (pallet, origin, number),
            result,
        ),
    ensures
        result is Ok <==> origin is Unsigned,
        result matches Err(e) ==> e == DispatchError::BadOrigin && final(pallet)@ == old(pallet)@,
        result is Ok ==> {
            let before = old(pallet)@;
            let after = final(pallet)@;
            &&& before.numbers.len() == 10 ==> after.numbers == before.numbers.skip(1).push(number)
            &&& before.numbers.len() != 10 ==> after.numbers == before.numbers.push(number)
            &&& after.prices == before.prices
            &&& after.events == before.events.push(Event::NewNumber(None, number))
        },
{
}

/// The number of every signed payload is kept, whoever signed it and whatever the signature.
pub proof fn number_of_a_payload_is_kept<AccountId, Public, Signature>(
    pallet: &mut Pallet<AccountId>,
    origin: Origin<AccountId>,
    payload: Payload<Public>,
    signature: Signature,
    result: Result<(), DispatchError>,
)
    requires
        call_ensures(
            Pallet::<AccountId>::submit_number_unsigned_with_signed_payload::<Public, Signature>,
            (pallet, origin, payload, signature),
            result,
        ),
    ensures
        result is Ok <==> origin is Unsigned,
        result matches Err(e) ==> e == DispatchError::BadOrigin && final(pallet)@ == old(pallet)@,
        result is Ok ==> {
            let before = old(pallet)@;
            let after = final(pallet)@;
            &&& before.numbers.len() == 10 ==> after.numbers == before.numbers.skip(1).push(
                payload.number,
            )
            &&& before.numbers.len() != 10 ==> after.numbers == before.numbers.push(payload.number)
            &&& after.prices == before.prices
            &&& after.events == before.events.push(Event::NewNumber(None, payload.number))
        },
{
}

/// The price of every signed payload is kept, for whatever block, whoever signed it and whatever
/// the signature.
pub proof fn price_of_a_payload_is_kept<AccountId, Public, BlockNumber, Signature>(
    pallet: &mut Pallet<AccountId>,
    origin: Origin<AccountId>,
    payload: PricePayload<Public, BlockNumber>,
    signature: Signature,
    result: Result<(), DispatchError>,
)
    requires
        call_ensures(
            Pallet::<AccountId>::submit_price_unsigned_with_signed_payload::<
                Public,
                BlockNumber,
                Signature,
            >,
            (pallet, origin, payload, signature),
            result,
        ),
    ensures
        result is Ok <==> origin is Unsigned,
        result matches Err(e) ==> e == DispatchError::BadOrigin && final(pallet)@ == old(pallet)@,
        result is Ok ==> {
            let before = old(pallet)@;
            let after = final(pallet)@;
            &&& before.prices.len() == 10 ==> after.prices == before.prices.skip(1).push(
                payload.parsed_price,
            )
            &&& before.prices.len() != 10 ==> after.prices == before.prices.push(
                payload.parsed_price,
            )
            &&& after.numbers == before.numbers
            &&& after.events == before.events.push(Event::NewPrice(None, payload.parsed_price))
        },
{
}

/// What is signed holds what was handed over, and the key of the account that signs; and the key
/// that a payload gives is the one that it holds.
pub proof fn payload_names_its_signer<Public: Clone, BlockNumber>(
    number: u64,
    block_number: BlockNumber,
    price: (u64, Permill),
    public: Public,
    numbered: Payload<Public>,
    priced: PricePayload<Public, BlockNumber>,
    number_key: Public,
    price_key: Public,
)
    requires
        call_ensures(number_payload::<Public>, (number, &public), numbered),
        call_ensures(
            price_payload::<Public, BlockNumber>,
            (block_number, price, &public),
            priced,
        ),
        call_ensures(Payload::<Public>::public, (&numbered,), number_key),
        call_ensures(PricePayload::<Public, BlockNumber>::public, (&priced,), price_key),
    ensures
        numbered.number == number,
        cloned(public, numbered.public),
        cloned(numbered.public, number_key),
        priced.block_number == block_number,
        priced.parsed_price == price,
        cloned(public, priced.public),
        cloned(priced.public, price_key),
{
}

/// A copy of a payload holds what the payload holds.
pub proof fn payloads_are_copied_whole<Public: Clone, BlockNumber: Clone>(
    numbered: Payload<Public>,
    priced: PricePayload<Public, BlockNumber>,
    number_copy: Payload<Public>,
    price_copy: PricePayload<Public, BlockNumber>,
)
    requires
        cloned(numbered, number_copy),
        cloned(priced, price_copy),
    ensures
        number_copy.number == numbered.number,
        cloned(numbered.public, number_copy.public),
        cloned(priced.block_number, price_copy.block_number),
        price_copy.parsed_price == priced.parsed_price,
        cloned(priced.public, price_copy.public),
{
}

/// A signed call may never come unsigned, an unsigned number always may, and a signed payload may
/// exactly where its signature was found to be right, whatever the number, the price, the block,
/// the key and the signature.
pub proof fn unsigned_calls_are_let_in_by_their_kind<Public, Signature, BlockNumber>(
    call: Call<Public, Signature, BlockNumber>,
    proven: bool,
    validity: Result<ValidTransaction, InvalidTransaction>,
)
    requires
        call_ensures(
            validate_unsigned::<Public, Signature, BlockNumber>,
            (&call, proven),
            validity,
        ),
    ensures
        validity == Err::<ValidTransaction, InvalidTransaction>(InvalidTransaction::Call) <==> call
            is SubmitNumberSigned,
        validity is Ok <==> call is SubmitNumberUnsigned || (proven && call
            !is SubmitNumberSigned),
        validity == Err::<ValidTransaction, InvalidTransaction>(InvalidTransaction::BadProof)
            <==> !proven && (call is SubmitNumberUnsignedWithSignedPayload || call
            is SubmitPriceUnsignedWithSignedPayload),
{
}

/// Every call that is let in stays for three blocks at the same priority, is passed on, waits for
/// nothing, and provides one tag: the prefix and the name of the call, each behind four times its
/// length.
pub proof fn calls_are_let_in_on_the_same_terms<Public, Signature, BlockNumber>(
    call: Call<Public, Signature, BlockNumber>,
    proven: bool,
    transaction: ValidTransaction,
)
    requires
        call_ensures(
            validate_unsigned::<Public, Signature, BlockNumber>,
            (&call, proven),
            Ok(transaction),
        ),
    ensures
        transaction.priority == 100,
        transaction.needs@.len() == 0,
        transaction.longevity == 3,
        transaction.propagate,
        transaction.provides@.len() == 1,
        call is SubmitNumberUnsigned ==> transaction.provides@[0]@ == seq![32u8] + encode_utf8(
            "ocw-demo"@,
        ) + (seq![88u8] + encode_utf8("submit_number_unsigned"@)),
        call is SubmitNumberUnsignedWithSignedPayload ==> transaction.provides@[0]@ == seq![32u8]
            + encode_utf8("ocw-demo"@) + (seq![168u8] + encode_utf8(
            "submit_number_unsigned_with_signed_payload"@,
        )),
        call is SubmitPriceUnsignedWithSignedPayload ==> transaction.provides@[0]@ == seq![32u8]
            + encode_utf8("ocw-demo"@) + (seq![164u8] + encode_utf8(
            "submit_price_unsigned_with_signed_payload"@,
        )),
{
    reveal_strlit("ocw-demo");
    reveal_strlit("submit_number_unsigned");
    reveal_strlit("submit_number_unsigned_with_signed_payload");
    reveal_strlit("submit_price_unsigned_with_signed_payload");
    is_ascii_chars_encode_utf8("ocw-demo"@);
    is_ascii_chars_encode_utf8("submit_number_unsigned"@);
    is_ascii_chars_encode_utf8("submit_number_unsigned_with_signed_payload"@);
    is_ascii_chars_encode_utf8("submit_price_unsigned_with_signed_payload"@);
    reveal_with_fuel(little_endian, 2);
    assert(compact_length(8) =~= seq![32u8]);
    assert(compact_length(22) =~= seq![88u8]);
    assert(compact_length(42) =~= seq![168u8]);
    assert(compact_length(41) =~= seq![164u8]);
}

} // verus!

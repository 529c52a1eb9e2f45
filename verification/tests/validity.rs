use pallet_ocw::payload::{Payload, PricePayload};
use pallet_ocw::permill::Permill;
use pallet_ocw::validity::{validate_unsigned, Call, InvalidTransaction, ValidTransaction};
use parity_scale_codec::Encode;

type TestCall = Call<u8, u8, u32>;

fn number_payload() -> TestCall {
    Call::SubmitNumberUnsignedWithSignedPayload(Payload { number: 1, public: 2 }, 3)
}

fn price_payload() -> TestCall {
    let parsed_price = (33, Permill::from_parts(5));
    let payload = PricePayload { block_number: 4, parsed_price, public: 2 };
    Call::SubmitPriceUnsignedWithSignedPayload(payload, 3)
}

fn let_in(name: &str) -> Result<ValidTransaction, InvalidTransaction> {
    let tag = ("ocw-demo", [&name.as_bytes().to_vec()]).encode();
    Ok(ValidTransaction {
        priority: 100,
        needs: vec![],
        provides: vec![tag],
        longevity: 3,
        propagate: true,
    })
}

#[test]
fn unsigned_number_is_let_in() {
    let call: TestCall = Call::SubmitNumberUnsigned(1);
    assert_eq!(validate_unsigned(&call, false), let_in("submit_number_unsigned"));
    assert_eq!(validate_unsigned(&call, true), let_in("submit_number_unsigned"));
}

#[test]
fn proven_payloads_are_let_in() {
    assert_eq!(
        validate_unsigned(&number_payload(), true),
        let_in("submit_number_unsigned_with_signed_payload")
    );
    assert_eq!(
        validate_unsigned(&price_payload(), true),
        let_in("submit_price_unsigned_with_signed_payload")
    );
}

#[test]
fn payloads_that_are_not_proven_are_refused() {
    assert_eq!(validate_unsigned(&number_payload(), false), Err(InvalidTransaction::BadProof));
    assert_eq!(validate_unsigned(&price_payload(), false), Err(InvalidTransaction::BadProof));
}

#[test]
fn signed_call_may_not_come_unsigned() {
    let call: TestCall = Call::SubmitNumberSigned(1);
    assert_eq!(validate_unsigned(&call, true), Err(InvalidTransaction::Call));
}

#[test]
fn tag_is_prefix_and_name_with_their_lengths() {
    let call: TestCall = Call::SubmitNumberUnsigned(1);
    let transaction = validate_unsigned(&call, false).unwrap();
    let mut tag = vec![8 * 4];
    tag.extend(b"ocw-demo");
    tag.push(22 * 4);
    tag.extend(b"submit_number_unsigned");
    assert_eq!(transaction.provides, vec![tag]);
}

#[test]
fn tags_tell_the_calls_apart() {
    let number = validate_unsigned::<u8, u8, u32>(&Call::SubmitNumberUnsigned(1), true).unwrap();
    let payload = validate_unsigned(&number_payload(), true).unwrap();
    let price = validate_unsigned(&price_payload(), true).unwrap();
    assert_ne!(number.provides, payload.provides);
    assert_ne!(number.provides, price.provides);
    assert_ne!(payload.provides, price.provides);
}

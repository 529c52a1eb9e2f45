use pallet_ocw::pallet::{ensure_none, ensure_signed, DispatchError, Event, Origin, Pallet};
use pallet_ocw::payload::{number_payload, price_payload, Payload, PricePayload};
use pallet_ocw::permill::Permill;
use std::collections::VecDeque;

fn empty() -> Pallet<u64> {
    Pallet::from_storage(VecDeque::new(), VecDeque::new())
}

fn price(units: u64, parts: u32) -> (u64, Permill) {
    (units, Permill::from_parts(parts))
}

#[test]
fn signed_number_is_kept_with_its_account() {
    let mut pallet = empty();
    assert_eq!(pallet.submit_number_signed(Origin::Signed(7), 42), Ok(()));
    assert_eq!(pallet.numbers().iter().copied().collect::<Vec<u64>>(), vec![42]);
    assert_eq!(pallet.events(), &vec![Event::NewNumber(Some(7), 42)]);
    assert!(pallet.prices().is_empty());
}

#[test]
fn unsigned_numbers_are_kept_without_an_account() {
    let mut pallet = empty();
    assert_eq!(pallet.submit_number_unsigned(Origin::Unsigned, 1), Ok(()));
    let payload = Payload { number: 2, public: 9u8 };
    assert_eq!(
        pallet.submit_number_unsigned_with_signed_payload(Origin::Unsigned, payload, "signature"),
        Ok(())
    );
    let (numbers, prices, events) = pallet.into_storage();
    assert_eq!(numbers, VecDeque::from(vec![1, 2]));
    assert!(prices.is_empty());
    assert_eq!(events, vec![Event::NewNumber(None, 1), Event::NewNumber(None, 2)]);
}

#[test]
fn price_is_kept_without_an_account() {
    let mut pallet = empty();
    let payload =
        PricePayload { block_number: 4u32, parsed_price: price(33, 256_412), public: 9u8 };
    assert_eq!(
        pallet.submit_price_unsigned_with_signed_payload(Origin::Unsigned, payload, "signature"),
        Ok(())
    );
    let (numbers, prices, events) = pallet.into_storage();
    assert!(numbers.is_empty());
    assert_eq!(prices, VecDeque::from(vec![price(33, 256_412)]));
    assert_eq!(events, vec![Event::NewPrice(None, price(33, 256_412))]);
}

#[test]
fn other_origins_are_refused_and_change_nothing() {
    let mut pallet = empty();
    let refused = Err(DispatchError::BadOrigin);
    for _ in 0..3 {
        assert_eq!(pallet.submit_number_signed(Origin::Unsigned, 1), refused);
        assert_eq!(pallet.submit_number_signed(Origin::Root, 1), refused);
        assert_eq!(pallet.submit_number_signed(Origin::Other, 1), refused);
        assert_eq!(pallet.submit_number_unsigned(Origin::Signed(7), 1), refused);
        assert_eq!(pallet.submit_number_unsigned(Origin::Root, 1), refused);
        let payload = Payload { number: 2, public: 9u8 };
        assert_eq!(
            pallet.submit_number_unsigned_with_signed_payload(Origin::Signed(7), payload, 0u8),
            refused
        );
        let payload = PricePayload { block_number: 4u32, parsed_price: price(1, 2), public: 9u8 };
        assert_eq!(
            pallet.submit_price_unsigned_with_signed_payload(Origin::Other, payload, 0u8),
            refused
        );
    }
    assert!(pallet.numbers().is_empty());
    assert!(pallet.prices().is_empty());
    assert!(pallet.events().is_empty());
}

#[test]
fn origins_are_told_apart() {
    assert_eq!(ensure_signed(Origin::Signed(7u64)), Ok(7));
    assert_eq!(ensure_signed::<u64>(Origin::Unsigned), Err(DispatchError::BadOrigin));
    assert_eq!(ensure_none::<u64>(Origin::Unsigned), Ok(()));
    assert_eq!(ensure_none::<u64>(Origin::Root), Err(DispatchError::BadOrigin));
}

#[test]
fn only_the_latest_ten_are_kept_in_order() {
    let mut pallet = empty();
    for n in 0..25u64 {
        assert_eq!(pallet.submit_number_unsigned(Origin::Unsigned, n), Ok(()));
        pallet.append_or_replace_price(price(n, 1));
        let kept = if n < 10 { n + 1 } else { 10 };
        assert_eq!(pallet.numbers().len() as u64, kept);
        assert_eq!(pallet.prices().len() as u64, kept);
    }
    let numbers: Vec<u64> = pallet.numbers().iter().copied().collect();
    assert_eq!(numbers, (15..25).collect::<Vec<u64>>());
    let prices: Vec<u64> = pallet.prices().iter().map(|p| p.0).collect();
    assert_eq!(prices, (15..25).collect::<Vec<u64>>());
    assert_eq!(pallet.events().len(), 25);
}

#[test]
fn appending_deposits_no_event() {
    let mut pallet = Pallet::<u64>::from_storage((1..=10).collect(), VecDeque::new());
    pallet.append_or_replace_number(11);
    assert_eq!(pallet.numbers(), &(2..=11).collect::<VecDeque<u64>>());
    assert!(pallet.events().is_empty());
}

#[test]
fn queues_hold_what_the_events_tell() {
    let mut pallet = Pallet::<u64>::from_storage(VecDeque::from(vec![100, 101]), VecDeque::new());
    for n in 0..9u64 {
        let _ = pallet.submit_number_signed(Origin::Signed(n), n);
        let _ = pallet.submit_number_signed(Origin::Root, 1000 + n);
    }
    let told: Vec<u64> = pallet
        .events()
        .iter()
        .map(|event| match event {
            Event::NewNumber(_, number) => *number,
            Event::NewPrice(_, _) => unreachable!(),
        })
        .collect();
    let mut history = vec![100, 101];
    history.extend(told);
    let latest: Vec<u64> = history[history.len() - 10..].to_vec();
    assert_eq!(pallet.numbers().iter().copied().collect::<Vec<u64>>(), latest);
}

#[test]
fn payloads_give_their_public_key() {
    let payload = Payload { number: 5, public: String::from("key") };
    assert_eq!(payload.public(), "key");
    assert_eq!(payload.clone(), payload);
    let payload =
        PricePayload { block_number: 4u32, parsed_price: price(1, 2), public: String::from("key") };
    assert_eq!(payload.public(), "key");
    assert_eq!(payload.clone(), payload);
}

#[test]
fn payloads_name_the_key_of_the_account_that_signs() {
    let key = String::from("key");
    assert_eq!(number_payload(5, &key), Payload { number: 5, public: key.clone() });
    assert_eq!(
        price_payload(4u32, price(1, 2), &key),
        PricePayload { block_number: 4, parsed_price: price(1, 2), public: key.clone() }
    );
}

use pallet_ocw::error::Error;
use pallet_ocw::http::{accept_reply, github_request, price_request, Reply};
use pallet_ocw::info::{GithubInfo, PriceInfo};
use pallet_ocw::json::Found;
use pallet_ocw::permill::Permill;
use pallet_ocw::worker::{
    fetch_github_info, fetch_n_parse, fetch_price, fetch_price_info, found_price, github_text,
    offchain_worker, parsed_or_error, submit_price, take_price, Action, Lock, Outcome, Stage,
};

const PRICE: &str = "33.2564125398239201";

fn begin(block: u32) -> (Stage<u32>, Action<u32>) {
    offchain_worker(block, usize::try_from(block), Ok::<u64, ()>(block as u64))
}

fn lock() -> Lock {
    Lock { key: "offchain-demo::lock", blocks: 3, millis: 4000 }
}

fn price_body() -> Vec<u8> {
    format!("{{\"data\": {{\"id\": \"polkadot\", \"priceUsd\": \"{}\"}}, \"timestamp\": 1}}", PRICE)
        .into_bytes()
}

fn gh_info() -> GithubInfo {
    GithubInfo { login: b"hub".to_vec(), blog: b"https://substrate.dev".to_vec(), public_repos: 3 }
}

fn step(stage: Stage<u32>, outcome: Outcome) -> (Stage<u32>, Action<u32>) {
    assert!(stage.is_awaiting(&outcome));
    stage.proceed(outcome)
}

fn finished(result: Result<(), Error>) -> (Stage<u32>, Action<u32>) {
    (Stage::Finished, Action::Finish(result))
}

#[test]
fn tasks_take_turns_with_the_blocks() {
    for round in 0..3u32 {
        let block = round * 5;
        assert_eq!(begin(block).1, Action::SubmitNumberSigned(block as u64));
        assert_eq!(begin(block + 1).1, Action::SubmitNumberUnsigned(block as u64 + 1));
        assert_eq!(begin(block + 2).1, Action::SubmitNumberPayload(block as u64 + 2));
        assert_eq!(begin(block + 3).1, Action::ReadCache("offchain-demo::gh-info"));
        assert_eq!(begin(block + 4).1, Action::Request(price_request()));
        assert_eq!(begin(block + 4).0, Stage::RequestingPrice(block + 4));
    }
}

#[test]
fn turns_start_again_with_the_lowest_bits() {
    let last = offchain_worker(0u64, Ok::<usize, ()>(0xffff_ffff), Ok::<u64, ()>(0xffff_ffff));
    assert_eq!(last.1, Action::SubmitNumberSigned(0xffff_ffff));
    let next = offchain_worker(0u64, Ok::<usize, ()>(0x1_0000_0000), Ok::<u64, ()>(0x1_0000_0000));
    assert_eq!(next.1, Action::SubmitNumberSigned(0x1_0000_0000));
}

#[test]
fn block_that_cannot_be_placed_is_an_error() {
    let (stage, action) = offchain_worker(0u32, Err::<usize, ()>(()), Ok::<u64, ()>(0));
    assert_eq!((stage, action), finished(Err(Error::UnknownOffchainMux)));
}

#[test]
fn number_that_does_not_fit_is_sent_as_zero() {
    let (_, action) = offchain_worker(5u32, Ok::<usize, ()>(5), Err::<u64, ()>(()));
    assert_eq!(action, Action::SubmitNumberSigned(0));
    let (_, action) = offchain_worker(6u32, Ok::<usize, ()>(6), Err::<u64, ()>(()));
    assert_eq!(action, Action::SubmitNumberUnsigned(0));
    let (_, action) = offchain_worker(7u32, Ok::<usize, ()>(7), Err::<u64, ()>(()));
    assert_eq!(action, Action::SubmitNumberPayload(0));
}

#[test]
fn signed_transaction_ends_as_it_was_sent() {
    assert_eq!(step(begin(0).0, Outcome::Sent(Some(Ok(())))), finished(Ok(())));
    assert_eq!(
        step(begin(0).0, Outcome::Sent(Some(Err(())))),
        finished(Err(Error::OffchainSignedTxError))
    );
    assert_eq!(
        step(begin(0).0, Outcome::Sent(None)),
        finished(Err(Error::NoLocalAcctForSigning))
    );
}

#[test]
fn unsigned_transaction_ends_as_it_was_submitted() {
    assert_eq!(step(begin(1).0, Outcome::Submitted(Ok(()))), finished(Ok(())));
    assert_eq!(
        step(begin(1).0, Outcome::Submitted(Err(()))),
        finished(Err(Error::OffchainUnsignedTxError))
    );
}

#[test]
fn signed_payload_ends_as_it_was_sent() {
    assert_eq!(step(begin(2).0, Outcome::Sent(Some(Ok(())))), finished(Ok(())));
    assert_eq!(
        step(begin(2).0, Outcome::Sent(Some(Err(())))),
        finished(Err(Error::OffchainUnsignedTxSignedPayloadError))
    );
    assert_eq!(
        step(begin(2).0, Outcome::Sent(None)),
        finished(Err(Error::NoLocalAcctForSigning))
    );
}

#[test]
fn github_info_that_is_kept_is_not_fetched() {
    let (stage, _) = fetch_github_info::<u32>();
    assert_eq!(step(stage, Outcome::Cached(Ok(Some(gh_info())))), finished(Ok(())));
}

#[test]
fn github_info_is_fetched_under_the_lock_and_kept() {
    let (stage, _) = begin(3);
    let (stage, action) = step(stage, Outcome::Cached(Ok(None)));
    assert_eq!(action, Action::TryLock(lock()));
    let (stage, action) = step(stage, Outcome::Locked(true));
    assert_eq!(action, Action::Request(github_request()));
    let (stage, action) = step(stage, Outcome::Replied(Reply::Answered(200)));
    assert_eq!(action, Action::ReadBody);
    let (stage, action) = step(stage, Outcome::Body("{\"login\": \"é\"}".as_bytes().to_vec()));
    assert_eq!(action, Action::ParseGithub(String::from("{\"login\": \"é\"}")));
    let (stage, action) = step(stage, Outcome::Parsed(Some(gh_info())));
    assert_eq!(action, Action::StoreGithub("offchain-demo::gh-info", gh_info()));
    assert_eq!(step(stage, Outcome::Stored), finished(Ok(())));
}

#[test]
fn github_info_is_left_to_the_run_that_holds_the_lock() {
    let (stage, _) = step(begin(3).0, Outcome::Cached(Err(())));
    assert_eq!(step(stage, Outcome::Locked(false)), finished(Ok(())));
}

#[test]
fn github_info_that_cannot_be_fetched_is_an_error() {
    let failed = || finished(Err(Error::HttpFetchingError));
    for reply in [Reply::NotSent, Reply::NotInTime, Reply::Failed, Reply::Answered(404)] {
        assert_eq!(step(Stage::RequestingGithub, Outcome::Replied(reply)), failed());
    }
    assert_eq!(step(Stage::ReadingGithub, Outcome::Body(vec![0xff])), failed());
    assert_eq!(step(Stage::ParsingGithub, Outcome::Parsed(None)), failed());
}

#[test]
fn price_is_fetched_kept_and_submitted() {
    let (stage, _) = begin(4);
    let (stage, action) = step(stage, Outcome::Replied(Reply::Answered(200)));
    assert_eq!(action, Action::ReadBody);
    let (stage, action) = step(stage, Outcome::Body(price_body()));
    assert_eq!(action, Action::TryLock(lock()));
    let (stage, action) = step(stage, Outcome::Locked(true));
    let info = PriceInfo { price_vec: PRICE.as_bytes().to_vec() };
    assert_eq!(action, Action::StorePrice("offchain-demo::price-info", info));
    let (stage, action) = step(stage, Outcome::Stored);
    assert_eq!(action, Action::Unlock);
    let (stage, action) = step(stage, Outcome::Unlocked);
    assert_eq!(action, Action::SubmitPricePayload(4, (33, Permill::from_parts(256_412))));
    assert_eq!(step(stage, Outcome::Sent(Some(Ok(())))), finished(Ok(())));
}

#[test]
fn price_is_submitted_without_the_lock() {
    let (stage, _) = fetch_price_info(9u32);
    let (stage, _) = step(stage, Outcome::Replied(Reply::Answered(200)));
    let (stage, _) = step(stage, Outcome::Body(price_body()));
    let (stage, action) = step(stage, Outcome::Locked(false));
    assert_eq!(action, Action::SubmitPricePayload(9, (33, Permill::from_parts(256_412))));
    assert_eq!(stage, Stage::SendingPrice);
    assert_eq!(
        step(stage, Outcome::Sent(None)),
        finished(Err(Error::NoLocalAcctForSigning))
    );
    assert_eq!(
        step(Stage::SendingPrice, Outcome::Sent(Some(Err(())))),
        finished(Err(Error::OffchainUnsignedTxSignedPayloadError))
    );
}

#[test]
fn price_that_cannot_be_fetched_is_always_the_same_error() {
    let failed = || finished(Err(Error::HttpFetchingError));
    for reply in [Reply::NotSent, Reply::NotInTime, Reply::Failed, Reply::Answered(500)] {
        assert_eq!(step(Stage::RequestingPrice(4), Outcome::Replied(reply)), failed());
    }
    assert_eq!(step(Stage::ReadingPrice(4), Outcome::Body(vec![0xff])), failed());
    assert_eq!(step(Stage::ReadingPrice(4), Outcome::Body(b"{".to_vec())), failed());
    assert_eq!(take_price(4u32, Err(Error::NoUTF8Body)), failed());
}

#[test]
fn price_is_taken_from_its_place_in_the_document() {
    assert_eq!(fetch_price(&price_body()), Ok(Some(PRICE.as_bytes().to_vec())));
    assert_eq!(fetch_price(&vec![0xff]), Err(Error::NoUTF8Body));
    assert_eq!(fetch_price(&b"no json".to_vec()), Err(Error::HttpFetchingError));
    assert_eq!(fetch_price(&b"{\"data\": {\"priceUsd\": 33}}".to_vec()), Ok(None));
    assert_eq!(found_price(Found::NoDocument), Err(Error::HttpFetchingError));
    assert_eq!(found_price(Found::NoString), Ok(None));
    assert_eq!(found_price(Found::Text(String::from("1.5"))), Ok(Some(b"1.5".to_vec())));
}

#[test]
fn document_without_a_price_stops_the_run() {
    let stopped = (Stage::Finished, Action::Abort);
    assert_eq!(step(Stage::ReadingPrice(4), Outcome::Body(b"{}".to_vec())), stopped);
}

#[test]
fn bytes_that_are_no_price_stop_the_run_once_they_are_kept() {
    let price = b"not a price".to_vec();
    let (stage, action) = step(Stage::LockingPrice(4, price.clone()), Outcome::Locked(true));
    let info = PriceInfo { price_vec: price };
    assert_eq!(action, Action::StorePrice("offchain-demo::price-info", info));
    let (stage, _) = step(stage, Outcome::Stored);
    assert_eq!(step(stage, Outcome::Unlocked), (Stage::Finished, Action::Abort));
}

#[test]
fn bytes_that_are_no_text_are_an_error() {
    assert_eq!(submit_price(4u32, &vec![0xff]), finished(Err(Error::NoUTF8Body)));
}

#[test]
fn price_that_was_not_read_is_an_error() {
    assert_eq!(parsed_or_error(None), Err(Error::ParsePriceError));
    let read = (33, Permill::from_parts(5));
    assert_eq!(parsed_or_error(Some(read)), Ok(read));
}

#[test]
fn github_answers_are_read_or_refused() {
    assert_eq!(github_text(&b"{}".to_vec()), Ok(String::from("{}")));
    assert_eq!(github_text(&vec![0xc3]), Err(Error::HttpFetchingError));
    assert_eq!(fetch_n_parse(Some(gh_info())), Ok(gh_info()));
    assert_eq!(fetch_n_parse(None), Err(Error::HttpFetchingError));
}

#[test]
fn run_waits_only_for_what_its_action_gives() {
    assert!(!Stage::<u32>::SendingNumber.is_awaiting(&Outcome::Submitted(Ok(()))));
    assert!(!Stage::<u32>::SubmittingNumber.is_awaiting(&Outcome::Sent(None)));
    assert!(!Stage::<u32>::StoringGithub.is_awaiting(&Outcome::Unlocked));
    assert!(!Stage::<u32>::Finished.is_awaiting(&Outcome::Stored));
}

#[test]
fn requests_are_made_where_and_as_they_should() {
    let request = github_request();
    assert_eq!(request.url, "https://api.github.com/orgs/substrate-developer-hub");
    assert_eq!(request.user_agent, Some("jimmychu0807"));
    let request = price_request();
    assert_eq!(request.url, "https://api.coincap.io/v2/assets/polkadot");
    assert_eq!(request.user_agent, None);
}

#[test]
fn deadline_is_three_seconds_later() {
    let request = price_request();
    assert_eq!(request.deadline(1_600_000_000_000), 1_600_000_003_000);
    assert_eq!(request.deadline(u64::MAX - 3000), u64::MAX);
    assert_eq!(request.deadline(u64::MAX - 1), u64::MAX);
}

#[test]
fn only_the_ok_code_counts_as_an_answer() {
    assert_eq!(accept_reply(Reply::Answered(200)), Ok(()));
    for code in [0, 199, 201, 301, 404, 500] {
        assert_eq!(accept_reply(Reply::Answered(code)), Err(Error::HttpFetchingError));
    }
    assert_eq!(accept_reply(Reply::NotSent), Err(Error::HttpFetchingError));
    assert_eq!(accept_reply(Reply::NotInTime), Err(Error::HttpFetchingError));
    assert_eq!(accept_reply(Reply::Failed), Err(Error::HttpFetchingError));
}

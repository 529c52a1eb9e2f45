//! Laws of the off-chain worker's runs, and of what they fetch.

use crate::error::Error;
use crate::http::{accept_reply, github_request, price_request, HttpRequest, Reply};
use crate::info::GithubInfo;
use crate::json::{string_at, strings_in, Found};
use crate::permill::Permill;
use crate::price::{decimal, digits_around_a_point_are_a_price, is_price, reads_as};
use crate::worker::{fetch_github_info, fetch_n_parse, fetch_price, fetch_price_info};
use crate::worker::{found_price, github_text, offchain_signed_tx, offchain_unsigned_tx};
use crate::worker::{offchain_unsigned_tx_signed_payload, offchain_worker, parsed_or_error};
use crate::worker::{sent_signed_payload, sent_signed_tx, submit_price, submitted_unsigned_tx};
use crate::worker::{take_price, Action, Outcome, Stage};
use vstd::arithmetic::power::pow;
use vstd::prelude::*;
use vstd::utf8::*;

verus! {

// Which task a block is for.

/// The task of a block depends on its turn alone, and each of the five turns has its own, for
/// every block: the lowest 32 bits of the number, counted by fives. A block that cannot be placed
/// has none, and the run fails at once.
pub proof fn each_turn_has_its_task<BlockNumber, E, F>(
    block_number: BlockNumber,
    as_usize: Result<usize, E>,
    as_u64: Result<u64, F>,
    step: (Stage<BlockNumber>, Action<BlockNumber>),
)
    requires
        call_ensures(
            offchain_worker::<BlockNumber, E, F>,
            (block_number, as_usize, as_u64),
            step,
        ),
    ensures
        as_usize is Err ==> step.0 is Finished && step.1 == Action::<BlockNumber>::Finish(
            Err(Error::UnknownOffchainMux),
        ),
        as_usize matches Ok(block) ==> {
            let turn = block as nat % 0x1_0000_0000 % 5;
            &&& turn == 0 ==> step.0 is SendingNumber && step.1 is SubmitNumberSigned
            &&& turn == 1 ==> step.0 is SubmittingNumber && step.1 is SubmitNumberUnsigned
            &&& turn == 2 ==> step.0 is SendingPayload && step.1 is SubmitNumberPayload
            &&& turn == 3 ==> {
                &&& step.0 is CheckingCache
                &&& step.1 matches Action::ReadCache(key) && key@ == "offchain-demo::gh-info"@
            }
            &&& turn == 4 ==> {
                &&& step.0 == Stage::RequestingPrice(block_number)
                &&& step.1 matches Action::Request(request) && request.url@
                    == "https://api.coincap.io/v2/assets/polkadot"@ && request.user_agent is None
                    && request.timeout == 3000
            }
        },
{
}

/// A run that begins by sending a number sends the number of its block itself, in each kind of
/// transaction, and zero only where the number is too large.
pub proof fn run_sends_the_blocks_own_number<BlockNumber, E, F>(
    block_number: BlockNumber,
    as_usize: Result<usize, E>,
    as_u64: Result<u64, F>,
    step: (Stage<BlockNumber>, Action<BlockNumber>),
)
    requires
        call_ensures(
            offchain_worker::<BlockNumber, E, F>,
            (block_number, as_usize, as_u64),
            step,
        ),
    ensures
        as_u64 matches Ok(n) ==> {
            &&& step.1 matches Action::SubmitNumberSigned(sent) ==> sent == n
            &&& step.1 matches Action::SubmitNumberUnsigned(sent) ==> sent == n
            &&& step.1 matches Action::SubmitNumberPayload(sent) ==> sent == n
        },
        as_u64 is Err ==> {
            &&& step.1 matches Action::SubmitNumberSigned(sent) ==> sent == 0
            &&& step.1 matches Action::SubmitNumberUnsigned(sent) ==> sent == 0
            &&& step.1 matches Action::SubmitNumberPayload(sent) ==> sent == 0
        },
{
}

/// The three ways to send a number differ in the transaction, never in the number.
pub proof fn numbers_are_sent_whole<BlockNumber, E>(
    number: Result<u64, E>,
    signed: (Stage<BlockNumber>, Action<BlockNumber>),
    unsigned: (Stage<BlockNumber>, Action<BlockNumber>),
    payload: (Stage<BlockNumber>, Action<BlockNumber>),
)
    requires
        call_ensures(offchain_signed_tx::<BlockNumber, E>, (number,), signed),
        call_ensures(offchain_unsigned_tx::<BlockNumber, E>, (number,), unsigned),
        call_ensures(offchain_unsigned_tx_signed_payload::<BlockNumber, E>, (number,), payload),
    ensures
        signed.0 is SendingNumber,
        unsigned.0 is SubmittingNumber,
        payload.0 is SendingPayload,
        number matches Ok(n) ==> {
            &&& signed.1 == Action::<BlockNumber>::SubmitNumberSigned(n)
            &&& unsigned.1 == Action::<BlockNumber>::SubmitNumberUnsigned(n)
            &&& payload.1 == Action::<BlockNumber>::SubmitNumberPayload(n)
        },
        number is Err ==> {
            &&& signed.1 == Action::<BlockNumber>::SubmitNumberSigned(0)
            &&& unsigned.1 == Action::<BlockNumber>::SubmitNumberUnsigned(0)
            &&& payload.1 == Action::<BlockNumber>::SubmitNumberPayload(0)
        },
{
}

/// The two tasks that fetch begin where and as they should.
pub proof fn fetching_begins_with_the_cache_and_the_request<BlockNumber>(
    block_number: BlockNumber,
    github: (Stage<BlockNumber>, Action<BlockNumber>),
    price: (Stage<BlockNumber>, Action<BlockNumber>),
)
    requires
        call_ensures(fetch_github_info::<BlockNumber>, (), github),
        call_ensures(fetch_price_info::<BlockNumber>, (block_number,), price),
    ensures
        github.0 is CheckingCache,
        github.1 matches Action::ReadCache(key) && key@ == "offchain-demo::gh-info"@,
        price.0 == Stage::RequestingPrice(block_number),
        price.1 matches Action::Request(request) && request.url@
            == "https://api.coincap.io/v2/assets/polkadot"@ && request.user_agent is None
            && request.timeout == 3000,
{
}

// How a transaction ends.

/// A run succeeds exactly where its transaction was sent, and fails with the error of its kind, or
/// for want of an account, exactly where it was not.
pub proof fn run_ends_as_its_transaction_did<BlockNumber>(
    stage: Stage<BlockNumber>,
    outcome: Outcome,
    step: (Stage<BlockNumber>, Action<BlockNumber>),
)
    requires
        call_ensures(Stage::<BlockNumber>::proceed, (stage, outcome), step),
        stage is SendingNumber || stage is SendingPayload || stage is SendingPrice || stage
            is SubmittingNumber,
        stage is SubmittingNumber <==> outcome is Submitted,
        stage !is SubmittingNumber <==> outcome is Sent,
    ensures
        step.0 is Finished,
        step.1 matches Action::Finish(result) && {
            &&& result is Ok <==> (outcome matches Outcome::Sent(Some(Ok(_)))) || (
            outcome matches Outcome::Submitted(Ok(_)))
            &&& result == Err::<(), Error>(Error::NoLocalAcctForSigning) <==> (
            outcome matches Outcome::Sent(None))
            &&& result == Err::<(), Error>(Error::OffchainSignedTxError) <==> stage is SendingNumber
                && (outcome matches Outcome::Sent(Some(Err(_))))
            &&& result == Err::<(), Error>(Error::OffchainUnsignedTxError) <==> (
            outcome matches Outcome::Submitted(Err(_)))
            &&& result == Err::<(), Error>(Error::OffchainUnsignedTxSignedPayloadError) <==> stage
                !is SendingNumber && (outcome matches Outcome::Sent(Some(Err(_))))
        },
{
}

/// What became of sending is told apart in each kind of transaction.
pub proof fn sending_has_one_success(
    sent: Option<Result<(), ()>>,
    submitted: Result<(), ()>,
    signed: Result<(), Error>,
    payload: Result<(), Error>,
    unsigned: Result<(), Error>,
)
    requires
        call_ensures(sent_signed_tx, (sent,), signed),
        call_ensures(sent_signed_payload, (sent,), payload),
        call_ensures(submitted_unsigned_tx, (submitted,), unsigned),
    ensures
        signed is Ok <==> (sent matches Some(Ok(_))),
        payload is Ok <==> (sent matches Some(Ok(_))),
        unsigned is Ok <==> submitted is Ok,
        sent is None ==> signed == Err::<(), Error>(Error::NoLocalAcctForSigning) && payload
            == signed,
        sent matches Some(Err(_)) ==> signed == Err::<(), Error>(Error::OffchainSignedTxError)
            && payload == Err::<(), Error>(Error::OffchainUnsignedTxSignedPayloadError),
        submitted is Err ==> unsigned == Err::<(), Error>(Error::OffchainUnsignedTxError),
{
}

// Requests.

/// The deadline is the time that the request may take after now, and never wraps round.
pub proof fn deadline_lies_ahead(request: &HttpRequest, now: u64, deadline: u64)
    requires
        call_ensures(HttpRequest::deadline, (request, now), deadline),
    ensures
        deadline >= now,
        deadline - now <= request.timeout,
        deadline - now < request.timeout ==> deadline == u64::MAX,
{
}

/// Each request has its address and three seconds; only GitHub is told who asks.
pub proof fn requests_have_their_addresses(github: HttpRequest, price: HttpRequest)
    requires
        call_ensures(github_request, (), github),
        call_ensures(price_request, (), price),
    ensures
        github.url@ == "https://api.github.com/orgs/substrate-developer-hub"@,
        github.user_agent matches Some(agent) && agent@ == "jimmychu0807"@,
        github.timeout == 3000,
        price.url@ == "https://api.coincap.io/v2/assets/polkadot"@,
        price.user_agent is None,
        price.timeout == 3000,
{
}

/// A request was answered exactly where the status code is 200; all else is the same error.
pub proof fn only_the_ok_code_is_accepted(reply: Reply, accepted: Result<(), Error>)
    requires
        call_ensures(accept_reply, (reply,), accepted),
    ensures
        accepted is Ok <==> reply == Reply::Answered(200),
        accepted matches Err(e) ==> e == Error::HttpFetchingError,
{
}

/// Both fetching tasks read the answer exactly where there is one with the status code 200, and
/// otherwise fail.
pub proof fn answers_are_read<BlockNumber>(
    block_number: BlockNumber,
    reply: Reply,
    github: (Stage<BlockNumber>, Action<BlockNumber>),
    price: (Stage<BlockNumber>, Action<BlockNumber>),
)
    requires
        call_ensures(
            Stage::<BlockNumber>::proceed,
            (Stage::<BlockNumber>::RequestingGithub, Outcome::Replied(reply)),
            github,
        ),
        call_ensures(
            Stage::<BlockNumber>::proceed,
            (Stage::RequestingPrice(block_number), Outcome::Replied(reply)),
            price,
        ),
    ensures
        reply == Reply::Answered(200) ==> {
            &&& github.0 is ReadingGithub && github.1 is ReadBody
            &&& price.0 == Stage::ReadingPrice(block_number) && price.1 is ReadBody
        },
        reply != Reply::Answered(200) ==> {
            &&& github.0 is Finished && price.0 is Finished
            &&& github.1 == Action::<BlockNumber>::Finish(Err(Error::HttpFetchingError))
            &&& price.1 == Action::<BlockNumber>::Finish(Err(Error::HttpFetchingError))
        },
{
}

// The information from GitHub.

/// Information that is kept ends the run well; anything else in its place leads to the lock.
pub proof fn kept_information_is_not_fetched<BlockNumber>(
    cached: Result<Option<GithubInfo>, ()>,
    step: (Stage<BlockNumber>, Action<BlockNumber>),
)
    requires
        call_ensures(
            Stage::<BlockNumber>::proceed,
            (Stage::<BlockNumber>::CheckingCache, Outcome::Cached(cached)),
            step,
        ),
    ensures
        cached matches Ok(Some(_)) ==> step.0 is Finished && step.1
            == Action::<BlockNumber>::Finish(Ok(())),
        !(cached matches Ok(Some(_))) ==> {
            &&& step.0 is LockingGithub
            &&& step.1 matches Action::TryLock(lock) && lock.key@ == "offchain-demo::lock"@
                && lock.blocks == 3 && lock.millis == 4000
        },
{
}

/// Under the lock the information is asked for; where another run holds the lock, this one leaves
/// it to that.
pub proof fn information_is_asked_for_under_the_lock<BlockNumber>(
    locked: bool,
    step: (Stage<BlockNumber>, Action<BlockNumber>),
)
    requires
        call_ensures(
            Stage::<BlockNumber>::proceed,
            (Stage::<BlockNumber>::LockingGithub, Outcome::Locked(locked)),
            step,
        ),
    ensures
        locked ==> {
            &&& step.0 is RequestingGithub
            &&& step.1 matches Action::Request(request) && request.url@
                == "https://api.github.com/orgs/substrate-developer-hub"@ && request.timeout == 3000
                && (request.user_agent matches Some(agent) && agent@ == "jimmychu0807"@)
        },
        !locked ==> step.0 is Finished && step.1 == Action::<BlockNumber>::Finish(Ok(())),
{
}

/// Every answer from GitHub that is text, of whatever length, goes on to be parsed, and as a whole;
/// only what is no text is an error.
pub proof fn every_text_from_github_is_parsed<BlockNumber>(
    body: Vec<u8>,
    step: (Stage<BlockNumber>, Action<BlockNumber>),
)
    requires
        call_ensures(
            Stage::<BlockNumber>::proceed,
            (Stage::<BlockNumber>::ReadingGithub, Outcome::Body(body)),
            step,
        ),
    ensures
        valid_utf8(body@) ==> {
            &&& step.0 is ParsingGithub
            &&& step.1 matches Action::ParseGithub(text) && text@ == decode_utf8(body@)
        },
        !valid_utf8(body@) ==> step.0 is Finished && step.1 == Action::<BlockNumber>::Finish(
            Err(Error::HttpFetchingError),
        ),
{
}

/// The text of an answer is all of it.
pub proof fn text_of_an_answer_is_all_of_it(body: &Vec<u8>, text: Result<String, Error>)
    requires
        call_ensures(github_text, (body,), text),
    ensures
        text is Ok <==> valid_utf8(body@),
        text matches Ok(t) ==> encode_utf8(t@) == body@,
        text matches Err(e) ==> e == Error::HttpFetchingError,
{
    if text is Ok {
        decode_utf8_encode_utf8(body@);
    }
}

/// Information that was read is stored as it is, and where there is none, the run fails.
pub proof fn information_is_stored_as_it_was_read<BlockNumber>(
    parsed: Option<GithubInfo>,
    info: Result<GithubInfo, Error>,
    step: (Stage<BlockNumber>, Action<BlockNumber>),
)
    requires
        call_ensures(fetch_n_parse, (parsed,), info),
        call_ensures(
            Stage::<BlockNumber>::proceed,
            (Stage::<BlockNumber>::ParsingGithub, Outcome::Parsed(parsed)),
            step,
        ),
    ensures
        parsed matches Some(read) ==> {
            &&& info == Ok::<GithubInfo, Error>(read)
            &&& step.0 is StoringGithub
            &&& step.1 matches Action::StoreGithub(key, stored) && key@
                == "offchain-demo::gh-info"@ && stored == read
        },
        parsed is None ==> {
            &&& info == Err::<GithubInfo, Error>(Error::HttpFetchingError)
            &&& step.0 is Finished
            &&& step.1 == Action::<BlockNumber>::Finish(Err(Error::HttpFetchingError))
        },
{
}

/// Once the information is stored, the run ends well.
pub proof fn stored_information_ends_the_run<BlockNumber>(
    step: (Stage<BlockNumber>, Action<BlockNumber>),
)
    requires
        call_ensures(
            Stage::<BlockNumber>::proceed,
            (Stage::<BlockNumber>::StoringGithub, Outcome::Stored),
            step,
        ),
    ensures
        step.0 is Finished,
        step.1 == Action::<BlockNumber>::Finish(Ok(())),
{
}

// The price.

/// The string that is found is the one at the path, whatever else the document holds.
pub proof fn string_is_found_at_its_path(text: &str, outer: &str, inner: &str, found: Found)
    requires
        call_ensures(string_at, (text, outer, inner), found),
    ensures
        found is NoDocument <==> strings_in(text@) is None,
        strings_in(text@) matches Some(strings) ==> {
            let path = seq![outer@, inner@];
            &&& strings.dom().contains(path) <==> found is Text
            &&& found matches Found::Text(s) ==> s@ == strings[path]
        },
{
}

/// The price that is fetched is the string under `priceUsd` in `data`, whatever other members the
/// document has. Only where there is no such string is there no price, and only what is no text or
/// no document is an error.
pub proof fn price_is_fetched_from_its_place(
    body: &Vec<u8>,
    price: Result<Option<Vec<u8>>, Error>,
)
    requires
        call_ensures(fetch_price, (body,), price),
    ensures
        !valid_utf8(body@) ==> price == Err::<Option<Vec<u8>>, Error>(Error::NoUTF8Body),
        valid_utf8(body@) && strings_in(decode_utf8(body@)) is None ==> price == Err::<
            Option<Vec<u8>>,
            Error,
        >(Error::HttpFetchingError),
        valid_utf8(body@) && strings_in(decode_utf8(body@)) is Some ==> {
            let strings = strings_in(decode_utf8(body@))->0;
            let path = seq!["data"@, "priceUsd"@];
            &&& strings.dom().contains(path) ==> (price matches Ok(Some(bytes)) && bytes@
                == encode_utf8(strings[path]))
            &&& !strings.dom().contains(path) ==> price == Ok::<Option<Vec<u8>>, Error>(None)
        },
{
}

/// Answers that agree on the one string give the same price, however else they differ.
pub proof fn price_depends_on_its_place_alone(
    one: &Vec<u8>,
    other: &Vec<u8>,
    price_of_one: Result<Option<Vec<u8>>, Error>,
    price_of_other: Result<Option<Vec<u8>>, Error>,
)
    requires
        call_ensures(fetch_price, (one,), price_of_one),
        call_ensures(fetch_price, (other,), price_of_other),
        valid_utf8(one@),
        valid_utf8(other@),
        strings_in(decode_utf8(one@)) matches Some(strings) && strings.dom().contains(
            seq!["data"@, "priceUsd"@],
        ),
        strings_in(decode_utf8(other@)) matches Some(strings) && strings.dom().contains(
            seq!["data"@, "priceUsd"@],
        ),
        strings_in(decode_utf8(one@))->0[seq!["data"@, "priceUsd"@]] == strings_in(
            decode_utf8(other@),
        )->0[seq!["data"@, "priceUsd"@]],
    ensures
        price_of_one matches Ok(Some(a)) && price_of_other matches Ok(Some(b)) && a@ == b@,
{
}

/// What was found is handed on byte for byte.
pub proof fn found_price_is_handed_on(found: Found, price: Result<Option<Vec<u8>>, Error>)
    requires
        call_ensures(found_price, (found,), price),
    ensures
        found matches Found::Text(text) ==> (price matches Ok(Some(bytes)) && bytes@
            == encode_utf8(text@)),
        found is NoString ==> price == Ok::<Option<Vec<u8>>, Error>(None),
        found is NoDocument ==> price == Err::<Option<Vec<u8>>, Error>(Error::HttpFetchingError),
{
}

/// A price that was fetched is held for its block, byte for byte, while the lock is tried; where
/// there is none the run stops dead; and every failure to fetch it is the same error.
pub proof fn fetched_price_goes_to_the_lock<BlockNumber>(
    block_number: BlockNumber,
    price: Result<Option<Vec<u8>>, Error>,
    step: (Stage<BlockNumber>, Action<BlockNumber>),
)
    requires
        call_ensures(take_price::<BlockNumber>, (block_number, price), step),
    ensures
        price matches Ok(Some(bytes)) ==> {
            &&& step.0 matches Stage::LockingPrice(block, held) && block == block_number && held@
                == bytes@
            &&& step.1 matches Action::TryLock(lock) && lock.key@ == "offchain-demo::lock"@
                && lock.blocks == 3 && lock.millis == 4000
        },
        price matches Ok(None) ==> step.0 is Finished && step.1 is Abort,
        price is Err ==> step.0 is Finished && step.1 == Action::<BlockNumber>::Finish(
            Err(Error::HttpFetchingError),
        ),
{
}

/// Every answer that holds a price in its place leads on to the lock, with that string held for
/// the block.
pub proof fn answer_with_a_price_goes_to_the_lock<BlockNumber>(
    block_number: BlockNumber,
    body: Vec<u8>,
    step: (Stage<BlockNumber>, Action<BlockNumber>),
)
    requires
        call_ensures(
            Stage::<BlockNumber>::proceed,
            (Stage::ReadingPrice(block_number), Outcome::Body(body)),
            step,
        ),
    ensures
        !valid_utf8(body@) || strings_in(decode_utf8(body@)) is None ==> step.0 is Finished
            && step.1 == Action::<BlockNumber>::Finish(Err(Error::HttpFetchingError)),
        valid_utf8(body@) && strings_in(decode_utf8(body@)) is Some ==> {
            let strings = strings_in(decode_utf8(body@))->0;
            let path = seq!["data"@, "priceUsd"@];
            &&& !strings.dom().contains(path) ==> step.0 is Finished && step.1 is Abort
            &&& strings.dom().contains(path) ==> {
                &&& step.0 matches Stage::LockingPrice(block, held) && block == block_number
                    && held@ == encode_utf8(strings[path])
                &&& step.1 matches Action::TryLock(lock) && lock.key@ == "offchain-demo::lock"@
                    && lock.blocks == 3 && lock.millis == 4000
            }
        },
{
}

/// Under the lock the price is stored byte for byte; then the lock is let go of. Block and price
/// are held on to.
pub proof fn price_is_stored_and_the_lock_let_go<BlockNumber>(
    block_number: BlockNumber,
    price: Vec<u8>,
    locked: (Stage<BlockNumber>, Action<BlockNumber>),
    stored: (Stage<BlockNumber>, Action<BlockNumber>),
)
    requires
        call_ensures(
            Stage::<BlockNumber>::proceed,
            (Stage::LockingPrice(block_number, price), Outcome::Locked(true)),
            locked,
        ),
        call_ensures(
            Stage::<BlockNumber>::proceed,
            (Stage::StoringPrice(block_number, price), Outcome::Stored),
            stored,
        ),
    ensures
        locked.0 == Stage::StoringPrice(block_number, price),
        locked.1 matches Action::StorePrice(key, info) && key@ == "offchain-demo::price-info"@
            && info.price_vec@ == price@,
        stored.0 == Stage::UnlockingPrice(block_number, price),
        stored.1 is Unlock,
{
}

/// Every price that is text and can be read is submitted for its block, as it was read: directly,
/// where the lock was refused, and where the lock was let go of. Only bytes that are no price stop
/// the run, and only bytes that are no text are an error.
pub proof fn readable_price_is_always_submitted<BlockNumber>(
    block_number: BlockNumber,
    price: Vec<u8>,
    step: (Stage<BlockNumber>, Action<BlockNumber>),
)
    requires
        call_ensures(submit_price::<BlockNumber>, (block_number, &price), step) || call_ensures(
            Stage::<BlockNumber>::proceed,
            (Stage::LockingPrice(block_number, price), Outcome::Locked(false)),
            step,
        ) || call_ensures(
            Stage::<BlockNumber>::proceed,
            (Stage::UnlockingPrice(block_number, price), Outcome::Unlocked),
            step,
        ),
    ensures
        valid_utf8(price@) && is_price(price@) ==> {
            &&& step.0 is SendingPrice
            &&& step.1 matches Action::SubmitPricePayload(block, read) && block == block_number
                && reads_as(price@, read)
        },
        valid_utf8(price@) && !is_price(price@) ==> step.0 is Finished && step.1 is Abort,
        !valid_utf8(price@) ==> step.0 is Finished && step.1 == Action::<BlockNumber>::Finish(
            Err(Error::NoUTF8Body),
        ),
{
}

/// Every price of digits, a point and digits is submitted for its block with the units before the
/// point and the parts per million behind it.
pub proof fn digits_around_a_point_are_always_submitted<BlockNumber>(
    block_number: BlockNumber,
    price: Vec<u8>,
    a: Seq<u8>,
    b: Seq<u8>,
    step: (Stage<BlockNumber>, Action<BlockNumber>),
)
    requires
        call_ensures(submit_price::<BlockNumber>, (block_number, &price), step) || call_ensures(
            Stage::<BlockNumber>::proceed,
            (Stage::LockingPrice(block_number, price), Outcome::Locked(false)),
            step,
        ) || call_ensures(
            Stage::<BlockNumber>::proceed,
            (Stage::UnlockingPrice(block_number, price), Outcome::Unlocked),
            step,
        ),
        valid_utf8(price@),
        price@ == a + seq![46u8] + b,
        a.len() > 0,
        b.len() > 0,
        forall|i: int| 0 <= i < a.len() ==> 48 <= #[trigger] a[i] <= 57,
        forall|i: int| 0 <= i < b.len() ==> 48 <= #[trigger] b[i] <= 57,
        decimal(a) <= u64::MAX,
    ensures
        step.0 is SendingPrice,
        step.1 matches Action::SubmitPricePayload(block, read) && {
            let digits = if b.len() > 6 {
                b.take(6)
            } else {
                b
            };
            &&& block == block_number
            &&& read.0 == decimal(a)
            &&& read.1.parts() == decimal(digits) * pow(10, (6 - digits.len()) as nat)
        },
{
    digits_around_a_point_are_a_price(a, b);
    readable_price_is_always_submitted(block_number, price, step);
    if b.len() == 6 {
        assert(b.take(6) =~= b);
    }
}

/// From the request to the chain: an answer with the status code 200 that holds a price which can
/// be read leads on, step by step, to that price being submitted for the block, whether or not the
/// lock can be had.
pub proof fn price_gets_from_the_answer_to_the_chain<BlockNumber>(
    block_number: BlockNumber,
    body: Vec<u8>,
    locked: bool,
    answered: (Stage<BlockNumber>, Action<BlockNumber>),
    read: (Stage<BlockNumber>, Action<BlockNumber>),
    tried: (Stage<BlockNumber>, Action<BlockNumber>),
    stored: (Stage<BlockNumber>, Action<BlockNumber>),
    unlocked: (Stage<BlockNumber>, Action<BlockNumber>),
)
    requires
        valid_utf8(body@),
        strings_in(decode_utf8(body@)) matches Some(strings) && strings.dom().contains(
            seq!["data"@, "priceUsd"@],
        ) && is_price(encode_utf8(strings[seq!["data"@, "priceUsd"@]])),
        call_ensures(
            Stage::<BlockNumber>::proceed,
            (Stage::RequestingPrice(block_number), Outcome::Replied(Reply::Answered(200))),
            answered,
        ),
    ensures
        ({
            let price = encode_utf8(strings_in(decode_utf8(body@))->0[seq!["data"@, "priceUsd"@]]);
            &&& call_requires(Stage::<BlockNumber>::proceed, (answered.0, Outcome::Body(body)))
            &&& call_ensures(Stage::<BlockNumber>::proceed, (answered.0, Outcome::Body(body)), read)
                ==> {
                &&& call_requires(Stage::<BlockNumber>::proceed, (read.0, Outcome::Locked(locked)))
                &&& call_ensures(
                    Stage::<BlockNumber>::proceed,
                    (read.0, Outcome::Locked(locked)),
                    tried,
                ) ==> if !locked {
                    &&& tried.0 is SendingPrice
                    &&& tried.1 matches Action::SubmitPricePayload(block, sent) && block
                        == block_number && reads_as(price, sent)
                } else {
                    &&& tried.1 matches Action::StorePrice(key, info) && key@
                        == "offchain-demo::price-info"@ && info.price_vec@ == price
                    &&& call_requires(Stage::<BlockNumber>::proceed, (tried.0, Outcome::Stored))
                    &&& call_ensures(
                        Stage::<BlockNumber>::proceed,
                        (tried.0, Outcome::Stored),
                        stored,
                    ) ==> {
                        &&& stored.1 is Unlock
                        &&& call_requires(
                            Stage::<BlockNumber>::proceed,
                            (stored.0, Outcome::Unlocked),
                        )
                        &&& call_ensures(
                            Stage::<BlockNumber>::proceed,
                            (stored.0, Outcome::Unlocked),
                            unlocked,
                        ) ==> {
                            &&& unlocked.0 is SendingPrice
                            &&& unlocked.1 matches Action::SubmitPricePayload(block, sent) && block
                                == block_number && reads_as(price, sent)
                        }
                    }
                }
            }
        }),
{
    encode_utf8_valid_utf8(strings_in(decode_utf8(body@))->0[seq!["data"@, "priceUsd"@]]);
}

/// From the request to local storage: an answer with the status code 200 that is text is parsed as
/// a whole, and what is read of it is stored.
pub proof fn information_gets_from_the_answer_to_storage<BlockNumber>(
    body: Vec<u8>,
    info: GithubInfo,
    answered: (Stage<BlockNumber>, Action<BlockNumber>),
    read: (Stage<BlockNumber>, Action<BlockNumber>),
    parsed: (Stage<BlockNumber>, Action<BlockNumber>),
)
    requires
        valid_utf8(body@),
        call_ensures(
            Stage::<BlockNumber>::proceed,
            (Stage::<BlockNumber>::RequestingGithub, Outcome::Replied(Reply::Answered(200))),
            answered,
        ),
    ensures
        call_requires(Stage::<BlockNumber>::proceed, (answered.0, Outcome::Body(body))),
        call_ensures(Stage::<BlockNumber>::proceed, (answered.0, Outcome::Body(body)), read) ==> {
            &&& read.1 matches Action::ParseGithub(text) && encode_utf8(text@) == body@
            &&& call_requires(
                Stage::<BlockNumber>::proceed,
                (read.0, Outcome::Parsed(Some(info))),
            )
            &&& call_ensures(
                Stage::<BlockNumber>::proceed,
                (read.0, Outcome::Parsed(Some(info))),
                parsed,
            ) ==> {
                &&& parsed.0 is StoringGithub
                &&& parsed.1 matches Action::StoreGithub(key, stored) && key@
                    == "offchain-demo::gh-info"@ && stored == info
            }
        },
{
    decode_utf8_encode_utf8(body@);
}

/// A price that was read is never lost, and where there is none, that is the error.
pub proof fn read_price_is_not_lost(
    parsed: Option<(u64, Permill)>,
    price: Result<(u64, Permill), Error>,
)
    requires
        call_ensures(parsed_or_error, (parsed,), price),
    ensures
        parsed matches Some(read) ==> price == Ok::<(u64, Permill), Error>(read),
        parsed is None ==> price == Err::<(u64, Permill), Error>(Error::ParsePriceError),
{
}

/// A run can be taken on with just those outcomes that it says it waits for.
pub proof fn run_goes_on_with_what_it_waits_for<BlockNumber>(
    stage: Stage<BlockNumber>,
    outcome: Outcome,
    awaiting: bool,
)
    requires
        call_ensures(Stage::<BlockNumber>::is_awaiting, (&stage, &outcome), awaiting),
    ensures
        awaiting ==> call_requires(Stage::<BlockNumber>::proceed, (stage, outcome)),
        awaiting <==> match outcome {
            Outcome::Sent(_) => stage is SendingNumber || stage is SendingPayload || stage
                is SendingPrice,
            Outcome::Submitted(_) => stage is SubmittingNumber,
            Outcome::Cached(_) => stage is CheckingCache,
            Outcome::Locked(_) => stage is LockingGithub || stage is LockingPrice,
            Outcome::Unlocked => stage is UnlockingPrice,
            Outcome::Replied(_) => stage is RequestingGithub || stage is RequestingPrice,
            Outcome::Body(_) => stage is ReadingGithub || stage is ReadingPrice,
            Outcome::Parsed(_) => stage is ParsingGithub,
            Outcome::Stored => stage is StoringGithub || stage is StoringPrice,
        },
{
}

} // verus!

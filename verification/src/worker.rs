//! A run of the off-chain worker, step by step.
//!
//! Each block is for one of five tasks. A task begins with an [`Action`] for the node to carry out;
//! what came of it is an [`Outcome`], from which the [`Stage`] that the run has reached makes the
//! next action, until one of them ends the run.

use crate::error::Error;
use crate::http::{accept_reply, asks_github, asks_price, github_request, price_request};
use crate::http::{HttpRequest, Reply, FETCH_TIMEOUT_PERIOD, OK_CODE};
use crate::info::{GithubInfo, PriceInfo};
use crate::json::{string_at, strings_in, Found};
use crate::permill::Permill;
use crate::price::{can_parse_price, is_price, parse_price, reads_as};
use vstd::prelude::*;
use vstd::slice::slice_to_vec;
use vstd::utf8::*;

verus! {

/// The number of tasks that take turns.
pub const TX_TYPES: u32 = 5;

/// Where the information about the organization on GitHub is kept in local storage.
pub const GITHUB_INFO_KEY: &'static str = "offchain-demo::gh-info";

/// Where the price is kept in local storage.
pub const PRICE_INFO_KEY: &'static str = "offchain-demo::price-info";

/// The lock that runs of the worker take before they write to local storage.
pub const LOCK_KEY: &'static str = "offchain-demo::lock";

/// How long the lock can be held, in milliseconds.
pub const LOCK_TIMEOUT_EXPIRATION: u64 = FETCH_TIMEOUT_PERIOD + 1000;

/// How long the lock can be held, in blocks.
pub const LOCK_BLOCK_EXPIRATION: u32 = 3;

/// A lock in local storage, and when it falls open by itself.
#[derive(Clone, Copy, Debug, PartialEq, Eq)]
pub struct Lock {
    pub key: &'static str,
    pub blocks: u32,
    pub millis: u64,
}

/// What the node is to do next.
#[derive(Debug, PartialEq, Eq)]
pub enum Action<BlockNumber> {
    /// Send the number to the chain in a signed transaction.
    SubmitNumberSigned(u64),
    /// Send the number to the chain in an unsigned transaction.
    SubmitNumberUnsigned(u64),
    /// Sign a payload with the number, and send it to the chain in an unsigned transaction.
    SubmitNumberPayload(u64),
    /// Sign a payload with the block and the price, and send it to the chain in an unsigned
    /// transaction.
    SubmitPricePayload(BlockNumber, (u64, Permill)),
    /// Look whether local storage holds information about the organization under that key.
    ReadCache(&'static str),
    /// Try to take the lock.
    TryLock(Lock),
    /// Let go of the lock.
    Unlock,
    /// Make the request.
    Request(HttpRequest),
    /// Read all of the answer.
    ReadBody,
    /// Read the text as the information about the organization in JSON.
    ParseGithub(String),
    /// Write the information about the organization to local storage under that key.
    StoreGithub(&'static str, GithubInfo),
    /// Write the price to local storage under that key.
    StorePrice(&'static str, PriceInfo),
    /// End the run with that result, and let go of the lock if it is held.
    Finish(Result<(), Error>),
    /// Stop dead: the worker was given a document that it cannot go on with.
    Abort,
}

/// What came of an action.
#[derive(Debug, PartialEq, Eq)]
pub enum Outcome {
    /// Whether the transaction was sent, or `None` where no local account can sign it.
    Sent(Option<Result<(), ()>>),
    /// Whether the unsigned transaction was submitted.
    Submitted(Result<(), ()>),
    /// What local storage holds under the key: nothing, the information, or something that cannot
    /// be read as such.
    Cached(Result<Option<GithubInfo>, ()>),
    /// Whether the lock was taken.
    Locked(bool),
    /// The lock is open again.
    Unlocked,
    /// What became of the request.
    Replied(Reply),
    /// All of the answer.
    Body(Vec<u8>),
    /// The information about the organization, or `None` where the text does not hold it.
    Parsed(Option<GithubInfo>),
    /// The value is in local storage.
    Stored,
}

/// How far a run has come: what it waits for.
#[derive(Debug, PartialEq, Eq)]
pub enum Stage<BlockNumber> {
    SendingNumber,
    SubmittingNumber,
    SendingPayload,
    CheckingCache,
    LockingGithub,
    RequestingGithub,
    ReadingGithub,
    ParsingGithub,
    StoringGithub,
    RequestingPrice(BlockNumber),
    ReadingPrice(BlockNumber),
    LockingPrice(BlockNumber, Vec<u8>),
    StoringPrice(BlockNumber, Vec<u8>),
    UnlockingPrice(BlockNumber, Vec<u8>),
    SendingPrice,
    Finished,
}

/// The one of five turns that a block has: the lowest 32 bits of its number count.
pub open spec fn turn(block: nat) -> nat {
    (block % 0x1_0000_0000) % TX_TYPES as nat
}

/// The number that a block is sent as: zero where it is too large.
pub open spec fn number_of<E>(block_number: Result<u64, E>) -> u64 {
    match block_number {
        Ok(number) => number,
        Err(_) => 0,
    }
}

/// The run ends with that result.
pub open spec fn finishes<BlockNumber>(
    next: Stage<BlockNumber>,
    action: Action<BlockNumber>,
    result: Result<(), Error>,
) -> bool {
    next is Finished && action == Action::<BlockNumber>::Finish(result)
}

/// How a signed transaction ends.
pub open spec fn signed_tx_result(sent: Option<Result<(), ()>>) -> Result<(), Error> {
    match sent {
        Some(Ok(())) => Ok(()),
        Some(Err(())) => Err(Error::OffchainSignedTxError),
        None => Err(Error::NoLocalAcctForSigning),
    }
}

/// How an unsigned transaction with a signed payload ends.
pub open spec fn signed_payload_result(sent: Option<Result<(), ()>>) -> Result<(), Error> {
    match sent {
        Some(Ok(())) => Ok(()),
        Some(Err(())) => Err(Error::OffchainUnsignedTxSignedPayloadError),
        None => Err(Error::NoLocalAcctForSigning),
    }
}

/// How an unsigned transaction ends.
pub open spec fn unsigned_tx_result(submitted: Result<(), ()>) -> Result<(), Error> {
    match submitted {
        Ok(()) => Ok(()),
        Err(()) => Err(Error::OffchainUnsignedTxError),
    }
}

/// The lock of this worker.
pub open spec fn is_the_lock(lock: Lock) -> bool {
    &&& lock.key@ == LOCK_KEY@
    &&& lock.blocks == LOCK_BLOCK_EXPIRATION
    &&& lock.millis == LOCK_TIMEOUT_EXPIRATION
}

/// Once the price has been put away, or could not be: what is text and a price is submitted, and
/// bytes that are no price stop the run.
pub open spec fn price_is_submitted<BlockNumber>(
    block_number: BlockNumber,
    price: Seq<u8>,
    next: Stage<BlockNumber>,
    action: Action<BlockNumber>,
) -> bool {
    if !valid_utf8(price) {
        finishes(next, action, Err(Error::NoUTF8Body))
    } else if is_price(price) {
        &&& next is SendingPrice
        &&& action matches Action::SubmitPricePayload(block, read) && block == block_number
            && reads_as(price, read)
    } else {
        next is Finished && action is Abort
    }
}

/// A price that was fetched, if there is one, as the sequence of its bytes.
pub open spec fn bytes_of(price: Result<Option<Vec<u8>>, Error>) -> Result<
    Option<Seq<u8>>,
    Error,
> {
    match price {
        Ok(Some(bytes)) => Ok(Some(bytes@)),
        Ok(None) => Ok(None),
        Err(e) => Err(e),
    }
}

/// The bytes of the price that was found, an error where there is no document, or `None` where the
/// document holds no price.
pub open spec fn price_found(found: Found) -> Result<Option<Seq<u8>>, Error> {
    match found {
        Found::NoDocument => Err(Error::HttpFetchingError),
        Found::NoString => Ok(None),
        Found::Text(text) => Ok(Some(encode_utf8(text@))),
    }
}

/// The bytes of the price in US dollars that an answer holds, an error where the answer is no text
/// or no document, or `None` where the document holds no price.
pub open spec fn price_in(body: Seq<u8>) -> Result<Option<Seq<u8>>, Error> {
    if !valid_utf8(body) {
        Err(Error::NoUTF8Body)
    } else {
        match strings_in(decode_utf8(body)) {
            None => Err(Error::HttpFetchingError),
            Some(strings) => if strings.dom().contains(seq!["data"@, "priceUsd"@]) {
                Ok(Some(encode_utf8(strings[seq!["data"@, "priceUsd"@]])))
            } else {
                Ok(None)
            },
        }
    }
}

/// What follows once the price was fetched: it is put away under the lock; every failure to fetch
/// it is the same error; and where there is none in the document, the run stops dead.
pub open spec fn price_is_taken<BlockNumber>(
    block_number: BlockNumber,
    price: Result<Option<Seq<u8>>, Error>,
    next: Stage<BlockNumber>,
    action: Action<BlockNumber>,
) -> bool {
    match price {
        Err(_) => finishes(next, action, Err(Error::HttpFetchingError)),
        Ok(None) => next is Finished && action is Abort,
        Ok(Some(bytes)) => {
            &&& next matches Stage::LockingPrice(block, held) && block == block_number && held@
                == bytes
            &&& action matches Action::TryLock(lock) && is_the_lock(lock)
        },
    }
}

impl<BlockNumber> Stage<BlockNumber> {
    /// What the run waits for.
    pub open spec fn awaits(self, outcome: Outcome) -> bool {
        match self {
            Stage::SendingNumber => outcome is Sent,
            Stage::SubmittingNumber => outcome is Submitted,
            Stage::SendingPayload => outcome is Sent,
            Stage::CheckingCache => outcome is Cached,
            Stage::LockingGithub => outcome is Locked,
            Stage::RequestingGithub => outcome is Replied,
            Stage::ReadingGithub => outcome is Body,
            Stage::ParsingGithub => outcome is Parsed,
            Stage::StoringGithub => outcome is Stored,
            Stage::RequestingPrice(_) => outcome is Replied,
            Stage::ReadingPrice(_) => outcome is Body,
            Stage::LockingPrice(_, _) => outcome is Locked,
            Stage::StoringPrice(_, _) => outcome is Stored,
            Stage::UnlockingPrice(_, _) => outcome is Unlocked,
            Stage::SendingPrice => outcome is Sent,
            Stage::Finished => false,
        }
    }

    /// The run holds the lock.
    pub open spec fn holds_lock(self) -> bool {
        match self {
            Stage::RequestingGithub => true,
            Stage::ReadingGithub => true,
            Stage::ParsingGithub => true,
            Stage::StoringGithub => true,
            Stage::StoringPrice(_, _) => true,
            _ => false,
        }
    }

    /// The most steps that can follow.
    pub open spec fn steps_left(self) -> nat {
        match self {
            Stage::Finished => 0,
            Stage::SendingNumber => 1,
            Stage::SubmittingNumber => 1,
            Stage::SendingPayload => 1,
            Stage::SendingPrice => 1,
            Stage::StoringGithub => 1,
            Stage::ParsingGithub => 2,
            Stage::ReadingGithub => 3,
            Stage::RequestingGithub => 4,
            Stage::LockingGithub => 5,
            Stage::CheckingCache => 6,
            Stage::UnlockingPrice(_, _) => 2,
            Stage::StoringPrice(_, _) => 3,
            Stage::LockingPrice(_, _) => 4,
            Stage::ReadingPrice(_) => 5,
            Stage::RequestingPrice(_) => 6,
        }
    }

    /// Where an outcome takes the run, and the action that follows.
    pub open spec fn leads_to(
        self,
        outcome: Outcome,
        next: Stage<BlockNumber>,
        action: Action<BlockNumber>,
    ) -> bool {
        match (self, outcome) {
            (Stage::SendingNumber, Outcome::Sent(sent)) => finishes(
                next,
                action,
                signed_tx_result(sent),
            ),
            (Stage::SubmittingNumber, Outcome::Submitted(submitted)) => finishes(
                next,
                action,
                unsigned_tx_result(submitted),
            ),
            (Stage::SendingPayload, Outcome::Sent(sent)) => finishes(
                next,
                action,
                signed_payload_result(sent),
            ),
            (Stage::CheckingCache, Outcome::Cached(cached)) => if cached matches Ok(Some(_)) {
                finishes(next, action, Ok(()))
            } else {
                &&& next is LockingGithub
                &&& action matches Action::TryLock(lock) && is_the_lock(lock)
            },
            (Stage::LockingGithub, Outcome::Locked(locked)) => if locked {
                &&& next is RequestingGithub
                &&& action matches Action::Request(request) && asks_github(request)
            } else {
                finishes(next, action, Ok(()))
            },
            (Stage::RequestingGithub, Outcome::Replied(reply)) => if reply == Reply::Answered(
                OK_CODE,
            ) {
                next is ReadingGithub && action is ReadBody
            } else {
                finishes(next, action, Err(Error::HttpFetchingError))
            },
            (Stage::ReadingGithub, Outcome::Body(body)) => if valid_utf8(body@) {
                &&& next is ParsingGithub
                &&& action matches Action::ParseGithub(text) && text@ == decode_utf8(body@)
            } else {
                finishes(next, action, Err(Error::HttpFetchingError))
            },
            (Stage::ParsingGithub, Outcome::Parsed(parsed)) => match parsed {
                Some(info) => {
                    &&& next is StoringGithub
                    &&& action matches Action::StoreGithub(key, stored) && key@ == GITHUB_INFO_KEY@
                        && stored == info
                },
                None => finishes(next, action, Err(Error::HttpFetchingError)),
            },
            (Stage::StoringGithub, Outcome::Stored) => finishes(next, action, Ok(())),
            (Stage::RequestingPrice(block_number), Outcome::Replied(reply)) => if reply
                == Reply::Answered(OK_CODE) {
                next == Stage::ReadingPrice(block_number) && action is ReadBody
            } else {
                finishes(next, action, Err(Error::HttpFetchingError))
            },
            (Stage::ReadingPrice(block_number), Outcome::Body(body)) => price_is_taken(
                block_number,
                price_in(body@),
                next,
                action,
            ),
            (Stage::LockingPrice(block_number, price), Outcome::Locked(locked)) => if locked {
                &&& next == Stage::StoringPrice(block_number, price)
                &&& action matches Action::StorePrice(key, info) && key@ == PRICE_INFO_KEY@
                    && info.price_vec@ == price@
            } else {
                price_is_submitted(block_number, price@, next, action)
            },
            (Stage::StoringPrice(block_number, price), Outcome::Stored) => next
                == Stage::UnlockingPrice(block_number, price) && action is Unlock,
            (
                Stage::UnlockingPrice(block_number, price),
                Outcome::Unlocked,
            ) => price_is_submitted(block_number, price@, next, action),
            (Stage::SendingPrice, Outcome::Sent(sent)) => finishes(
                next,
                action,
                signed_payload_result(sent),
            ),
            _ => false,
        }
    }
}

/// The lock of this worker.
fn the_lock() -> (lock: Lock)
    ensures
        is_the_lock(lock),
{
    Lock { key: LOCK_KEY, blocks: LOCK_BLOCK_EXPIRATION, millis: LOCK_TIMEOUT_EXPIRATION }
}

/// Ends the run.
fn finish<BlockNumber>(result: Result<(), Error>) -> (step: (
    Stage<BlockNumber>,
    Action<BlockNumber>,
))
    ensures
        finishes(step.0, step.1, result),
{
    (Stage::Finished, Action::Finish(result))
}

/// What is left of fetching the price once the document has been searched: the bytes of the price,
/// or `None` where the document holds no string in its place.
pub fn found_price(found: Found) -> (price: Result<Option<Vec<u8>>, Error>)
    ensures
        bytes_of(price) == price_found(found),
{
    match found {
        Found::NoDocument => Err(Error::HttpFetchingError),
        Found::NoString => Ok(None),
        Found::Text(text) => Ok(Some(text.as_str().as_bytes_vec())),
    }
}

/// The bytes of the current price, out of the answer to the request for it, or `None` where the
/// answer is a document that holds no price.
pub fn fetch_price(body: &Vec<u8>) -> (price: Result<Option<Vec<u8>>, Error>)
    ensures
        bytes_of(price) == price_in(body@),
{
    let body_str = match core::str::from_utf8(body.as_slice()) {
        Ok(body_str) => body_str,
        Err(_) => return Err(Error::NoUTF8Body),
    };
    proof {
        encode_utf8_decode_utf8(body_str@);
    }
    found_price(string_at(body_str, "data", "priceUsd"))
}

/// Goes on with the price that was fetched.
pub fn take_price<BlockNumber>(
    block_number: BlockNumber,
    price: Result<Option<Vec<u8>>, Error>,
) -> (step: (Stage<BlockNumber>, Action<BlockNumber>))
    ensures
        price_is_taken(block_number, bytes_of(price), step.0, step.1),
{
    match price {
        Err(_) => finish(Err(Error::HttpFetchingError)),
        Ok(None) => (Stage::Finished, Action::Abort),
        Ok(Some(bytes)) => (Stage::LockingPrice(block_number, bytes), Action::TryLock(the_lock())),
    }
}

/// The price that was read, or the error that there is none.
pub fn parsed_or_error(parsed: Option<(u64, Permill)>) -> (price: Result<(u64, Permill), Error>)
    ensures
        price == match parsed {
            Some(read) => Ok::<(u64, Permill), Error>(read),
            None => Err(Error::ParsePriceError),
        },
{
    match parsed {
        Some(read) => Ok(read),
        None => Err(Error::ParsePriceError),
    }
}

/// Reads the price that was fetched, and has it signed and submitted.
pub fn submit_price<BlockNumber>(block_number: BlockNumber, price: &Vec<u8>) -> (step: (
    Stage<BlockNumber>,
    Action<BlockNumber>,
))
    ensures
        price_is_submitted(block_number, price@, step.0, step.1),
{
    let price_str = match core::str::from_utf8(price.as_slice()) {
        Ok(price_str) => price_str,
        Err(_) => return finish(Err(Error::NoUTF8Body)),
    };
    if !can_parse_price(price_str) {
        return (Stage::Finished, Action::Abort);
    }
    match parsed_or_error(parse_price(price_str)) {
        Ok(parsed_price) => (
            Stage::SendingPrice,
            Action::SubmitPricePayload(block_number, parsed_price),
        ),
        Err(e) => finish(Err(e)),
    }
}

/// The result of the signed transaction.
pub fn sent_signed_tx(sent: Option<Result<(), ()>>) -> (result: Result<(), Error>)
    ensures
        result == signed_tx_result(sent),
{
    match sent {
        Some(Ok(())) => Ok(()),
        Some(Err(())) => Err(Error::OffchainSignedTxError),
        None => Err(Error::NoLocalAcctForSigning),
    }
}

/// The result of the unsigned transaction.
pub fn submitted_unsigned_tx(submitted: Result<(), ()>) -> (result: Result<(), Error>)
    ensures
        result == unsigned_tx_result(submitted),
{
    match submitted {
        Ok(()) => Ok(()),
        Err(()) => Err(Error::OffchainUnsignedTxError),
    }
}

/// The result of the unsigned transaction with a signed payload.
pub fn sent_signed_payload(sent: Option<Result<(), ()>>) -> (result: Result<(), Error>)
    ensures
        result == signed_payload_result(sent),
{
    match sent {
        Some(Ok(())) => Ok(()),
        Some(Err(())) => Err(Error::OffchainUnsignedTxSignedPayloadError),
        None => Err(Error::NoLocalAcctForSigning),
    }
}

/// The text of the answer to the request for the information about the organization.
pub fn github_text(body: &Vec<u8>) -> (text: Result<String, Error>)
    ensures
        match text {
            Ok(t) => valid_utf8(body@) && t@ == decode_utf8(body@),
            Err(e) => !valid_utf8(body@) && e == Error::HttpFetchingError,
        },
{
    match core::str::from_utf8(body.as_slice()) {
        Ok(resp_str) => {
            proof {
                encode_utf8_decode_utf8(resp_str@);
            }
            Ok(resp_str.to_owned())
        },
        Err(_) => Err(Error::HttpFetchingError),
    }
}

/// The information about the organization, or the error that the text does not hold it.
pub fn fetch_n_parse(parsed: Option<GithubInfo>) -> (info: Result<GithubInfo, Error>)
    ensures
        info == match parsed {
            Some(gh_info) => Ok::<GithubInfo, Error>(gh_info),
            None => Err(Error::HttpFetchingError),
        },
{
    match parsed {
        Some(gh_info) => Ok(gh_info),
        None => Err(Error::HttpFetchingError),
    }
}

/// Begins to send the block's number to the chain in a signed transaction.
pub fn offchain_signed_tx<BlockNumber, E>(block_number: Result<u64, E>) -> (step: (
    Stage<BlockNumber>,
    Action<BlockNumber>,
))
    ensures
        step.0 is SendingNumber,
        step.1 == Action::<BlockNumber>::SubmitNumberSigned(number_of(block_number)),
{
    let number: u64 = match block_number {
        Ok(number) => number,
        Err(_) => 0,
    };
    (Stage::SendingNumber, Action::SubmitNumberSigned(number))
}

/// Begins to send the block's number to the chain in an unsigned transaction.
pub fn offchain_unsigned_tx<BlockNumber, E>(block_number: Result<u64, E>) -> (step: (
    Stage<BlockNumber>,
    Action<BlockNumber>,
))
    ensures
        step.0 is SubmittingNumber,
        step.1 == Action::<BlockNumber>::SubmitNumberUnsigned(number_of(block_number)),
{
    let number: u64 = match block_number {
        Ok(number) => number,
        Err(_) => 0,
    };
    (Stage::SubmittingNumber, Action::SubmitNumberUnsigned(number))
}

/// Begins to send the block's number to the chain in an unsigned transaction with a signed payload.
pub fn offchain_unsigned_tx_signed_payload<BlockNumber, E>(block_number: Result<u64, E>) -> (step: (
    Stage<BlockNumber>,
    Action<BlockNumber>,
))
    ensures
        step.0 is SendingPayload,
        step.1 == Action::<BlockNumber>::SubmitNumberPayload(number_of(block_number)),
{
    let number: u64 = match block_number {
        Ok(number) => number,
        Err(_) => 0,
    };
    (Stage::SendingPayload, Action::SubmitNumberPayload(number))
}

/// Begins to look up the information about the organization on GitHub: first in local storage.
pub fn fetch_github_info<BlockNumber>() -> (step: (Stage<BlockNumber>, Action<BlockNumber>))
    ensures
        step.0 is CheckingCache,
        step.1 matches Action::ReadCache(key) && key@ == GITHUB_INFO_KEY@,
{
    (Stage::CheckingCache, Action::ReadCache(GITHUB_INFO_KEY))
}

/// Begins to fetch the price: with the request for it.
pub fn fetch_price_info<BlockNumber>(block_number: BlockNumber) -> (step: (
    Stage<BlockNumber>,
    Action<BlockNumber>,
))
    ensures
        step.0 == Stage::RequestingPrice(block_number),
        step.1 matches Action::Request(request) && asks_price(request),
{
    (Stage::RequestingPrice(block_number), Action::Request(price_request()))
}

/// The first step of a run in that block.
pub open spec fn begins<BlockNumber, E, F>(
    block_number: BlockNumber,
    as_usize: Result<usize, E>,
    as_u64: Result<u64, F>,
    stage: Stage<BlockNumber>,
    action: Action<BlockNumber>,
) -> bool {
    match as_usize {
        Err(_) => finishes(stage, action, Err(Error::UnknownOffchainMux)),
        Ok(block) => {
            let turn = turn(block as nat);
            if turn == 0 {
                &&& stage is SendingNumber
                &&& action == Action::<BlockNumber>::SubmitNumberSigned(number_of(as_u64))
            } else if turn == 1 {
                &&& stage is SubmittingNumber
                &&& action == Action::<BlockNumber>::SubmitNumberUnsigned(number_of(as_u64))
            } else if turn == 2 {
                &&& stage is SendingPayload
                &&& action == Action::<BlockNumber>::SubmitNumberPayload(number_of(as_u64))
            } else if turn == 3 {
                &&& stage is CheckingCache
                &&& action matches Action::ReadCache(key) && key@ == GITHUB_INFO_KEY@
            } else {
                &&& stage == Stage::RequestingPrice(block_number)
                &&& action matches Action::Request(request) && asks_price(request)
            }
        },
    }
}

/// Off-chain worker entry point: picks the task that the block is for, and begins it.
///
/// The tasks take turns with the blocks: a signed transaction, an unsigned one, an unsigned one
/// with a signed payload, information from GitHub, and the price. `as_usize` and `as_u64` are what
/// converting the block's number gives.
pub fn offchain_worker<BlockNumber, E, F>(
    block_number: BlockNumber,
    as_usize: Result<usize, E>,
    as_u64: Result<u64, F>,
) -> (step: (Stage<BlockNumber>, Action<BlockNumber>))
    ensures
        begins(block_number, as_usize, as_u64, step.0, step.1),
{
    let modu: u32 = match as_usize {
        Ok(block) => ((block as u64 % 0x1_0000_0000) as u32) % TX_TYPES,
        Err(_) => TX_TYPES,
    };
    match modu {
        0 => offchain_signed_tx(as_u64),
        1 => offchain_unsigned_tx(as_u64),
        2 => offchain_unsigned_tx_signed_payload(as_u64),
        3 => fetch_github_info(),
        4 => fetch_price_info(block_number),
        _ => finish(Err(Error::UnknownOffchainMux)),
    }
}

impl<BlockNumber> Stage<BlockNumber> {
    /// Whether this is what the run waits for.
    pub fn is_awaiting(&self, outcome: &Outcome) -> (awaiting: bool)
        ensures
            awaiting == self.awaits(*outcome),
    {
        match (self, outcome) {
            (Stage::SendingNumber, Outcome::Sent(_)) => true,
            (Stage::SubmittingNumber, Outcome::Submitted(_)) => true,
            (Stage::SendingPayload, Outcome::Sent(_)) => true,
            (Stage::CheckingCache, Outcome::Cached(_)) => true,
            (Stage::LockingGithub, Outcome::Locked(_)) => true,
            (Stage::RequestingGithub, Outcome::Replied(_)) => true,
            (Stage::ReadingGithub, Outcome::Body(_)) => true,
            (Stage::ParsingGithub, Outcome::Parsed(_)) => true,
            (Stage::StoringGithub, Outcome::Stored) => true,
            (Stage::RequestingPrice(_), Outcome::Replied(_)) => true,
            (Stage::ReadingPrice(_), Outcome::Body(_)) => true,
            (Stage::LockingPrice(_, _), Outcome::Locked(_)) => true,
            (Stage::StoringPrice(_, _), Outcome::Stored) => true,
            (Stage::UnlockingPrice(_, _), Outcome::Unlocked) => true,
            (Stage::SendingPrice, Outcome::Sent(_)) => true,
            _ => false,
        }
    }

    /// Takes the run on from what came of the last action.
    pub fn proceed(self, outcome: Outcome) -> (step: (Stage<BlockNumber>, Action<BlockNumber>))
        requires
            self.awaits(outcome),
        ensures
            self.leads_to(outcome, step.0, step.1),
    {
        match (self, outcome) {
            (Stage::SendingNumber, Outcome::Sent(sent)) => finish(sent_signed_tx(sent)),
            (Stage::SubmittingNumber, Outcome::Submitted(submitted)) => finish(
                submitted_unsigned_tx(submitted),
            ),
            (Stage::SendingPayload, Outcome::Sent(sent)) => finish(sent_signed_payload(sent)),
            (Stage::CheckingCache, Outcome::Cached(cached)) => match cached {
                Ok(Some(_)) => finish(Ok(())),
                _ => (Stage::LockingGithub, Action::TryLock(the_lock())),
            },
            (Stage::LockingGithub, Outcome::Locked(locked)) => {
                if !locked {
                    return finish(Ok(()));
                }
                (Stage::RequestingGithub, Action::Request(github_request()))
            },
            (Stage::RequestingGithub, Outcome::Replied(reply)) => match accept_reply(reply) {
                Ok(()) => (Stage::ReadingGithub, Action::ReadBody),
                Err(e) => finish(Err(e)),
            },
            (Stage::ReadingGithub, Outcome::Body(body)) => match github_text(&body) {
                Ok(text) => (Stage::ParsingGithub, Action::ParseGithub(text)),
                Err(e) => finish(Err(e)),
            },
            (Stage::ParsingGithub, Outcome::Parsed(parsed)) => match fetch_n_parse(parsed) {
                Ok(info) => (Stage::StoringGithub, Action::StoreGithub(GITHUB_INFO_KEY, info)),
                Err(e) => finish(Err(e)),
            },
            (Stage::StoringGithub, Outcome::Stored) => finish(Ok(())),
            (Stage::RequestingPrice(block_number), Outcome::Replied(reply)) => match accept_reply(
                reply,
            ) {
                Ok(()) => (Stage::ReadingPrice(block_number), Action::ReadBody),
                Err(_) => finish(Err(Error::HttpFetchingError)),
            },
            (Stage::ReadingPrice(block_number), Outcome::Body(body)) => take_price(
                block_number,
                fetch_price(&body),
            ),
            (Stage::LockingPrice(block_number, price), Outcome::Locked(locked)) => {
                if !locked {
                    return submit_price(block_number, &price);
                }
                let price_info = PriceInfo { price_vec: slice_to_vec(price.as_slice()) };
                (
                    Stage::StoringPrice(block_number, price),
                    Action::StorePrice(PRICE_INFO_KEY, price_info),
                )
            },
            (Stage::StoringPrice(block_number, price), Outcome::Stored) => (
                Stage::UnlockingPrice(block_number, price),
                Action::Unlock,
            ),
            (Stage::UnlockingPrice(block_number, price), Outcome::Unlocked) => submit_price(
                block_number,
                &price,
            ),
            (Stage::SendingPrice, Outcome::Sent(sent)) => finish(sent_signed_payload(sent)),
            _ => (Stage::Finished, Action::Abort),
        }
    }
}

/// The outcomes that an action can have.
pub open spec fn can_give<BlockNumber>(action: Action<BlockNumber>, outcome: Outcome) -> bool {
    match action {
        Action::SubmitNumberSigned(_) => outcome is Sent,
        Action::SubmitNumberUnsigned(_) => outcome is Submitted,
        Action::SubmitNumberPayload(_) => outcome is Sent,
        Action::SubmitPricePayload(_, _) => outcome is Sent,
        Action::ReadCache(_) => outcome is Cached,
        Action::TryLock(_) => outcome is Locked,
        Action::Unlock => outcome is Unlocked,
        Action::Request(_) => outcome is Replied,
        Action::ReadBody => outcome is Body,
        Action::ParseGithub(_) => outcome is Parsed,
        Action::StoreGithub(_, _) => outcome is Stored,
        Action::StorePrice(_, _) => outcome is Stored,
        Action::Finish(_) => false,
        Action::Abort => false,
    }
}

/// An action that ends the run.
pub open spec fn ends<BlockNumber>(action: Action<BlockNumber>) -> bool {
    action is Finish || action is Abort
}

/// A run that has begun waits for just those outcomes that its first action can have, holds no
/// lock, and is over at once only where the action ends it.
pub proof fn run_begins_with_what_it_waits_for<BlockNumber, E, F>(
    block_number: BlockNumber,
    as_usize: Result<usize, E>,
    as_u64: Result<u64, F>,
    stage: Stage<BlockNumber>,
    action: Action<BlockNumber>,
)
    requires
        begins(block_number, as_usize, as_u64, stage, action),
    ensures
        forall|outcome: Outcome| can_give(action, outcome) == #[trigger] stage.awaits(outcome),
        stage is Finished <==> ends(action),
        !stage.holds_lock(),
        stage.steps_left() <= 6,
{
}

/// After each step the run waits for just those outcomes that the action can have, so that whoever
/// carries out the actions can always go on.
pub proof fn run_waits_for_what_its_action_gives<BlockNumber>(
    stage: Stage<BlockNumber>,
    outcome: Outcome,
    next: Stage<BlockNumber>,
    action: Action<BlockNumber>,
)
    requires
        stage.leads_to(outcome, next, action),
    ensures
        forall|o: Outcome| can_give(action, o) == #[trigger] next.awaits(o),
        next is Finished <==> ends(action),
{
}

/// Each step brings the run nearer to its end: it takes at most as many steps as are left.
pub proof fn run_comes_to_an_end<BlockNumber>(
    stage: Stage<BlockNumber>,
    outcome: Outcome,
    next: Stage<BlockNumber>,
    action: Action<BlockNumber>,
)
    requires
        stage.leads_to(outcome, next, action),
    ensures
        next.steps_left() < stage.steps_left(),
        next.steps_left() == 0 <==> ends(action),
{
}

/// Local storage is written only under the lock. The lock is held only once it was taken, and is
/// let go of in so many words or by the end of the run.
pub proof fn storage_is_written_under_the_lock<BlockNumber>(
    stage: Stage<BlockNumber>,
    outcome: Outcome,
    next: Stage<BlockNumber>,
    action: Action<BlockNumber>,
)
    requires
        stage.leads_to(outcome, next, action),
    ensures
        action is StoreGithub || action is StorePrice ==> next.holds_lock(),
        next.holds_lock() && !stage.holds_lock() ==> outcome == Outcome::Locked(true),
        stage.holds_lock() && !next.holds_lock() ==> action is Unlock || ends(action),
{
}

/// The five tasks take turns: the next block has the next turn, and the fifth block after has the
/// same, unless the lowest 32 bits of the block's number start again from zero on the way.
pub proof fn tasks_take_turns(block: nat)
    ensures
        block % 0x1_0000_0000 + 1 < 0x1_0000_0000 ==> turn(block + 1) == (turn(block) + 1)
            % TX_TYPES as nat,
        block % 0x1_0000_0000 + TX_TYPES < 0x1_0000_0000 ==> turn(block + TX_TYPES as nat) == turn(
            block,
        ),
{
    let low = block % 0x1_0000_0000;
    if low + 1 < 0x1_0000_0000 {
        assert((block + 1) % 0x1_0000_0000 == low + 1);
    }
    if low + TX_TYPES < 0x1_0000_0000 {
        assert((block + TX_TYPES as nat) % 0x1_0000_0000 == low + TX_TYPES);
    }
}

/// A run, or part of one: outcome by outcome, each stage leads to the next with its action.
pub open spec fn is_run<BlockNumber>(
    stages: Seq<Stage<BlockNumber>>,
    outcomes: Seq<Outcome>,
    actions: Seq<Action<BlockNumber>>,
) -> bool {
    &&& stages.len() == outcomes.len() + 1
    &&& actions.len() == outcomes.len()
    &&& forall|i: int|
        0 <= i < outcomes.len() ==> (#[trigger] stages[i]).leads_to(
            outcomes[i],
            stages[i + 1],
            actions[i],
        )
}

/// No run is longer than the steps that its first stage leaves.
pub proof fn run_is_bounded<BlockNumber>(
    stages: Seq<Stage<BlockNumber>>,
    outcomes: Seq<Outcome>,
    actions: Seq<Action<BlockNumber>>,
)
    requires
        is_run(stages, outcomes, actions),
    ensures
        outcomes.len() + stages.last().steps_left() <= stages[0].steps_left(),
    decreases outcomes.len(),
{
    if outcomes.len() > 0 {
        let n = outcomes.len() - 1;
        assert(is_run(stages.drop_last(), outcomes.drop_last(), actions.drop_last()));
        run_is_bounded(stages.drop_last(), outcomes.drop_last(), actions.drop_last());
        assert(stages[n].leads_to(outcomes[n], stages[n + 1], actions[n]));
    }
}

/// Each step of a run that begins as runs do.
proof fn lemma_steps<BlockNumber>(
    stages: Seq<Stage<BlockNumber>>,
    outcomes: Seq<Outcome>,
    actions: Seq<Action<BlockNumber>>,
)
    requires
        is_run(stages, outcomes, actions),
        stages[0].steps_left() <= 6,
    ensures
        outcomes.len() <= 6,
        outcomes.len() > 0 ==> stages[0].leads_to(outcomes[0], stages[1], actions[0]),
        outcomes.len() > 1 ==> stages[1].leads_to(outcomes[1], stages[2], actions[1]),
        outcomes.len() > 2 ==> stages[2].leads_to(outcomes[2], stages[3], actions[2]),
        outcomes.len() > 3 ==> stages[3].leads_to(outcomes[3], stages[4], actions[3]),
        outcomes.len() > 4 ==> stages[4].leads_to(outcomes[4], stages[5], actions[4]),
        outcomes.len() > 5 ==> stages[5].leads_to(outcomes[5], stages[6], actions[5]),
{
    run_is_bounded(stages, outcomes, actions);
}

/// A price that an answer holds is text.
proof fn lemma_price_is_text(body: Seq<u8>)
    ensures
        price_in(body) matches Ok(Some(price)) ==> valid_utf8(price),
{
    encode_utf8_valid_utf8(strings_in(decode_utf8(body))->0[seq!["data"@, "priceUsd"@]]);
}

/// A price is submitted only as it was fetched: the one in the document that answered the
/// request, for the block in which the run began.
pub proof fn submitted_price_was_fetched<BlockNumber>(
    block_number: BlockNumber,
    stages: Seq<Stage<BlockNumber>>,
    outcomes: Seq<Outcome>,
    actions: Seq<Action<BlockNumber>>,
    i: int,
)
    requires
        is_run(stages, outcomes, actions),
        stages[0] == Stage::RequestingPrice(block_number),
        0 <= i < actions.len(),
        actions[i] is SubmitPricePayload,
    ensures
        outcomes.len() > 2,
        outcomes[0] == Outcome::Replied(Reply::Answered(OK_CODE)),
        outcomes[1] matches Outcome::Body(body) && price_in(body@) matches Ok(Some(price))
            && actions[i] matches Action::SubmitPricePayload(block, read) && block == block_number
            && reads_as(price, read),
{
    lemma_steps(stages, outcomes, actions);
}

/// A run for the price that ends in an error could not fetch it, had no account to sign with, or
/// could not submit the payload: a price that was fetched is always text.
pub proof fn price_run_fails_in_three_ways<BlockNumber>(
    block_number: BlockNumber,
    stages: Seq<Stage<BlockNumber>>,
    outcomes: Seq<Outcome>,
    actions: Seq<Action<BlockNumber>>,
    i: int,
    e: Error,
)
    requires
        is_run(stages, outcomes, actions),
        stages[0] == Stage::RequestingPrice(block_number),
        0 <= i < actions.len(),
        actions[i] == Action::<BlockNumber>::Finish(Err(e)),
    ensures
        e == Error::HttpFetchingError || e == Error::NoLocalAcctForSigning || e
            == Error::OffchainUnsignedTxSignedPayloadError,
{
    lemma_steps(stages, outcomes, actions);
    if outcomes.len() > 1 {
        if let Outcome::Body(body) = outcomes[1] {
            lemma_price_is_text(body@);
        }
    }
}

/// A price that was fetched and can be read is submitted for its block, whether or not the lock
/// can be had; where it can, the bytes of the price are written to local storage before. The run
/// ends as sending the payload did.
pub proof fn fetched_price_is_submitted<BlockNumber>(
    block_number: BlockNumber,
    body: Vec<u8>,
    price: Seq<u8>,
    locked: bool,
    sent: Option<Result<(), ()>>,
    stages: Seq<Stage<BlockNumber>>,
    outcomes: Seq<Outcome>,
    actions: Seq<Action<BlockNumber>>,
)
    requires
        is_run(stages, outcomes, actions),
        stages[0] == Stage::RequestingPrice(block_number),
        price_in(body@) == Ok::<Option<Seq<u8>>, Error>(Some(price)),
        is_price(price),
        outcomes == seq![
            Outcome::Replied(Reply::Answered(OK_CODE)),
            Outcome::Body(body),
            Outcome::Locked(locked),
        ] + (if locked {
            seq![Outcome::Stored, Outcome::Unlocked]
        } else {
            seq![]
        }) + seq![Outcome::Sent(sent)],
    ensures
        locked ==> (actions[2] matches Action::StorePrice(key, info) && key@ == PRICE_INFO_KEY@
            && info.price_vec@ == price),
        actions[actions.len() - 2] matches Action::SubmitPricePayload(block, read) && block
            == block_number && reads_as(price, read),
        actions.last() == Action::<BlockNumber>::Finish(signed_payload_result(sent)),
{
    lemma_steps(stages, outcomes, actions);
    lemma_price_is_text(body@);
}

/// Information that local storage holds is not fetched again: the run is over, and well. Where
/// there is none, it is fetched under the lock and written to local storage as it was read.
pub proof fn github_info_is_fetched_once<BlockNumber>(
    cached: Result<Option<GithubInfo>, ()>,
    body: Vec<u8>,
    info: GithubInfo,
    stages: Seq<Stage<BlockNumber>>,
    outcomes: Seq<Outcome>,
    actions: Seq<Action<BlockNumber>>,
)
    requires
        is_run(stages, outcomes, actions),
        stages[0] is CheckingCache,
        outcomes.len() > 0,
        outcomes[0] == Outcome::Cached(cached),
    ensures
        cached matches Ok(Some(_)) ==> outcomes.len() == 1 && actions[0] == Action::<
            BlockNumber,
        >::Finish(Ok(())),
        (outcomes == seq![
            Outcome::Cached(cached),
            Outcome::Locked(true),
            Outcome::Replied(Reply::Answered(OK_CODE)),
            Outcome::Body(body),
            Outcome::Parsed(Some(info)),
            Outcome::Stored,
        ] ==> {
            &&& actions[1] matches Action::Request(request) && asks_github(request)
            &&& actions[3] matches Action::ParseGithub(text) && text@ == decode_utf8(body@)
            &&& actions[4] matches Action::StoreGithub(key, stored) && key@ == GITHUB_INFO_KEY@
                && stored == info
            &&& actions[5] == Action::<BlockNumber>::Finish(Ok(()))
        }),
{
    lemma_steps(stages, outcomes, actions);
}

} // verus!

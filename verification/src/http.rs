//! The requests that the off-chain worker makes, and what counts as an answer.

use crate::error::Error;
use vstd::prelude::*;

verus! {

/// Where the information about the organization on GitHub is asked for.
pub const HTTP_REMOTE_REQUEST: &'static str = "https://api.github.com/orgs/substrate-developer-hub";

/// Where the price is asked for.
pub const HTTP_REMOTE_REQUEST_COINCAP: &'static str = "https://api.coincap.io/v2/assets/polkadot";

/// What the worker calls itself where it has to say who asks.
pub const HTTP_HEADER_USER_AGENT: &'static str = "jimmychu0807";

/// How long a request may take, in milliseconds.
pub const FETCH_TIMEOUT_PERIOD: u64 = 3000;

/// The status code of a request that was answered.
pub const OK_CODE: u16 = 200;

/// A request to read what stands at an address.
#[derive(Clone, Copy, Debug, PartialEq, Eq)]
pub struct HttpRequest {
    pub url: &'static str,
    /// What is sent as the `User-Agent` header, if it is sent.
    pub user_agent: Option<&'static str>,
    /// How long the request may take, in milliseconds.
    pub timeout: u64,
}

/// What became of a request.
#[derive(Clone, Copy, Debug, PartialEq, Eq, Structural)]
pub enum Reply {
    /// It could not be sent.
    NotSent,
    /// The deadline passed.
    NotInTime,
    /// It failed on the way.
    Failed,
    /// It was answered with that status code.
    Answered(u16),
}

/// The moment so many milliseconds after another, by `sp_core::offchain::Timestamp::add`. Trusted:
/// the milliseconds are added, up to the largest number that there is.
#[verifier::external_body]
fn later(now: u64, millis: u64) -> (moment: u64)
    ensures
        moment == (if now + millis > u64::MAX {
            u64::MAX as int
        } else {
            now + millis
        }),
{
    sp_core::offchain::Timestamp::from_unix_millis(now).add(
        sp_core::offchain::Duration::from_millis(millis),
    ).unix_millis()
}

impl HttpRequest {
    /// When to give up a request that is made now, in milliseconds of Unix time.
    pub fn deadline(&self, now: u64) -> (deadline: u64)
        ensures
            deadline == (if now + self.timeout > u64::MAX {
                u64::MAX as int
            } else {
                now + self.timeout
            }),
    {
        later(now, self.timeout)
    }
}

/// The request for the information about the organization on GitHub, which wants to know who asks.
pub open spec fn asks_github(request: HttpRequest) -> bool {
    &&& request.url@ == HTTP_REMOTE_REQUEST@
    &&& request.user_agent matches Some(agent) && agent@ == HTTP_HEADER_USER_AGENT@
    &&& request.timeout == FETCH_TIMEOUT_PERIOD
}

/// The request for the price.
pub open spec fn asks_price(request: HttpRequest) -> bool {
    &&& request.url@ == HTTP_REMOTE_REQUEST_COINCAP@
    &&& request.user_agent is None
    &&& request.timeout == FETCH_TIMEOUT_PERIOD
}

/// The request for the information about the organization on GitHub.
pub fn github_request() -> (request: HttpRequest)
    ensures
        asks_github(request),
{
    HttpRequest {
        url: HTTP_REMOTE_REQUEST,
        user_agent: Some(HTTP_HEADER_USER_AGENT),
        timeout: FETCH_TIMEOUT_PERIOD,
    }
}

/// The request for the price.
pub fn price_request() -> (request: HttpRequest)
    ensures
        asks_price(request),
{
    HttpRequest {
        url: HTTP_REMOTE_REQUEST_COINCAP,
        user_agent: None,
        timeout: FETCH_TIMEOUT_PERIOD,
    }
}

/// Goes on only where a request was answered, with the status code that says so.
pub fn accept_reply(reply: Reply) -> (accepted: Result<(), Error>)
    ensures
        accepted == (if reply == Reply::Answered(OK_CODE) {
            Ok::<(), Error>(())
        } else {
            Err(Error::HttpFetchingError)
        }),
{
    match reply {
        Reply::Answered(code) => {
            if code != OK_CODE {
                return Err(Error::HttpFetchingError);
            }
            Ok(())
        },
        _ => Err(Error::HttpFetchingError),
    }
}

} // verus!

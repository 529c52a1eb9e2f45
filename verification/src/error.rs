//! How a run of the off-chain worker can fail.

use vstd::prelude::*;

verus! {

/// Why a run of the off-chain worker failed.
#[derive(Clone, Copy, Debug, PartialEq, Eq, Structural)]
pub enum Error {
    /// It is not known which task the block is for.
    UnknownOffchainMux,
    /// No local account can sign.
    NoLocalAcctForSigning,
    /// The signed transaction could not be sent.
    OffchainSignedTxError,
    /// The unsigned transaction could not be submitted.
    OffchainUnsignedTxError,
    /// The unsigned transaction with a signed payload could not be submitted.
    OffchainUnsignedTxSignedPayloadError,
    /// Something went wrong with a request, or with what came back.
    HttpFetchingError,
    /// The bytes are no text.
    NoUTF8Body,
    /// The text is no price.
    ParsePriceError,
}

} // verus!

//! What an off-chain worker signs and submits.

use crate::permill::Permill;
use vstd::prelude::*;

verus! {

/// A number, with the public key of the account that signs it.
#[derive(Debug, PartialEq, Eq)]
pub struct Payload<Public> {
    pub number: u64,
    pub public: Public,
}

impl<Public: Clone> Payload<Public> {
    /// The public key that the signature is checked against.
    pub fn public(&self) -> (public: Public)
        ensures
            cloned(self.public, public),
    {
        self.public.clone()
    }
}

impl<Public: Clone> Clone for Payload<Public> {
    fn clone(&self) -> (copy: Self)
        ensures
            copy.number == self.number,
            cloned(self.public, copy.public),
    {
        Payload { number: self.number, public: self.public.clone() }
    }
}

/// The payload that an account signs for a number: it names the account's own public key.
pub fn number_payload<Public: Clone>(number: u64, public: &Public) -> (payload: Payload<Public>)
    ensures
        payload.number == number,
        cloned(*public, payload.public),
{
    Payload { number, public: public.clone() }
}

/// A price and the block it was fetched in, with the public key of the account that signs it.
#[derive(Debug, PartialEq, Eq)]
pub struct PricePayload<Public, BlockNumber> {
    pub block_number: BlockNumber,
    pub parsed_price: (u64, Permill),
    pub public: Public,
}

impl<Public: Clone, BlockNumber> PricePayload<Public, BlockNumber> {
    /// The public key that the signature is checked against.
    pub fn public(&self) -> (public: Public)
        ensures
            cloned(self.public, public),
    {
        self.public.clone()
    }
}

impl<Public: Clone, BlockNumber: Clone> Clone for PricePayload<Public, BlockNumber> {
    fn clone(&self) -> (copy: Self)
        ensures
            cloned(self.block_number, copy.block_number),
            copy.parsed_price == self.parsed_price,
            cloned(self.public, copy.public),
    {
        PricePayload {
            block_number: self.block_number.clone(),
            parsed_price: self.parsed_price,
            public: self.public.clone(),
        }
    }
}

/// The payload that an account signs for a price: it names the account's own public key.
pub fn price_payload<Public: Clone, BlockNumber>(
    block_number: BlockNumber,
    parsed_price: (u64, Permill),
    public: &Public,
) -> (payload: PricePayload<Public, BlockNumber>)
    ensures
        payload.block_number == block_number,
        payload.parsed_price == parsed_price,
        cloned(*public, payload.public),
{
    PricePayload { block_number, parsed_price, public: public.clone() }
}

} // verus!

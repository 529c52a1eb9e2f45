//! Which unsigned transactions are let into the pool.

use crate::payload::{Payload, PricePayload};
use vstd::prelude::*;
use vstd::utf8::*;

verus! {

/// What goes before the tags of this pallet's transactions.
pub const TAG_PREFIX: &'static str = "ocw-demo";

/// The priority of an unsigned transaction.
pub const UNSIGNED_TXS_PRIORITY: u64 = 100;

/// The number of blocks for which an unsigned transaction stays valid.
pub const UNSIGNED_TXS_LONGEVITY: u64 = 3;

/// A call to the pallet.
#[derive(Debug, PartialEq, Eq)]
pub enum Call<Public, Signature, BlockNumber> {
    SubmitNumberSigned(u64),
    SubmitNumberUnsigned(u64),
    SubmitNumberUnsignedWithSignedPayload(Payload<Public>, Signature),
    SubmitPriceUnsignedWithSignedPayload(PricePayload<Public, BlockNumber>, Signature),
}

/// A transaction that the pool may take.
#[derive(Debug, PartialEq, Eq)]
pub struct ValidTransaction {
    /// Which transactions go first.
    pub priority: u64,
    /// The tags that other transactions have to provide before.
    pub needs: Vec<Vec<u8>>,
    /// The tags that this transaction provides.
    pub provides: Vec<Vec<u8>>,
    /// For how many blocks the verdict holds.
    pub longevity: u64,
    /// Whether other peers are told.
    pub propagate: bool,
}

/// Why the pool refuses a transaction.
#[derive(Clone, Copy, Debug, PartialEq, Eq, Structural)]
pub enum InvalidTransaction {
    /// The call is not one that may come unsigned.
    Call,
    /// The signature of the payload is not that of its public key.
    BadProof,
}

/// The lowest `width` bytes of a number, the lowest first.
pub open spec fn little_endian(n: nat, width: nat) -> Seq<u8>
    decreases width,
{
    if width == 0 {
        seq![]
    } else {
        seq![(n % 256) as u8] + little_endian(n / 256, (width - 1) as nat)
    }
}

/// A length as the SCALE codec writes it: the two lowest bits of the first byte say how many bytes
/// there are.
pub open spec fn compact_length(n: nat) -> Seq<u8> {
    if n < 0x40 {
        little_endian(4 * n, 1)
    } else if n < 0x4000 {
        little_endian(4 * n + 1, 2)
    } else if n < 0x4000_0000 {
        little_endian(4 * n + 2, 4)
    } else {
        seq![3u8] + little_endian(n, 4)
    }
}

/// Bytes as the SCALE codec writes them: their number, then the bytes.
pub open spec fn scale_bytes(bytes: Seq<u8>) -> Seq<u8> {
    compact_length(bytes.len()) + bytes
}

/// The tag that a transaction provides for the call of that name.
pub open spec fn provided_tag(name: Seq<char>) -> Seq<u8> {
    scale_bytes(encode_utf8(TAG_PREFIX@)) + scale_bytes(encode_utf8(name))
}

/// The verdict on an unsigned call that is let in under that name.
pub open spec fn let_in_as(transaction: ValidTransaction, name: Seq<char>) -> bool {
    &&& transaction.priority == UNSIGNED_TXS_PRIORITY
    &&& transaction.needs@.len() == 0
    &&& transaction.provides@.len() == 1
    &&& transaction.provides@[0]@ == provided_tag(name)
    &&& transaction.longevity == UNSIGNED_TXS_LONGEVITY
    &&& transaction.propagate
}

/// Builds a valid transaction with one tag, through the builder that
/// `sp_runtime::transaction_validity::ValidTransaction::with_tag_prefix` starts. Trusted: priority,
/// longevity and propagation are those given; no tag is needed; and the one tag provided is the
/// prefix and then the bytes, each with its length before it, as the SCALE codec writes them. The
/// codec panics on more bytes than a `u32` counts.
#[verifier::external_body]
fn build_valid_transaction(
    prefix: &'static str,
    priority: u64,
    provide: &Vec<u8>,
    longevity: u64,
    propagate: bool,
) -> (transaction: ValidTransaction)
    requires
        encode_utf8(prefix@).len() <= u32::MAX,
        provide@.len() <= u32::MAX,
    ensures
        transaction.priority == priority,
        transaction.needs@.len() == 0,
        transaction.provides@.len() == 1,
        transaction.provides@[0]@ == scale_bytes(encode_utf8(prefix@)) + scale_bytes(provide@),
        transaction.longevity == longevity,
        transaction.propagate == propagate,
{
    let built: sp_runtime::transaction_validity::ValidTransaction =
        sp_runtime::transaction_validity::ValidTransaction::with_tag_prefix(prefix)
        .priority(priority)
        .and_provides([provide])
        .longevity(longevity)
        .propagate(propagate)
        .into();
    ValidTransaction {
        priority: built.priority,
        needs: built.requires,
        provides: built.provides,
        longevity: built.longevity,
        propagate: built.propagate,
    }
}

/// Lets in the unsigned call of that name.
fn valid_tx(name: &str) -> (transaction: ValidTransaction)
    requires
        is_ascii_chars(name@),
        name@.len() <= u32::MAX,
    ensures
        let_in_as(transaction, name@),
{
    proof {
        reveal_strlit("ocw-demo");
        is_ascii_chars_encode_utf8(name@);
        is_ascii_chars_encode_utf8(TAG_PREFIX@);
    }
    build_valid_transaction(
        TAG_PREFIX,
        UNSIGNED_TXS_PRIORITY,
        &name.as_bytes_vec(),
        UNSIGNED_TXS_LONGEVITY,
        true,
    )
}

/// Validate unsigned call to this module.
///
/// By default unsigned transactions are disallowed, but here some particular calls (the ones
/// produced by the off-chain worker) are let in. `proven` says whether the signature that comes
/// with the call is that of the payload by its public key; on a call without a payload it is not
/// looked at.
pub fn validate_unsigned<Public, Signature, BlockNumber>(
    call: &Call<Public, Signature, BlockNumber>,
    proven: bool,
) -> (validity: Result<ValidTransaction, InvalidTransaction>)
    ensures
        match *call {
            Call::SubmitNumberSigned(_) => validity == Err::<ValidTransaction, InvalidTransaction>(
                InvalidTransaction::Call,
            ),
            Call::SubmitNumberUnsigned(_) => validity matches Ok(transaction) && let_in_as(
                transaction,
                "submit_number_unsigned"@,
            ),
            Call::SubmitNumberUnsignedWithSignedPayload(_, _) => if proven {
                validity matches Ok(transaction) && let_in_as(
                    transaction,
                    "submit_number_unsigned_with_signed_payload"@,
                )
            } else {
                validity == Err::<ValidTransaction, InvalidTransaction>(
                    InvalidTransaction::BadProof,
                )
            },
            Call::SubmitPriceUnsignedWithSignedPayload(_, _) => if proven {
                validity matches Ok(transaction) && let_in_as(
                    transaction,
                    "submit_price_unsigned_with_signed_payload"@,
                )
            } else {
                validity == Err::<ValidTransaction, InvalidTransaction>(
                    InvalidTransaction::BadProof,
                )
            },
        },
{
    proof {
        reveal_strlit("submit_number_unsigned");
        reveal_strlit("submit_number_unsigned_with_signed_payload");
        reveal_strlit("submit_price_unsigned_with_signed_payload");
    }
    match call {
        Call::SubmitNumberUnsigned(_) => Ok(valid_tx("submit_number_unsigned")),
        Call::SubmitNumberUnsignedWithSignedPayload(_, _) => {
            if !proven {
                return Err(InvalidTransaction::BadProof);
            }
            Ok(valid_tx("submit_number_unsigned_with_signed_payload"))
        },
        Call::SubmitPriceUnsignedWithSignedPayload(_, _) => {
            if !proven {
                return Err(InvalidTransaction::BadProof);
            }
            Ok(valid_tx("submit_price_unsigned_with_signed_payload"))
        },
        Call::SubmitNumberSigned(_) => Err(InvalidTransaction::Call),
    }
}

proof fn lemma_little_endian_len(n: nat, width: nat)
    ensures
        little_endian(n, width).len() == width,
    decreases width,
{
    if width > 0 {
        lemma_little_endian_len(n / 256, (width - 1) as nat);
    }
}

proof fn lemma_compact_length_len(n: nat)
    ensures
        compact_length(n).len() == (if n < 0x40 {
            1nat
        } else if n < 0x4000 {
            2
        } else if n < 0x4000_0000 {
            4
        } else {
            5
        }),
{
    lemma_little_endian_len(4 * n, 1);
    lemma_little_endian_len(4 * n + 1, 2);
    lemma_little_endian_len(4 * n + 2, 4);
    lemma_little_endian_len(n, 4);
}

/// Transactions provide the same tag only for calls of the same name: those for different calls
/// never stand in each other's way.
pub proof fn tag_tells_the_name(a: Seq<char>, b: Seq<char>)
    requires
        provided_tag(a) == provided_tag(b),
    ensures
        a == b,
{
    let prefix = scale_bytes(encode_utf8(TAG_PREFIX@));
    let x = encode_utf8(a);
    let y = encode_utf8(b);
    assert(provided_tag(a).skip(prefix.len() as int) =~= scale_bytes(x));
    assert(provided_tag(b).skip(prefix.len() as int) =~= scale_bytes(y));
    lemma_compact_length_len(x.len());
    lemma_compact_length_len(y.len());
    assert(scale_bytes(x).len() == scale_bytes(y).len());
    assert(x.len() == y.len());
    assert(scale_bytes(x).skip(compact_length(x.len()).len() as int) =~= x);
    assert(scale_bytes(y).skip(compact_length(y.len()).len() as int) =~= y);
    encode_utf8_decode_utf8(a);
    encode_utf8_decode_utf8(b);
}

} // verus!

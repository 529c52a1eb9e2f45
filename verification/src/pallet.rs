//! The state on the chain: the latest numbers and prices, and who may add to them.

use crate::payload::{Payload, PricePayload};
use crate::permill::Permill;
use std::collections::VecDeque;
use vstd::prelude::*;

verus! {

/// The most entries that are kept of the numbers, and of the prices.
pub const NUM_VEC_LEN: usize = 10;

/// Who sends a call.
#[derive(Debug, PartialEq, Eq)]
pub enum Origin<AccountId> {
    /// The chain itself.
    Root,
    /// The account that signed the transaction.
    Signed(AccountId),
    /// Nobody: the transaction carries no signature of its own.
    Unsigned,
    /// Some other part of the chain, by an origin of its own.
    Other,
}

/// What happened on the chain.
#[derive(Debug, PartialEq, Eq)]
pub enum Event<AccountId> {
    /// A number came in, from that account if it was signed.
    NewNumber(Option<AccountId>, u64),
    /// A price came in, from that account if it was signed.
    NewPrice(Option<AccountId>, (u64, Permill)),
}

/// Why a call was refused.
#[derive(Clone, Copy, Debug, PartialEq, Eq, Structural)]
pub enum DispatchError {
    /// The sender may not make this call.
    BadOrigin,
}

/// The account that signed, if the call is signed.
pub fn ensure_signed<AccountId>(origin: Origin<AccountId>) -> (who: Result<
    AccountId,
    DispatchError,
>)
    ensures
        who == match origin {
            Origin::Signed(account) => Ok::<AccountId, DispatchError>(account),
            _ => Err(DispatchError::BadOrigin),
        },
{
    match origin {
        Origin::Signed(account) => Ok(account),
        _ => Err(DispatchError::BadOrigin),
    }
}

/// Refuses every call that is not unsigned.
pub fn ensure_none<AccountId>(origin: Origin<AccountId>) -> (allowed: Result<(), DispatchError>)
    ensures
        allowed == (if origin is Unsigned {
            Ok::<(), DispatchError>(())
        } else {
            Err(DispatchError::BadOrigin)
        }),
{
    match origin {
        Origin::Unsigned => Ok(()),
        _ => Err(DispatchError::BadOrigin),
    }
}

/// A queue with one more entry at the tail; the head leaves where the queue was full.
pub open spec fn append_or_replace<T>(queue: Seq<T>, entry: T) -> Seq<T> {
    if queue.len() == NUM_VEC_LEN {
        queue.drop_first().push(entry)
    } else {
        queue.push(entry)
    }
}

/// A queue after `entries` were added to it, one by one.
pub open spec fn append_all<T>(queue: Seq<T>, entries: Seq<T>) -> Seq<T>
    decreases entries.len(),
{
    if entries.len() == 0 {
        queue
    } else {
        append_or_replace(append_all(queue, entries.drop_last()), entries.last())
    }
}

/// The last entries of a history, as many as are kept.
pub open spec fn latest<T>(history: Seq<T>) -> Seq<T> {
    if history.len() <= NUM_VEC_LEN {
        history
    } else {
        history.skip(history.len() - NUM_VEC_LEN)
    }
}

/// Adding to a queue of at most the bounded length keeps the latest entries, oldest first, and
/// nothing else.
pub proof fn append_keeps_the_latest<T>(queue: Seq<T>, entry: T)
    requires
        queue.len() <= NUM_VEC_LEN,
    ensures
        append_or_replace(queue, entry) == latest(queue.push(entry)),
        append_or_replace(queue, entry).len() <= NUM_VEC_LEN,
        append_or_replace(queue, entry).last() == entry,
{
    assert(append_or_replace(queue, entry) =~= latest(queue.push(entry)));
}

/// However many entries are added, one by one, the queue holds the latest of all that ever were
/// in it, in the order in which they came, and is never longer than its bound.
pub proof fn queue_holds_the_latest<T>(queue: Seq<T>, entries: Seq<T>)
    requires
        queue.len() <= NUM_VEC_LEN,
    ensures
        append_all(queue, entries) == latest(queue + entries),
        append_all(queue, entries).len() <= NUM_VEC_LEN,
    decreases entries.len(),
{
    if entries.len() == 0 {
        assert(queue + entries =~= queue);
    } else {
        let before = entries.drop_last();
        queue_holds_the_latest(queue, before);
        assert(queue + entries =~= (queue + before).push(entries.last()));
        append_keeps_the_latest(append_all(queue, before), entries.last());
        assert(latest(latest(queue + before).push(entries.last())) =~= latest(queue + entries));
    }
}

/// Adds an entry at the tail of a queue, and drops the head where the queue is full.
fn push_bounded<T>(queue: &mut VecDeque<T>, entry: T)
    ensures
        final(queue)@ == append_or_replace(old(queue)@, entry),
{
    if queue.len() == NUM_VEC_LEN {
        let _ = queue.pop_front();
        assert(queue@ =~= old(queue)@.drop_first());
    }
    queue.push_back(entry);
}

/// What the pallet holds, as sequences.
#[verifier::ext_equal]
pub ghost struct PalletState<AccountId> {
    pub numbers: Seq<u64>,
    pub prices: Seq<(u64, Permill)>,
    pub events: Seq<Event<AccountId>>,
}

/// The latest numbers and prices, and the events that were deposited.
pub struct Pallet<AccountId> {
    numbers: VecDeque<u64>,
    prices: VecDeque<(u64, Permill)>,
    events: Vec<Event<AccountId>>,
}

impl<AccountId> View for Pallet<AccountId> {
    type V = PalletState<AccountId>;

    closed spec fn view(&self) -> PalletState<AccountId> {
        PalletState { numbers: self.numbers@, prices: self.prices@, events: self.events@ }
    }
}

impl<AccountId> PalletState<AccountId> {
    /// Neither queue is longer than its bound.
    pub open spec fn well_formed(self) -> bool {
        self.numbers.len() <= NUM_VEC_LEN && self.prices.len() <= NUM_VEC_LEN
    }

    /// The state once a number was accepted.
    pub open spec fn with_number(self, who: Option<AccountId>, number: u64) -> Self {
        PalletState {
            numbers: append_or_replace(self.numbers, number),
            events: self.events.push(Event::NewNumber(who, number)),
            ..self
        }
    }

    /// The state once a price was accepted.
    pub open spec fn with_price(self, who: Option<AccountId>, price: (u64, Permill)) -> Self {
        PalletState {
            prices: append_or_replace(self.prices, price),
            events: self.events.push(Event::NewPrice(who, price)),
            ..self
        }
    }
}

impl<AccountId> Pallet<AccountId> {
    /// The queues as they are stored, and no event yet.
    pub fn from_storage(numbers: VecDeque<u64>, prices: VecDeque<(u64, Permill)>) -> (pallet: Self)
        ensures
            pallet@ == (PalletState {
                numbers: numbers@,
                prices: prices@,
                events: Seq::<Event<AccountId>>::empty(),
            }),
    {
        Pallet { numbers, prices, events: Vec::new() }
    }

    /// The queues to store, and the events to deposit.
    pub fn into_storage(self) -> (stored: (
        VecDeque<u64>,
        VecDeque<(u64, Permill)>,
        Vec<Event<AccountId>>,
    ))
        ensures
            stored.0@ == self@.numbers,
            stored.1@ == self@.prices,
            stored.2@ == self@.events,
    {
        (self.numbers, self.prices, self.events)
    }

    /// The latest numbers, oldest first.
    pub fn numbers(&self) -> (numbers: &VecDeque<u64>)
        ensures
            numbers@ == self@.numbers,
    {
        &self.numbers
    }

    /// The latest prices, oldest first.
    pub fn prices(&self) -> (prices: &VecDeque<(u64, Permill)>)
        ensures
            prices@ == self@.prices,
    {
        &self.prices
    }

    /// The events that were deposited, in that order.
    pub fn events(&self) -> (events: &Vec<Event<AccountId>>)
        ensures
            events@ == self@.events,
    {
        &self.events
    }

    fn deposit_event(&mut self, event: Event<AccountId>)
        ensures
            final(self)@ == (PalletState { events: old(self)@.events.push(event), ..old(self)@ }),
    {
        self.events.push(event);
    }

    /// Append a new number to the tail of the list, removing an element from the head if reaching
    /// the bounded length.
    pub fn append_or_replace_number(&mut self, number: u64)
        ensures
            final(self)@ == (PalletState {
                numbers: append_or_replace(old(self)@.numbers, number),
                ..old(self)@
            }),
            old(self)@.well_formed() ==> final(self)@.well_formed(),
    {
        push_bounded(&mut self.numbers, number);
    }

    /// Append a new price to the tail of the list, removing an element from the head if reaching
    /// the bounded length.
    pub fn append_or_replace_price(&mut self, price: (u64, Permill))
        ensures
            final(self)@ == (PalletState {
                prices: append_or_replace(old(self)@.prices, price),
                ..old(self)@
            }),
            old(self)@.well_formed() ==> final(self)@.well_formed(),
    {
        push_bounded(&mut self.prices, price);
    }

    /// Takes a number from an account that signed for it.
    pub fn submit_number_signed(&mut self, origin: Origin<AccountId>, number: u64) -> (result:
        Result<(), DispatchError>)
        ensures
            match origin {
                Origin::Signed(who) => {
                    &&& result == Ok::<(), DispatchError>(())
                    &&& final(self)@ == old(self)@.with_number(Some(who), number)
                },
                _ => {
                    &&& result == Err::<(), DispatchError>(DispatchError::BadOrigin)
                    &&& *final(self) == *old(self)
                },
            },
            old(self)@.well_formed() ==> final(self)@.well_formed(),
    {
        let who = match ensure_signed(origin) {
            Ok(who) => who,
            Err(e) => return Err(e),
        };
        self.append_or_replace_number(number);
        self.deposit_event(Event::NewNumber(Some(who), number));
        Ok(())
    }

    /// Takes a number that nobody signed for.
    pub fn submit_number_unsigned(&mut self, origin: Origin<AccountId>, number: u64) -> (result:
        Result<(), DispatchError>)
        ensures
            match origin {
                Origin::Unsigned => {
                    &&& result == Ok::<(), DispatchError>(())
                    &&& final(self)@ == old(self)@.with_number(None, number)
                },
                _ => {
                    &&& result == Err::<(), DispatchError>(DispatchError::BadOrigin)
                    &&& *final(self) == *old(self)
                },
            },
            old(self)@.well_formed() ==> final(self)@.well_formed(),
    {
        match ensure_none(origin) {
            Ok(()) => {},
            Err(e) => return Err(e),
        }
        self.append_or_replace_number(number);
        self.deposit_event(Event::NewNumber(None, number));
        Ok(())
    }

    /// Takes a number in a signed payload. The signature is not looked at: it was checked when the
    /// transaction was validated.
    pub fn submit_number_unsigned_with_signed_payload<Public, Signature>(
        &mut self,
        origin: Origin<AccountId>,
        payload: Payload<Public>,
        _signature: Signature,
    ) -> (result: Result<(), DispatchError>)
        ensures
            match origin {
                Origin::Unsigned => {
                    &&& result == Ok::<(), DispatchError>(())
                    &&& final(self)@ == old(self)@.with_number(None, payload.number)
                },
                _ => {
                    &&& result == Err::<(), DispatchError>(DispatchError::BadOrigin)
                    &&& *final(self) == *old(self)
                },
            },
            old(self)@.well_formed() ==> final(self)@.well_formed(),
    {
        match ensure_none(origin) {
            Ok(()) => {},
            Err(e) => return Err(e),
        }
        let Payload { number, public: _ } = payload;
        self.append_or_replace_number(number);
        self.deposit_event(Event::NewNumber(None, number));
        Ok(())
    }

    /// Takes a price in a signed payload. The signature is not looked at: it was checked when the
    /// transaction was validated.
    pub fn submit_price_unsigned_with_signed_payload<Public, BlockNumber, Signature>(
        &mut self,
        origin: Origin<AccountId>,
        price_payload: PricePayload<Public, BlockNumber>,
        _signature: Signature,
    ) -> (result: Result<(), DispatchError>)
        ensures
            match origin {
                Origin::Unsigned => {
                    &&& result == Ok::<(), DispatchError>(())
                    &&& final(self)@ == old(self)@.with_price(None, price_payload.parsed_price)
                },
                _ => {
                    &&& result == Err::<(), DispatchError>(DispatchError::BadOrigin)
                    &&& *final(self) == *old(self)
                },
            },
            old(self)@.well_formed() ==> final(self)@.well_formed(),
    {
        match ensure_none(origin) {
            Ok(()) => {},
            Err(e) => return Err(e),
        }
        let PricePayload { block_number: _, parsed_price, public: _ } = price_payload;
        self.append_or_replace_price(parsed_price);
        self.deposit_event(Event::NewPrice(None, parsed_price));
        Ok(())
    }
}

/// The numbers that events tell of, in order.
pub open spec fn numbers_in<AccountId>(events: Seq<Event<AccountId>>) -> Seq<u64>
    decreases events.len(),
{
    if events.len() == 0 {
        seq![]
    } else {
        match events.last() {
            Event::NewNumber(_, number) => numbers_in(events.drop_last()).push(number),
            Event::NewPrice(_, _) => numbers_in(events.drop_last()),
        }
    }
}

/// The prices that events tell of, in order.
pub open spec fn prices_in<AccountId>(events: Seq<Event<AccountId>>) -> Seq<(u64, Permill)>
    decreases events.len(),
{
    if events.len() == 0 {
        seq![]
    } else {
        match events.last() {
            Event::NewNumber(_, _) => prices_in(events.drop_last()),
            Event::NewPrice(_, price) => prices_in(events.drop_last()).push(price),
        }
    }
}

/// The state once calls were accepted one by one, each told of by its event.
pub open spec fn accept_all<AccountId>(
    start: PalletState<AccountId>,
    accepted: Seq<Event<AccountId>>,
) -> PalletState<AccountId>
    decreases accepted.len(),
{
    if accepted.len() == 0 {
        start
    } else {
        let before = accept_all(start, accepted.drop_last());
        match accepted.last() {
            Event::NewNumber(who, number) => before.with_number(who, number),
            Event::NewPrice(who, price) => before.with_price(who, price),
        }
    }
}

/// From queues within their bounds, whatever numbers and prices are accepted, and in whatever
/// order: each queue holds the latest of what was there and of what came in for it, oldest first
/// and within its bound, and every call that was accepted has left its event.
pub proof fn queues_hold_what_was_accepted<AccountId>(
    start: PalletState<AccountId>,
    accepted: Seq<Event<AccountId>>,
)
    requires
        start.well_formed(),
    ensures
        accept_all(start, accepted).numbers == latest(start.numbers + numbers_in(accepted)),
        accept_all(start, accepted).prices == latest(start.prices + prices_in(accepted)),
        accept_all(start, accepted).events == start.events + accepted,
        accept_all(start, accepted).well_formed(),
    decreases accepted.len(),
{
    if accepted.len() == 0 {
        assert(start.numbers + numbers_in(accepted) =~= start.numbers);
        assert(start.prices + prices_in(accepted) =~= start.prices);
        assert(start.events + accepted =~= start.events);
    } else {
        let earlier = accepted.drop_last();
        queues_hold_what_was_accepted(start, earlier);
        let numbers = start.numbers + numbers_in(earlier);
        let prices = start.prices + prices_in(earlier);
        assert(start.events + accepted =~= (start.events + earlier).push(accepted.last()));
        match accepted.last() {
            Event::NewNumber(_, number) => {
                append_keeps_the_latest(latest(numbers), number);
                assert(start.numbers + numbers_in(accepted) =~= numbers.push(number));
                assert(latest(latest(numbers).push(number)) =~= latest(numbers.push(number)));
            },
            Event::NewPrice(_, price) => {
                append_keeps_the_latest(latest(prices), price);
                assert(start.prices + prices_in(accepted) =~= prices.push(price));
                assert(latest(latest(prices).push(price)) =~= latest(prices.push(price)));
            },
        }
    }
}

} // verus!

use vstd::prelude::*;
use crate::key::{derive_key, key_of, BlockNumber};
use crate::store::{scale_record, IndexingData, LocalStore};

verus! {

/// An account on the chain.
pub type AccountId = u64;

/// Who dispatched a call.
#[derive(Clone, Copy, Debug, PartialEq, Eq, Structural)]
pub enum Origin {
    Signed(AccountId),
    Root,
    Unsigned,
}

/// The pallet's own errors.
#[derive(Clone, Copy, Debug, PartialEq, Eq, Structural)]
pub enum Error {
    /// The value was never set.
    NoneValue,
    /// Incrementing the value would overflow.
    StorageOverflow,
}

/// Why a dispatched call failed.
#[derive(Clone, Copy, Debug, PartialEq, Eq, Structural)]
pub enum DispatchError {
    /// The call needs a signed origin.
    BadOrigin,
    Module(Error),
}

/// What the pallet reports to users.
#[derive(Clone, Copy, Debug, PartialEq, Eq, Structural)]
pub enum Event {
    /// A value was stored, and by whom.
    SomethingStored(u32, AccountId),
}

/// The calls that the pallet accepts.
#[derive(Clone, Copy, Debug, PartialEq, Eq, Structural)]
pub enum Call {
    DoSomething { something: u32 },
    CauseError,
    SubmitData { payload: u32 },
    Extrinsic { number: u64 },
}

/// The tag of a record that an `extrinsic` call indexes: `submit_number_unsigned`.
pub open spec fn extrinsic_tag() -> Seq<u8> {
    seq![
        0x73, 0x75, 0x62, 0x6d, 0x69, 0x74, 0x5f, 0x6e, 0x75, 0x6d, 0x62,
        0x65, 0x72, 0x5f, 0x75, 0x6e, 0x73, 0x69, 0x67, 0x6e, 0x65, 0x64,
    ]
}

fn extrinsic_tag_bytes() -> (r: Vec<u8>)
    ensures
        r@ == extrinsic_tag(),
{
    let r: Vec<u8> = vec![
        0x73, 0x75, 0x62, 0x6d, 0x69, 0x74, 0x5f, 0x6e, 0x75, 0x6d, 0x62,
        0x65, 0x72, 0x5f, 0x75, 0x6e, 0x73, 0x69, 0x67, 0x6e, 0x65, 0x64,
    ];
    assert(r@ =~= extrinsic_tag());
    r
}

/// The price cell after `call` from `origin`: a signed `SubmitData` overwrites it with its
/// payload, whatever it held; nothing else touches it.
pub open spec fn prices_after(prices: Option<u32>, origin: Origin, call: Call) -> Option<u32> {
    match (origin, call) {
        (Origin::Signed(_), Call::SubmitData { payload }) => Some(payload),
        _ => prices,
    }
}

/// What `cause_error` returns for a caller and the stored value.
pub open spec fn cause_error_result(origin: Origin, something: Option<u32>) -> Result<(), DispatchError> {
    match origin {
        Origin::Signed(_) => match something {
            None => Err(DispatchError::Module(Error::NoneValue)),
            Some(v) => if v == u32::MAX {
                Err(DispatchError::Module(Error::StorageOverflow))
            } else {
                Ok(())
            },
        },
        _ => Err(DispatchError::BadOrigin),
    }
}

/// The on-chain state of the pallet.
pub struct Pallet {
    /// The value that `do_something` stores and `cause_error` increments.
    pub something: Option<u32>,
    /// The last price that a signed submission wrote.
    pub prices: Option<u32>,
    /// Events deposited so far, oldest first.
    pub events: Vec<Event>,
    /// The height of the block being executed.
    pub block_number: BlockNumber,
    /// Writes that calls leave in the node-local store.
    pub offchain_index: LocalStore,
}

/// The signer of a signed origin.
pub fn ensure_signed(origin: Origin) -> (r: Result<AccountId, DispatchError>)
    ensures
        match origin {
            Origin::Signed(who) => r == Ok::<AccountId, DispatchError>(who),
            _ => r == Err::<AccountId, DispatchError>(DispatchError::BadOrigin),
        },
{
    match origin {
        Origin::Signed(who) => Ok(who),
        _ => Err(DispatchError::BadOrigin),
    }
}

impl Pallet {
    /// A pallet with no value, no price and no events, executing block `block_number`.
    pub fn new(block_number: BlockNumber) -> (r: Pallet)
        ensures
            r.something.is_none(),
            r.prices.is_none(),
            r.events@.len() == 0,
            r.block_number == block_number,
            forall|k: Seq<u8>| #[trigger] r.offchain_index.value_at(k).is_none(),
    {
        Pallet {
            something: None,
            prices: None,
            events: Vec::new(),
            block_number,
            offchain_index: LocalStore::new(),
        }
    }

    /// The stored value.
    pub fn something(&self) -> (r: Option<u32>)
        ensures
            r == self.something,
    {
        self.something
    }

    /// Stores `something` and deposits an event naming the signer.
    pub fn do_something(&mut self, origin: Origin, something: u32) -> (r: Result<(), DispatchError>)
        ensures
            match origin {
                Origin::Signed(who) => {
                    &&& r == Ok::<(), DispatchError>(())
                    &&& final(self).something == Some(something)
                    &&& final(self).events@ == old(self).events@.push(Event::SomethingStored(something, who))
                },
                _ => r == Err::<(), DispatchError>(DispatchError::BadOrigin) && final(self).events@ == old(self).events@
                    && final(self).something == old(self).something,
            },
            final(self).prices == old(self).prices,
            final(self).block_number == old(self).block_number,
            final(self).offchain_index == old(self).offchain_index,
    {
        let who = match ensure_signed(origin) {
            Ok(who) => who,
            Err(e) => return Err(e),
        };
        self.something = Some(something);
        self.events.push(Event::SomethingStored(something, who));
        Ok(())
    }

    /// Increments the stored value; fails where it is unset or at its maximum.
    pub fn cause_error(&mut self, origin: Origin) -> (r: Result<(), DispatchError>)
        ensures
            r == cause_error_result(origin, old(self).something),
            final(self).something == match r {
                Ok(_) => Some((old(self).something.unwrap() + 1) as u32),
                Err(_) => old(self).something,
            },
            final(self).prices == old(self).prices,
            final(self).events@ == old(self).events@,
            final(self).block_number == old(self).block_number,
            final(self).offchain_index == old(self).offchain_index,
    {
        if let Err(e) = ensure_signed(origin) {
            return Err(e);
        }
        match self.something {
            None => Err(DispatchError::Module(Error::NoneValue)),
            Some(old_value) => match old_value.checked_add(1) {
                None => Err(DispatchError::Module(Error::StorageOverflow)),
                Some(new_value) => {
                    self.something = Some(new_value);
                    Ok(())
                },
            },
        }
    }

    /// Overwrites the price cell with `payload`: the call that the worker's signed
    /// submissions carry.
    pub fn submit_data(&mut self, origin: Origin, payload: u32) -> (r: Result<(), DispatchError>)
        ensures
            r == match origin {
                Origin::Signed(_) => Ok(()),
                _ => Err::<(), DispatchError>(DispatchError::BadOrigin),
            },
            final(self).prices == prices_after(old(self).prices, origin, Call::SubmitData { payload }),
            final(self).something == old(self).something,
            final(self).events@ == old(self).events@,
            final(self).block_number == old(self).block_number,
            final(self).offchain_index == old(self).offchain_index,
    {
        if let Err(e) = ensure_signed(origin) {
            return Err(e);
        }
        self.prices = Some(payload);
        Ok(())
    }

    /// Indexes a record tagged `submit_number_unsigned` with `number` in the node-local store,
    /// under the key of the current block.
    pub fn extrinsic(&mut self, origin: Origin, number: u64) -> (r: Result<(), DispatchError>)
        ensures
            r == match origin {
                Origin::Signed(_) => Ok(()),
                _ => Err::<(), DispatchError>(DispatchError::BadOrigin),
            },
            r.is_ok() ==> final(self).offchain_index.value_at(key_of(old(self).block_number))
                == Some(scale_record(extrinsic_tag(), number)),
            r.is_err() ==> final(self).offchain_index == old(self).offchain_index,
            forall|k: Seq<u8>| (r.is_err() || k != key_of(old(self).block_number))
                ==> #[trigger] final(self).offchain_index.value_at(k) == old(self).offchain_index.value_at(k),
            final(self).something == old(self).something,
            final(self).prices == old(self).prices,
            final(self).events@ == old(self).events@,
            final(self).block_number == old(self).block_number,
    {
        if let Err(e) = ensure_signed(origin) {
            return Err(e);
        }
        let key = derive_key(self.block_number);
        let data = IndexingData(extrinsic_tag_bytes(), number);
        let bytes = data.encode();
        self.offchain_index.put(key, bytes);
        Ok(())
    }

    /// Applies `call` from `origin`.
    pub fn dispatch(&mut self, origin: Origin, call: Call) -> (r: Result<(), DispatchError>)
        ensures
            final(self).prices == prices_after(old(self).prices, origin, call),
            final(self).block_number == old(self).block_number,
            final(self).something == match (origin, call) {
                (Origin::Signed(_), Call::DoSomething { something }) => Some(something),
                (_, Call::CauseError) => if r is Ok {
                    Some((old(self).something.unwrap() + 1) as u32)
                } else {
                    old(self).something
                },
                _ => old(self).something,
            },
            final(self).events@ == match (origin, call) {
                (Origin::Signed(who), Call::DoSomething { something }) =>
                    old(self).events@.push(Event::SomethingStored(something, who)),
                _ => old(self).events@,
            },
            match (origin, call) {
                (Origin::Signed(_), Call::Extrinsic { number }) => {
                    &&& final(self).offchain_index.value_at(key_of(old(self).block_number))
                        == Some(scale_record(extrinsic_tag(), number))
                    &&& forall|k: Seq<u8>| k != key_of(old(self).block_number)
                        ==> #[trigger] final(self).offchain_index.value_at(k) == old(self).offchain_index.value_at(k)
                },
                _ => final(self).offchain_index == old(self).offchain_index,
            },
            r == match call {
                Call::CauseError => cause_error_result(origin, old(self).something),
                _ => if origin is Signed { Ok(()) } else { Err(DispatchError::BadOrigin) },
            },
    {
        match call {
            Call::DoSomething { something } => self.do_something(origin, something),
            Call::CauseError => self.cause_error(origin),
            Call::SubmitData { payload } => self.submit_data(origin, payload),
            Call::Extrinsic { number } => self.extrinsic(origin, number),
        }
    }
}

/// A signed submission overwrites the price cell with its payload, whatever the cell held.
pub proof fn lemma_submission_overwrites(prior: Option<u32>, who: AccountId, payload: u32)
    ensures
        prices_after(prior, Origin::Signed(who), Call::SubmitData { payload }) == Some(payload),
{
}

/// Of two signed submissions in a row, the later one decides the price cell.
pub proof fn lemma_last_write_wins(prior: Option<u32>, first: AccountId, p1: u32, second: AccountId, p2: u32)
    ensures
        prices_after(
            prices_after(prior, Origin::Signed(first), Call::SubmitData { payload: p1 }),
            Origin::Signed(second),
            Call::SubmitData { payload: p2 },
        ) == Some(p2),
{
}

/// Submitting the same payload twice leaves the cell as submitting it once.
pub proof fn lemma_submission_idempotent(prior: Option<u32>, who: AccountId, payload: u32)
    ensures
        prices_after(
            prices_after(prior, Origin::Signed(who), Call::SubmitData { payload }),
            Origin::Signed(who),
            Call::SubmitData { payload },
        ) == prices_after(prior, Origin::Signed(who), Call::SubmitData { payload }),
{
}

} // verus!

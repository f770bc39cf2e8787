//! The two records of the registry and their mathematical model.
//!
//! The sale control record is modelled by its own two fields. The registry
//! block is modelled by the bytes of its slots, a sequence of `MAX_LEN` byte
//! strings. Only the first `counter` slots count as registered; what lies
//! behind them is storage, whatever it holds.

use crate::key::empty_key_bytes;
use crate::key::keys_bytes;
use crate::period::next_tag;
use crate::period::PeriodStatus;
use anchor_lang::prelude::Pubkey;
use vstd::prelude::*;

verus! {

/// Number of slots in the registry block: the most identities it can hold.
pub const MAX_LEN: usize = 3000;

/// The sale control record: the period tag and the number of occupied slots.
#[derive(Clone, Copy, Debug, PartialEq, Eq, Structural)]
pub struct Data {
    pub period_status: u8,
    pub counter: u64,
}

/// The registry block: `MAX_LEN` identity slots, stored contiguously. Which
/// of them are occupied is told by the control record alone.
#[derive(Clone, Copy)]
pub struct WhitelistData {
    pub data: [Pubkey; MAX_LEN],
}

impl View for WhitelistData {
    type V = Seq<Seq<u8>>;

    /// The bytes of every slot, in slot order.
    open spec fn view(&self) -> Seq<Seq<u8>> {
        keys_bytes(self.data@)
    }
}

impl Data {
    /// The capacity invariant: no more slots are occupied than exist.
    pub open spec fn inv(self) -> bool {
        self.counter <= MAX_LEN
    }

    /// The record of a freshly created registry: nothing registered, and the
    /// sale in its pre-sale period.
    pub open spec fn created() -> Data {
        Data { period_status: PeriodStatus::PreSale.spec_tag(), counter: 0 }
    }

    /// Whether `n` more identities fit behind the occupied slots.
    pub open spec fn fits(self, n: nat) -> bool {
        self.counter + n <= MAX_LEN
    }

    /// The record after a batch of `n` identities was offered: the count
    /// grows by `n` where the batch fits, and nothing changes where it does
    /// not.
    pub open spec fn grown(self, n: nat) -> Data {
        if self.fits(n) {
            Data { counter: (self.counter + n) as u64, ..self }
        } else {
            self
        }
    }

    /// The record after the registry was cleared.
    pub open spec fn cleared(self) -> Data {
        Data { counter: 0, ..self }
    }

    /// The record after the sale was forced into its pending period.
    pub open spec fn pending(self) -> Data {
        Data { period_status: PeriodStatus::PendingSale.spec_tag(), ..self }
    }

    /// The record after the sale period was toggled.
    pub open spec fn toggled(self) -> Data {
        Data { period_status: next_tag(self.period_status), ..self }
    }
}

/// The keys that count as registered: those in the first `counter` slots of
/// the block, in insertion order.
pub open spec fn registered_keys(data: Data, whitelist: WhitelistData) -> Seq<Pubkey>
    recommends
        data.inv(),
{
    whitelist.data@.subrange(0, data.counter as int)
}

/// A registry block in which every slot is unoccupied.
pub open spec fn empty_slots() -> Seq<Seq<u8>> {
    Seq::new(MAX_LEN as nat, |i: int| empty_key_bytes())
}

/// The registered identities by their bytes: the first `counter` slots, in
/// insertion order.
pub open spec fn registered(slots: Seq<Seq<u8>>, counter: nat) -> Seq<Seq<u8>>
    recommends
        counter <= slots.len(),
{
    slots.subrange(0, counter as int)
}

/// The slots after `batch` was offered to a block with `counter` occupied
/// slots. Where the batch fits, the occupied slots stay, the batch follows
/// them in the order given, and every slot behind it is emptied. Where it
/// does not fit, no slot changes.
pub open spec fn appended(slots: Seq<Seq<u8>>, counter: nat, batch: Seq<Seq<u8>>) -> Seq<Seq<u8>>
    recommends
        slots.len() == MAX_LEN,
{
    if counter + batch.len() <= MAX_LEN {
        slots.subrange(0, counter as int) + batch + Seq::new(
            (MAX_LEN - counter - batch.len()) as nat,
            |i: int| empty_key_bytes(),
        )
    } else {
        slots
    }
}

} // verus!

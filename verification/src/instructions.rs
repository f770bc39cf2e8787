//! The five operations on the registry.
//!
//! Each takes the records it changes by mutable reference and runs to
//! completion: none fails, none panics, and an operation that cannot be
//! carried out leaves both records as they were.

use crate::key::empty_key;
use crate::key::empty_key_bytes;
use crate::key::key_bytes;
use crate::key::keys_bytes;
use crate::period::PeriodStatus;
use crate::state::appended;
use crate::state::empty_slots;
use crate::state::registered_keys;
use crate::state::Data;
use crate::state::WhitelistData;
use crate::state::MAX_LEN;
use anchor_lang::prelude::Pubkey;
use vstd::prelude::*;

verus! {

/// Sets up an empty registry: every slot unoccupied, nothing registered, the
/// sale in its pre-sale period. What the records held before is overwritten.
pub fn initialize_contract(data: &mut Data, whitelist: &mut WhitelistData)
    ensures
        *final(data) == Data::created(),
        final(data).inv(),
        final(whitelist)@ == empty_slots(),
{
    whitelist.data = [empty_key(); MAX_LEN];
    data.counter = 0;
    data.period_status = PeriodStatus::PreSale.tag();
}

/// Registers `addresses` behind the identities already registered, in the
/// order given and duplicates included.
///
/// A batch that does not fit into the free slots is dropped as a whole and
/// both records stay as they were; the caller is not told. A batch that fits
/// is written behind the occupied slots, and every slot behind the batch is
/// overwritten with the empty key, whatever it held.
///
/// The new block is built as an array of `MAX_LEN` slots from the start, so
/// it cannot come out with a wrong length: there is no internal failure to
/// swallow, and none is reported.
pub fn add_whitelists(data: &mut Data, whitelist: &mut WhitelistData, addresses: Vec<Pubkey>)
    ensures
        *final(data) == old(data).grown(addresses@.len()),
        final(whitelist)@ == appended(
            old(whitelist)@,
            old(data).counter as nat,
            keys_bytes(addresses@),
        ),
        old(data).inv() ==> final(data).inv(),
        !old(data).fits(addresses@.len()) ==> *final(data) == *old(data) && *final(whitelist)
            == *old(whitelist),
        old(data).fits(addresses@.len()) ==> registered_keys(*final(data), *final(whitelist))
            == registered_keys(*old(data), *old(whitelist)) + addresses@,
        old(data).fits(addresses@.len()) ==> forall|i: int|
            final(data).counter <= i < MAX_LEN ==> #[trigger] final(whitelist)@[i]
                == empty_key_bytes(),
{
    let length: usize = addresses.len();
    if data.counter > MAX_LEN as u64 {
        return;
    }
    let counter: usize = data.counter as usize;
    if length > MAX_LEN - counter {
        return;
    }
    let mut slots = [empty_key(); MAX_LEN];
    let mut i: usize = 0;
    while i < counter
        invariant
            i <= counter <= MAX_LEN,
            forall|k: int| 0 <= k < i ==> slots@[k] == whitelist.data@[k],
            forall|k: int| i <= k < MAX_LEN ==> key_bytes(#[trigger] slots@[k]) == empty_key_bytes(),
        decreases counter - i,
    {
        slots[i] = whitelist.data[i];
        i += 1;
    }
    let mut j: usize = 0;
    while j < length
        invariant
            j <= length == addresses.len(),
            counter + length <= MAX_LEN,
            forall|k: int| 0 <= k < counter ==> slots@[k] == whitelist.data@[k],
            forall|k: int| 0 <= k < j ==> slots@[counter + k] == addresses@[k],
            forall|k: int|
                counter + j <= k < MAX_LEN ==> key_bytes(#[trigger] slots@[k]) == empty_key_bytes(),
        decreases length - j,
    {
        slots[counter + j] = addresses[j];
        j += 1;
    }
    whitelist.data = slots;
    data.counter = (counter + length) as u64;
}

/// Clears the registry: no identity counts as registered any more. The slots
/// keep their bytes until a later batch overwrites them, and the sale period
/// stays as it was.
pub fn clear_whitelist(data: &mut Data)
    ensures
        *final(data) == old(data).cleared(),
        final(data).inv(),
{
    data.counter = 0;
}

/// Forces the sale into its pending period, whatever period it was in.
pub fn set_pending(data: &mut Data)
    ensures
        *final(data) == old(data).pending(),
        old(data).inv() ==> final(data).inv(),
{
    data.period_status = PeriodStatus::PendingSale.tag();
}

/// Moves the sale to its next period: pending to pre-sale, pre-sale to
/// post-sale, post-sale back to pre-sale. A stored tag that stands for no
/// period is left alone.
pub fn toggle_period(data: &mut Data)
    ensures
        *final(data) == old(data).toggled(),
        old(data).inv() ==> final(data).inv(),
{
    match PeriodStatus::from_tag(data.period_status) {
        Some(status) => {
            data.period_status = status.toggled().tag();
        },
        None => {},
    }
}

} // verus!

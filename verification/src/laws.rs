//! What holds of the registry under any run of its operations.
//!
//! The operations promise, each in its contract, that the records change as
//! the model functions of the state module say. The proofs here are about
//! those functions, so they hold of every call.

use crate::key::empty_key_bytes;
use crate::key::keys_bytes;
use crate::period::PeriodStatus;
use crate::state::appended;
use crate::state::empty_slots;
use crate::state::registered;
use crate::state::registered_keys;
use crate::state::Data;
use crate::state::WhitelistData;
use crate::state::MAX_LEN;
use vstd::prelude::*;

verus! {

/// The bytes of the registered keys are the registered part of the block's
/// view: the two ways of naming what is registered agree.
pub proof fn lemma_registered_keys_bytes(data: Data, whitelist: WhitelistData)
    requires
        data.inv(),
    ensures
        keys_bytes(registered_keys(data, whitelist)) == registered(whitelist@, data.counter as nat),
{
}

/// The two records after each batch of `batches` was offered in turn, first
/// to last, starting from `data` and `slots`.
pub open spec fn appended_all(data: Data, slots: Seq<Seq<u8>>, batches: Seq<Seq<Seq<u8>>>) -> (
    Data,
    Seq<Seq<u8>>,
)
    decreases batches.len(),
{
    if batches.len() == 0 {
        (data, slots)
    } else {
        let before = appended_all(data, slots, batches.drop_last());
        (
            before.0.grown(batches.last().len()),
            appended(before.1, before.0.counter as nat, batches.last()),
        )
    }
}

/// However many batches are offered, and of whatever sizes, the count of
/// occupied slots never passes the capacity and the block keeps its length.
pub proof fn lemma_appends_keep_capacity(
    data: Data,
    slots: Seq<Seq<u8>>,
    batches: Seq<Seq<Seq<u8>>>,
)
    requires
        data.inv(),
        slots.len() == MAX_LEN,
    ensures
        appended_all(data, slots, batches).0.inv(),
        appended_all(data, slots, batches).1.len() == MAX_LEN,
    decreases batches.len(),
{
    if batches.len() > 0 {
        lemma_appends_keep_capacity(data, slots, batches.drop_last());
    }
}

/// A batch that would take the count past the capacity changes neither the
/// count nor any slot.
pub proof fn lemma_oversized_batch_is_dropped(data: Data, slots: Seq<Seq<u8>>, batch: Seq<Seq<u8>>)
    requires
        data.counter + batch.len() > MAX_LEN,
    ensures
        data.grown(batch.len()) == data,
        appended(slots, data.counter as nat, batch) == slots,
{
}

/// A batch that fits is registered behind the identities already registered:
/// these keep their places, and the batch follows in the order given.
pub proof fn lemma_append_extends_registered(
    data: Data,
    slots: Seq<Seq<u8>>,
    batch: Seq<Seq<u8>>,
)
    requires
        slots.len() == MAX_LEN,
        data.fits(batch.len()),
    ensures
        data.grown(batch.len()).counter == data.counter + batch.len(),
        registered(
            appended(slots, data.counter as nat, batch),
            data.grown(batch.len()).counter as nat,
        ) == registered(slots, data.counter as nat) + batch,
{
}

/// Two batches offered one after the other to a fresh registry are
/// registered as their concatenation, as long as both fit.
pub proof fn lemma_two_appends_concatenate(first: Seq<Seq<u8>>, second: Seq<Seq<u8>>)
    requires
        first.len() + second.len() <= MAX_LEN,
    ensures
        ({
            let data = Data::created().grown(first.len()).grown(second.len());
            let slots = appended(
                appended(empty_slots(), 0, first),
                first.len(),
                second,
            );
            &&& data.counter == first.len() + second.len()
            &&& registered(slots, data.counter as nat) == first + second
        }),
{
    let once = Data::created().grown(first.len());
    lemma_append_extends_registered(Data::created(), empty_slots(), first);
    lemma_append_extends_registered(once, appended(empty_slots(), 0, first), second);
    assert(registered(empty_slots(), 0) + first == first);
}

/// After a batch that fits, every slot behind the registered identities
/// holds the empty key.
pub proof fn lemma_append_empties_tail(data: Data, slots: Seq<Seq<u8>>, batch: Seq<Seq<u8>>)
    requires
        slots.len() == MAX_LEN,
        data.fits(batch.len()),
    ensures
        appended(slots, data.counter as nat, batch).len() == MAX_LEN,
        forall|i: int|
            data.grown(batch.len()).counter <= i < MAX_LEN ==> #[trigger] appended(
                slots,
                data.counter as nat,
                batch,
            )[i] == empty_key_bytes(),
{
}

/// Clearing twice is clearing once; a cleared registry has nothing
/// registered and is in the period it was in.
pub proof fn lemma_clear_is_idempotent(data: Data, slots: Seq<Seq<u8>>)
    ensures
        data.cleared().cleared() == data.cleared(),
        data.cleared().counter == 0,
        data.cleared().period_status == data.period_status,
        registered(slots, data.cleared().counter as nat) == Seq::<Seq<u8>>::empty(),
{
}

/// A batch offered to a cleared registry leaves the count and the registered
/// identities that it leaves when offered to a fresh one, whatever the slots
/// held when the registry was cleared. Where the batch fits, the two blocks
/// agree in every slot.
pub proof fn lemma_append_after_clear(data: Data, slots: Seq<Seq<u8>>, batch: Seq<Seq<u8>>)
    requires
        slots.len() == MAX_LEN,
    ensures
        data.cleared().grown(batch.len()).counter == Data::created().grown(batch.len()).counter,
        registered(
            appended(slots, data.cleared().counter as nat, batch),
            data.cleared().grown(batch.len()).counter as nat,
        ) == registered(
            appended(empty_slots(), Data::created().counter as nat, batch),
            Data::created().grown(batch.len()).counter as nat,
        ),
        batch.len() <= MAX_LEN ==> appended(slots, data.cleared().counter as nat, batch)
            == appended(empty_slots(), Data::created().counter as nat, batch),
{
}

/// Toggling never leads into the pending period. It takes a pending sale to
/// its pre-sale, and from the pre-sale or the post-sale two toggles lead
/// back to where they began. The count of occupied slots is not touched.
pub proof fn lemma_toggle_cycles(data: Data)
    ensures
        data.toggled().counter == data.counter,
        data.toggled().period_status != PeriodStatus::PendingSale.spec_tag(),
        data.period_status == PeriodStatus::PendingSale.spec_tag() ==> data.toggled().period_status
            == PeriodStatus::PreSale.spec_tag(),
        data.period_status == PeriodStatus::PreSale.spec_tag() ==> data.toggled().period_status
            == PeriodStatus::PostSale.spec_tag() && data.toggled().toggled() == data,
        data.period_status == PeriodStatus::PostSale.spec_tag() ==> data.toggled().period_status
            == PeriodStatus::PreSale.spec_tag() && data.toggled().toggled() == data,
        PeriodStatus::spec_from_tag(data.period_status) is None ==> data.toggled() == data,
{
}

/// Whatever the period was, forcing the sale to pending makes it pending,
/// and the toggle that follows opens the pre-sale. Forcing it twice is
/// forcing it once.
pub proof fn lemma_pending_then_toggle(data: Data)
    ensures
        data.pending().period_status == PeriodStatus::PendingSale.spec_tag(),
        data.pending().counter == data.counter,
        data.pending().pending() == data.pending(),
        data.pending().toggled().period_status == PeriodStatus::PreSale.spec_tag(),
        data.pending().toggled().counter == data.counter,
{
}

} // verus!

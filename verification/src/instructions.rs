//! The five operations on a counter record. Each runs to completion on the
//! accounts it is given, or fails and leaves them as they were.

use vstd::prelude::*;
use crate::context::{CloseAmigo, InitializeAmigo, Update};
use crate::error::CounterError;
use crate::state::{Amigo, CounterAccount, Slot, SPACE};

verus! {

/// Allocates a new record in a vacant slot, charged to the payer, with its
/// count at zero. Fails with `AllocationError` when the slot is taken or
/// the payer cannot fund the storage.
pub fn initialize(ctx: &mut InitializeAmigo) -> (r: Result<(), CounterError>)
    ensures
        old(ctx).can_allocate() ==> r is Ok && *final(ctx) == old(ctx).allocated(),
        !old(ctx).can_allocate() ==> r == Err::<(), CounterError>(CounterError::AllocationError)
            && *final(ctx) == *old(ctx),
        r is Ok ==> final(ctx).amigo is Live && final(ctx).amigo->account.data@ == 0,
{
    match ctx.amigo {
        Slot::Vacant { address } => {
            match ctx.payer.funds.checked_sub(ctx.system_program.rent) {
                Some(left) => {
                    ctx.amigo = Slot::Live {
                        account: CounterAccount {
                            address,
                            payer: ctx.payer.address,
                            space: SPACE,
                            funds: ctx.system_program.rent,
                            data: Amigo { count: 0 },
                        },
                    };
                    ctx.payer.funds = left;
                    Ok(())
                },
                None => Err(CounterError::AllocationError),
            }
        },
        Slot::Live { .. } => Err(CounterError::AllocationError),
    }
}

/// Raises the count by one. Fails with `ArithmeticOverflow` at the top of
/// the range.
pub fn increment(ctx: &mut Update) -> (r: Result<(), CounterError>)
    ensures
        old(ctx).amigo@ < u8::MAX ==> r is Ok && final(ctx).amigo@ == old(ctx).amigo@ + 1,
        old(ctx).amigo@ == u8::MAX ==> r == Err::<(), CounterError>(
            CounterError::ArithmeticOverflow,
        ) && *final(ctx) == *old(ctx),
{
    match ctx.amigo.count.checked_add(1) {
        Some(count) => {
            ctx.amigo.count = count;
            Ok(())
        },
        None => Err(CounterError::ArithmeticOverflow),
    }
}

/// Lowers the count by one. Fails with `ArithmeticUnderflow` at zero.
pub fn decrement(ctx: &mut Update) -> (r: Result<(), CounterError>)
    ensures
        old(ctx).amigo@ > 0 ==> r is Ok && final(ctx).amigo@ == old(ctx).amigo@ - 1,
        old(ctx).amigo@ == 0 ==> r == Err::<(), CounterError>(
            CounterError::ArithmeticUnderflow,
        ) && *final(ctx) == *old(ctx),
{
    match ctx.amigo.count.checked_sub(1) {
        Some(count) => {
            ctx.amigo.count = count;
            Ok(())
        },
        None => Err(CounterError::ArithmeticUnderflow),
    }
}

/// Replaces the count by `value`, whatever it was. Never fails.
pub fn set(ctx: &mut Update, value: u8) -> (r: Result<(), CounterError>)
    ensures
        r is Ok,
        final(ctx).amigo@ == value,
{
    ctx.amigo.count = value;
    Ok(())
}

/// Destroys a live record: its storage funds go to the payer and its slot
/// becomes vacant. Fails with `AuthorizationError` when the asking identity
/// is not the one that funded the record, or when there is no record.
///
/// Where the refund is due, the payer's funds and the record's must fit
/// together in the ledger's 64-bit amounts.
pub fn close(ctx: &mut CloseAmigo) -> (r: Result<(), CounterError>)
    requires
        old(ctx).authorized() ==> old(ctx).refund_fits(),
    ensures
        old(ctx).authorized() ==> r is Ok && *final(ctx) == old(ctx).closed(),
        !old(ctx).authorized() ==> r == Err::<(), CounterError>(
            CounterError::AuthorizationError,
        ) && *final(ctx) == *old(ctx),
        r is Ok ==> final(ctx).amigo is Vacant,
{
    match ctx.amigo {
        Slot::Live { account } => {
            if ctx.payer.address == account.payer {
                ctx.payer.funds = ctx.payer.funds + account.funds;
                ctx.amigo = Slot::Vacant { address: account.address };
                Ok(())
            } else {
                Err(CounterError::AuthorizationError)
            }
        },
        Slot::Vacant { .. } => Err(CounterError::AuthorizationError),
    }
}

} // verus!

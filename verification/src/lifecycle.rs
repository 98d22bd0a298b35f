//! What holds over the life of a record, from allocation to closing.

use vstd::prelude::*;
use crate::context::{CloseAmigo, InitializeAmigo};
use crate::state::{Amigo, CounterAccount, Payer, Slot};

verus! {

/// The accounts for closing the record that `ctx` allocates, once its
/// counter has become `data`, when `payer` asks for it.
pub open spec fn closing(ctx: InitializeAmigo, data: Amigo, payer: Payer) -> CloseAmigo
    recommends
        ctx.can_allocate(),
{
    CloseAmigo {
        payer,
        amigo: Slot::Live { account: CounterAccount { data, ..ctx.allocated().amigo->account } },
    }
}

/// The identity that paid for a record may close it, whatever its counter
/// has become, and closing undoes the allocation: the payer holds again
/// what it held before, and the slot is vacant as it was.
pub proof fn close_undoes_initialize(ctx: InitializeAmigo, data: Amigo)
    requires
        ctx.can_allocate(),
    ensures
        closing(ctx, data, ctx.allocated().payer).authorized(),
        closing(ctx, data, ctx.allocated().payer).refund_fits(),
        closing(ctx, data, ctx.allocated().payer).closed().payer == ctx.payer,
        closing(ctx, data, ctx.allocated().payer).closed().amigo == ctx.amigo,
{
}

/// No identity but the one that paid for a record is authorized to close
/// it.
pub proof fn close_refuses_strangers(ctx: InitializeAmigo, data: Amigo, stranger: Payer)
    requires
        ctx.can_allocate(),
        stranger.address@ != ctx.payer.address@,
    ensures
        !closing(ctx, data, stranger).authorized(),
{
}

} // verus!

//! The accounts that each operation names, and what the operation makes
//! of them.

use vstd::prelude::*;
use crate::state::{Allocator, Amigo, CounterAccount, Payer, Slot, SPACE};

verus! {

/// Accounts for creating a record: who pays, where the record goes, and
/// the allocator that prices its storage.
#[derive(Clone, Copy, Debug, PartialEq, Eq)]
pub struct InitializeAmigo {
    pub payer: Payer,
    pub amigo: Slot,
    pub system_program: Allocator,
}

impl InitializeAmigo {
    /// Storage can be allocated: nothing lives in the slot yet, and the
    /// payer has the funds that the allocator demands.
    pub open spec fn can_allocate(self) -> bool {
        self.amigo is Vacant && self.system_program.rent <= self.payer.funds
    }

    /// The accounts after allocation: the payer is charged the rent, and
    /// the slot holds a record at its own address, funded by the payer,
    /// with room for the header and the count, counting from zero.
    pub open spec fn allocated(self) -> InitializeAmigo
        recommends
            self.can_allocate(),
    {
        InitializeAmigo {
            payer: Payer {
                address: self.payer.address,
                funds: (self.payer.funds - self.system_program.rent) as u64,
            },
            amigo: Slot::Live {
                account: CounterAccount {
                    address: self.amigo.address(),
                    payer: self.payer.address,
                    space: SPACE,
                    funds: self.system_program.rent,
                    data: Amigo { count: 0 },
                },
            },
            system_program: self.system_program,
        }
    }
}

/// Accounts for destroying a record: the record's slot, and the identity
/// that asks for it and receives the storage funds.
#[derive(Clone, Copy, Debug, PartialEq, Eq)]
pub struct CloseAmigo {
    pub payer: Payer,
    pub amigo: Slot,
}

impl CloseAmigo {
    /// A record lives in the slot, and the asking identity is the one that
    /// funded it. Nobody is authorized to close a vacant slot.
    pub open spec fn authorized(self) -> bool {
        self.amigo is Live && self.payer.address@ == self.amigo->account.payer@
    }

    /// The payer's funds and the record's funds together are an amount the
    /// ledger can express.
    pub open spec fn refund_fits(self) -> bool
        recommends
            self.amigo is Live,
    {
        self.payer.funds + self.amigo->account.funds <= u64::MAX
    }

    /// The accounts after closing: the payer has the record's funds on top
    /// of its own, and the slot is vacant at the same address.
    pub open spec fn closed(self) -> CloseAmigo
        recommends
            self.amigo is Live,
            self.refund_fits(),
    {
        CloseAmigo {
            payer: Payer {
                address: self.payer.address,
                funds: (self.payer.funds + self.amigo->account.funds) as u64,
            },
            amigo: Slot::Vacant { address: self.amigo.address() },
        }
    }
}

/// Accounts for changing a counter: the persisted counter of a live
/// record, and nothing else. No identity is named, so whoever can name the
/// record can change its count; its address, payer and funds are out of
/// reach.
#[derive(Clone, Copy, Debug, PartialEq, Eq, Structural)]
pub struct Update {
    pub amigo: Amigo,
}

} // verus!

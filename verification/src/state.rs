//! What the ledger holds: the counter itself, the record around it, the
//! slot a record lives in, and the parties to its allocation.

use vstd::prelude::*;
use crate::address::Address;

verus! {

/// Bytes that the ledger writes in front of every record to tell its kind.
pub const HEADER_SPACE: usize = 8;

/// Bytes of storage one counter record takes: the header, then the count.
pub const SPACE: usize = HEADER_SPACE + Amigo::INIT_SPACE;

/// The persisted counter: one unsigned byte.
#[derive(Clone, Copy, Debug, PartialEq, Eq, Structural)]
pub struct Amigo {
    pub count: u8,
}

impl Amigo {
    /// Bytes that the fields of a counter take when persisted.
    pub const INIT_SPACE: usize = 1;
}

impl View for Amigo {
    type V = nat;

    /// The number the counter stands at.
    open spec fn view(&self) -> nat {
        self.count as nat
    }
}

/// A live counter record. The address and the payer are fixed when the
/// record is allocated; `space` is the storage it takes, in bytes, and
/// `funds` is what the ledger holds for that storage and gives back when
/// the record is closed.
#[derive(Clone, Copy, Debug, PartialEq, Eq)]
pub struct CounterAccount {
    pub address: Address,
    pub payer: Address,
    pub space: usize,
    pub funds: u64,
    pub data: Amigo,
}

/// What a ledger address resolves to: nothing yet, or a live record.
#[derive(Clone, Copy, Debug, PartialEq, Eq)]
pub enum Slot {
    Vacant { address: Address },
    Live { account: CounterAccount },
}

impl Slot {
    /// The address of the slot, whatever it holds.
    pub open spec fn address(self) -> Address {
        match self {
            Slot::Vacant { address } => address,
            Slot::Live { account } => account.address,
        }
    }
}

/// The identity that pays for a record's storage, with the funds it has.
#[derive(Clone, Copy, Debug, PartialEq, Eq)]
pub struct Payer {
    pub address: Address,
    pub funds: u64,
}

/// The ledger's allocator, as far as a counter program reads it: `rent` is
/// the funding it demands for holding `SPACE` bytes.
#[derive(Clone, Copy, Debug, PartialEq, Eq, Structural)]
pub struct Allocator {
    pub rent: u64,
}

} // verus!

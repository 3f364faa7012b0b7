use vstd::prelude::*;
use crate::address::Address;

verus! {

/// Who authorizes a transfer.
#[derive(Clone, Copy, Debug)]
pub enum Authority {
    /// The owner of the source account, by its own signature.
    Owner(Address),
    /// The custodial account itself, signing with the seeds of its derivation:
    /// the escrow seed, the trade record's address and the bump.
    Custodian { custodial: Address, escrow: Address, bump: u8 },
}

/// One token transfer for the host ledger to perform.
#[derive(Clone, Copy, Debug)]
pub struct Transfer {
    pub from: Address,
    pub to: Address,
    pub authority: Authority,
    pub amount: u64,
}

/// Balances of the ledger, by account identity.
pub type Balances = Map<Seq<u8>, int>;

/// The balances after `amount` moved from `from` to `to`.
pub open spec fn move_amount(b: Balances, from: Seq<u8>, to: Seq<u8>, amount: int) -> Balances {
    let taken = b.insert(from, b[from] - amount);
    taken.insert(to, taken[to] + amount)
}

/// The balances after `t` moved its amount from its source to its destination.
pub open spec fn apply_transfer(b: Balances, t: Transfer) -> Balances {
    move_amount(b, t.from@, t.to@, t.amount as int)
}

} // verus!

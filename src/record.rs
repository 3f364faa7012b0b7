use vstd::prelude::*;
use crate::address::Address;

verus! {

/// The durable record of one open trade. Every field is written once, when
/// the trade is opened.
#[derive(Clone, Copy, Debug)]
pub struct EscrowAccount {
    /// The party who opened the trade.
    pub initializer: Address,
    /// The custodial account that holds the offered tokens.
    pub deposit_token_account: Address,
    /// Where the counterparty's payment goes on settlement.
    pub initializer_receive_token_account: Address,
    /// The offered amount, locked at open time.
    pub deposit_amount: u64,
    /// The amount the initializer asks for in return.
    pub taker_amount: u64,
}

impl EscrowAccount {
    /// Size of the stored record: three identities and two amounts.
    pub const LEN: usize = 32 + 32 + 32 + 8 + 8;
}

} // verus!

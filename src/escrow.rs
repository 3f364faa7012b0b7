use vstd::prelude::*;
use crate::address::{Address, derives, found_bump, found_view, custodial_seeds, program_address_search, find_custodial_authority};
use crate::ledger::{Authority, Transfer};
use crate::record::EscrowAccount;

verus! {

/// Why an operation was refused. A refused operation changes nothing and
/// moves no tokens.
#[derive(Clone, Copy, Debug, PartialEq, Eq, Structural)]
pub enum EscrowError {
    /// The counterparty's expectations are worse for it than the trade's terms.
    UnexpectedEscrowState,
    /// The accounts supplied are not the ones the trade record names.
    AccountMismatch,
    /// An account is not in the state the operation needs: a record or a
    /// custodial account that already exists, a record that does not, an
    /// account of the wrong token kind, or a custodial account that is not
    /// the derived one.
    InvalidAccountState,
    /// A source account cannot cover its transfer.
    InsufficientBalance,
}

/// A token account as the operations read it.
#[derive(Clone, Copy, Debug)]
pub struct TokenAccount {
    pub key: Address,
    /// The kind of token the account holds.
    pub mint: Address,
    pub amount: u64,
}

/// The accounts of an opening.
#[derive(Clone, Copy, Debug)]
pub struct InitializeEscrow {
    /// The signer who opens the trade.
    pub initializer: Address,
    /// The initializer's account that supplies the offered tokens.
    pub initializer_token_account: TokenAccount,
    /// The slot that becomes the custodial account.
    pub deposit_token_account: Address,
    /// Whether that slot is already in use.
    pub deposit_token_account_initialized: bool,
    /// The kind of token offered.
    pub deposit_mint: Address,
    /// Where the initializer will be paid.
    pub initializer_receive_token_account: Address,
    /// The address of the trade record.
    pub escrow_key: Address,
    /// The trade record stored at that address, if any.
    pub escrow_account: Option<EscrowAccount>,
    /// This program's identity, from which the custodial authority is derived.
    pub program_id: Address,
}

/// The accounts of a settlement.
#[derive(Clone, Copy, Debug)]
pub struct Exchange {
    /// The signer who takes the trade.
    pub taker: Address,
    /// The taker's account that pays the requested amount.
    pub taker_deposit_token_account: TokenAccount,
    /// The taker's account that receives the offered tokens.
    pub taker_receive_token_account: Address,
    /// The custodial account, with its current balance.
    pub deposit_token_account: TokenAccount,
    pub initializer_receive_token_account: Address,
    pub initializer: Address,
    /// The address of the trade record.
    pub escrow_key: Address,
    /// The trade record stored at that address, if any.
    pub escrow_account: Option<EscrowAccount>,
    /// The deposit held by the record's account, returned to the
    /// initializer when the record is closed.
    pub escrow_lamports: u64,
    pub program_id: Address,
}

/// The transfers of a settlement, performed in this order, after which the
/// trade record is closed and its deposit `refund` returned to `close_to`.
#[derive(Clone, Copy, Debug)]
pub struct Settlement {
    pub to_taker: Transfer,
    pub to_initializer: Transfer,
    pub close_to: Address,
    pub refund: u64,
}

/// The custodial token account an opening creates: at the derived address,
/// holding the offered kind of token, with the derived address as its own
/// authority.
#[derive(Clone, Copy, Debug)]
pub struct CustodialAccount {
    pub key: Address,
    pub mint: Address,
    pub authority: Address,
}

/// What an opening asks of the ledger: create the custodial account, then
/// perform the deposit transfer into it.
#[derive(Clone, Copy, Debug)]
pub struct Opening {
    pub custodial: CustodialAccount,
    pub deposit: Transfer,
}

/// Why an opening is refused, given the result of the custodial derivation;
/// `None` when it goes through.
pub open spec fn open_error(ctx: InitializeEscrow, found: Option<(Seq<u8>, u8)>, deposit_amount: u64) -> Option<
    EscrowError,
> {
    if ctx.deposit_token_account_initialized {
        Some(EscrowError::InvalidAccountState)
    } else if !derives(found, ctx.deposit_token_account@) {
        Some(EscrowError::InvalidAccountState)
    } else if ctx.initializer_token_account.key@ == ctx.deposit_token_account@ {
        Some(EscrowError::InvalidAccountState)
    } else if ctx.initializer_token_account.mint@ != ctx.deposit_mint@ {
        Some(EscrowError::InvalidAccountState)
    } else if ctx.escrow_account is Some {
        Some(EscrowError::InvalidAccountState)
    } else if ctx.initializer_token_account.amount < deposit_amount {
        Some(EscrowError::InsufficientBalance)
    } else {
        None
    }
}

/// The record an opening writes: the five fields as supplied.
pub open spec fn opened_record(rec: EscrowAccount, ctx: InitializeEscrow, deposit_amount: u64, taker_amount: u64) -> bool {
    &&& rec.initializer@ == ctx.initializer@
    &&& rec.deposit_token_account@ == ctx.deposit_token_account@
    &&& rec.initializer_receive_token_account@ == ctx.initializer_receive_token_account@
    &&& rec.deposit_amount == deposit_amount
    &&& rec.taker_amount == taker_amount
}

/// The transfer that funds the custodial account, signed by the initializer.
pub open spec fn is_deposit_transfer(t: Transfer, ctx: InitializeEscrow, deposit_amount: u64) -> bool {
    &&& t.from@ == ctx.initializer_token_account.key@
    &&& t.to@ == ctx.deposit_token_account@
    &&& t.authority matches Authority::Owner(a) && a@ == ctx.initializer@
    &&& t.amount == deposit_amount
}

/// The account creation and the transfer of an opening.
pub open spec fn is_opening(o: Opening, ctx: InitializeEscrow, deposit_amount: u64) -> bool {
    &&& o.custodial.key@ == ctx.deposit_token_account@
    &&& o.custodial.mint@ == ctx.deposit_mint@
    &&& o.custodial.authority@ == ctx.deposit_token_account@
    &&& is_deposit_transfer(o.deposit, ctx, deposit_amount)
}

/// The accounts of an opening after it went through.
pub open spec fn opened(ctx: InitializeEscrow, post: InitializeEscrow, deposit_amount: u64, taker_amount: u64) -> bool {
    &&& post.escrow_account matches Some(rec) && opened_record(rec, ctx, deposit_amount, taker_amount)
    &&& post.deposit_token_account_initialized
    &&& post == (InitializeEscrow {
        escrow_account: post.escrow_account,
        deposit_token_account_initialized: true,
        ..ctx
    })
}

/// Whether the supplied accounts are the ones the record names.
pub open spec fn accounts_match(rec: EscrowAccount, ctx: Exchange) -> bool {
    &&& rec.initializer@ == ctx.initializer@
    &&& rec.deposit_token_account@ == ctx.deposit_token_account.key@
    &&& rec.initializer_receive_token_account@ == ctx.initializer_receive_token_account@
}

/// Whether the taker's expectations are met: its expected offered amount is
/// exactly the one held, and its expected payment is not above the recorded
/// one. The taker always pays the recorded amount.
pub open spec fn expectations_met(rec: EscrowAccount, expected_deposit_amount: u64, expected_taker_amount: u64) -> bool {
    expected_deposit_amount == rec.deposit_amount && expected_taker_amount <= rec.taker_amount
}

/// Why a settlement is refused, given the result of the custodial derivation;
/// `None` when it goes through.
pub open spec fn settle_error(
    ctx: Exchange,
    found: Option<(Seq<u8>, u8)>,
    expected_deposit_amount: u64,
    expected_taker_amount: u64,
) -> Option<EscrowError> {
    match ctx.escrow_account {
        None => Some(EscrowError::InvalidAccountState),
        Some(rec) => if !accounts_match(rec, ctx) {
            Some(EscrowError::AccountMismatch)
        } else if !expectations_met(rec, expected_deposit_amount, expected_taker_amount) {
            Some(EscrowError::UnexpectedEscrowState)
        } else if ctx.taker_deposit_token_account.amount < rec.taker_amount {
            Some(EscrowError::InsufficientBalance)
        } else if !derives(found, ctx.deposit_token_account.key@) {
            Some(EscrowError::InvalidAccountState)
        } else {
            None
        },
    }
}

/// The transfers of a settlement of `ctx`'s record, the custodial account
/// signing with `bump`: its whole balance to the taker, then the recorded
/// amount from the taker to the initializer.
pub open spec fn is_settlement(s: Settlement, ctx: Exchange, bump: u8) -> bool {
    let rec = ctx.escrow_account->0;
    &&& s.to_taker.from@ == ctx.deposit_token_account.key@
    &&& s.to_taker.to@ == ctx.taker_receive_token_account@
    &&& s.to_taker.authority matches Authority::Custodian { custodial, escrow, bump: b } && custodial@
        == ctx.deposit_token_account.key@ && escrow@ == ctx.escrow_key@ && b == bump
    &&& s.to_taker.amount == ctx.deposit_token_account.amount
    &&& s.to_initializer.from@ == ctx.taker_deposit_token_account.key@
    &&& s.to_initializer.to@ == ctx.initializer_receive_token_account@
    &&& s.to_initializer.authority matches Authority::Owner(a) && a@ == ctx.taker@
    &&& s.to_initializer.amount == rec.taker_amount
    &&& s.close_to@ == rec.initializer@
    &&& s.refund == ctx.escrow_lamports
}

/// The accounts of a settlement once the record is closed.
pub open spec fn closed(ctx: Exchange) -> Exchange {
    Exchange { escrow_account: None, ..ctx }
}

/// Opens a trade, given the derived custodial address and bump `found`.
/// On success the record is written and the custodial account's creation
/// and the deposit transfer are returned;
/// on refusal nothing changes.
pub fn initialize_escrow_with_authority(
    ctx: &mut InitializeEscrow,
    found: Option<(Address, u8)>,
    deposit_amount: u64,
    taker_amount: u64,
) -> (r: Result<Opening, EscrowError>)
    ensures
        match open_error(*old(ctx), found_view(found), deposit_amount) {
            Some(e) => r == Err::<Opening, EscrowError>(e) && *final(ctx) == *old(ctx),
            None => r matches Ok(o) && is_opening(o, *old(ctx), deposit_amount) && opened(
                *old(ctx),
                *final(ctx),
                deposit_amount,
                taker_amount,
            ),
        },
{
    if ctx.deposit_token_account_initialized {
        return Err(EscrowError::InvalidAccountState);
    }
    match found {
        None => {
            return Err(EscrowError::InvalidAccountState);
        },
        Some((derived, _bump)) => {
            if !(derived == ctx.deposit_token_account) {
                return Err(EscrowError::InvalidAccountState);
            }
        },
    }
    if ctx.initializer_token_account.key == ctx.deposit_token_account {
        return Err(EscrowError::InvalidAccountState);
    }
    if !(ctx.initializer_token_account.mint == ctx.deposit_mint) {
        return Err(EscrowError::InvalidAccountState);
    }
    if ctx.escrow_account.is_some() {
        return Err(EscrowError::InvalidAccountState);
    }
    if ctx.initializer_token_account.amount < deposit_amount {
        return Err(EscrowError::InsufficientBalance);
    }
    ctx.escrow_account = Some(
        EscrowAccount {
            initializer: ctx.initializer,
            deposit_token_account: ctx.deposit_token_account,
            initializer_receive_token_account: ctx.initializer_receive_token_account,
            deposit_amount,
            taker_amount,
        },
    );
    ctx.deposit_token_account_initialized = true;
    let custodial = CustodialAccount {
        key: ctx.deposit_token_account,
        mint: ctx.deposit_mint,
        authority: ctx.deposit_token_account,
    };
    let deposit = Transfer {
        from: ctx.initializer_token_account.key,
        to: ctx.deposit_token_account,
        authority: Authority::Owner(ctx.initializer),
        amount: deposit_amount,
    };
    Ok(Opening { custodial, deposit })
}

/// Opens a trade: derives the custodial authority from the record's address,
/// then proceeds as `initialize_escrow_with_authority`.
pub fn initialize_escrow(ctx: &mut InitializeEscrow, deposit_amount: u64, taker_amount: u64) -> (r: Result<
    Opening,
    EscrowError,
>)
    ensures
        match open_error(
            *old(ctx),
            program_address_search(custodial_seeds(old(ctx).escrow_key@), old(ctx).program_id@),
            deposit_amount,
        ) {
            Some(e) => r == Err::<Opening, EscrowError>(e) && *final(ctx) == *old(ctx),
            None => r matches Ok(o) && is_opening(o, *old(ctx), deposit_amount) && opened(
                *old(ctx),
                *final(ctx),
                deposit_amount,
                taker_amount,
            ),
        },
{
    let found = find_custodial_authority(&ctx.escrow_key, &ctx.program_id);
    initialize_escrow_with_authority(ctx, found, deposit_amount, taker_amount)
}

/// Settles a trade, given the derived custodial address and bump `found`.
/// On success the record is closed and the settlement's transfers are
/// returned; on refusal nothing changes.
pub fn exchange_with_authority(
    ctx: &mut Exchange,
    found: Option<(Address, u8)>,
    expected_deposit_amount: u64,
    expected_taker_amount: u64,
) -> (r: Result<Settlement, EscrowError>)
    ensures
        match settle_error(*old(ctx), found_view(found), expected_deposit_amount, expected_taker_amount) {
            Some(e) => r == Err::<Settlement, EscrowError>(e) && *final(ctx) == *old(ctx),
            None => r matches Ok(s) && is_settlement(s, *old(ctx), found_bump(found_view(found))) && *final(ctx) == closed(
                *old(ctx),
            ),
        },
{
    let rec = match ctx.escrow_account {
        None => {
            return Err(EscrowError::InvalidAccountState);
        },
        Some(rec) => rec,
    };
    if !(rec.initializer == ctx.initializer && rec.deposit_token_account == ctx.deposit_token_account.key
        && rec.initializer_receive_token_account == ctx.initializer_receive_token_account) {
        return Err(EscrowError::AccountMismatch);
    }
    // The expected offered amount must be the one held, and the expected
    // payment must not exceed the recorded one.
    if expected_deposit_amount != rec.deposit_amount || expected_taker_amount > rec.taker_amount {
        return Err(EscrowError::UnexpectedEscrowState);
    }
    if ctx.taker_deposit_token_account.amount < rec.taker_amount {
        return Err(EscrowError::InsufficientBalance);
    }
    let bump = match found {
        None => {
            return Err(EscrowError::InvalidAccountState);
        },
        Some((derived, bump)) => {
            if !(derived == ctx.deposit_token_account.key) {
                return Err(EscrowError::InvalidAccountState);
            }
            bump
        },
    };
    // The whole custodial balance goes to the taker, so that the custodial
    // account is left empty and can be closed.
    let to_taker = Transfer {
        from: ctx.deposit_token_account.key,
        to: ctx.taker_receive_token_account,
        authority: Authority::Custodian {
            custodial: ctx.deposit_token_account.key,
            escrow: ctx.escrow_key,
            bump,
        },
        amount: ctx.deposit_token_account.amount,
    };
    let to_initializer = Transfer {
        from: ctx.taker_deposit_token_account.key,
        to: ctx.initializer_receive_token_account,
        authority: Authority::Owner(ctx.taker),
        amount: rec.taker_amount,
    };
    ctx.escrow_account = None;
    Ok(Settlement { to_taker, to_initializer, close_to: rec.initializer, refund: ctx.escrow_lamports })
}

/// Settles a trade: derives the custodial authority from the record's
/// address, then proceeds as `exchange_with_authority`.
pub fn exchange(ctx: &mut Exchange, expected_deposit_amount: u64, expected_taker_amount: u64) -> (r: Result<
    Settlement,
    EscrowError,
>)
    ensures
        ({
            let found = program_address_search(custodial_seeds(old(ctx).escrow_key@), old(ctx).program_id@);
            match settle_error(*old(ctx), found, expected_deposit_amount, expected_taker_amount) {
                Some(e) => r == Err::<Settlement, EscrowError>(e) && *final(ctx) == *old(ctx),
                None => r matches Ok(s) && is_settlement(s, *old(ctx), found_bump(found)) && *final(ctx) == closed(
                    *old(ctx),
                ),
            }
        }),
{
    let found = find_custodial_authority(&ctx.escrow_key, &ctx.program_id);
    exchange_with_authority(ctx, found, expected_deposit_amount, expected_taker_amount)
}

} // verus!

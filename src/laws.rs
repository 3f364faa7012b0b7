use vstd::prelude::*;
use crate::address::{derives, found_bump};
use crate::escrow::{
    EscrowError, Exchange, InitializeEscrow, Opening, Settlement, accounts_match, closed, is_opening,
    is_settlement, open_error, opened, opened_record, settle_error,
};
use crate::ledger::{Balances, apply_transfer, move_amount};

verus! {

/// An opening that goes through writes a record with the five fields as
/// supplied, creates the custodial account at the derived address for the
/// offered kind of token with the derived address as its authority, and its
/// transfer leaves the fresh custodial account holding exactly the offered
/// amount and the source account poorer by exactly that.
pub proof fn lemma_open_funds_custody(
    ctx: InitializeEscrow,
    found: Option<(Seq<u8>, u8)>,
    deposit_amount: u64,
    taker_amount: u64,
    post: InitializeEscrow,
    o: Opening,
    b: Balances,
)
    requires
        open_error(ctx, found, deposit_amount) is None,
        opened(ctx, post, deposit_amount, taker_amount),
        is_opening(o, ctx, deposit_amount),
        b.contains_key(ctx.initializer_token_account.key@),
        b.contains_key(ctx.deposit_token_account@),
        b[ctx.deposit_token_account@] == 0,
    ensures
        post.escrow_account is Some,
        opened_record(post.escrow_account->0, ctx, deposit_amount, taker_amount),
        derives(found, o.custodial.key@),
        o.custodial.mint@ == ctx.deposit_mint@,
        o.custodial.authority@ == o.custodial.key@,
        apply_transfer(b, o.deposit)[ctx.deposit_token_account@] == deposit_amount,
        apply_transfer(b, o.deposit)[ctx.initializer_token_account.key@] == b[ctx.initializer_token_account.key@]
            - deposit_amount,
{
}

/// A settlement whose expectations equal the record's terms goes through when
/// the accounts are the recorded ones, the taker can pay and the custodial
/// account is the derived one. Its transfers give the taker the whole
/// custodial balance, give the initializer exactly the requested amount, take
/// exactly that from the taker, and the record is closed with its deposit
/// returned to the initializer.
pub proof fn lemma_settle_exchanges(
    ctx: Exchange,
    found: Option<(Seq<u8>, u8)>,
    s: Settlement,
    b: Balances,
    lamports: Balances,
)
    requires
        ctx.escrow_account is Some,
        accounts_match(ctx.escrow_account->0, ctx),
        ctx.taker_deposit_token_account.amount >= ctx.escrow_account->0.taker_amount,
        derives(found, ctx.deposit_token_account.key@),
        is_settlement(s, ctx, found_bump(found)),
        ctx.deposit_token_account.key@ != ctx.taker_receive_token_account@,
        ctx.deposit_token_account.key@ != ctx.taker_deposit_token_account.key@,
        ctx.deposit_token_account.key@ != ctx.initializer_receive_token_account@,
        ctx.taker_receive_token_account@ != ctx.taker_deposit_token_account.key@,
        ctx.taker_receive_token_account@ != ctx.initializer_receive_token_account@,
        ctx.taker_deposit_token_account.key@ != ctx.initializer_receive_token_account@,
        b.contains_key(ctx.deposit_token_account.key@),
        b.contains_key(ctx.taker_receive_token_account@),
        b.contains_key(ctx.taker_deposit_token_account.key@),
        b.contains_key(ctx.initializer_receive_token_account@),
        b[ctx.deposit_token_account.key@] == ctx.deposit_token_account.amount,
        ctx.escrow_key@ != ctx.initializer@,
        lamports.contains_key(ctx.escrow_key@),
        lamports.contains_key(ctx.initializer@),
        lamports[ctx.escrow_key@] == ctx.escrow_lamports,
    ensures
        ({
            let rec = ctx.escrow_account->0;
            let after = apply_transfer(apply_transfer(b, s.to_taker), s.to_initializer);
            let refunded = move_amount(lamports, ctx.escrow_key@, s.close_to@, s.refund as int);
            &&& settle_error(ctx, found, rec.deposit_amount, rec.taker_amount) is None
            &&& after[ctx.taker_receive_token_account@] == b[ctx.taker_receive_token_account@]
                + b[ctx.deposit_token_account.key@]
            &&& after[ctx.deposit_token_account.key@] == 0
            &&& after[ctx.initializer_receive_token_account@] == b[ctx.initializer_receive_token_account@]
                + rec.taker_amount
            &&& after[ctx.taker_deposit_token_account.key@] == b[ctx.taker_deposit_token_account.key@]
                - rec.taker_amount
            &&& closed(ctx).escrow_account is None
            &&& refunded[ctx.initializer@] == lamports[ctx.initializer@] + lamports[ctx.escrow_key@]
            &&& refunded[ctx.escrow_key@] == 0
        }),
{
}

/// When the taker's expected offered amount differs from the one held, or its
/// expected payment is above the recorded one, a settlement with the recorded
/// accounts is refused as an unexpected state, whatever the derivation gave.
pub proof fn lemma_unmet_expectations_refused(
    ctx: Exchange,
    found: Option<(Seq<u8>, u8)>,
    expected_deposit_amount: u64,
    expected_taker_amount: u64,
)
    requires
        ctx.escrow_account is Some,
        accounts_match(ctx.escrow_account->0, ctx),
        expected_deposit_amount != ctx.escrow_account->0.deposit_amount || expected_taker_amount
            > ctx.escrow_account->0.taker_amount,
    ensures
        settle_error(ctx, found, expected_deposit_amount, expected_taker_amount) == Some(
            EscrowError::UnexpectedEscrowState,
        ),
{
}

/// A record settles at most once: after a settlement went through, any
/// further settlement against the closed record is refused.
pub proof fn lemma_settles_at_most_once(
    ctx: Exchange,
    found: Option<(Seq<u8>, u8)>,
    expected_deposit_amount: u64,
    expected_taker_amount: u64,
    found_again: Option<(Seq<u8>, u8)>,
    expected_deposit_again: u64,
    expected_taker_again: u64,
)
    requires
        settle_error(ctx, found, expected_deposit_amount, expected_taker_amount) is None,
    ensures
        settle_error(closed(ctx), found_again, expected_deposit_again, expected_taker_again) == Some(
            EscrowError::InvalidAccountState,
        ),
{
}

/// A custodial or receiving account other than the recorded one is refused
/// as a mismatch, before any amount is looked at.
pub proof fn lemma_mismatched_accounts_refused(
    ctx: Exchange,
    found: Option<(Seq<u8>, u8)>,
    expected_deposit_amount: u64,
    expected_taker_amount: u64,
)
    requires
        ctx.escrow_account is Some,
        ctx.escrow_account->0.deposit_token_account@ != ctx.deposit_token_account.key@
            || ctx.escrow_account->0.initializer_receive_token_account@
            != ctx.initializer_receive_token_account@,
    ensures
        settle_error(ctx, found, expected_deposit_amount, expected_taker_amount) == Some(
            EscrowError::AccountMismatch,
        ),
{
}

} // verus!

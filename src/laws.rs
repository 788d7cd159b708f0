//! Properties that relate setup, drips and the ledger's documented effects.
use vstd::prelude::*;

use crate::address::{control_derivation, is_control_address};
use crate::faucet::{
    drip_error, is_planned_mint, planned_setup, setup_address_ok, setup_error, Drip, FaucetError,
    Initialize, MintTo,
};
use crate::ledger::{after_mint_to, after_set_authority, max_supply, LedgerView};

verus! {

/// Setup on a mint whose derived address is free succeeds, when the signing
/// caller holds the mint's authority; once that address is occupied, setup on
/// the same mint fails with `AlreadyInitialized` and so writes nothing.
pub proof fn setup_succeeds_once(ctx: Initialize, bump: u8)
    requires
        ctx.admin_is_signer,
        setup_address_ok(ctx, bump),
        ctx.mint_authority matches Some(a) && a@ == ctx.admin@,
    ensures
        !ctx.config_in_use ==> setup_error(ctx) is None,
        setup_error(Initialize { config_in_use: true, ..ctx }) == Some(
            FaucetError::AlreadyInitialized,
        ),
{
    let again = Initialize { config_in_use: true, ..ctx };
    assert(setup_address_ok(again, bump));
}

/// After a successful setup, the ledger takes the authority change it
/// instructs, and the mint's authority is then the control record's address,
/// no longer the admin's key.
pub proof fn setup_hands_over_authority(ctx: Initialize, l: LedgerView)
    requires
        setup_error(ctx) is None,
        l.mint_authority.contains_key(ctx.mint@),
        l.mint_authority[ctx.mint@] == Some(ctx.admin@),
        ctx.config@ != ctx.admin@,
    ensures
        after_set_authority(l, planned_setup(ctx).authority_change) matches Some(l2) && {
            &&& l2.mint_authority[ctx.mint@] == Some(ctx.config@)
            &&& l2.mint_authority[ctx.mint@] != Some(ctx.admin@)
        },
{
    let l2 = after_set_authority(l, planned_setup(ctx).authority_change)->Some_0;
    assert(l2.mint_authority[ctx.mint@] == Some(ctx.config@));
}

/// The instruction of a successful drip, on a mint delegated to the record,
/// credits the recipient with exactly `amount` and leaves every other
/// balance as it was; the supply grows by `amount` too.
pub proof fn drip_credits_exactly(ctx: Drip, amount: u64, m: MintTo, l: LedgerView)
    requires
        drip_error(ctx) is None,
        is_planned_mint(ctx, amount, m),
        l.mint_authority.contains_key(ctx.mint@),
        l.mint_authority[ctx.mint@] == Some(ctx.config@),
        l.supply.contains_key(ctx.mint@),
        l.balance.contains_key(ctx.to@),
        l.account_mint.contains_key(ctx.to@),
        l.account_mint[ctx.to@] == ctx.to_mint@,
        l.supply[ctx.mint@] + amount <= max_supply(),
    ensures
        after_mint_to(l, m) matches Some(l2) && {
            &&& l2.balance.dom() == l.balance.dom()
            &&& l2.balance[ctx.to@] == l.balance[ctx.to@] + amount
            &&& forall|k: Seq<u8>| k != ctx.to@ ==> #[trigger] l2.balance[k] == l.balance[k]
            &&& l2.supply[ctx.mint@] == l.supply[ctx.mint@] + amount
        },
{
    let l2 = after_mint_to(l, m)->Some_0;
    assert(l2.balance.dom() =~= l.balance.dom());
}

/// A drip by anyone but the stored admin fails with `Unauthorized`, so it
/// hands out no instruction and no balance changes.
pub proof fn drip_needs_admin(ctx: Drip)
    requires
        ctx.admin@ != ctx.record.admin@,
    ensures
        drip_error(ctx) == Some(FaucetError::Unauthorized),
{
}

/// A drip by the admin through the mint's own record, into an account of
/// another mint, fails with `AccountMismatch`.
pub proof fn drip_rejects_other_mint(ctx: Drip)
    requires
        ctx.admin_is_signer,
        ctx.admin@ == ctx.record.admin@,
        ctx.record.mint@ == ctx.mint@,
        is_control_address(ctx.program_id@, ctx.mint@, ctx.record.bump, ctx.config@),
        ctx.to_mint@ != ctx.mint@,
    ensures
        drip_error(ctx) == Some(FaucetError::AccountMismatch),
{
}

/// Re-deriving the control address of a mint from its seeds and the bump
/// that setup stored gives back the address that setup used, so a drip
/// through the record that setup wrote passes the address check.
pub proof fn rederivation_matches_setup(ctx: Initialize, d: Drip)
    requires
        setup_error(ctx) is None,
        d.program_id == ctx.program_id,
        d.mint == ctx.mint,
        d.config == ctx.config,
        d.record == planned_setup(ctx).record,
    ensures
        is_control_address(d.program_id@, d.mint@, d.record.bump, d.config@),
        drip_error(d) != Some(FaucetError::AddressMismatch),
{
    let b = choose|b: u8| setup_address_ok(ctx, b);
    assert(control_derivation(ctx.program_id@, ctx.mint@) == Some((ctx.config@, b)));
}

} // verus!

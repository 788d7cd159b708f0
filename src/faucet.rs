//! Setup of the delegation and the gated mint ("drip").
//!
//! Both operations are decisions on what the host hands over about the
//! accounts involved. A successful decision comes with the one ledger
//! instruction that carries it out; the host performs that instruction.
use vstd::prelude::*;

use crate::address::{
    control_address_matches, control_derivation, control_seeds_with_bump, control_signer_seeds,
    find_control_address, is_control_address, keys_equal, Key,
};

verus! {

/// The persistent control record of one mint.
#[derive(Clone, Copy, Debug, PartialEq, Eq)]
pub struct Config {
    /// The only caller allowed to request drips.
    pub admin: Key,
    /// The mint that this record controls.
    pub mint: Key,
    /// The bump seed that makes the record's address a valid derivation.
    pub bump: u8,
}

impl Config {
    /// Bytes of the stored layout: admin, mint, bump.
    pub const SIZE: usize = 32 + 32 + 1;
}

/// Why an operation failed. Every failure leaves all state as it was.
#[derive(Clone, Copy, Debug, PartialEq, Eq)]
pub enum FaucetError {
    /// The caller did not sign, is not the stored admin, or (at setup) is not
    /// the mint's current authority.
    Unauthorized,
    /// A control record already occupies the mint's derived address.
    AlreadyInitialized,
    /// The supplied record is not the one derived for the given mint.
    AddressMismatch,
    /// The recipient account belongs to another mint.
    AccountMismatch,
    /// The token ledger refused the instruction; its error code, unchanged.
    Ledger(u32),
}

/// What setup is told about the accounts it works on.
#[derive(Clone, Copy, Debug, PartialEq, Eq)]
pub struct Initialize {
    /// The key of this program, under which addresses are derived.
    pub program_id: Key,
    /// The caller, who pays for the record and must hold the mint's authority.
    pub admin: Key,
    /// Whether the caller signed the call.
    pub admin_is_signer: bool,
    /// The mint to be put under control.
    pub mint: Key,
    /// The mint's current minting authority, if it has one.
    pub mint_authority: Option<Key>,
    /// The address at which the control record is to be created.
    pub config: Key,
    /// Whether an account already occupies that address.
    pub config_in_use: bool,
}

/// A ledger instruction: make `new_authority` the minting authority of
/// `mint`, signed by `current_authority`.
#[derive(Clone, Copy, Debug, PartialEq, Eq)]
pub struct SetAuthority {
    pub mint: Key,
    pub current_authority: Key,
    pub new_authority: Key,
}

/// What a successful setup does: write `record` at the derived address and
/// hand the mint's authority over to that address.
#[derive(Clone, Copy, Debug, PartialEq, Eq)]
pub struct Setup {
    pub record: Config,
    pub authority_change: SetAuthority,
}

/// What a drip is told about the accounts it works on.
#[derive(Clone, Copy, Debug, PartialEq, Eq)]
pub struct Drip {
    /// The key of this program, under which addresses are derived.
    pub program_id: Key,
    /// The caller, who claims to be the stored admin.
    pub admin: Key,
    /// Whether the caller signed the call.
    pub admin_is_signer: bool,
    /// The mint to mint from.
    pub mint: Key,
    /// The address of the supplied control record.
    pub config: Key,
    /// The contents of the supplied control record.
    pub record: Config,
    /// The recipient token account.
    pub to: Key,
    /// The mint that the recipient token account belongs to.
    pub to_mint: Key,
}

/// A ledger instruction: mint `amount` new tokens of `mint` into `to`, with
/// the control record at `authority` as minting authority, which signs by
/// presenting `signer_seeds`.
#[derive(Clone, Debug, PartialEq, Eq)]
pub struct MintTo {
    pub mint: Key,
    pub to: Key,
    pub authority: Key,
    pub amount: u64,
    pub signer_seeds: Vec<Vec<u8>>,
}

/// Whether `ctx.config` is the canonical control address of `ctx.mint`, with
/// `bump` as the seed that derives it.
pub open spec fn setup_address_ok(ctx: Initialize, bump: u8) -> bool {
    &&& control_derivation(ctx.program_id@, ctx.mint@) == Some((ctx.config@, bump))
    &&& is_control_address(ctx.program_id@, ctx.mint@, bump, ctx.config@)
}

/// The error that setup gives on `ctx`, checked in this order, or `None`
/// where it succeeds.
pub open spec fn setup_error(ctx: Initialize) -> Option<FaucetError> {
    if !ctx.admin_is_signer {
        Some(FaucetError::Unauthorized)
    } else if !(exists|b: u8| setup_address_ok(ctx, b)) {
        Some(FaucetError::AddressMismatch)
    } else if ctx.config_in_use {
        Some(FaucetError::AlreadyInitialized)
    } else if !(ctx.mint_authority matches Some(a) && a@ == ctx.admin@) {
        Some(FaucetError::Unauthorized)
    } else {
        None
    }
}

/// What a successful setup on `ctx` writes and instructs.
pub open spec fn planned_setup(ctx: Initialize) -> Setup {
    Setup {
        record: Config {
            admin: ctx.admin,
            mint: ctx.mint,
            bump: control_derivation(ctx.program_id@, ctx.mint@)->Some_0.1,
        },
        authority_change: SetAuthority {
            mint: ctx.mint,
            current_authority: ctx.admin,
            new_authority: ctx.config,
        },
    }
}

/// Sets up the control record of `ctx.mint`: checks the caller and the
/// record's address, and returns the record to write together with the
/// instruction that hands the mint's authority to that address.
pub fn initialize(ctx: &Initialize) -> (r: Result<Setup, FaucetError>)
    ensures
        r == match setup_error(*ctx) {
            Some(e) => Err(e),
            None => Ok(planned_setup(*ctx)),
        },
{
    if !ctx.admin_is_signer {
        return Err(FaucetError::Unauthorized);
    }
    let (address, bump) = match find_control_address(&ctx.program_id, &ctx.mint) {
        Some(d) => d,
        None => {
            return Err(FaucetError::AddressMismatch);
        },
    };
    if !keys_equal(&address, &ctx.config) {
        proof {
            assert forall|b: u8| !setup_address_ok(*ctx, b) by {}
        }
        return Err(FaucetError::AddressMismatch);
    }
    assert(setup_address_ok(*ctx, bump));
    if ctx.config_in_use {
        return Err(FaucetError::AlreadyInitialized);
    }
    let authorized = match &ctx.mint_authority {
        Some(a) => keys_equal(a, &ctx.admin),
        None => false,
    };
    if !authorized {
        return Err(FaucetError::Unauthorized);
    }
    Ok(
        Setup {
            record: Config { admin: ctx.admin, mint: ctx.mint, bump },
            authority_change: SetAuthority {
                mint: ctx.mint,
                current_authority: ctx.admin,
                new_authority: ctx.config,
            },
        },
    )
}

/// The error that a drip gives on `ctx`, checked in this order, or `None`
/// where it succeeds.
pub open spec fn drip_error(ctx: Drip) -> Option<FaucetError> {
    if !ctx.admin_is_signer || ctx.admin@ != ctx.record.admin@ {
        Some(FaucetError::Unauthorized)
    } else if ctx.record.mint@ != ctx.mint@ || !is_control_address(
        ctx.program_id@,
        ctx.mint@,
        ctx.record.bump,
        ctx.config@,
    ) {
        Some(FaucetError::AddressMismatch)
    } else if ctx.to_mint@ != ctx.mint@ {
        Some(FaucetError::AccountMismatch)
    } else {
        None
    }
}

/// Whether `m` is the instruction that a successful drip on `ctx` gives:
/// `amount` tokens of the mint into the recipient, with the record as
/// authority, signing with its seeds and stored bump.
pub open spec fn is_planned_mint(ctx: Drip, amount: u64, m: MintTo) -> bool {
    &&& m.mint == ctx.mint
    &&& m.to == ctx.to
    &&& m.authority == ctx.config
    &&& m.amount == amount
    &&& m.signer_seeds.deep_view() == control_seeds_with_bump(ctx.mint@, ctx.record.bump)
}

/// Mints `amount` tokens into the recipient on behalf of the control record:
/// checks the caller against the stored admin, re-derives the record's
/// address from the mint and the stored bump, checks the recipient's mint,
/// and returns the instruction to perform.
pub fn drip(ctx: &Drip, amount: u64) -> (r: Result<MintTo, FaucetError>)
    ensures
        match drip_error(*ctx) {
            Some(e) => r == Err::<MintTo, FaucetError>(e),
            None => r matches Ok(m) && is_planned_mint(*ctx, amount, m),
        },
{
    if !ctx.admin_is_signer || !keys_equal(&ctx.admin, &ctx.record.admin) {
        return Err(FaucetError::Unauthorized);
    }
    if !keys_equal(&ctx.record.mint, &ctx.mint) || !control_address_matches(
        &ctx.program_id,
        &ctx.mint,
        ctx.record.bump,
        &ctx.config,
    ) {
        return Err(FaucetError::AddressMismatch);
    }
    if !keys_equal(&ctx.to_mint, &ctx.mint) {
        return Err(FaucetError::AccountMismatch);
    }
    let signer_seeds = control_signer_seeds(&ctx.mint, ctx.record.bump);
    Ok(MintTo { mint: ctx.mint, to: ctx.to, authority: ctx.config, amount, signer_seeds })
}

} // verus!

//! What the token ledger does with the instructions that this library hands
//! out, as its interface documents it. The ledger itself lives outside.
use vstd::prelude::*;

use crate::faucet::{MintTo, SetAuthority};

verus! {

/// The part of the token ledger's state that the instructions touch, keyed by
/// the bytes of account keys.
pub struct LedgerView {
    /// Each mint's minting authority, if it has one.
    pub mint_authority: Map<Seq<u8>, Option<Seq<u8>>>,
    /// Each mint's total supply.
    pub supply: Map<Seq<u8>, nat>,
    /// Each token account's balance.
    pub balance: Map<Seq<u8>, nat>,
    /// The mint that each token account belongs to.
    pub account_mint: Map<Seq<u8>, Seq<u8>>,
}

/// The largest supply a mint can have.
pub open spec fn max_supply() -> nat {
    u64::MAX as nat
}

/// The ledger after `c`, or `None` where it refuses `c`: the minting
/// authority changes only where the current authority signed.
pub open spec fn after_set_authority(l: LedgerView, c: SetAuthority) -> Option<LedgerView> {
    if l.mint_authority.contains_key(c.mint@) && l.mint_authority[c.mint@] == Some(
        c.current_authority@,
    ) {
        Some(
            LedgerView {
                mint_authority: l.mint_authority.insert(c.mint@, Some(c.new_authority@)),
                ..l
            },
        )
    } else {
        None
    }
}

/// The ledger after `m`, or `None` where it refuses `m`: the mint's authority
/// must be `m.authority`, the recipient must belong to the mint, and the new
/// supply must not overflow. Supply and recipient grow by `m.amount`.
pub open spec fn after_mint_to(l: LedgerView, m: MintTo) -> Option<LedgerView> {
    if l.mint_authority.contains_key(m.mint@) && l.mint_authority[m.mint@] == Some(m.authority@)
        && l.supply.contains_key(m.mint@) && l.balance.contains_key(m.to@)
        && l.account_mint.contains_key(m.to@) && l.account_mint[m.to@] == m.mint@
        && l.supply[m.mint@] + m.amount <= max_supply() {
        Some(
            LedgerView {
                supply: l.supply.insert(m.mint@, (l.supply[m.mint@] + m.amount) as nat),
                balance: l.balance.insert(m.to@, (l.balance[m.to@] + m.amount) as nat),
                ..l
            },
        )
    } else {
        None
    }
}

} // verus!

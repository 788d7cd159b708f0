//! Keys and the deterministic derivation of the control record's address.
use vstd::prelude::*;

verus! {

/// The fixed label that, with the mint's key, seeds the control record's
/// address: the bytes of `"control"`.
pub open spec fn control_label() -> Seq<u8> {
    seq![0x63u8, 0x6f, 0x6e, 0x74, 0x72, 0x6f, 0x6c]
}

/// A 32-byte account key.
pub type Key = [u8; 32];

/// The address that `Pubkey::create_program_address` yields for these seeds
/// under this program, or `None` where it fails.
pub uninterp spec fn created_address(seeds: Seq<Seq<u8>>, program_id: Seq<u8>) -> Option<Seq<u8>>;

/// The address and bump seed that `Pubkey::try_find_program_address` yields for
/// these seeds under this program, or `None` where it finds none.
pub uninterp spec fn found_address(seeds: Seq<Seq<u8>>, program_id: Seq<u8>) -> Option<(Seq<u8>, u8)>;

/// The seeds of the control record of `mint`: the label, then the mint's key.
pub open spec fn control_seeds(mint: Seq<u8>) -> Seq<Seq<u8>> {
    seq![control_label(), mint]
}

/// The control record's seeds followed by the one-byte bump seed.
pub open spec fn control_seeds_with_bump(mint: Seq<u8>, bump: u8) -> Seq<Seq<u8>> {
    control_seeds(mint).push(seq![bump])
}

/// The canonical address and bump of the control record of `mint`.
pub open spec fn control_derivation(program_id: Seq<u8>, mint: Seq<u8>) -> Option<(Seq<u8>, u8)> {
    found_address(control_seeds(mint), program_id)
}

/// Whether `address` is what the control seeds of `mint`, with `bump`, derive.
pub open spec fn is_control_address(program_id: Seq<u8>, mint: Seq<u8>, bump: u8, address: Seq<u8>) -> bool {
    created_address(control_seeds_with_bump(mint, bump), program_id) == Some(address)
}

/// Relies on `Pubkey::create_program_address` (solana-pubkey, as anchor_lang
/// re-exports it): a function of the seeds and the program id alone, which
/// returns the derived address or an error (here `None`).
#[verifier::external_body]
fn create_program_address(seeds: &Vec<Vec<u8>>, program_id: &Key) -> (r: Option<Key>)
    ensures
        match r {
            Some(a) => created_address(seeds.deep_view(), program_id@) == Some(a@),
            None => created_address(seeds.deep_view(), program_id@) is None,
        },
{
    let parts: Vec<&[u8]> = seeds.iter().map(|s| s.as_slice()).collect();
    let program = anchor_lang::prelude::Pubkey::new_from_array(*program_id);
    match anchor_lang::prelude::Pubkey::create_program_address(&parts, &program) {
        Ok(k) => Some(k.to_bytes()),
        Err(_) => None,
    }
}

/// Relies on `Pubkey::try_find_program_address` (solana-pubkey, as anchor_lang
/// re-exports it): a function of the seeds and the program id alone, which
/// tries `create_program_address` on the seeds followed by one bump byte and
/// returns the first address it gets, with that bump, or `None`.
#[verifier::external_body]
fn try_find_program_address(seeds: &Vec<Vec<u8>>, program_id: &Key) -> (r: Option<(Key, u8)>)
    ensures
        match r {
            Some((a, b)) => found_address(seeds.deep_view(), program_id@) == Some((a@, b)),
            None => found_address(seeds.deep_view(), program_id@) is None,
        },
        r matches Some((a, b)) ==> created_address(seeds.deep_view().push(seq![b]), program_id@)
            == Some(a@),
{
    let parts: Vec<&[u8]> = seeds.iter().map(|s| s.as_slice()).collect();
    let program = anchor_lang::prelude::Pubkey::new_from_array(*program_id);
    anchor_lang::prelude::Pubkey::try_find_program_address(&parts, &program)
        .map(|(k, b)| (k.to_bytes(), b))
}

/// A byte vector looks the same under its view and its deep view.
proof fn lemma_bytes_deep_view(v: &Vec<u8>)
    ensures
        v.deep_view() == v@,
{
    assert(v.deep_view() =~= v@);
}

/// Whether two keys hold the same bytes.
pub fn keys_equal(a: &Key, b: &Key) -> (r: bool)
    ensures
        r == (a@ == b@),
{
    let mut i: usize = 0;
    while i < 32
        invariant
            i <= 32,
            a@.len() == 32,
            b@.len() == 32,
            forall|j: int| 0 <= j < i ==> a@[j] == b@[j],
        decreases 32 - i,
    {
        if a[i] != b[i] {
            return false;
        }
        i = i + 1;
    }
    assert(a@ =~= b@);
    true
}

/// The seeds of the control record of `mint`, in the form that signing
/// on its behalf presents them.
pub fn control_seeds_of(mint: &Key) -> (r: Vec<Vec<u8>>)
    ensures
        r.deep_view() == control_seeds(mint@),
{
    let label: Vec<u8> = vec![0x63u8, 0x6f, 0x6e, 0x74, 0x72, 0x6f, 0x6c];
    let mut m: Vec<u8> = Vec::new();
    let mut j: usize = 0;
    while j < 32
        invariant
            j <= 32,
            mint@.len() == 32,
            m@ == mint@.subrange(0, j as int),
        decreases 32 - j,
    {
        m.push(mint[j]);
        j = j + 1;
    }
    assert(label@ =~= control_label());
    assert(m@ =~= mint@);
    proof {
        lemma_bytes_deep_view(&label);
        lemma_bytes_deep_view(&m);
    }
    let r = vec![label, m];
    assert(r.deep_view() =~= control_seeds(mint@));
    r
}

/// The seeds of the control record of `mint` followed by `bump`: what the
/// record presents in place of a signature.
pub fn control_signer_seeds(mint: &Key, bump: u8) -> (r: Vec<Vec<u8>>)
    ensures
        r.deep_view() == control_seeds_with_bump(mint@, bump),
{
    let mut seeds = control_seeds_of(mint);
    let bump_seed: Vec<u8> = vec![bump];
    proof {
        lemma_bytes_deep_view(&bump_seed);
    }
    assert(bump_seed@ =~= seq![bump]);
    seeds.push(bump_seed);
    assert(seeds.deep_view() =~= control_seeds_with_bump(mint@, bump));
    seeds
}

/// Derives the canonical address and bump seed of the control record of
/// `mint` under `program_id`. The same inputs always give the same result.
pub fn find_control_address(program_id: &Key, mint: &Key) -> (r: Option<(Key, u8)>)
    ensures
        match r {
            Some((a, b)) => control_derivation(program_id@, mint@) == Some((a@, b)),
            None => control_derivation(program_id@, mint@) is None,
        },
        r matches Some((a, b)) ==> is_control_address(program_id@, mint@, b, a@),
{
    let seeds = control_seeds_of(mint);
    try_find_program_address(&seeds, program_id)
}

/// Re-derives the control record's address of `mint` from its seeds and the
/// stored `bump`, and tells whether it is `address`.
pub fn control_address_matches(program_id: &Key, mint: &Key, bump: u8, address: &Key) -> (r: bool)
    ensures
        r == is_control_address(program_id@, mint@, bump, address@),
{
    let seeds = control_signer_seeds(mint, bump);
    match create_program_address(&seeds, program_id) {
        Some(a) => keys_equal(&a, address),
        None => false,
    }
}

} // verus!

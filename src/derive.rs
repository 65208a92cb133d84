use vstd::prelude::*;

use crate::address::Address;

verus! {

/// The kinds of record and vault whose addresses the program derives. Each
/// has its own seed tag, so no two kinds can share an address.
#[derive(Clone, Copy, Debug, PartialEq, Eq, Structural)]
pub enum Namespace {
    /// A user's ledger, keyed by its owner.
    UserConfig,
    /// A user's native-currency vault, keyed by its owner.
    Vault,
    /// The protocol treasury ledger.
    Treasury,
    /// The protocol's fee vault.
    TreasuryVault,
    /// A user's vault for a secondary asset, keyed by owner and mint.
    TokenVault,
    /// A user's auto-exchange settings, keyed by its owner.
    SwapConfig,
    /// A user's allocation ledger, keyed by its owner.
    AllocationConfig,
}

/// The seed tag of a namespace, as ASCII bytes.
pub open spec fn tag_of(namespace: Namespace) -> Seq<u8> {
    match namespace {
        // "config"
        Namespace::UserConfig => seq![99u8, 111, 110, 102, 105, 103],
        // "vault"
        Namespace::Vault => seq![118u8, 97, 117, 108, 116],
        // "treasury"
        Namespace::Treasury => seq![116u8, 114, 101, 97, 115, 117, 114, 121],
        // "treasury_vault"
        Namespace::TreasuryVault => seq![
            116u8, 114, 101, 97, 115, 117, 114, 121, 95, 118, 97, 117, 108, 116,
        ],
        // "token_vault"
        Namespace::TokenVault => seq![116u8, 111, 107, 101, 110, 95, 118, 97, 117, 108, 116],
        // "swap_config"
        Namespace::SwapConfig => seq![115u8, 119, 97, 112, 95, 99, 111, 110, 102, 105, 103],
        // "allocation_config"
        Namespace::AllocationConfig => seq![
            97u8, 108, 108, 111, 99, 97, 116, 105, 111, 110, 95, 99, 111, 110, 102, 105, 103,
        ],
    }
}

/// The seeds of an address: the namespace tag, then the owner's identity and
/// the secondary key where they are given.
pub open spec fn seeds_of(
    namespace: Namespace,
    owner: Option<Address>,
    secondary: Option<Address>,
) -> Seq<Seq<u8>> {
    let base = seq![tag_of(namespace)];
    let with_owner = match owner {
        Some(o) => base.push(o@),
        None => base,
    };
    match secondary {
        Some(s) => with_owner.push(s@),
        None => with_owner,
    }
}

/// The seeds of an address followed by its one-byte discriminant.
pub open spec fn seeds_with_bump(
    namespace: Namespace,
    owner: Option<Address>,
    secondary: Option<Address>,
    bump: u8,
) -> Seq<Seq<u8>> {
    seeds_of(namespace, owner, secondary).push(seq![bump])
}

/// The address that the host derives from `seeds` for `program`, if the hash
/// of the seeds falls off the curve; none if it falls on it.
pub uninterp spec fn created_address(seeds: Seq<Seq<u8>>, program: Seq<u8>) -> Option<Seq<u8>>;

/// The first viable address and discriminant that the host finds for `seeds`
/// and `program`, searching from the largest discriminant down.
pub uninterp spec fn found_address(seeds: Seq<Seq<u8>>, program: Seq<u8>) -> Option<(Seq<u8>, u8)>;

/// Relies on `Pubkey::create_program_address` (solana-program, re-exported by
/// anchor-lang): the address is a function of the seeds and the program alone.
/// With at most sixteen seeds of at most 32 bytes each, its one failure is a
/// hash that lies on the curve.
#[verifier::external_body]
fn create_program_address(seeds: &Vec<Vec<u8>>, program: &Address) -> (r: Option<Address>)
    requires
        seeds.len() <= 16,
        forall|i: int| 0 <= i < seeds.len() ==> #[trigger] seeds@[i].len() <= 32,
    ensures
        match r {
            Some(a) => created_address(seeds.deep_view(), program@) == Some(a@),
            None => created_address(seeds.deep_view(), program@) is None,
        },
{
    let slices: Vec<&[u8]> = seeds.iter().map(|s| s.as_slice()).collect();
    let id = anchor_lang::prelude::Pubkey::new_from_array(program.bytes);
    anchor_lang::prelude::Pubkey::create_program_address(&slices, &id)
        .ok()
        .map(|k| Address { bytes: k.to_bytes() })
}

/// Relies on `Pubkey::try_find_program_address` (solana-program, re-exported
/// by anchor-lang): the result is a function of the seeds and the program
/// alone, and a discriminant it returns is one for which
/// `create_program_address`, given the seeds and that byte, yields the same
/// address.
#[verifier::external_body]
fn try_find_program_address(seeds: &Vec<Vec<u8>>, program: &Address) -> (r: Option<(Address, u8)>)
    ensures
        match r {
            Some((a, b)) => {
                &&& found_address(seeds.deep_view(), program@) == Some((a@, b))
                &&& created_address(seeds.deep_view().push(seq![b]), program@) == Some(a@)
            },
            None => found_address(seeds.deep_view(), program@) is None,
        },
{
    let slices: Vec<&[u8]> = seeds.iter().map(|s| s.as_slice()).collect();
    let id = anchor_lang::prelude::Pubkey::new_from_array(program.bytes);
    anchor_lang::prelude::Pubkey::try_find_program_address(&slices, &id)
        .map(|(k, b)| (Address { bytes: k.to_bytes() }, b))
}

/// A byte vector's deep view is its view.
proof fn lemma_bytes_deep_view(v: Vec<u8>)
    ensures
        v.deep_view() == v@,
{
    assert(v.deep_view() =~= v@);
}

impl Namespace {
    /// The seed tag of the namespace, as ASCII bytes.
    pub fn tag(&self) -> (r: Vec<u8>)
        ensures
            r@ == tag_of(*self),
    {
        let r = match self {
            Namespace::UserConfig => vec![99u8, 111, 110, 102, 105, 103],
            Namespace::Vault => vec![118u8, 97, 117, 108, 116],
            Namespace::Treasury => vec![116u8, 114, 101, 97, 115, 117, 114, 121],
            Namespace::TreasuryVault => vec![
                116u8, 114, 101, 97, 115, 117, 114, 121, 95, 118, 97, 117, 108, 116,
            ],
            Namespace::TokenVault => vec![116u8, 111, 107, 101, 110, 95, 118, 97, 117, 108, 116],
            Namespace::SwapConfig => vec![115u8, 119, 97, 112, 95, 99, 111, 110, 102, 105, 103],
            Namespace::AllocationConfig => vec![
                97u8, 108, 108, 111, 99, 97, 116, 105, 111, 110, 95, 99, 111, 110, 102, 105, 103,
            ],
        };
        assert(r@ =~= tag_of(*self));
        r
    }
}

/// The seeds from which the address of a record or vault is derived.
pub fn address_seeds(
    namespace: Namespace,
    owner: Option<Address>,
    secondary: Option<Address>,
) -> (r: Vec<Vec<u8>>)
    ensures
        r.deep_view() == seeds_of(namespace, owner, secondary),
        r.len() <= 3,
        forall|i: int| 0 <= i < r.len() ==> #[trigger] r@[i].len() <= 32,
{
    let mut r: Vec<Vec<u8>> = Vec::new();
    let tag = namespace.tag();
    proof {
        lemma_bytes_deep_view(tag);
    }
    r.push(tag);
    assert(r.deep_view() =~= seq![tag_of(namespace)]);
    match owner {
        Some(o) => {
            let ghost before = r.deep_view();
            let bytes = o.to_vec();
            proof {
                lemma_bytes_deep_view(bytes);
            }
            r.push(bytes);
            assert(r.deep_view() =~= before.push(o@));
        },
        None => {},
    }
    match secondary {
        Some(s) => {
            let ghost before = r.deep_view();
            let bytes = s.to_vec();
            proof {
                lemma_bytes_deep_view(bytes);
            }
            r.push(bytes);
            assert(r.deep_view() =~= before.push(s@));
        },
        None => {},
    }
    r
}

/// The seeds with which the program authorises a transfer out of a derived
/// address: the address's seeds followed by its stored discriminant.
pub fn signer_seeds(
    namespace: Namespace,
    owner: Option<Address>,
    secondary: Option<Address>,
    bump: u8,
) -> (r: Vec<Vec<u8>>)
    ensures
        r.deep_view() == seeds_with_bump(namespace, owner, secondary, bump),
        r.len() <= 4,
        forall|i: int| 0 <= i < r.len() ==> #[trigger] r@[i].len() <= 32,
{
    let mut r = address_seeds(namespace, owner, secondary);
    let ghost before = r.deep_view();
    let last = vec![bump];
    proof {
        lemma_bytes_deep_view(last);
        assert(last@ =~= seq![bump]);
    }
    r.push(last);
    assert(r.deep_view() =~= before.push(seq![bump]));
    r
}

/// Derives the address of a record or vault of `program`, and the
/// discriminant that must be stored to authorise transfers out of it later.
pub fn derive_address(
    program: &Address,
    namespace: Namespace,
    owner: Option<Address>,
    secondary: Option<Address>,
) -> (r: Option<(Address, u8)>)
    ensures
        match r {
            Some((a, b)) => {
                &&& found_address(seeds_of(namespace, owner, secondary), program@) == Some((a@, b))
                &&& created_address(seeds_with_bump(namespace, owner, secondary, b), program@)
                    == Some(a@)
            },
            None => found_address(seeds_of(namespace, owner, secondary), program@) is None,
        },
{
    let seeds = address_seeds(namespace, owner, secondary);
    try_find_program_address(&seeds, program)
}

/// Whether `expected` is the address that the seeds and the stored
/// discriminant reproduce for `program`.
pub fn is_derived_address(
    program: &Address,
    namespace: Namespace,
    owner: Option<Address>,
    secondary: Option<Address>,
    bump: u8,
    expected: &Address,
) -> (r: bool)
    ensures
        r == (created_address(seeds_with_bump(namespace, owner, secondary, bump), program@)
            == Some(expected@)),
{
    let seeds = signer_seeds(namespace, owner, secondary, bump);
    match create_program_address(&seeds, program) {
        Some(a) => a == *expected,
        None => false,
    }
}

} // verus!

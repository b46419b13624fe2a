use vstd::prelude::*;

verus! {

/// An account address: the 32 bytes of a public key.
pub type Address = [u8; 32];

/// The address that a base-58 text denotes, if it denotes one.
pub uninterp spec fn base58_address(s: Seq<char>) -> Option<Seq<u8>>;

/// Relies on solana_program's `Pubkey::from_str`: it decodes base-58 text
/// into the 32 bytes of an address, and its result depends on the text alone.
#[verifier::external_body]
pub(crate) fn parse_address(s: &str) -> (r: Option<Address>)
    ensures
        r is Some <==> base58_address(s@) is Some,
        r is Some ==> r->0@ == base58_address(s@)->0,
{
    <solana_program::pubkey::Pubkey as std::str::FromStr>::from_str(s).ok().map(|k| k.to_bytes())
}

/// Compares two addresses byte by byte.
pub fn same_address(a: &Address, b: &Address) -> (r: bool)
    ensures
        r == (a@ == b@),
{
    let mut i: usize = 0;
    while i < 32
        invariant
            i <= 32,
            a@.len() == 32,
            b@.len() == 32,
            forall|j: int| 0 <= j < i ==> a@[j] == b@[j],
        decreases 32 - i,
    {
        if a[i] != b[i] {
            return false;
        }
        i = i + 1;
    }
    assert(a@ =~= b@);
    true
}

} // verus!

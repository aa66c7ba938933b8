//! Account identities: 32-byte keys, their text form, and program-derived
//! addresses.
use vstd::prelude::*;

verus! {

/// A 32-byte account key.
#[derive(Clone, Copy, Debug)]
pub struct Address {
    pub bytes: [u8; 32],
}

impl View for Address {
    type V = Seq<u8>;

    open spec fn view(&self) -> Seq<u8> {
        self.bytes@
    }
}

impl Address {
    pub fn new(bytes: [u8; 32]) -> (r: Address)
        ensures
            r@ == bytes@,
    {
        Address { bytes }
    }

    /// The key's bytes as a vector.
    pub fn to_vec(&self) -> (r: Vec<u8>)
        ensures
            r@ == self@,
    {
        let mut r: Vec<u8> = Vec::new();
        let mut i: usize = 0;
        while i < 32
            invariant
                i <= 32,
                self@.len() == 32,
                r@ == self@.subrange(0, i as int),
            decreases 32 - i,
        {
            r.push(self.bytes[i]);
            i = i + 1;
            assert(r@ =~= self@.subrange(0, i as int));
        }
        assert(r@ =~= self@);
        r
    }

    /// Whether both keys hold the same bytes.
    pub fn same(&self, other: &Address) -> (r: bool)
        ensures
            r == (self@ == other@),
    {
        let mut i: usize = 0;
        while i < 32
            invariant
                i <= 32,
                self@.len() == 32,
                other@.len() == 32,
                forall|j: int| 0 <= j < i ==> self@[j] == other@[j],
            decreases 32 - i,
        {
            if self.bytes[i] != other.bytes[i] {
                return false;
            }
            i = i + 1;
        }
        assert(self@ =~= other@);
        true
    }
}

impl PartialEq for Address {
    fn eq(&self, other: &Address) -> (r: bool) {
        self.same(other)
    }
}

impl vstd::std_specs::cmp::PartialEqSpecImpl for Address {
    open spec fn obeys_eq_spec() -> bool {
        true
    }

    open spec fn eq_spec(&self, other: &Address) -> bool {
        self@ == other@
    }
}

/// The base58 text of a key.
pub uninterp spec fn base58_of(key: Seq<u8>) -> Seq<char>;

/// The address derived from `seeds` under `program`, if one exists.
pub uninterp spec fn program_address_of(seeds: Seq<Seq<u8>>, program: Seq<u8>) -> Option<Seq<u8>>;

/// Whether `r` is what deriving from `seeds` under `program` gives.
pub open spec fn derived_from(r: Option<Address>, seeds: Seq<Seq<u8>>, program: Seq<u8>) -> bool {
    match r {
        Some(a) => program_address_of(seeds, program) == Some(a@),
        None => program_address_of(seeds, program) is None,
    }
}

/// The little-endian bytes of a `u32`.
pub open spec fn u32_le(x: u32) -> Seq<u8> {
    seq![x as u8, (x >> 8) as u8, (x >> 16) as u8, (x >> 24) as u8]
}

/// The little-endian bytes of a `u64`.
pub open spec fn u64_le(x: u64) -> Seq<u8> {
    seq![
        x as u8,
        (x >> 8) as u8,
        (x >> 16) as u8,
        (x >> 24) as u8,
        (x >> 32) as u8,
        (x >> 40) as u8,
        (x >> 48) as u8,
        (x >> 56) as u8,
    ]
}

pub fn u32_le_bytes(x: u32) -> (r: Vec<u8>)
    ensures
        r@ == u32_le(x),
{
    let r = vec![x as u8, (x >> 8) as u8, (x >> 16) as u8, (x >> 24) as u8];
    assert(r@ =~= u32_le(x));
    r
}

pub fn u64_le_bytes(x: u64) -> (r: Vec<u8>)
    ensures
        r@ == u64_le(x),
{
    let r = vec![
        x as u8,
        (x >> 8) as u8,
        (x >> 16) as u8,
        (x >> 24) as u8,
        (x >> 32) as u8,
        (x >> 40) as u8,
        (x >> 48) as u8,
        (x >> 56) as u8,
    ];
    assert(r@ =~= u64_le(x));
    r
}

/// Relies on the `Display` of solana_program's `Pubkey`: the base58 text of
/// the key's bytes, which depends on those bytes alone.
#[verifier::external_body]
pub(crate) fn key_text(key: &Address) -> (r: String)
    ensures
        r@ == base58_of(key@),
{
    solana_program::pubkey::Pubkey::new_from_array(key.bytes).to_string()
}

/// Relies on solana_program's `Pubkey::try_find_program_address`: the first
/// off-curve address found for `seeds` under `program`, a function of both.
#[verifier::external_body]
pub(crate) fn try_find_program_address(seeds: &Vec<Vec<u8>>, program: &Address) -> (r: Option<
    Address,
>)
    ensures
        match r {
            Some(a) => program_address_of(seeds@.map_values(|s: Vec<u8>| s@), program@) == Some(a@),
            None => program_address_of(seeds@.map_values(|s: Vec<u8>| s@), program@) is None,
        },
{
    let refs: Vec<&[u8]> = seeds.iter().map(|s| s.as_slice()).collect();
    let program_id = solana_program::pubkey::Pubkey::new_from_array(program.bytes);
    solana_program::pubkey::Pubkey::try_find_program_address(&refs, &program_id).map(
        |(k, _)| Address { bytes: k.to_bytes() },
    )
}

impl Address {
    /// The base58 text of the key.
    pub fn to_text(&self) -> (r: String)
        ensures
            r@ == base58_of(self@),
    {
        key_text(self)
    }
}

} // verus!

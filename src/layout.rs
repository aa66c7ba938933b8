//! Fixed-width little-endian fields of raw account bytes.
use crate::address::Address;
use vstd::prelude::*;

verus! {

/// The `u64` stored little-endian at `pos` in `d`.
#[verifier::opaque]
pub open spec fn le_u64(d: Seq<u8>, pos: int) -> u64 {
    (d[pos] as u64) | (d[pos + 1] as u64) << 8 | (d[pos + 2] as u64) << 16 | (d[pos + 3] as u64)
        << 24 | (d[pos + 4] as u64) << 32 | (d[pos + 5] as u64) << 40 | (d[pos + 6] as u64) << 48
        | (d[pos + 7] as u64) << 56
}

/// The `u32` stored little-endian at `pos` in `d`.
#[verifier::opaque]
pub open spec fn le_u32(d: Seq<u8>, pos: int) -> u32 {
    (d[pos] as u32) | (d[pos + 1] as u32) << 8 | (d[pos + 2] as u32) << 16 | (d[pos + 3] as u32)
        << 24
}

/// The 32-byte key stored at `pos` in `d`.
pub open spec fn key_at(d: Seq<u8>, pos: int) -> Seq<u8> {
    d.subrange(pos, pos + 32)
}

pub fn read_u8(d: &[u8], pos: usize) -> (r: u8)
    requires
        pos < d@.len(),
    ensures
        r == d@[pos as int],
{
    d[pos]
}

pub fn read_u32(d: &[u8], pos: usize) -> (r: u32)
    requires
        pos + 4 <= d@.len(),
    ensures
        r == le_u32(d@, pos as int),
{
    reveal(le_u32);
    (d[pos] as u32) | (d[pos + 1] as u32) << 8 | (d[pos + 2] as u32) << 16 | (d[pos + 3] as u32)
        << 24
}

pub fn read_u64(d: &[u8], pos: usize) -> (r: u64)
    requires
        pos + 8 <= d@.len(),
    ensures
        r == le_u64(d@, pos as int),
{
    reveal(le_u64);
    (d[pos] as u64) | (d[pos + 1] as u64) << 8 | (d[pos + 2] as u64) << 16 | (d[pos + 3] as u64)
        << 24 | (d[pos + 4] as u64) << 32 | (d[pos + 5] as u64) << 40 | (d[pos + 6] as u64) << 48
        | (d[pos + 7] as u64) << 56
}

pub fn read_key(d: &[u8], pos: usize) -> (r: Address)
    requires
        pos + 32 <= d@.len(),
    ensures
        r@ == key_at(d@, pos as int),
{
    let n = d.len();
    let mut bytes = [0u8; 32];
    let mut i: usize = 0;
    while i < 32
        invariant
            n == d@.len(),
            pos + 32 <= n,
            i <= 32,
            bytes@.len() == 32,
            forall|j: int| 0 <= j < i ==> bytes@[j] == d@[pos + j],
        decreases 32 - i,
    {
        bytes[i] = d[pos + i];
        i = i + 1;
    }
    let r = Address { bytes };
    assert(r@ =~= key_at(d@, pos as int));
    r
}

/// One field of a sequential account layout, by how many bytes it takes.
#[derive(Clone, Copy, Debug)]
pub enum Field {
    /// A field of fixed width.
    Fixed(usize),
    /// A one-byte discriminant whose value is at most the given bound.
    Tag(u8),
    /// A one-byte tag, then a payload of the given width when the tag is
    /// nonzero; the tag is at most the given bound.
    Tagged(u8, usize),
}

/// Bytes that field `f` takes when it starts at `pos` in `d`, or `None`
/// when `d` ends early or holds a tag out of range.
pub open spec fn field_width(d: Seq<u8>, pos: int, f: Field) -> Option<int> {
    match f {
        Field::Fixed(n) => if pos + n <= d.len() {
            Some(n as int)
        } else {
            None
        },
        Field::Tag(max) => if pos < d.len() && d[pos] <= max {
            Some(1)
        } else {
            None
        },
        Field::Tagged(max, n) => if pos < d.len() && d[pos] == 0 {
            Some(1)
        } else if pos < d.len() && d[pos] <= max && pos + 1 + n <= d.len() {
            Some(1 + n)
        } else {
            None
        },
    }
}

/// Where field `k` of `schema` starts in `d`, when all fields before it
/// fit.
pub open spec fn field_offset(d: Seq<u8>, schema: Seq<Field>, k: nat) -> Option<int>
    decreases k,
{
    if k == 0 {
        Some(0)
    } else {
        match field_offset(d, schema, (k - 1) as nat) {
            Some(p) => match field_width(d, p, schema[k - 1]) {
                Some(w) => Some(p + w),
                None => None,
            },
            None => None,
        }
    }
}

/// Whether every field of `schema` fits in `d`.
pub open spec fn fits(d: Seq<u8>, schema: Seq<Field>) -> bool {
    field_offset(d, schema, schema.len()) is Some
}

/// Where field `k` of `schema` starts in `d`; meaningful when `schema` fits.
pub open spec fn offset_of(d: Seq<u8>, schema: Seq<Field>, k: int) -> int {
    field_offset(d, schema, k as nat)->0
}

fn width_at(d: &[u8], pos: usize, f: Field) -> (r: Option<usize>)
    requires
        pos <= d@.len(),
    ensures
        match r {
            Some(w) => field_width(d@, pos as int, f) == Some(w as int) && pos + w <= d@.len(),
            None => field_width(d@, pos as int, f) is None,
        },
{
    let n = d.len();
    match f {
        Field::Fixed(w) => if w <= n - pos {
            Some(w)
        } else {
            None
        },
        Field::Tag(max) => if pos < n && d[pos] <= max {
            Some(1)
        } else {
            None
        },
        Field::Tagged(max, w) => if pos < n && d[pos] == 0 {
            Some(1)
        } else if pos < n && d[pos] <= max && w < n - pos {
            Some(1 + w)
        } else {
            None
        },
    }
}

proof fn lemma_offsets_prefix(d: Seq<u8>, schema: Seq<Field>, k: nat, j: nat)
    requires
        j <= k,
        field_offset(d, schema, k) is Some,
    ensures
        field_offset(d, schema, j) is Some,
    decreases k - j,
{
    if j < k {
        lemma_offsets_prefix(d, schema, (k - 1) as nat, j);
    }
}

/// The start of every field of `schema` in `d`, and the end of the last,
/// or `None` when the fields do not fit.
pub fn field_offsets(d: &[u8], schema: &Vec<Field>) -> (r: Option<Vec<usize>>)
    ensures
        r is Some <==> fits(d@, schema@),
        r matches Some(v) ==> {
            &&& v@.len() == schema@.len() + 1
            &&& forall|k: int|
                0 <= k <= schema@.len() ==> field_offset(d@, schema@, k as nat) == Some(
                    v@[k] as int,
                )
            &&& forall|k: int|
                0 <= k < schema@.len() ==> field_width(d@, v@[k] as int, #[trigger] schema@[k])
                    == Some(v@[k + 1] - v@[k]) && v@[k + 1] <= d@.len()
        },
{
    let n = d.len();
    let mut v: Vec<usize> = Vec::new();
    let mut pos: usize = 0;
    v.push(0);
    let mut i: usize = 0;
    while i < schema.len()
        invariant
            i <= schema@.len(),
            v@.len() == i + 1,
            pos == v@[i as int],
            n == d@.len(),
            pos <= n,
            forall|k: int| 0 <= k <= i ==> field_offset(d@, schema@, k as nat) == Some(v@[k] as int),
            forall|k: int|
                0 <= k < i ==> field_width(d@, v@[k] as int, #[trigger] schema@[k]) == Some(
                    v@[k + 1] - v@[k],
                ) && v@[k + 1] <= d@.len(),
        decreases schema@.len() - i,
    {
        match width_at(d, pos, schema[i]) {
            Some(w) => {
                pos = pos + w;
                v.push(pos);
                i = i + 1;
            },
            None => {
                assert(field_offset(d@, schema@, (i + 1) as nat) is None);
                proof {
                    if fits(d@, schema@) {
                        lemma_offsets_prefix(d@, schema@, schema@.len(), (i + 1) as nat);
                    }
                }
                return None;
            },
        }
    }
    Some(v)
}

} // verus!

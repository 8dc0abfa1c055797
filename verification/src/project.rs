use vstd::prelude::*;

use crate::keys::AccountId;
use crate::state::ProjectState;

verus! {

/// The 8-byte record tag that opens every serialized project record; its
/// little-endian bytes spell "PROJECT" followed by a zero byte.
pub const PROJECT_TAG: u64 = 0x005443454A4F5250;

/// The fixed part of a serialized record: 8 (tag) + 32 (id) + 4 + 4 (the two
/// length prefixes) + 1 (state tag) + 32 (mint) + 32 (creator) + 8
/// (allocation) + 8 (timestamp).
pub const FIXED_RECORD_LEN: usize = 8 + 32 + 4 + 4 + 1 + 32 + 32 + 8 + 8;

/// The durable project record.
///
/// All fields but `state` are set once at creation and immutable thereafter;
/// `state` changes only through the transition operation.
#[derive(Debug)]
pub struct Project {
    /// The record's own storage address, set at creation.
    pub id: AccountId,
    /// Human-readable label, immutable after creation.
    pub name: Vec<u8>,
    /// Free-form text, immutable after creation.
    pub description: Vec<u8>,
    /// The current lifecycle value.
    pub state: ProjectState,
    /// The fungible-asset type associated with this project.
    pub token_mint: AccountId,
    /// The authorizing principal; the sole credential for transitions.
    pub creator: AccountId,
    /// The quantity minted into custody at creation; a historical record.
    pub total_allocation: u64,
    /// Timestamp captured from the trusted clock at creation.
    pub created_at: i64,
}

impl Project {
    /// The exact storage footprint of a record with texts of the given byte
    /// lengths: the fixed part plus the texts themselves.
    pub open spec fn spec_space(name_len: nat, description_len: nat) -> nat {
        (8 + 32 + (4 + name_len) + (4 + description_len) + 1 + 32 + 32 + 8 + 8) as nat
    }

    /// Serialization keeps each text's byte length in a 4-byte prefix, and
    /// the whole record must fit in one allocation.
    pub open spec fn wf(&self) -> bool {
        &&& self.name@.len() <= u32::MAX
        &&& self.description@.len() <= u32::MAX
        &&& Self::spec_space(self.name@.len(), self.description@.len()) <= usize::MAX
    }

    /// Computes the storage size a record with these texts requires. Exact:
    /// under-allocation corrupts data, over-allocation wastes resources
    /// charged to the caller.
    pub fn space(name: &Vec<u8>, description: &Vec<u8>) -> (size: usize)
        requires
            Self::spec_space(name@.len(), description@.len()) <= usize::MAX,
        ensures
            size == Self::spec_space(name@.len(), description@.len()),
            size == 8 + 32 + (4 + name@.len()) + (4 + description@.len()) + 1 + 32 + 32 + 8
                + 8,
    {
        8 + 32 + (4 + name.len()) + (4 + description.len()) + 1 + 32 + 32 + 8 + 8
    }

    /// The serialized form of this record.
    pub open spec fn spec_encoded(&self) -> Seq<u8> {
        u64_le(PROJECT_TAG) + key_le(self.id) + u32_le(self.name@.len() as u32) + self.name@
            + u32_le(self.description@.len() as u32) + self.description@ + seq![
            state_tag(self.state),
        ] + key_le(self.token_mint) + key_le(self.creator) + u64_le(self.total_allocation)
            + i64_le(self.created_at)
    }

    /// Serializes this record: tag, identifier, length-prefixed name and
    /// description, state tag, mint, creator, allocation, timestamp.
    pub fn encode(&self) -> (r: Vec<u8>)
        requires
            self.wf(),
        ensures
            r@ == self.spec_encoded(),
    {
        let mut out: Vec<u8> = Vec::new();
        let mut part = u64_le_bytes(PROJECT_TAG);
        out.append(&mut part);
        let mut part = key_bytes(&self.id);
        out.append(&mut part);
        let mut part = u32_le_bytes(self.name.len() as u32);
        out.append(&mut part);
        let mut part = copy_bytes(&self.name);
        out.append(&mut part);
        let mut part = u32_le_bytes(self.description.len() as u32);
        out.append(&mut part);
        let mut part = copy_bytes(&self.description);
        out.append(&mut part);
        out.push(state_tag_byte(self.state));
        let mut part = key_bytes(&self.token_mint);
        out.append(&mut part);
        let mut part = key_bytes(&self.creator);
        out.append(&mut part);
        let mut part = u64_le_bytes(self.total_allocation);
        out.append(&mut part);
        let mut part = i64_le_bytes(self.created_at);
        out.append(&mut part);
        proof {
            assert(out@ =~= self.spec_encoded());
        }
        out
    }
}

/// The computed storage size is exactly the length of the serialized record:
/// the allocation neither truncates nor pads the durable form.
pub proof fn lemma_space_matches_encoding(p: Project)
    requires
        p.wf(),
    ensures
        p.spec_encoded().len() == Project::spec_space(p.name@.len(), p.description@.len()),
{
}

/// The single byte that stands for a lifecycle value in storage.
pub open spec fn state_tag(s: ProjectState) -> u8 {
    match s {
        ProjectState::Active => 0,
        ProjectState::Completed => 1,
        ProjectState::Cancelled => 2,
    }
}

/// Computes the storage tag of a lifecycle value.
pub fn state_tag_byte(s: ProjectState) -> (r: u8)
    ensures
        r == state_tag(s),
{
    match s {
        ProjectState::Active => 0,
        ProjectState::Completed => 1,
        ProjectState::Cancelled => 2,
    }
}

/// The four little-endian bytes of a 32-bit value.
pub open spec fn u32_le(n: u32) -> Seq<u8> {
    seq![
        (n & 0xff) as u8,
        ((n >> 8) & 0xff) as u8,
        ((n >> 16) & 0xff) as u8,
        ((n >> 24) & 0xff) as u8,
    ]
}

/// The eight little-endian bytes of a 64-bit value.
pub open spec fn u64_le(n: u64) -> Seq<u8> {
    seq![
        (n & 0xff) as u8,
        ((n >> 8) & 0xff) as u8,
        ((n >> 16) & 0xff) as u8,
        ((n >> 24) & 0xff) as u8,
        ((n >> 32) & 0xff) as u8,
        ((n >> 40) & 0xff) as u8,
        ((n >> 48) & 0xff) as u8,
        ((n >> 56) & 0xff) as u8,
    ]
}

/// The two's-complement 64-bit image of a signed value.
pub open spec fn as_unsigned_64(v: i64) -> u64 {
    if v >= 0 {
        v as u64
    } else {
        (v + 0x10000000000000000) as u64
    }
}

/// The eight little-endian two's-complement bytes of a signed 64-bit value.
pub open spec fn i64_le(v: i64) -> Seq<u8> {
    u64_le(as_unsigned_64(v))
}

/// The 32 bytes of an identifier: its four words, each little-endian.
pub open spec fn key_le(k: AccountId) -> Seq<u8> {
    u64_le(k.w0) + u64_le(k.w1) + u64_le(k.w2) + u64_le(k.w3)
}

/// Serializes a 32-bit value as four little-endian bytes.
pub fn u32_le_bytes(n: u32) -> (r: Vec<u8>)
    ensures
        r@ == u32_le(n),
{
    proof {
        assert((n & 0xff) < 256 && ((n >> 8) & 0xff) < 256 && ((n >> 16) & 0xff) < 256 && ((n
            >> 24) & 0xff) < 256) by (bit_vector);
    }
    let mut r: Vec<u8> = Vec::new();
    r.push((n & 0xff) as u8);
    r.push(((n >> 8) & 0xff) as u8);
    r.push(((n >> 16) & 0xff) as u8);
    r.push(((n >> 24) & 0xff) as u8);
    proof {
        assert(r@ =~= u32_le(n));
    }
    r
}

/// Serializes a 64-bit value as eight little-endian bytes.
pub fn u64_le_bytes(n: u64) -> (r: Vec<u8>)
    ensures
        r@ == u64_le(n),
{
    proof {
        assert((n & 0xff) < 256 && ((n >> 8) & 0xff) < 256 && ((n >> 16) & 0xff) < 256 && ((n
            >> 24) & 0xff) < 256 && ((n >> 32) & 0xff) < 256 && ((n >> 40) & 0xff) < 256 && ((n
            >> 48) & 0xff) < 256 && ((n >> 56) & 0xff) < 256) by (bit_vector);
    }
    let mut r: Vec<u8> = Vec::new();
    r.push((n & 0xff) as u8);
    r.push(((n >> 8) & 0xff) as u8);
    r.push(((n >> 16) & 0xff) as u8);
    r.push(((n >> 24) & 0xff) as u8);
    r.push(((n >> 32) & 0xff) as u8);
    r.push(((n >> 40) & 0xff) as u8);
    r.push(((n >> 48) & 0xff) as u8);
    r.push(((n >> 56) & 0xff) as u8);
    proof {
        assert(r@ =~= u64_le(n));
    }
    r
}

/// Serializes a signed 64-bit value as its eight little-endian
/// two's-complement bytes.
pub fn i64_le_bytes(v: i64) -> (r: Vec<u8>)
    ensures
        r@ == i64_le(v),
{
    let u: u64 = if v >= 0 {
        v as u64
    } else {
        ((v as i128) + 0x10000000000000000i128) as u64
    };
    assert(u == as_unsigned_64(v));
    u64_le_bytes(u)
}

/// Serializes an identifier as its 32 bytes.
pub fn key_bytes(k: &AccountId) -> (r: Vec<u8>)
    ensures
        r@ == key_le(*k),
{
    let mut r = u64_le_bytes(k.w0);
    let mut part = u64_le_bytes(k.w1);
    r.append(&mut part);
    let mut part = u64_le_bytes(k.w2);
    r.append(&mut part);
    let mut part = u64_le_bytes(k.w3);
    r.append(&mut part);
    proof {
        assert(r@ =~= key_le(*k));
    }
    r
}

/// Copies a byte string.
pub fn copy_bytes(src: &Vec<u8>) -> (r: Vec<u8>)
    ensures
        r@ == src@,
{
    let mut r: Vec<u8> = Vec::new();
    let n = src.len();
    let mut i: usize = 0;
    while i < n
        invariant
            i <= n,
            n == src@.len(),
            r@ == src@.take(i as int),
        decreases n - i,
    {
        r.push(src[i]);
        proof {
            assert(r@ =~= src@.take(i + 1));
        }
        i = i + 1;
    }
    proof {
        assert(r@ =~= src@);
    }
    r
}

} // verus!

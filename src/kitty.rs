//! Entity types and their binary layouts, one per storage version.
//!
//! Every layout is the plain concatenation of fixed-width byte fields, so an
//! encoded value is told apart from another layout's by its width alone.

use vstd::prelude::*;

verus! {

/// Identifier of a kitty, handed out sequentially from zero.
pub type KittyId = u32;

/// The account that signed an operation; compared for equality only.
pub type AccountId = u64;

/// A kitty in the current layout (storage version 2): 16 bytes of dna
/// followed by an 8-byte name.
#[derive(Clone, Copy, Debug, PartialEq, Eq)]
pub struct Kitty {
    pub dna: [u8; 16],
    pub name: [u8; 8],
}

/// A kitty as stored under version 0: its dna alone.
#[derive(Clone, Copy, Debug, PartialEq, Eq)]
pub struct V0Kitty(pub [u8; 16]);

/// A kitty as stored under version 1: dna and a 4-byte name.
#[derive(Clone, Copy, Debug, PartialEq, Eq)]
pub struct V1Kitty {
    pub dna: [u8; 16],
    pub name: [u8; 4],
}

/// Width in bytes of an encoded kitty under `version`.
pub open spec fn layout_width(version: u16) -> nat {
    if version == 0 {
        16
    } else if version == 1 {
        20
    } else {
        24
    }
}

/// Appends `src` to `out`.
pub(crate) fn push_all(out: &mut Vec<u8>, src: &[u8])
    ensures
        final(out)@ == old(out)@ + src@,
{
    let mut i: usize = 0;
    while i < src.len()
        invariant
            i <= src@.len(),
            out@ == old(out)@ + src@.subrange(0, i as int),
        decreases src@.len() - i,
    {
        out.push(src[i]);
        i += 1;
        assert(src@.subrange(0, i as int) == src@.subrange(0, i - 1) + seq![src@[i - 1]]);
    }
    assert(src@.subrange(0, src@.len() as int) == src@);
}

/// The first 16 bytes of `bytes`.
fn read_dna(bytes: &[u8]) -> (r: [u8; 16])
    requires
        bytes@.len() >= 16,
    ensures
        r@ == bytes@.subrange(0, 16),
{
    let mut r = [0u8; 16];
    let mut i: usize = 0;
    while i < 16
        invariant
            i <= 16,
            bytes@.len() >= 16,
            forall|k: int| 0 <= k < i ==> r@[k] == bytes@[k],
        decreases 16 - i,
    {
        r[i] = bytes[i];
        i += 1;
    }
    assert(r@ =~= bytes@.subrange(0, 16));
    r
}

impl V0Kitty {
    /// The bytes that encode this kitty under version 0.
    pub open spec fn layout(self) -> Seq<u8> {
        self.0@
    }

    pub fn encode(&self) -> (r: Vec<u8>)
        ensures
            r@ == self.layout(),
    {
        let mut r: Vec<u8> = Vec::new();
        push_all(&mut r, &self.0);
        r
    }

    /// Reads a version-0 kitty from exactly 16 bytes.
    pub fn decode(bytes: &[u8]) -> (r: Option<V0Kitty>)
        ensures
            r is Some <==> bytes@.len() == 16,
            r matches Some(k) ==> k.layout() == bytes@,
    {
        if bytes.len() != 16 {
            return None;
        }
        let dna = read_dna(bytes);
        assert(bytes@.subrange(0, 16) =~= bytes@);
        Some(V0Kitty(dna))
    }
}

impl V1Kitty {
    /// The bytes that encode this kitty under version 1: dna, then name.
    pub open spec fn layout(self) -> Seq<u8> {
        self.dna@ + self.name@
    }

    pub fn encode(&self) -> (r: Vec<u8>)
        ensures
            r@ == self.layout(),
    {
        let mut r: Vec<u8> = Vec::new();
        push_all(&mut r, &self.dna);
        push_all(&mut r, &self.name);
        r
    }

    /// Reads a version-1 kitty from exactly 20 bytes.
    pub fn decode(bytes: &[u8]) -> (r: Option<V1Kitty>)
        ensures
            r is Some <==> bytes@.len() == 20,
            r matches Some(k) ==> k.layout() == bytes@,
    {
        if bytes.len() != 20 {
            return None;
        }
        let dna = read_dna(bytes);
        let mut name = [0u8; 4];
        let mut j: usize = 0;
        while j < 4
            invariant
                j <= 4,
                bytes@.len() == 20,
                forall|k: int| 0 <= k < j ==> name@[k] == bytes@[16 + k],
            decreases 4 - j,
        {
            name[j] = bytes[16 + j];
            j += 1;
        }
        let k = V1Kitty { dna, name };
        assert(k.layout() =~= bytes@);
        Some(k)
    }
}

impl Kitty {
    /// The bytes that encode this kitty under version 2: dna, then name.
    pub open spec fn layout(self) -> Seq<u8> {
        self.dna@ + self.name@
    }

    pub fn encode(&self) -> (r: Vec<u8>)
        ensures
            r@ == self.layout(),
    {
        let mut r: Vec<u8> = Vec::new();
        push_all(&mut r, &self.dna);
        push_all(&mut r, &self.name);
        r
    }

    /// Reads a kitty from exactly 24 bytes.
    pub fn decode(bytes: &[u8]) -> (r: Option<Kitty>)
        ensures
            r is Some <==> bytes@.len() == 24,
            r matches Some(k) ==> k.layout() == bytes@,
    {
        if bytes.len() != 24 {
            return None;
        }
        let dna = read_dna(bytes);
        let mut name = [0u8; 8];
        let mut j: usize = 0;
        while j < 8
            invariant
                j <= 8,
                bytes@.len() == 24,
                forall|k: int| 0 <= k < j ==> name@[k] == bytes@[16 + k],
            decreases 8 - j,
        {
            name[j] = bytes[16 + j];
            j += 1;
        }
        let k = Kitty { dna, name };
        assert(k.layout() =~= bytes@);
        Some(k)
    }
}

} // verus!

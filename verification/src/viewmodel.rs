//! OPVM/1: a 24-byte little-endian header (magic `OPVM`, version, vertex
//! count, muzzle XYZ), then unindexed triangles of XYZ plus RGBA8, 16 bytes
//! per vertex. Coordinates are IEEE-754 singles, carried here as their bit
//! patterns; the renderers turn them into floats.
use vstd::prelude::*;

use crate::bytes::{le32, read_u32};
use crate::format::coordinate_ok;

verus! {

/// Most vertices a viewmodel or projectile mesh may hold.
pub const MAX_VERTICES: usize = 3072;

pub open spec fn opvm_magic(d: Seq<u8>) -> bool {
    &&& d.len() >= 4
    &&& d[0] == 0x4f && d[1] == 0x50 && d[2] == 0x56 && d[3] == 0x4d
}

pub open spec fn opvm_count(d: Seq<u8>) -> nat {
    le32(d, 8)
}

/// Byte offset of vertex `v`.
pub open spec fn vertex_at(v: nat) -> int {
    24 + 16 * (v as int)
}

/// The muzzle and every vertex coordinate are finite and within 128 units.
pub open spec fn opvm_coordinates_ok(d: Seq<u8>) -> bool {
    &&& coordinate_ok(le32(d, 12))
    &&& coordinate_ok(le32(d, 16))
    &&& coordinate_ok(le32(d, 20))
    &&& forall|v: nat, c: nat|
        v < opvm_count(d) && c < 3 ==> coordinate_ok(#[trigger] le32(d, (vertex_at(v) + 4 * c) as int))
}

/// Every vertex color has alpha 255.
pub open spec fn opvm_opaque(d: Seq<u8>) -> bool {
    forall|v: nat| v < opvm_count(d) ==> #[trigger] d[vertex_at(v) + 15] == 255
}

/// The verdict on an OPVM buffer, with the first failing rule.
pub open spec fn opvm_check(d: Seq<u8>) -> Result<(), &'static str> {
    if d.len() < 24 || !opvm_magic(d) {
        Err("invalid viewmodel header")
    } else if le32(d, 4) != 1 || opvm_count(d) == 0 || opvm_count(d) > 3072 || opvm_count(d) % 3
        != 0 || d.len() != 24 + opvm_count(d) * 16 {
        Err("viewmodel triangle budget or length is invalid")
    } else if !opvm_coordinates_ok(d) {
        Err("viewmodel coordinate is invalid")
    } else if !opvm_opaque(d) {
        Err("viewmodel must be opaque")
    } else {
        Ok(())
    }
}

pub open spec fn opvm_valid(d: Seq<u8>) -> bool {
    opvm_check(d) is Ok
}

/// Meshes of up to 3072 vertices are accepted: an OPVM/1 buffer whose
/// vertex count is a positive multiple of three no larger than that, whose
/// length is the header plus 16 bytes per vertex, whose coordinates are in
/// range and whose colors are opaque is valid; a count above 3072 is
/// refused as over budget.
pub proof fn lemma_opvm_budget(d: Seq<u8>)
    requires
        d.len() >= 24,
        opvm_magic(d),
        le32(d, 4) == 1,
    ensures
        MAX_VERTICES == 3072,
        0 < le32(d, 8) <= 3072 && le32(d, 8) % 3 == 0 && d.len() == 24 + 16 * le32(d, 8)
            && opvm_coordinates_ok(d) && opvm_opaque(d) ==> opvm_check(d) is Ok,
        le32(d, 8) > 3072 ==> opvm_check(d) == Err::<(), &'static str>(
            "viewmodel triangle budget or length is invalid",
        ),
{
}

/// Checks an OPVM buffer and names the first rule it breaks.
#[verifier::loop_isolation(false)]
pub fn validate(data: &[u8]) -> (r: Result<(), &'static str>)
    ensures
        r == opvm_check(data@),
{
    if data.len() < 24 || data[0] != 0x4f || data[1] != 0x50 || data[2] != 0x56 || data[3] != 0x4d {
        return Err("invalid viewmodel header");
    }
    let count = read_u32(data, 8) as usize;
    if read_u32(data, 4) != 1 || count == 0 || count > MAX_VERTICES || count % 3 != 0 || data.len()
        != 24 + count * 16 {
        return Err("viewmodel triangle budget or length is invalid");
    }
    let mut at: usize = 12;
    while at < 24
        invariant
            12 <= at <= 24,
            at % 4 == 0,
            at >= 16 ==> coordinate_ok(le32(data@, 12)),
            at >= 20 ==> coordinate_ok(le32(data@, 16)),
            at >= 24 ==> coordinate_ok(le32(data@, 20)),
        decreases 24 - at,
    {
        let value = read_u32(data, at);
        if value % 0x8000_0000 > 0x4300_0000 {
            return Err("viewmodel coordinate is invalid");
        }
        at = at + 4;
    }
    let mut v: usize = 0;
    while v < count
        invariant
            v <= count,
            count == opvm_count(data@),
            data@.len() == 24 + count * 16,
            forall|w: nat, c: nat|
                w < v && c < 3 ==> coordinate_ok(#[trigger] le32(data@, (vertex_at(w) + 4 * c) as int)),
        decreases count - v,
    {
        let base = 24 + v * 16;
        let mut c: usize = 0;
        while c < 3
            invariant
                c <= 3,
                v < count,
                base == vertex_at(v as nat),
                data@.len() == 24 + count * 16,
                forall|w: nat, k: nat|
                    w < v && k < 3 ==> coordinate_ok(#[trigger] le32(data@, (vertex_at(w) + 4 * k) as int)),
                forall|k: nat| k < c ==> coordinate_ok(#[trigger] le32(data@, (base + 4 * k) as int)),
            decreases 3 - c,
        {
            let value = read_u32(data, base + c * 4);
            if value % 0x8000_0000 > 0x4300_0000 {
                assert(!coordinate_ok(le32(data@, (vertex_at(v as nat) + 4 * (c as nat)) as int)));
                return Err("viewmodel coordinate is invalid");
            }
            c = c + 1;
        }
        v = v + 1;
    }
    let mut v: usize = 0;
    while v < count
        invariant
            v <= count,
            count == opvm_count(data@),
            data@.len() == 24 + count * 16,
            opvm_coordinates_ok(data@),
            forall|w: nat| w < v ==> #[trigger] data@[vertex_at(w) + 15] == 255,
        decreases count - v,
    {
        if data[24 + v * 16 + 15] != 255 {
            assert(data@[vertex_at(v as nat) + 15] != 255);
            return Err("viewmodel must be opaque");
        }
        v = v + 1;
    }
    Ok(())
}

/// No strict prefix of a valid mesh is valid.
pub proof fn lemma_truncated_opvm_rejected(d: Seq<u8>, n: nat)
    requires
        opvm_valid(d),
        n < d.len(),
    ensures
        !opvm_valid(d.take(n as int)),
{
    let p = d.take(n as int);
    if n >= 24 {
        assert(le32(p, 4) == le32(d, 4));
        assert(le32(p, 8) == le32(d, 8));
    }
}

/// A validated viewmodel or projectile mesh.
#[derive(Clone, Copy)]
pub struct ViewModel {
    data: &'static [u8],
}

impl View for ViewModel {
    type V = Seq<u8>;

    closed spec fn view(&self) -> Seq<u8> {
        self.data@
    }
}

impl ViewModel {
    #[verifier::type_invariant]
    pub closed spec fn well_formed(self) -> bool {
        opvm_valid(self.data@)
    }

    /// Accepts exactly the buffers that pass `validate`.
    pub fn parse(data: &'static [u8]) -> (r: Result<Self, &'static str>)
        ensures
            match r {
                Ok(mesh) => opvm_valid(data@) && mesh@ == data@,
                Err(e) => opvm_check(data@) == Err::<(), &'static str>(e),
            },
    {
        match validate(data) {
            Ok(()) => Ok(ViewModel { data }),
            Err(e) => Err(e),
        }
    }

    fn word(&self, at: usize) -> (r: u32)
        requires
            at + 4 <= self@.len(),
        ensures
            r == le32(self@, at as int),
    {
        read_u32(self.data, at)
    }

    /// Bit patterns of the muzzle position X, Y and Z.
    pub fn muzzle(&self) -> (r: [u32; 3])
        ensures
            r@ == seq![le32(self@, 12) as u32, le32(self@, 16) as u32, le32(self@, 20) as u32],
    {
        proof {
            use_type_invariant(self);
        }
        let r = [self.word(12), self.word(16), self.word(20)];
        assert(r@ =~= seq![le32(self@, 12) as u32, le32(self@, 16) as u32, le32(self@, 20) as u32]);
        r
    }

    /// Number of vertices: a positive multiple of three, at most 3072.
    pub fn len(&self) -> (r: usize)
        ensures
            r == opvm_count(self@),
            0 < r <= MAX_VERTICES,
            r % 3 == 0,
    {
        proof {
            use_type_invariant(self);
        }
        (self.data.len() - 24) / 16
    }

    /// Bit patterns of vertex `index`'s X, Y and Z, and its RGBA8 color.
    pub fn vertex(&self, index: usize) -> (r: ([u32; 3], u32))
        requires
            index < opvm_count(self@),
        ensures
            r.0@ == seq![
                le32(self@, vertex_at(index as nat) as int) as u32,
                le32(self@, vertex_at(index as nat) + 4) as u32,
                le32(self@, vertex_at(index as nat) + 8) as u32,
            ],
            r.1 == le32(self@, vertex_at(index as nat) + 12),
    {
        proof {
            use_type_invariant(self);
        }
        let at = 24 + index * 16;
        let p = [self.word(at), self.word(at + 4), self.word(at + 8)];
        assert(p@ =~= seq![
            le32(self@, vertex_at(index as nat) as int) as u32,
            le32(self@, vertex_at(index as nat) + 4) as u32,
            le32(self@, vertex_at(index as nat) + 8) as u32,
        ]);
        (p, self.word(at + 12))
    }
}

} // verus!

//! PWM1: first-person weapon models cooked for the PSP. A little-endian
//! header (`PWM1`, version, batch count) and, per batch, its texture size,
//! pixel byte count, vertex count and a reserved word, a 256-entry palette,
//! 8-bit pixels padded to four bytes, then textured vertices of five
//! IEEE-754 singles (u, v, x, y, z), carried here as bit patterns.
use vstd::prelude::*;

use crate::bytes::{le32, read_u32};
use crate::weapon::WeaponKind;

verus! {

/// The contents of one batch: texture width and height, palette, pixels, and
/// vertices of five words each.
pub struct BatchView {
    pub width: nat,
    pub height: nat,
    pub palette: Seq<u32>,
    pub pixels: Seq<u8>,
    pub vertices: Seq<Seq<u32>>,
}

/// Rounds up to a multiple of four.
pub open spec fn align4(o: nat) -> nat {
    ((o + 3) / 4) * 4
}

/// Reads the batch at offset `o`: the batch and the offset after it, or the
/// first part that does not fit in `d`.
pub open spec fn pwm_batch(d: Seq<u8>, o: nat) -> Result<(BatchView, nat), &'static str> {
    if o + 20 > d.len() {
        Err("truncated weapon model")
    } else {
        let pixel_len = le32(d, o + 8int);
        let vertex_count = le32(d, o + 12int);
        let palette_at = o + 20;
        let pixels_at = palette_at + 1024;
        if pixels_at > d.len() {
            Err("truncated palette")
        } else if pixels_at + pixel_len > d.len() {
            Err("truncated texture")
        } else {
            let vertices_at = align4(pixels_at + pixel_len);
            if vertices_at + 20 * vertex_count > d.len() {
                Err("truncated weapon model")
            } else {
                Ok(
                    (
                        BatchView {
                            width: le32(d, o as int),
                            height: le32(d, o + 4int),
                            palette: Seq::new(
                                256,
                                |i: int| le32(d, palette_at + 4 * i) as u32,
                            ),
                            pixels: d.subrange(pixels_at as int, (pixels_at + pixel_len) as int),
                            vertices: Seq::new(
                                vertex_count,
                                |v: int|
                                    Seq::new(
                                        5,
                                        |c: int| le32(d, vertices_at + 20 * v + 4 * c) as u32,
                                    ),
                            ),
                        },
                        (vertices_at + 20 * vertex_count) as nat,
                    ),
                )
            }
        }
    }
}

/// Reads `k` consecutive batches from offset `o`.
pub open spec fn pwm_batches(d: Seq<u8>, o: nat, k: nat) -> Result<
    (Seq<BatchView>, nat),
    &'static str,
>
    decreases k,
{
    if k == 0 {
        Ok((Seq::empty(), o))
    } else {
        match pwm_batch(d, o) {
            Err(e) => Err(e),
            Ok((batch, next)) => match pwm_batches(d, next, (k - 1) as nat) {
                Err(e) => Err(e),
                Ok((rest, end)) => Ok((seq![batch] + rest, end)),
            },
        }
    }
}

/// The batches of a PWM file, or the first rule it breaks. Bytes after the
/// last batch are ignored.
pub open spec fn pwm_check(d: Seq<u8>) -> Result<Seq<BatchView>, &'static str> {
    if d.len() < 4 || !(d[0] == 0x50 && d[1] == 0x57 && d[2] == 0x4d && d[3] == 0x31) {
        Err("bad weapon model magic")
    } else if d.len() < 8 {
        Err("truncated weapon model")
    } else if le32(d, 4) != 1 {
        Err("unsupported weapon model")
    } else if d.len() < 12 {
        Err("truncated weapon model")
    } else {
        match pwm_batches(d, 12, le32(d, 8)) {
            Err(e) => Err(e),
            Ok((batches, _)) => Ok(batches),
        }
    }
}

/// Reads the little-endian word at `*o` and moves past it.
pub fn u32le(data: &[u8], o: &mut usize) -> (r: Result<u32, &'static str>)
    ensures
        *old(o) + 4 <= data@.len() ==> r == Ok::<u32, &'static str>(
            le32(data@, *old(o) as int) as u32,
        ) && *final(o) == *old(o) + 4,
        *old(o) + 4 > data@.len() ==> r == Err::<u32, &'static str>("truncated weapon model")
            && *final(o) == *old(o),
{
    if *o > data.len() || data.len() - *o < 4 {
        return Err("truncated weapon model");
    }
    let value = read_u32(data, *o);
    *o = *o + 4;
    Ok(value)
}

/// One textured batch.
pub struct WeaponBatch {
    pub width: u32,
    pub height: u32,
    pub palette: Vec<u32>,
    pub pixels: Vec<u8>,
    pub vertices: Vec<[u32; 5]>,
}

impl WeaponBatch {
    pub open spec fn view_of(&self) -> BatchView {
        BatchView {
            width: self.width as nat,
            height: self.height as nat,
            palette: self.palette@,
            pixels: self.pixels@,
            vertices: Seq::new(self.vertices@.len(), |v: int| self.vertices@[v]@),
        }
    }
}

/// Copies `n` bytes from `at`.
fn copy_bytes(data: &[u8], at: usize, n: usize) -> (r: Vec<u8>)
    requires
        at + n <= data@.len(),
    ensures
        r@ == data@.subrange(at as int, at + n),
{
    let len = data.len();
    let mut r: Vec<u8> = Vec::new();
    let mut i: usize = 0;
    while i < n
        invariant
            len == data@.len(),
            at + n <= data@.len(),
            i <= n,
            r@ == data@.subrange(at as int, at + i),
        decreases n - i,
    {
        r.push(data[at + i]);
        i = i + 1;
        assert(r@ =~= data@.subrange(at as int, at + i));
    }
    r
}

/// Reads the batch at `o`; mirrors `pwm_batch`.
fn parse_batch(data: &[u8], o: usize) -> (r: Result<(WeaponBatch, usize), &'static str>)
    requires
        data@.len() + 3 <= usize::MAX,
    ensures
        match pwm_batch(data@, o as nat) {
            Err(e) => r == Err::<(WeaponBatch, usize), &'static str>(e),
            Ok((view, next)) => r matches Ok((batch, at)) && batch.view_of() == view && at == next,
        },
{
    let len = data.len();
    if o > len || len - o < 20 {
        return Err("truncated weapon model");
    }
    let width = read_u32(data, o);
    let height = read_u32(data, o + 4);
    let pixel_len = read_u32(data, o + 8) as usize;
    let vertex_count = read_u32(data, o + 12) as usize;
    let palette_at = o + 20;
    if len - palette_at < 1024 {
        return Err("truncated palette");
    }
    let pixels_at = palette_at + 1024;
    let mut palette: Vec<u32> = Vec::new();
    let mut i: usize = 0;
    while i < 256
        invariant
            i <= 256,
            palette_at + 1024 <= len,
            len == data@.len(),
            palette@.len() == i,
            forall|j: int| 0 <= j < i ==> palette@[j] == le32(data@, palette_at + 4 * j) as u32,
        decreases 256 - i,
    {
        palette.push(read_u32(data, palette_at + 4 * i));
        i = i + 1;
    }
    if len - pixels_at < pixel_len {
        return Err("truncated texture");
    }
    let pixels = copy_bytes(data, pixels_at, pixel_len);
    let end = pixels_at + pixel_len;
    let vertices_at = (end + 3) / 4 * 4;
    if vertices_at > len || (len - vertices_at) / 20 < vertex_count {
        proof {
            if vertices_at <= len {
                assert((len - vertices_at) / 20 < vertex_count);
                assert(vertices_at + 20 * vertex_count > len) by (nonlinear_arith)
                    requires
                        (len - vertices_at) / 20 < vertex_count,
                        vertices_at <= len,
                ;
            }
        }
        return Err("truncated weapon model");
    }
    proof {
        assert(vertices_at + 20 * vertex_count <= len) by (nonlinear_arith)
            requires
                (len - vertices_at) / 20 >= vertex_count,
                vertices_at <= len,
        ;
    }
    let mut vertices: Vec<[u32; 5]> = Vec::new();
    let mut v: usize = 0;
    while v < vertex_count
        invariant
            v <= vertex_count,
            vertices_at + 20 * vertex_count <= len,
            len == data@.len(),
            vertices@.len() == v,
            forall|w: int|
                0 <= w < v ==> (#[trigger] vertices@[w])@ == Seq::new(
                    5,
                    |c: int| le32(data@, vertices_at + 20 * w + 4 * c) as u32,
                ),
        decreases vertex_count - v,
    {
        let at = vertices_at + 20 * v;
        let words = [
            read_u32(data, at),
            read_u32(data, at + 4),
            read_u32(data, at + 8),
            read_u32(data, at + 12),
            read_u32(data, at + 16),
        ];
        assert(words@ =~= Seq::new(5, |c: int| le32(data@, vertices_at + 20 * v + 4 * c) as u32));
        vertices.push(words);
        v = v + 1;
    }
    let batch = WeaponBatch { width, height, palette, pixels, vertices };
    proof {
        let view = pwm_batch(data@, o as nat)->Ok_0.0;
        assert(align4(end as nat) == vertices_at);
        assert(batch.view_of().palette =~= view.palette);
        assert(batch.view_of().vertices =~= view.vertices);
    }
    Ok((batch, vertices_at + 20 * vertex_count))
}

/// A cooked first-person weapon model.
pub struct WeaponModel {
    pub kind: WeaponKind,
    pub batches: Vec<WeaponBatch>,
}

impl WeaponModel {
    /// Reads the batches of a PWM file for `kind`, or the first rule it
    /// breaks.
    #[verifier::loop_isolation(false)]
    pub fn parse(kind: WeaponKind, data: &[u8]) -> (r: Result<Self, &'static str>)
        requires
            data@.len() + 3 <= usize::MAX,
        ensures
            match pwm_check(data@) {
                Err(e) => r matches Err(f) && f == e,
                Ok(views) => r matches Ok(model) && model.kind == kind && model.batches@.len()
                    == views.len() && forall|i: int|
                    0 <= i < views.len() ==> (#[trigger] model.batches@[i]).view_of() == views[i],
            },
    {
        if data.len() < 4 || data[0] != 0x50 || data[1] != 0x57 || data[2] != 0x4d || data[3]
            != 0x31 {
            return Err("bad weapon model magic");
        }
        let mut o: usize = 4;
        let version = u32le(data, &mut o)?;
        if version != 1 {
            return Err("unsupported weapon model");
        }
        let count = u32le(data, &mut o)? as usize;
        let ghost d = data@;
        let mut batches: Vec<WeaponBatch> = Vec::new();
        let mut k: usize = 0;
        while k < count
            invariant
                d == data@,
                data@.len() + 3 <= usize::MAX,
                d.len() >= 12,
                le32(d, 4) == 1,
                count == le32(d, 8),
                k <= count,
                o <= d.len(),
                pwm_batches(d, 12, count as nat) == match pwm_batches(d, o as nat, (count - k) as nat) {
                    Err(e) => Err(e),
                    Ok((rest, end)) => Ok(
                        (Seq::new(batches@.len(), |i: int| batches@[i].view_of()) + rest, end),
                    ),
                },
            decreases count - k,
        {
            let ghost before = Seq::new(batches@.len(), |i: int| batches@[i].view_of());
            let (batch, next) = match parse_batch(data, o) {
                Ok(pair) => pair,
                Err(e) => {
                    proof {
                        assert(pwm_batch(d, o as nat) == Err::<(BatchView, nat), &'static str>(e));
                        assert(pwm_batches(d, o as nat, (count - k) as nat) == Err::<
                            (Seq<BatchView>, nat),
                            &'static str,
                        >(e));
                        assert(pwm_batches(d, 12, count as nat) == Err::<
                            (Seq<BatchView>, nat),
                            &'static str,
                        >(e));
                        assert(pwm_check(d) == Err::<Seq<BatchView>, &'static str>(e));
                    }
                    return Err(e);
                },
            };
            proof {
                let (view, _) = pwm_batch(d, o as nat)->Ok_0;
                assert(Seq::new(batches@.push(batch).len(), |i: int| batches@.push(batch)[i].view_of())
                    =~= before + seq![view]);
                assert(forall|rest: Seq<BatchView>| (before + seq![view]) + rest =~= before + (seq![view] + rest));
            }
            batches.push(batch);
            o = next;
            k = k + 1;
        }
        proof {
            assert(Seq::new(batches@.len(), |i: int| batches@[i].view_of()) + Seq::<BatchView>::empty()
                =~= Seq::new(batches@.len(), |i: int| batches@[i].view_of()));
        }
        Ok(WeaponModel { kind, batches })
    }
}

} // verus!

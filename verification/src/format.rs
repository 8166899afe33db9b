//! OPCH: the baked character format. A 24-byte (version 1) or 40-byte
//! (version 2, textured) little-endian header, seven clip records, per-vertex
//! colors (and UVs), u16 triangle indices, quantized poses and, for version 2,
//! per-frame attack sockets and an RGBA atlas. Every byte is checked before a
//! renderer sees it.
use vstd::prelude::*;

use crate::bytes::{le16, le32, read_u16, read_u32};
use crate::single::{
    lemma_single_at_most, lemma_single_scaled_vs, single_exponent, single_scaled,
    single_significand, value_within,
};
use vstd::arithmetic::power2::{lemma2_to64, pow2};

verus! {

/// Ceiling of the shared morph cache built from one character.
pub const MAX_CACHE_BYTES: usize = 16777216;

/// Number of clip records (Idle, Walk, Run, Fire, Reload, Hit, Death).
pub const CLIPS: usize = 7;

/// Bytes of one clip record.
pub const RECORD: usize = 16;

pub open spec fn opch_magic(d: Seq<u8>) -> bool {
    &&& d.len() >= 4
    &&& d[0] == 0x4f && d[1] == 0x50 && d[2] == 0x43 && d[3] == 0x48
}

/// A clip duration, given as the bit pattern of an IEEE-754 single, is
/// finite, greater than zero and at most 30 seconds. Positive finite singles
/// are ordered like their bit patterns, and 30.0 is `0x41f0_0000`.
pub open spec fn duration_ok(bits: nat) -> bool {
    0 < bits <= 0x41f0_0000
}

/// A coordinate, given as the bit pattern of an IEEE-754 single, is finite
/// and its magnitude is at most 128.0 (`0x4300_0000` once the sign bit is
/// cleared; infinities and NaNs lie above it).
pub open spec fn coordinate_ok(bits: nat) -> bool {
    bits % 0x8000_0000 <= 0x4300_0000
}

pub open spec fn format_version(d: Seq<u8>) -> nat {
    le32(d, 4)
}

pub open spec fn is_textured(d: Seq<u8>) -> bool {
    format_version(d) == 2
}

pub open spec fn header_len(d: Seq<u8>) -> nat {
    if is_textured(d) {
        40
    } else {
        24
    }
}

pub open spec fn vertex_total(d: Seq<u8>) -> nat {
    le32(d, 8)
}

pub open spec fn index_total(d: Seq<u8>) -> nat {
    le32(d, 12)
}

pub open spec fn clip_total(d: Seq<u8>) -> nat {
    le32(d, 16)
}

pub open spec fn frame_total(d: Seq<u8>) -> nat {
    le32(d, 20)
}

/// Bytes of one morph-cache entry: two packed vertices, with UVs if textured.
pub open spec fn cache_stride(d: Seq<u8>) -> nat {
    if is_textured(d) {
        32
    } else {
        24
    }
}

pub open spec fn texture_width(d: Seq<u8>) -> nat {
    le32(d, 24)
}

pub open spec fn texture_bytes(d: Seq<u8>) -> nat {
    if is_textured(d) {
        texture_width(d) * texture_width(d) * 4
    } else {
        0
    }
}

pub open spec fn colors_start(d: Seq<u8>) -> nat {
    header_len(d) + clip_total(d) * 16
}

pub open spec fn uv_start(d: Seq<u8>) -> nat {
    colors_start(d) + vertex_total(d) * 4
}

pub open spec fn indices_start(d: Seq<u8>) -> nat {
    uv_start(d) + if is_textured(d) {
        vertex_total(d) * 4
    } else {
        0
    }
}

pub open spec fn poses_start(d: Seq<u8>) -> nat {
    indices_start(d) + index_total(d) * 2
}

pub open spec fn sockets_start(d: Seq<u8>) -> nat {
    poses_start(d) + frame_total(d) * vertex_total(d) * 6
}

pub open spec fn texture_start(d: Seq<u8>) -> nat {
    sockets_start(d) + frame_total(d) * 12
}

pub open spec fn expected_len(d: Seq<u8>) -> nat {
    sockets_start(d) + if is_textured(d) {
        frame_total(d) * 12 + texture_bytes(d)
    } else {
        0
    }
}

pub open spec fn clip_at(d: Seq<u8>, k: nat) -> nat {
    header_len(d) + k * 16
}

/// Walks the clip records from `k`, where the previous records cover
/// `next` pose frames. `None` when a record is not contiguous, holds fewer
/// than two frames or more than remain, has a bad duration, or loops
/// although it is not one of the first three (gait) clips or vice versa.
/// Otherwise the number of frames that all records cover.
pub open spec fn clip_walk(d: Seq<u8>, k: nat, next: nat) -> Option<nat>
    decreases 7 - k,
{
    if k >= 7 {
        Some(next)
    } else {
        let at = clip_at(d, k) as int;
        let start = le32(d, at);
        let count = le32(d, at + 4);
        if start != next || count < 2 || count > frame_total(d) - start || !duration_ok(
            le32(d, at + 8),
        ) || le32(d, at + 12) != (if k < 3 {
            1nat
        } else {
            0nat
        }) {
            None
        } else {
            clip_walk(d, k + 1, next + count)
        }
    }
}

pub open spec fn indices_in_range(d: Seq<u8>) -> bool {
    forall|i: int|
        0 <= i < index_total(d) ==> #[trigger] le16(d, indices_start(d) + 2 * i) < vertex_total(d)
}

pub open spec fn sockets_ok(d: Seq<u8>) -> bool {
    forall|i: int|
        0 <= i < 3 * frame_total(d) ==> coordinate_ok(#[trigger] le32(d, sockets_start(d) + 4 * i))
}

pub open spec fn texture_dims_ok(w: nat, h: nat) -> bool {
    &&& h == w
    &&& (w == 16 || w == 32 || w == 64 || w == 128 || w == 256)
}

/// Coordinates are finite and at most 128 units from the origin: a pattern
/// passes exactly when its magnitude (sign bit cleared) is a finite single
/// whose value is at most 128.
pub proof fn lemma_coordinate_is_within_128(bits: u32)
    ensures
        coordinate_ok(bits as nat) <==> ((bits % 0x8000_0000) < 0x7f80_0000 && value_within(
            (bits % 0x8000_0000) as u32,
            0,
            1,
            128,
            1,
        )),
{
    lemma2_to64();
    let m = (bits % 0x8000_0000) as u32;
    if m < 0x7f80_0000 {
        assert(single_exponent(0x4300_0000) == 134 && single_significand(0x4300_0000) == 8388608);
        assert(pow2(16) == 65536);
        lemma_single_scaled_vs(0x4300_0000, 128, 1);
        lemma_single_at_most(m, 0x4300_0000, 128, 1);
    }
}

/// Clip durations are positive finite singles of at most 30 seconds.
pub proof fn lemma_duration_is_positive_and_at_most_30(bits: u32)
    ensures
        duration_ok(bits as nat) <==> (bits < 0x7f80_0000 && single_scaled(bits) > 0 && value_within(
            bits,
            0,
            1,
            30,
            1,
        )),
{
    lemma2_to64();
    if bits < 0x7f80_0000 {
        assert(single_exponent(0x41f0_0000) == 131 && single_significand(0x41f0_0000) == 15728640);
        assert(pow2(19) == 524288);
        lemma_single_scaled_vs(0x41f0_0000, 30, 1);
        lemma_single_at_most(bits, 0x41f0_0000, 30, 1);
        vstd::arithmetic::power2::lemma_pow2_pos(
            if single_exponent(bits) == 0 {
                1
            } else {
                single_exponent(bits)
            },
        );
        if bits == 0 {
            assert(single_significand(bits) == 0);
            assert(single_scaled(bits) == 0) by (nonlinear_arith)
                requires
                    single_significand(bits) == 0,
                    single_scaled(bits) == single_significand(bits) * pow2(1),
            ;
        } else {
            assert(single_significand(bits) > 0);
            assert(single_scaled(bits) > 0) by (nonlinear_arith)
                requires
                    single_significand(bits) > 0,
                    single_scaled(bits) == single_significand(bits) * pow2(
                        if single_exponent(bits) == 0 {
                            1
                        } else {
                            single_exponent(bits)
                        },
                    ),
                    pow2(
                        if single_exponent(bits) == 0 {
                            1
                        } else {
                            single_exponent(bits)
                        },
                    ) > 0,
            ;
        }
    }
}

/// The budgets of a character, in the order they are checked once the
/// header is read: 1 to 16000 vertices and a whole number of triangles of
/// at most 32766 indices; exactly seven clips over 14 to 512 frames; and a
/// morph cache (24 bytes per vertex and frame, 32 when textured) of at most
/// 16 MiB.
pub proof fn lemma_opch_budgets(d: Seq<u8>)
    requires
        d.len() >= 24,
        opch_magic(d),
        le32(d, 4) == 1 || le32(d, 4) == 2,
    ensures
        MAX_CACHE_BYTES == 16 * 1024 * 1024,
        !(1 <= le32(d, 8) <= 16000 && 0 < le32(d, 12) <= 32766 && le32(d, 12) % 3 == 0)
            ==> opch_check(d) == Err::<(), &'static str>("vertex/index budget exceeded"),
        (1 <= le32(d, 8) <= 16000 && 0 < le32(d, 12) <= 32766 && le32(d, 12) % 3 == 0) && !(le32(
            d,
            16,
        ) == 7 && 14 <= le32(d, 20) <= 512) ==> opch_check(d) == Err::<(), &'static str>(
            "invalid clip/frame count",
        ),
        (1 <= le32(d, 8) <= 16000 && 0 < le32(d, 12) <= 32766 && le32(d, 12) % 3 == 0) && (le32(
            d,
            16,
        ) == 7 && 14 <= le32(d, 20) <= 512) ==> (opch_check(d) == Err::<(), &'static str>(
            "morph cache budget exceeded",
        ) <==> le32(d, 20) * le32(d, 8) * (if le32(d, 4) == 2 {
            32nat
        } else {
            24nat
        }) > 16 * 1024 * 1024),
{
}

/// Whether `n` is a power of two.
pub open spec fn is_power_of_two(n: nat) -> bool
    decreases n,
{
    if n == 1 {
        true
    } else if n == 0 || n % 2 != 0 {
        false
    } else {
        is_power_of_two(n / 2)
    }
}

/// An atlas is accepted exactly when it is square and its side is a power
/// of two from 16 to 256 texels.
pub proof fn lemma_texture_dims_are_square_powers_of_two(w: nat, h: nat)
    ensures
        texture_dims_ok(w, h) <==> (h == w && 16 <= w <= 256 && is_power_of_two(w)),
{
    reveal_with_fuel(is_power_of_two, 10);
    if 16 <= w <= 256 && is_power_of_two(w) {
        assert(w % 2 == 0);
        assert(w / 2 % 2 == 0 || w / 2 == 1);
    }
}

/// The verdict on an OPCH buffer, with the first failing rule, in the
/// order the header is read: magic, version, counts and budgets, texture
/// header, total length, clip records, pose coverage, indices, sockets.
pub open spec fn opch_check(d: Seq<u8>) -> Result<(), &'static str> {
    if !opch_magic(d) {
        Err("invalid magic")
    } else if d.len() < 8 {
        Err("truncated header")
    } else if format_version(d) != 1 && format_version(d) != 2 {
        Err("unsupported version")
    } else if d.len() < 24 {
        Err("truncated header")
    } else if !(1 <= vertex_total(d) <= 16000) || index_total(d) == 0 || index_total(d) > 32766 || index_total(d)
        % 3 != 0 {
        Err("vertex/index budget exceeded")
    } else if clip_total(d) != 7 || frame_total(d) < 14 || frame_total(d) > 512 {
        Err("invalid clip/frame count")
    } else if frame_total(d) * vertex_total(d) * cache_stride(d) > MAX_CACHE_BYTES {
        Err("morph cache budget exceeded")
    } else if is_textured(d) && d.len() < 32 {
        Err("truncated header")
    } else if is_textured(d) && !texture_dims_ok(le32(d, 24), le32(d, 28)) {
        Err("invalid texture dimensions")
    } else if is_textured(d) && d.len() < 36 {
        Err("truncated header")
    } else if is_textured(d) && le32(d, 32) != texture_bytes(d) {
        Err("invalid texture header")
    } else if is_textured(d) && d.len() < 40 {
        Err("truncated header")
    } else if is_textured(d) && le32(d, 36) != 0 {
        Err("invalid texture header")
    } else if d.len() != expected_len(d) {
        Err("invalid asset length")
    } else if clip_walk(d, 0, 0) is None {
        Err("invalid clip record")
    } else if clip_walk(d, 0, 0) != Some(frame_total(d)) {
        Err("unreferenced pose frames")
    } else if !indices_in_range(d) {
        Err("out-of-range vertex index")
    } else if is_textured(d) && !sockets_ok(d) {
        Err("invalid attack socket")
    } else {
        Ok(())
    }
}

/// A complete, well-formed OPCH asset.
pub open spec fn opch_valid(d: Seq<u8>) -> bool {
    opch_check(d) is Ok
}

/// Checks a complete OPCH buffer and names the first rule it breaks.
#[verifier::loop_isolation(false)]
pub fn validate(data: &[u8]) -> (r: Result<(), &'static str>)
    ensures
        r == opch_check(data@),
{
    let d = Ghost(data@);
    if data.len() < 4 || data[0] != 0x4f || data[1] != 0x50 || data[2] != 0x43 || data[3] != 0x48 {
        return Err("invalid magic");
    }
    if data.len() < 8 {
        return Err("truncated header");
    }
    let version = read_u32(data, 4);
    let header: usize = if version == 1 {
        24
    } else if version == 2 {
        40
    } else {
        return Err("unsupported version");
    };
    let textured = version == 2;
    if data.len() < 24 {
        return Err("truncated header");
    }
    let vertices = read_u32(data, 8) as usize;
    let indices = read_u32(data, 12) as usize;
    let clips = read_u32(data, 16) as usize;
    let frames = read_u32(data, 20) as usize;
    if vertices < 1 || vertices > 16000 || indices == 0 || indices > 32766 || indices % 3 != 0 {
        return Err("vertex/index budget exceeded");
    }
    if clips != 7 || frames < 14 || frames > 512 {
        return Err("invalid clip/frame count");
    }
    assert(frames * vertices <= 512 * 16000) by (nonlinear_arith)
        requires
            frames <= 512,
            vertices <= 16000,
    ;
    let stride: usize = if textured {
        32
    } else {
        24
    };
    if frames * vertices * stride > MAX_CACHE_BYTES {
        return Err("morph cache budget exceeded");
    }
    let mut tex_bytes: usize = 0;
    if textured {
        if data.len() < 32 {
            return Err("truncated header");
        }
        let w = read_u32(data, 24) as usize;
        let h = read_u32(data, 28) as usize;
        if !(h == w && (w == 16 || w == 32 || w == 64 || w == 128 || w == 256)) {
            return Err("invalid texture dimensions");
        }
        if data.len() < 36 {
            return Err("truncated header");
        }
        if read_u32(data, 32) as usize != w * h * 4 {
            return Err("invalid texture header");
        }
        if data.len() < 40 {
            return Err("truncated header");
        }
        if read_u32(data, 36) != 0 {
            return Err("invalid texture header");
        }
        tex_bytes = w * h * 4;
    }
    let uv_bytes: usize = if textured {
        8
    } else {
        4
    };
    let index_start = header + clips * 16 + vertices * uv_bytes;
    let poses = index_start + indices * 2;
    let sockets = poses + frames * vertices * 6;
    let expected = if textured {
        sockets + frames * 12 + tex_bytes
    } else {
        sockets
    };
    assert(index_start == indices_start(d@));
    assert(sockets == sockets_start(d@));
    assert(expected == expected_len(d@));
    if data.len() != expected {
        return Err("invalid asset length");
    }
    // Clip records: contiguous, non-empty frame ranges covering every pose.
    let mut next_frame: usize = 0;
    let mut clip: usize = 0;
    while clip < clips
        invariant
            clips == 7,
            clip <= 7,
            header == header_len(d@),
            data@ == d@,
            data@.len() == expected_len(d@),
            frames == frame_total(d@),
            frames <= 512,
            next_frame <= frames,
            opch_magic(d@),
            format_version(d@) == 1 || format_version(d@) == 2,
            clip_total(d@) == 7,
            clip_walk(d@, 0, 0) == clip_walk(d@, clip as nat, next_frame as nat),
        decreases 7 - clip,
    {
        let at = header + clip * 16;
        assert(at + 16 <= data@.len());
        let start = read_u32(data, at) as usize;
        let count = read_u32(data, at + 4) as usize;
        let duration = read_u32(data, at + 8);
        let looping = read_u32(data, at + 12);
        let expected_loop: u32 = if clip < 3 {
            1
        } else {
            0
        };
        if start != next_frame || count < 2 || count > frames - start || !(0 < duration
            && duration <= 0x41f0_0000) || looping != expected_loop {
            return Err("invalid clip record");
        }
        next_frame = next_frame + count;
        clip = clip + 1;
    }
    if next_frame != frames {
        return Err("unreferenced pose frames");
    }
    // Every triangle corner names an existing vertex.
    let mut i: usize = 0;
    while i < indices
        invariant
            i <= indices,
            indices == index_total(d@),
            vertices == vertex_total(d@),
            index_start == indices_start(d@),
            index_start + indices * 2 <= data@.len(),
            data@ == d@,
            forall|j: int| 0 <= j < i ==> #[trigger] le16(d@, indices_start(d@) + 2 * j) < vertex_total(d@),
        decreases indices - i,
    {
        let value = read_u16(data, index_start + i * 2) as usize;
        if value >= vertices {
            assert(le16(d@, indices_start(d@) + 2 * (i as int)) >= vertex_total(d@));
            return Err("out-of-range vertex index");
        }
        i = i + 1;
    }
    if textured {
        // Attack sockets: three finite, bounded coordinates per frame.
        let mut i: usize = 0;
        while i < frames * 3
            invariant
                i <= frames * 3,
                frames == frame_total(d@),
                frames <= 512,
                sockets == sockets_start(d@),
                sockets + frames * 12 <= data@.len(),
                data@ == d@,
                forall|j: int|
                    0 <= j < i ==> coordinate_ok(#[trigger] le32(d@, sockets_start(d@) + 4 * j)),
            decreases frames * 3 - i,
        {
            let value = read_u32(data, sockets + i * 4);
            if value % 0x8000_0000 > 0x4300_0000 {
                assert(!coordinate_ok(le32(d@, sockets_start(d@) + 4 * (i as int))));
                return Err("invalid attack socket");
            }
            i = i + 1;
        }
    }
    Ok(())
}

} // verus!

verus! {

/// No strict prefix of a valid asset is valid: a truncated file is always
/// rejected, whichever byte it stops at.
pub proof fn lemma_truncated_opch_rejected(d: Seq<u8>, n: nat)
    requires
        opch_valid(d),
        n < d.len(),
    ensures
        !opch_valid(d.take(n as int)),
{
    let p = d.take(n as int);
    if n >= 24 {
        assert(le32(p, 4) == le32(d, 4));
        assert(le32(p, 8) == le32(d, 8));
        assert(le32(p, 12) == le32(d, 12));
        assert(le32(p, 16) == le32(d, 16));
        assert(le32(p, 20) == le32(d, 20));
    }
    if n >= 40 {
        assert(le32(p, 24) == le32(d, 24));
        assert(le32(p, 28) == le32(d, 28));
        assert(le32(p, 32) == le32(d, 32));
        assert(le32(p, 36) == le32(d, 36));
    }
    if n >= 8 {
        assert(le32(p, 4) == le32(d, 4));
    }
}

} // verus!

verus! {

/// The tables of a valid asset follow one another without gaps and end
/// exactly at the end of the file: header, clip records, colors, UVs (when
/// textured), indices, poses, then sockets and the atlas (when textured).
pub proof fn lemma_opch_layout(d: Seq<u8>)
    requires
        opch_valid(d),
    ensures
        colors_start(d) == header_len(d) + CLIPS * RECORD,
        colors_start(d) < uv_start(d) <= indices_start(d) < poses_start(d) < sockets_start(d),
        is_textured(d) ==> texture_start(d) + texture_bytes(d) == d.len(),
        is_textured(d) ==> texture_bytes(d) == texture_width(d) * texture_width(d) * 4,
        !is_textured(d) ==> sockets_start(d) == d.len(),
{
    assert(frame_total(d) * vertex_total(d) >= 1) by (nonlinear_arith)
        requires
            frame_total(d) >= 14,
            vertex_total(d) >= 1,
    ;
}

} // verus!

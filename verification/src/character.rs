//! Baked character presentation shared by the handheld renderers. The
//! runtime only reads the validated OPCH bytes: quantized poses, colors,
//! UVs, triangle indices and the RGBA atlas.
use vstd::prelude::*;

use crate::bytes::{le16, le32, read_u16, read_u32};
use crate::format::{
    clip_at, clip_walk, colors_start, frame_total, index_total, indices_start, is_textured,
    opch_check, opch_valid, poses_start, sockets_start, texture_start, texture_width, uv_start,
    validate, vertex_total, MAX_CACHE_BYTES,
};

verus! {

/// Quantized GE input, with explicit padding so no uninitialized bytes reach
/// the device. Two consecutive entries form one hardware morph vertex.
#[derive(Clone, Copy, Debug, Default)]
pub struct PackedVertex {
    pub color: u32,
    pub x: i16,
    pub y: i16,
    pub z: i16,
    pub padding: u16,
}

/// A packed vertex with its 16-bit atlas coordinates.
#[derive(Clone, Copy, Debug, Default)]
pub struct TexturedVertex {
    pub u: u16,
    pub v: u16,
    pub vertex: PackedVertex,
}

/// Byte offset of vertex `i` of baked frame `frame`.
pub open spec fn pose_at(d: Seq<u8>, frame: nat, i: nat) -> nat {
    poses_start(d) + (frame * vertex_total(d) + i) * 6
}

/// Vertex `i` of baked frame `frame`: its color and the three signed 16-bit
/// coordinates stored for that frame.
pub open spec fn packed_vertex(d: Seq<u8>, frame: nat, i: nat) -> PackedVertex {
    let at = pose_at(d, frame, i) as int;
    PackedVertex {
        color: le32(d, (colors_start(d) + 4 * i) as int) as u32,
        x: le16(d, at) as i16,
        y: le16(d, at + 2) as i16,
        z: le16(d, at + 4) as i16,
        padding: 0,
    }
}

/// Vertex `i` of baked frame `frame` with its atlas coordinates.
pub open spec fn textured_vertex_of(d: Seq<u8>, frame: nat, i: nat) -> TexturedVertex {
    TexturedVertex {
        u: le16(d, (uv_start(d) + 4 * i) as int) as u16,
        v: le16(d, (uv_start(d) + 4 * i + 2) as int) as u16,
        vertex: packed_vertex(d, frame, i),
    }
}

/// Triangle corner `i`: the vertex it names.
pub open spec fn index_of(d: Seq<u8>, i: nat) -> nat {
    le16(d, (indices_start(d) + 2 * i) as int)
}

/// Vertex `i` of baked frame `frame` lies inside the pose table, and the
/// pose table inside the asset.
proof fn lemma_pose_in_bounds(d: Seq<u8>, frame: nat, i: nat)
    requires
        opch_valid(d),
        frame < frame_total(d),
        i < vertex_total(d),
    ensures
        pose_at(d, frame, i) + 6 <= poses_start(d) + frame_total(d) * vertex_total(d) * 6,
        poses_start(d) + frame_total(d) * vertex_total(d) * 6 <= d.len(),
{
    let v = vertex_total(d);
    let f = frame_total(d);
    assert(frame * v + i + 1 <= f * v) by (nonlinear_arith)
        requires
            frame < f,
            i < v,
    ;
    assert((frame * v + i) * 6 + 6 <= f * v * 6) by (nonlinear_arith)
        requires
            frame * v + i + 1 <= f * v,
    ;
}

/// The seven authored actions, in clip-record order. The first three loop.
#[derive(Clone, Copy, Debug, PartialEq, Eq, Structural)]
pub enum ActorClip {
    Idle,
    Walk,
    Run,
    Fire,
    Reload,
    Hit,
    Death,
}

/// Position of a clip's record.
pub open spec fn clip_number(clip: ActorClip) -> nat {
    match clip {
        ActorClip::Idle => 0,
        ActorClip::Walk => 1,
        ActorClip::Run => 2,
        ActorClip::Fire => 3,
        ActorClip::Reload => 4,
        ActorClip::Hit => 5,
        ActorClip::Death => 6,
    }
}

/// Clips are stored in authoring order, Idle, Walk, Run, Fire, Reload, Hit
/// and Death: each clip's record is the 16 bytes at its position after the
/// header, so every clip reads a record of its own; the three movement
/// clips, Idle, Walk and Run, are the looping ones.
pub proof fn lemma_clip_records_in_authoring_order(d: Seq<u8>)
    ensures
        clip_at(d, clip_number(ActorClip::Idle)) == crate::format::header_len(d),
        clip_at(d, clip_number(ActorClip::Walk)) == crate::format::header_len(d) + 16,
        clip_at(d, clip_number(ActorClip::Run)) == crate::format::header_len(d) + 32,
        clip_at(d, clip_number(ActorClip::Fire)) == crate::format::header_len(d) + 48,
        clip_at(d, clip_number(ActorClip::Reload)) == crate::format::header_len(d) + 64,
        clip_at(d, clip_number(ActorClip::Hit)) == crate::format::header_len(d) + 80,
        clip_at(d, clip_number(ActorClip::Death)) == crate::format::header_len(d) + 96,
        forall|a: ActorClip, b: ActorClip| a != b ==> clip_at(d, clip_number(a)) != clip_at(d, clip_number(b)),
        forall|c: ActorClip| #![auto] clip_number(c) < 3 <==> (c is Idle || c is Walk || c is Run),
{
}

impl ActorClip {
    pub fn number(self) -> (r: usize)
        ensures
            r == clip_number(self),
            self is Idle ==> r == 0,
            self is Walk ==> r == 1,
            self is Run ==> r == 2,
            self is Fire ==> r == 3,
            self is Reload ==> r == 4,
            self is Hit ==> r == 5,
            self is Death ==> r == 6,
    {
        match self {
            ActorClip::Idle => 0,
            ActorClip::Walk => 1,
            ActorClip::Run => 2,
            ActorClip::Fire => 3,
            ActorClip::Reload => 4,
            ActorClip::Hit => 5,
            ActorClip::Death => 6,
        }
    }
}

/// In a valid asset every clip's frames lie inside the pose table.
proof fn lemma_clip_frames_in_range(d: Seq<u8>, k: nat, next: nat, j: nat)
    requires
        clip_walk(d, k, next) == Some(frame_total(d)),
        k <= j < 7,
    ensures
        le32(d, clip_at(d, j) as int) + le32(d, clip_at(d, j) + 4int) <= frame_total(d),
        le32(d, clip_at(d, j) + 4int) >= 2,
    decreases j - k,
{
    if k < j {
        let at = clip_at(d, k) as int;
        lemma_clip_frames_in_range(d, k + 1, next + le32(d, at + 4), j);
    }
}

/// In a valid asset every clip's duration is in range.
proof fn lemma_clip_duration_ok(d: Seq<u8>, k: nat, next: nat, j: nat)
    requires
        clip_walk(d, k, next) == Some(frame_total(d)),
        k <= j < 7,
    ensures
        crate::format::duration_ok(le32(d, clip_at(d, j) + 8int)),
    decreases j - k,
{
    if k < j {
        let at = clip_at(d, k) as int;
        lemma_clip_duration_ok(d, k + 1, next + le32(d, at + 4), j);
    }
}

/// In a valid asset exactly the first three clips are flagged as looping.
proof fn lemma_clip_loop_flag(d: Seq<u8>, k: nat, next: nat, j: nat)
    requires
        clip_walk(d, k, next) == Some(frame_total(d)),
        k <= j < 7,
    ensures
        le32(d, clip_at(d, j) + 12int) == (if j < 3 {
            1nat
        } else {
            0nat
        }),
    decreases j - k,
{
    if k < j {
        let at = clip_at(d, k) as int;
        lemma_clip_loop_flag(d, k + 1, next + le32(d, at + 4), j);
    }
}

/// Validated immutable character data. A pose or cache built from it keeps
/// reading this asset, so selecting another pack cannot reinterpret offsets.
#[derive(Clone, Copy)]
pub struct Asset {
    data: &'static [u8],
}

impl View for Asset {
    type V = Seq<u8>;

    closed spec fn view(&self) -> Seq<u8> {
        self.data@
    }
}

impl Asset {
    #[verifier::type_invariant]
    pub closed spec fn well_formed(self) -> bool {
        opch_valid(self.data@)
    }

    /// Accepts exactly the buffers that pass `validate`.
    pub fn parse(data: &'static [u8]) -> (r: Result<Self, &'static str>)
        ensures
            match r {
                Ok(asset) => opch_valid(data@) && asset@ == data@,
                Err(e) => opch_check(data@) == Err::<(), &'static str>(e),
            },
    {
        match validate(data) {
            Ok(()) => Ok(Asset { data }),
            Err(e) => Err(e),
        }
    }

    fn header(&self) -> (r: usize)
        ensures
            r == crate::format::header_len(self@),
    {
        if self.textured() {
            40
        } else {
            24
        }
    }

    pub fn textured(&self) -> (r: bool)
        ensures
            r == is_textured(self@),
    {
        proof {
            use_type_invariant(self);
        }
        self.u32_at(4) == 2
    }

    pub fn baked_frame_count(&self) -> (r: usize)
        ensures
            r == frame_total(self@),
            14 <= r <= 512,
    {
        proof {
            use_type_invariant(self);
        }
        self.u32_at(20) as usize
    }

    pub fn baked_vertex(&self, frame: usize, i: usize) -> (r: PackedVertex)
        requires
            frame < frame_total(self@),
            i < vertex_total(self@),
        ensures
            r == packed_vertex(self@, frame as nat, i as nat),
    {
        proof {
            use_type_invariant(self);
            lemma_pose_in_bounds(self@, frame as nat, i as nat);
        }
        let at = self.poses_start() + (frame * self.vertex_count() + i) * 6;
        PackedVertex {
            color: self.u32_at(self.colors_start() + i * 4),
            x: self.u16_at(at) as i16,
            y: self.u16_at(at + 2) as i16,
            z: self.u16_at(at + 4) as i16,
            padding: 0,
        }
    }

    fn u32_at(&self, offset: usize) -> (r: u32)
        requires
            offset + 4 <= self@.len(),
        ensures
            r == le32(self@, offset as int),
    {
        read_u32(self.data, offset)
    }

    fn u16_at(&self, offset: usize) -> (r: u16)
        requires
            offset + 2 <= self@.len(),
        ensures
            r == le16(self@, offset as int),
    {
        read_u16(self.data, offset)
    }

    pub fn vertex_count(&self) -> (r: usize)
        ensures
            r == vertex_total(self@),
            1 <= r <= 16000,
    {
        proof {
            use_type_invariant(self);
        }
        self.u32_at(8) as usize
    }

    pub fn index_count(&self) -> (r: usize)
        ensures
            r == index_total(self@),
            0 < r <= 32766,
            r % 3 == 0,
    {
        proof {
            use_type_invariant(self);
        }
        self.u32_at(12) as usize
    }

    pub fn triangle_count(&self) -> (r: usize)
        ensures
            r == index_total(self@) / 3,
            r <= 10922,
    {
        self.index_count() / 3
    }

    pub fn asset_bytes(&self) -> (r: usize)
        ensures
            r == self@.len(),
    {
        self.data.len()
    }

    fn colors_start(&self) -> (r: usize)
        ensures
            r == colors_start(self@),
    {
        proof {
            use_type_invariant(self);
        }
        self.header() + self.u32_at(16) as usize * 16
    }

    fn uv_start(&self) -> (r: usize)
        ensures
            r == uv_start(self@),
    {
        proof {
            use_type_invariant(self);
        }
        self.colors_start() + self.vertex_count() * 4
    }

    fn indices_start(&self) -> (r: usize)
        ensures
            r == indices_start(self@),
    {
        proof {
            use_type_invariant(self);
        }
        self.uv_start() + if self.textured() {
            self.vertex_count() * 4
        } else {
            0
        }
    }

    fn poses_start(&self) -> (r: usize)
        ensures
            r == poses_start(self@),
    {
        proof {
            use_type_invariant(self);
        }
        self.indices_start() + self.index_count() * 2
    }

    /// Triangle corner `i`; it always names an existing vertex.
    pub fn index(&self, i: usize) -> (r: usize)
        requires
            i < index_total(self@),
        ensures
            r == index_of(self@, i as nat),
            r < vertex_total(self@),
    {
        proof {
            use_type_invariant(self);
            assert(crate::format::indices_in_range(self@));
            assert(le16(self@, indices_start(self@) + 2 * (i as int)) < vertex_total(self@));
        }
        self.u16_at(self.indices_start() + i * 2) as usize
    }

    /// Copies every triangle index into `out`, which holds exactly as many.
    pub fn copy_indices(&self, out: &mut [u16])
        requires
            old(out)@.len() == index_total(self@),
        ensures
            final(out)@.len() == index_total(self@),
            forall|j: int|
                0 <= j < index_total(self@) ==> final(out)@[j] == index_of(self@, j as nat),
    {
        let n = out.len();
        let mut i: usize = 0;
        while i < n
            invariant
                n == index_total(self@),
                out@.len() == n,
                i <= n,
                forall|j: int| 0 <= j < i ==> out@[j] == index_of(self@, j as nat),
            decreases n - i,
        {
            let value = self.index(i);
            out[i] = value as u16;
            i = i + 1;
        }
    }

    pub fn textured_vertex(&self, frame: usize, i: usize) -> (r: TexturedVertex)
        requires
            is_textured(self@),
            frame < frame_total(self@),
            i < vertex_total(self@),
        ensures
            r == textured_vertex_of(self@, frame as nat, i as nat),
    {
        proof {
            use_type_invariant(self);
        }
        let uv = self.uv_start() + i * 4;
        TexturedVertex {
            u: self.u16_at(uv),
            v: self.u16_at(uv + 2),
            vertex: self.baked_vertex(frame, i),
        }
    }

    fn sockets_start(&self) -> (r: usize)
        ensures
            r == crate::format::sockets_start(self@),
    {
        proof {
            use_type_invariant(self);
            let d = self@;
            assert(frame_total(d) * vertex_total(d) <= 512 * 16000) by (nonlinear_arith)
                requires
                    frame_total(d) <= 512,
                    vertex_total(d) <= 16000,
            ;
        }
        self.poses_start() + self.baked_frame_count() * self.vertex_count() * 6
    }

    /// First baked frame and frame count of `clip`: at least two frames,
    /// all inside the pose table.
    pub fn clip_range(&self, clip: ActorClip) -> (r: (usize, usize))
        ensures
            r.0 == le32(self@, clip_at(self@, clip_number(clip)) as int),
            r.1 == le32(self@, clip_at(self@, clip_number(clip)) + 4int),
            r.1 >= 2,
            r.0 + r.1 <= frame_total(self@),
    {
        proof {
            use_type_invariant(self);
            lemma_clip_frames_in_range(self@, 0, 0, clip_number(clip));
        }
        let at = self.header() + clip.number() * 16;
        (self.u32_at(at) as usize, self.u32_at(at + 4) as usize)
    }

    /// Whether `clip` loops: exactly the gaits Idle, Walk and Run.
    pub fn looping(&self, clip: ActorClip) -> (r: bool)
        ensures
            r == (le32(self@, clip_at(self@, clip_number(clip)) + 12int) == 1),
            r == (clip_number(clip) < 3),
    {
        proof {
            use_type_invariant(self);
            lemma_clip_loop_flag(self@, 0, 0, clip_number(clip));
        }
        self.u32_at(self.header() + clip.number() * 16 + 12) == 1
    }

    /// Bit patterns of the local-space point an attack starts from: the
    /// attack socket of the first Fire frame, or the officer's fixed muzzle
    /// (3.60, 50.97, -36.52) for an untextured asset.
    pub fn attack_origin(&self) -> (r: [u32; 3])
        ensures
            is_textured(self@) ==> {
                let at = sockets_start(self@) + 12 * le32(
                    self@,
                    crate::format::header_len(self@) + 48int,
                );
                r@ == seq![
                    le32(self@, at as int) as u32,
                    le32(self@, at + 4int) as u32,
                    le32(self@, at + 8int) as u32,
                ]
            },
            !is_textured(self@) ==> r@ == seq![0x4066_6666u32, 0x424b_e148u32, 0xc212_147bu32],
    {
        proof {
            use_type_invariant(self);
        }
        if !self.textured() {
            let r = [0x4066_6666u32, 0x424b_e148u32, 0xc212_147bu32];
            assert(r@ =~= seq![0x4066_6666u32, 0x424b_e148u32, 0xc212_147bu32]);
            return r;
        }
        let record = self.header() + ActorClip::Fire.number() * 16;
        let frame = self.u32_at(record) as usize;
        proof {
            lemma_clip_frames_in_range(self@, 0, 0, 3);
        }
        let at = self.sockets_start() + frame * 12;
        let r = [self.u32_at(at), self.u32_at(at + 4), self.u32_at(at + 8)];
        assert(r@ =~= seq![
            le32(self@, at as int) as u32,
            le32(self@, at + 4) as u32,
            le32(self@, at + 8) as u32,
        ]);
        r
    }

    /// Bit pattern of a clip's duration in seconds (finite, positive, at
    /// most 30).
    pub fn duration(&self, clip: ActorClip) -> (r: u32)
        ensures
            r == le32(self@, clip_at(self@, clip_number(clip)) + 8int),
            0 < r <= 0x41f0_0000,
    {
        proof {
            use_type_invariant(self);
            lemma_clip_duration_ok(self@, 0, 0, clip_number(clip));
        }
        self.u32_at(self.header() + clip.number() * 16 + 8)
    }

    /// The atlas width and its RGBA bytes, for a textured asset.
    pub fn texture(&self) -> (r: Option<(usize, &'static [u8])>)
        ensures
            is_textured(self@) <==> r is Some,
            r matches Some((w, rgba)) ==> {
                &&& w == texture_width(self@)
                &&& rgba@ == self@.subrange(texture_start(self@) as int, self@.len() as int)
                &&& rgba@.len() == w * w * 4
                &&& (w == 16 || w == 32 || w == 64 || w == 128 || w == 256)
            },
    {
        proof {
            use_type_invariant(self);
        }
        if !self.textured() {
            return None;
        }
        let start = self.sockets_start() + self.baked_frame_count() * 12;
        let (_, rgba) = self.data.split_at(start);
        Some((self.u32_at(24) as usize, rgba))
    }
}

/// The asset a host selected at build time; the bytes passed the same
/// validation there.
pub fn selected_asset(data: &'static [u8]) -> (r: Asset)
    requires
        opch_valid(data@),
    ensures
        r@ == data@,
{
    Asset { data }
}

pub fn textured(asset: &Asset) -> (r: bool)
    ensures
        r == is_textured(asset@),
{
    asset.textured()
}

pub fn baked_frame_count(asset: &Asset) -> (r: usize)
    ensures
        r == frame_total(asset@),
{
    asset.baked_frame_count()
}

pub fn baked_vertex(asset: &Asset, frame: usize, i: usize) -> (r: PackedVertex)
    requires
        frame < frame_total(asset@),
        i < vertex_total(asset@),
    ensures
        r == packed_vertex(asset@, frame as nat, i as nat),
{
    asset.baked_vertex(frame, i)
}

pub fn vertex_count(asset: &Asset) -> (r: usize)
    ensures
        r == vertex_total(asset@),
{
    asset.vertex_count()
}

pub fn index_count(asset: &Asset) -> (r: usize)
    ensures
        r == index_total(asset@),
{
    asset.index_count()
}

pub fn triangle_count(asset: &Asset) -> (r: usize)
    ensures
        r == index_total(asset@) / 3,
{
    asset.triangle_count()
}

pub fn asset_bytes(asset: &Asset) -> (r: usize)
    ensures
        r == asset@.len(),
{
    asset.asset_bytes()
}

pub fn index(asset: &Asset, i: usize) -> (r: usize)
    requires
        i < index_total(asset@),
    ensures
        r == index_of(asset@, i as nat),
{
    asset.index(i)
}

pub fn copy_indices(asset: &Asset, out: &mut [u16])
    requires
        old(out)@.len() == index_total(asset@),
    ensures
        final(out)@.len() == index_total(asset@),
        forall|j: int| 0 <= j < index_total(asset@) ==> final(out)@[j] == index_of(asset@, j as nat),
{
    asset.copy_indices(out)
}

pub fn textured_vertex(asset: &Asset, frame: usize, i: usize) -> (r: TexturedVertex)
    requires
        is_textured(asset@),
        frame < frame_total(asset@),
        i < vertex_total(asset@),
    ensures
        r == textured_vertex_of(asset@, frame as nat, i as nat),
{
    asset.textured_vertex(frame, i)
}

pub fn texture(asset: &Asset) -> (r: Option<(usize, &'static [u8])>)
    ensures
        is_textured(asset@) <==> r is Some,
        r matches Some((w, rgba)) ==> {
            &&& w == texture_width(asset@)
            &&& rgba@ == asset@.subrange(texture_start(asset@) as int, asset@.len() as int)
            &&& rgba@.len() == w * w * 4
            &&& (w == 16 || w == 32 || w == 64 || w == 128 || w == 256)
        },
{
    asset.texture()
}

pub fn attack_origin(asset: &Asset) -> (r: [u32; 3])
    ensures
        is_textured(asset@) ==> {
            let at = sockets_start(asset@) + 12 * le32(
                asset@,
                crate::format::header_len(asset@) + 48int,
            );
            r@ == seq![
                le32(asset@, at as int) as u32,
                le32(asset@, at + 4int) as u32,
                le32(asset@, at + 8int) as u32,
            ]
        },
        !is_textured(asset@) ==> r@ == seq![0x4066_6666u32, 0x424b_e148u32, 0xc212_147bu32],
{
    asset.attack_origin()
}

pub fn duration(asset: &Asset, clip: ActorClip) -> (r: u32)
    ensures
        r == le32(asset@, clip_at(asset@, clip_number(clip)) + 8int),
        0 < r <= 0x41f0_0000,
{
    asset.duration(clip)
}

/// Start of GE tile row `block` in a linear RGBA image `width` texels wide.
/// Tiles are 16 bytes (four texels) by 8 rows, laid out row by row; block
/// `b` is row `b % 8` of tile `b / 8`.
pub open spec fn swizzle_offset(width: nat, block: nat) -> nat {
    let row_bytes = width * 4;
    let tiles_per_row = row_bytes / 16;
    let tile = block / 8;
    let row = (tile / tiles_per_row) * 8 + block % 8;
    row * row_bytes + (tile % tiles_per_row) * 16
}

/// One 16-byte row of a GE 16-byte by 8-row texture tile: the 16 bytes of
/// the linear image that block `block` of the swizzled atlas holds.
pub fn swizzled_rgba_block(rgba: &[u8], width: usize, block: usize) -> (r: [u8; 16])
    requires
        width >= 4,
        width % 4 == 0,
        width * 4 <= usize::MAX,
        block < rgba@.len() / 16,
        swizzle_offset(width as nat, block as nat) + 16 <= rgba@.len(),
    ensures
        r@ == rgba@.subrange(
            swizzle_offset(width as nat, block as nat) as int,
            (swizzle_offset(width as nat, block as nat) + 16) as int,
        ),
{
    let len = rgba.len();
    let row_bytes = width * 4;
    let tiles_per_row = row_bytes / 16;
    let tile = block / 8;
    let row = (tile / tiles_per_row) * 8 + block % 8;
    proof {
        let off = swizzle_offset(width as nat, block as nat);
        assert(off == row * row_bytes + (tile % tiles_per_row) * 16);
        assert(row * row_bytes <= off);
        assert(off + 16 <= len);
    }
    let offset = row * row_bytes + (tile % tiles_per_row) * 16;
    let r = [
        rgba[offset],
        rgba[offset + 1],
        rgba[offset + 2],
        rgba[offset + 3],
        rgba[offset + 4],
        rgba[offset + 5],
        rgba[offset + 6],
        rgba[offset + 7],
        rgba[offset + 8],
        rgba[offset + 9],
        rgba[offset + 10],
        rgba[offset + 11],
        rgba[offset + 12],
        rgba[offset + 13],
        rgba[offset + 14],
        rgba[offset + 15],
    ];
    assert(r@ =~= rgba@.subrange(offset as int, offset + 16));
    r
}

/// Every block of an image whose height is a multiple of the 8-row tile
/// lies inside the image.
pub proof fn lemma_swizzle_block_in_bounds(width: nat, height: nat, block: nat)
    requires
        width >= 4,
        width % 4 == 0,
        height % 8 == 0,
        block < width * height * 4 / 16,
    ensures
        swizzle_offset(width, block) + 16 <= width * height * 4,
{
    let tpr = width / 4;
    let h8 = height / 8;
    vstd::arithmetic::div_mod::lemma_fundamental_div_mod(width as int, 4);
    vstd::arithmetic::div_mod::lemma_fundamental_div_mod(height as int, 8);
    assert(width == tpr * 4);
    assert(height == h8 * 8);
    assert((width * 4) / 16 == tpr) by {
        vstd::arithmetic::div_mod::lemma_fundamental_div_mod_converse(
            (width * 4) as int,
            16,
            tpr as int,
            0,
        );
    }
    assert(width * height * 4 == (h8 * tpr) * 128) by (nonlinear_arith)
        requires
            width == tpr * 4,
            height == h8 * 8,
    ;
    assert(width * height * 4 / 16 == (h8 * tpr) * 8) by {
        vstd::arithmetic::div_mod::lemma_fundamental_div_mod_converse(
            (width * height * 4) as int,
            16,
            ((h8 * tpr) * 8) as int,
            0,
        );
    }
    let tile = block / 8;
    vstd::arithmetic::div_mod::lemma_fundamental_div_mod(block as int, 8);
    assert(tile < h8 * tpr);
    vstd::arithmetic::div_mod::lemma_fundamental_div_mod(tile as int, tpr as int);
    let row_group = tile / tpr;
    let column = tile % tpr;
    assert(row_group < h8) by (nonlinear_arith)
        requires
            tile == tpr * row_group + column,
            0 <= column,
            tile < h8 * tpr,
            tpr > 0,
    ;
    let row = row_group * 8 + block % 8;
    assert(row < height);
    assert(row * (width * 4) + column * 16 + 16 <= width * height * 4) by (nonlinear_arith)
        requires
            row < height,
            column < tpr,
            width == tpr * 4,
    ;
}

/// The atlas in GE tile order: block `b` of the result is block `b` of
/// `swizzled_rgba_block`. The image is `width` texels wide and a whole
/// number of 8-row tiles high.
pub fn swizzled_atlas(rgba: &[u8], width: usize) -> (r: Vec<[u8; 16]>)
    requires
        width >= 4,
        width % 4 == 0,
        width * 32 <= usize::MAX,
        rgba@.len() % ((width * 32) as nat) == 0,
    ensures
        r@.len() == rgba@.len() / 16,
        forall|b: int|
            0 <= b < r@.len() ==> (#[trigger] r@[b])@ == rgba@.subrange(
                swizzle_offset(width as nat, b as nat) as int,
                swizzle_offset(width as nat, b as nat) + 16int,
            ),
{
    let blocks = rgba.len() / 16;
    let ghost height: nat = rgba@.len() / ((width * 4) as nat);
    proof {
        let groups: nat = rgba@.len() / ((width * 32) as nat);
        vstd::arithmetic::div_mod::lemma_fundamental_div_mod(rgba@.len() as int, (width * 32) as int);
        assert(rgba@.len() == width * 4 * (groups * 8)) by (nonlinear_arith)
            requires
                rgba@.len() == (width * 32) * groups,
        ;
        vstd::arithmetic::div_mod::lemma_fundamental_div_mod_converse(
            rgba@.len() as int,
            (width * 4) as int,
            (groups * 8) as int,
            0,
        );
        assert(height == groups * 8);
        assert(rgba@.len() == width * height * 4) by (nonlinear_arith)
            requires
                rgba@.len() == width * 4 * height,
        ;
    }
    let mut r: Vec<[u8; 16]> = Vec::with_capacity(blocks);
    let mut b: usize = 0;
    while b < blocks
        invariant
            width >= 4,
            width % 4 == 0,
            width * 32 <= usize::MAX,
            blocks == rgba@.len() / 16,
            rgba@.len() == width * height * 4,
            height % 8 == 0,
            b <= blocks,
            r@.len() == b,
            forall|k: int|
                0 <= k < b ==> (#[trigger] r@[k])@ == rgba@.subrange(
                    swizzle_offset(width as nat, k as nat) as int,
                    swizzle_offset(width as nat, k as nat) + 16int,
                ),
        decreases blocks - b,
    {
        proof {
            lemma_swizzle_block_in_bounds(width as nat, height, b as nat);
        }
        r.push(swizzled_rgba_block(rgba, width, b));
        b = b + 1;
    }
    r
}

/// Swizzling keeps every texel: in a `width` x `height` RGBA image (height a
/// multiple of the 8-row tile), texel (x, y) is found in block
/// `((y / 8) * (width / 4) + x / 4) * 8 + y % 8`, at byte `(x % 4) * 4`, so the
/// block lies inside the image and holds that texel's four bytes.
pub proof fn lemma_swizzle_keeps_texel(width: nat, height: nat, x: nat, y: nat)
    requires
        width >= 4,
        width % 4 == 0,
        height % 8 == 0,
        x < width,
        y < height,
    ensures
        ({
            let tile = (y / 8) * (width / 4) + x / 4;
            let block = tile * 8 + y % 8;
            &&& block < width * height * 4 / 16
            &&& swizzle_offset(width, block) + 16 <= width * height * 4
            &&& swizzle_offset(width, block) + (x % 4) * 4 == (y * width + x) * 4
            &&& block * 16 + (x % 4) * 4 == tile * 128 + (y % 8) * 16 + (x % 4) * 4
            &&& block == swizzle_block(width, x, y)
            &&& swizzle_texel(width, block, x % 4) == (x, y)
        }),
{
    let tpr = width / 4;
    let tile = (y / 8) * tpr + x / 4;
    let block = tile * 8 + y % 8;
    assert(width == tpr * 4);
    assert((width * 4) / 16 == tpr) by {
        vstd::arithmetic::div_mod::lemma_fundamental_div_mod_converse(
            (width * 4) as int,
            16,
            tpr as int,
            0,
        );
    }
    assert(x / 4 < tpr) by {
        vstd::arithmetic::div_mod::lemma_fundamental_div_mod(x as int, 4);
    }
    vstd::arithmetic::div_mod::lemma_fundamental_div_mod_converse(
        block as int,
        8,
        tile as int,
        (y % 8) as int,
    );
    vstd::arithmetic::div_mod::lemma_fundamental_div_mod_converse(
        tile as int,
        tpr as int,
        (y / 8) as int,
        (x / 4) as int,
    );
    vstd::arithmetic::div_mod::lemma_fundamental_div_mod(y as int, 8);
    vstd::arithmetic::div_mod::lemma_fundamental_div_mod(x as int, 4);
    let row = (tile / tpr) * 8 + block % 8;
    assert(row == y);
    assert(swizzle_offset(width, block) == y * (width * 4) + (x / 4) * 16);
    assert(y * (width * 4) + (x / 4) * 16 + (x % 4) * 4 == (y * width + x) * 4) by (nonlinear_arith)
        requires
            x == 4 * (x / 4) + x % 4,
    ;
    // The block and its 16 bytes stay inside the image.
    let h8 = height / 8;
    vstd::arithmetic::div_mod::lemma_fundamental_div_mod(height as int, 8);
    assert(y / 8 < h8) by {
        vstd::arithmetic::div_mod::lemma_fundamental_div_mod(y as int, 8);
    }
    assert(tile + 1 <= h8 * tpr) by (nonlinear_arith)
        requires
            tile == (y / 8) * tpr + x / 4,
            x / 4 < tpr,
            y / 8 < h8,
    ;
    assert(width * height * 4 == (h8 * tpr) * 128) by (nonlinear_arith)
        requires
            width == tpr * 4,
            height == 8 * h8,
    ;
    assert(width * height * 4 / 16 == (h8 * tpr) * 8) by {
        vstd::arithmetic::div_mod::lemma_fundamental_div_mod_converse(
            (width * height * 4) as int,
            16,
            ((h8 * tpr) * 8) as int,
            0,
        );
    }
    assert(block < (h8 * tpr) * 8);
    assert(y * (width * 4) + (x / 4) * 16 + 16 <= width * height * 4) by (nonlinear_arith)
        requires
            y < height,
            x / 4 < tpr,
            width == tpr * 4,
    ;
}

/// The texel that slot `slot` (of four) of block `block` holds in the
/// swizzled atlas of an image `width` texels wide.
pub open spec fn swizzle_texel(width: nat, block: nat, slot: nat) -> (nat, nat) {
    let tiles_per_row = width / 4;
    let tile = block / 8;
    ((tile % tiles_per_row) * 4 + slot, (tile / tiles_per_row) * 8 + block % 8)
}

/// The block of the swizzled atlas that holds texel (`x`, `y`); it holds it
/// in slot `x % 4`.
pub open spec fn swizzle_block(width: nat, x: nat, y: nat) -> nat {
    ((y / 8) * (width / 4) + x / 4) * 8 + y % 8
}

/// Swizzling moves whole texels and neither loses nor duplicates one: every
/// slot of every block holds the four bytes of one texel of the image, and
/// that texel's own block and slot are this block and slot. With
/// `lemma_swizzle_keeps_texel`, which sends every texel to a slot that
/// holds it and whose texel is that texel again, texels and slots
/// correspond one to one.
pub proof fn lemma_swizzle_is_texel_permutation(width: nat, height: nat, block: nat, slot: nat)
    requires
        width >= 4,
        width % 4 == 0,
        height % 8 == 0,
        block < width * height * 4 / 16,
        slot < 4,
    ensures
        ({
            let (x, y) = swizzle_texel(width, block, slot);
            &&& x < width
            &&& y < height
            &&& swizzle_offset(width, block) + slot * 4 == (y * width + x) * 4
            &&& swizzle_block(width, x, y) == block
            &&& x % 4 == slot
        }),
{
    let tpr = width / 4;
    let h8 = height / 8;
    let tile = block / 8;
    let r = block % 8;
    let x = (tile % tpr) * 4 + slot;
    let y = (tile / tpr) * 8 + r;
    vstd::arithmetic::div_mod::lemma_fundamental_div_mod(width as int, 4);
    vstd::arithmetic::div_mod::lemma_fundamental_div_mod(height as int, 8);
    assert(width == tpr * 4);
    assert(height == h8 * 8);
    assert(tpr > 0);
    assert(width * height * 4 == (h8 * tpr) * 128) by (nonlinear_arith)
        requires
            width == tpr * 4,
            height == h8 * 8,
    ;
    assert(width * height * 4 / 16 == (h8 * tpr) * 8) by {
        vstd::arithmetic::div_mod::lemma_fundamental_div_mod_converse(
            (width * height * 4) as int,
            16,
            ((h8 * tpr) * 8) as int,
            0,
        );
    }
    vstd::arithmetic::div_mod::lemma_fundamental_div_mod(block as int, 8);
    vstd::arithmetic::div_mod::lemma_fundamental_div_mod(tile as int, tpr as int);
    assert(tile < h8 * tpr) by (nonlinear_arith)
        requires
            block == 8 * tile + r,
            r >= 0,
            block < (h8 * tpr) * 8,
    ;
    assert(tile / tpr < h8) by (nonlinear_arith)
        requires
            tile == tpr * (tile / tpr) + tile % tpr,
            0 <= tile % tpr,
            tile < h8 * tpr,
            tpr > 0,
    ;
    assert(x < width);
    assert(y < height);
    assert((width * 4) / 16 == tpr) by {
        vstd::arithmetic::div_mod::lemma_fundamental_div_mod_converse(
            (width * 4) as int,
            16,
            tpr as int,
            0,
        );
    }
    assert(swizzle_offset(width, block) == y * (width * 4) + (tile % tpr) * 16);
    let m = tile % tpr;
    assert(y * (width * 4) + m * 16 + slot * 4 == (y * width + x) * 4) by (nonlinear_arith)
        requires
            x == m * 4 + slot,
    ;
    vstd::arithmetic::div_mod::lemma_fundamental_div_mod_converse(
        y as int,
        8,
        (tile / tpr) as int,
        r as int,
    );
    vstd::arithmetic::div_mod::lemma_fundamental_div_mod_converse(
        x as int,
        4,
        (tile % tpr) as int,
        slot as int,
    );
    assert(swizzle_block(width, x, y) == ((tile / tpr) * tpr + tile % tpr) * 8 + r);
}


/// The frame a morph entry blends towards: the next baked frame, or the last
/// frame again at the end of the cache.
pub open spec fn blend_frame(d: Seq<u8>, frame: nat) -> nat {
    if frame + 1 < frame_total(d) {
        frame + 1
    } else {
        (frame_total(d) - 1) as nat
    }
}

/// Immutable adjacent pose pairs shared by every actor: entry
/// `frame * vertices + i` holds vertex `i` of `frame` and of the frame after
/// it. Both formats feed hardware morphing; the color-only officer keeps the
/// smaller entries.
pub enum PoseCache {
    Color(Vec<[PackedVertex; 2]>),
    Textured(Vec<[TexturedVertex; 2]>),
}

impl PoseCache {
    /// Builds the cache for every baked frame and vertex of `asset`.
    pub fn new(asset: &Asset) -> (r: PoseCache)
        ensures
            match r {
                PoseCache::Color(pairs) => {
                    &&& !is_textured(asset@)
                    &&& pairs@.len() == frame_total(asset@) * vertex_total(asset@)
                    &&& forall|m: int|
                        0 <= m < pairs@.len() ==> {
                            let f = (m / vertex_total(asset@) as int) as nat;
                            let i = (m % vertex_total(asset@) as int) as nat;
                            &&& (#[trigger] pairs@[m])[0] == packed_vertex(asset@, f, i)
                            &&& pairs@[m][1] == packed_vertex(asset@, blend_frame(asset@, f), i)
                        }
                },
                PoseCache::Textured(pairs) => {
                    &&& is_textured(asset@)
                    &&& pairs@.len() == frame_total(asset@) * vertex_total(asset@)
                    &&& forall|m: int|
                        0 <= m < pairs@.len() ==> {
                            let f = (m / vertex_total(asset@) as int) as nat;
                            let i = (m % vertex_total(asset@) as int) as nat;
                            &&& (#[trigger] pairs@[m])[0] == textured_vertex_of(asset@, f, i)
                            &&& pairs@[m][1] == textured_vertex_of(
                                asset@,
                                blend_frame(asset@, f),
                                i,
                            )
                        }
                },
            },
            r.bytes_spec() <= MAX_CACHE_BYTES,
    {
        proof {
            use_type_invariant(asset);
        }
        let frames = asset.baked_frame_count();
        let vertices = asset.vertex_count();
        let ghost d = asset@;
        proof {
            assert(frames * vertices <= 512 * 16000) by (nonlinear_arith)
                requires
                    frames <= 512,
                    vertices <= 16000,
            ;
        }
        let total = frames * vertices;
        if asset.textured() {
            let mut pairs: Vec<[TexturedVertex; 2]> = Vec::with_capacity(total);
            let mut frame: usize = 0;
            while frame < frames
                invariant
                    frames == frame_total(d),
                    vertices == vertex_total(d),
                    is_textured(d),
                    asset@ == d,
                    opch_valid(d),
                    total == frames * vertices,
                    frame <= frames,
                    pairs@.len() == frame * vertices,
                    forall|m: int|
                        0 <= m < pairs@.len() ==> {
                            let f = (m / vertices as int) as nat;
                            let i = (m % vertices as int) as nat;
                            &&& (#[trigger] pairs@[m])[0] == textured_vertex_of(d, f, i)
                            &&& pairs@[m][1] == textured_vertex_of(d, blend_frame(d, f), i)
                        },
                decreases frames - frame,
            {
                let next = if frame + 1 < frames {
                    frame + 1
                } else {
                    frames - 1
                };
                let mut i: usize = 0;
                while i < vertices
                    invariant
                        frames == frame_total(d),
                        vertices == vertex_total(d),
                        is_textured(d),
                        asset@ == d,
                        frame < frames,
                        next == blend_frame(d, frame as nat),
                        i <= vertices,
                        pairs@.len() == frame * vertices + i,
                        forall|m: int|
                            0 <= m < pairs@.len() ==> {
                                let f = (m / vertices as int) as nat;
                                let i = (m % vertices as int) as nat;
                                &&& (#[trigger] pairs@[m])[0] == textured_vertex_of(d, f, i)
                                &&& pairs@[m][1] == textured_vertex_of(d, blend_frame(d, f), i)
                            },
                    decreases vertices - i,
                {
                    let a = asset.textured_vertex(frame, i);
                    let b = asset.textured_vertex(next, i);
                    proof {
                        vstd::arithmetic::div_mod::lemma_fundamental_div_mod_converse(
                            (frame * vertices + i) as int,
                            vertices as int,
                            frame as int,
                            i as int,
                        );
                    }
                    pairs.push([a, b]);
                    i = i + 1;
                }
                proof {
                    assert((frame + 1) * vertices == frame * vertices + vertices) by (nonlinear_arith);
                }
                frame = frame + 1;
            }
            PoseCache::Textured(pairs)
        } else {
            let mut pairs: Vec<[PackedVertex; 2]> = Vec::with_capacity(total);
            let mut frame: usize = 0;
            while frame < frames
                invariant
                    frames == frame_total(d),
                    vertices == vertex_total(d),
                    !is_textured(d),
                    asset@ == d,
                    opch_valid(d),
                    total == frames * vertices,
                    frame <= frames,
                    pairs@.len() == frame * vertices,
                    forall|m: int|
                        0 <= m < pairs@.len() ==> {
                            let f = (m / vertices as int) as nat;
                            let i = (m % vertices as int) as nat;
                            &&& (#[trigger] pairs@[m])[0] == packed_vertex(d, f, i)
                            &&& pairs@[m][1] == packed_vertex(d, blend_frame(d, f), i)
                        },
                decreases frames - frame,
            {
                let next = if frame + 1 < frames {
                    frame + 1
                } else {
                    frames - 1
                };
                let mut i: usize = 0;
                while i < vertices
                    invariant
                        frames == frame_total(d),
                        vertices == vertex_total(d),
                        !is_textured(d),
                        asset@ == d,
                        frame < frames,
                        next == blend_frame(d, frame as nat),
                        i <= vertices,
                        pairs@.len() == frame * vertices + i,
                        forall|m: int|
                            0 <= m < pairs@.len() ==> {
                                let f = (m / vertices as int) as nat;
                                let i = (m % vertices as int) as nat;
                                &&& (#[trigger] pairs@[m])[0] == packed_vertex(d, f, i)
                                &&& pairs@[m][1] == packed_vertex(d, blend_frame(d, f), i)
                            },
                    decreases vertices - i,
                {
                    let a = asset.baked_vertex(frame, i);
                    let b = asset.baked_vertex(next, i);
                    proof {
                        vstd::arithmetic::div_mod::lemma_fundamental_div_mod_converse(
                            (frame * vertices + i) as int,
                            vertices as int,
                            frame as int,
                            i as int,
                        );
                    }
                    pairs.push([a, b]);
                    i = i + 1;
                }
                proof {
                    assert((frame + 1) * vertices == frame * vertices + vertices) by (nonlinear_arith);
                }
                frame = frame + 1;
            }
            PoseCache::Color(pairs)
        }
    }

    /// Bytes the cache occupies once uploaded.
    pub open spec fn bytes_spec(&self) -> nat {
        match self {
            PoseCache::Color(v) => v@.len() * 24,
            PoseCache::Textured(v) => v@.len() * 32,
        }
    }

    pub fn bytes(&self) -> (r: usize)
        requires
            self.bytes_spec() <= usize::MAX,
        ensures
            r == self.bytes_spec(),
    {
        match self {
            PoseCache::Color(v) => v.len() * 24,
            PoseCache::Textured(v) => v.len() * 32,
        }
    }
}


} // verus!

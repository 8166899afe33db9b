//! Platform-neutral mod packs. Each pack names a character, an optional
//! first-person mesh, its shot presentation and, for ballistic delivery, the
//! mesh of the flying projectile. Every ID and asset is validated before a
//! pack exists, so selecting a pack at a round boundary cannot fail; a
//! catalogue holds at most eight packs with distinct IDs and 8 MiB of baked
//! resources in all.
use vstd::prelude::*;
use vstd::arithmetic::power2::{lemma2_to64, pow2};
use vstd::std_specs::iter::IteratorSpec;
use vstd::string::StringSliceAdditionalSpecFns;

use crate::bytes::le32;
use crate::single::{
    lemma_single_at_least, lemma_single_at_most, lemma_single_scaled_vs, single_exponent,
    single_scaled, single_significand, value_within,
};
use crate::character::Asset;
use crate::format::opch_check;
use crate::viewmodel::{opvm_check, ViewModel};

verus! {

/// How shots look: flames, beams, or thrown orbs.
#[derive(Clone, Copy, Debug, Default, PartialEq, Eq, Structural)]
pub enum ShotStyle {
    #[default]
    Flame,
    Beam,
    Orb,
}

/// How the first-person weapon moves.
#[derive(Clone, Copy, Debug, Default, PartialEq, Eq, Structural)]
pub enum ViewMotion {
    #[default]
    Rifle,
    Staff,
    Throw,
}

/// Longest pack ID, in bytes.
pub const MAX_ID_BYTES: usize = 32;

/// A Unicode control code (general category Cc).
pub open spec fn is_control(c: char) -> bool {
    (c as u32) <= 0x1f || (0x7f <= (c as u32) && (c as u32) <= 0x9f)
}

/// A byte a pack ID may hold: a lowercase ASCII letter, a digit or `-`.
pub open spec fn id_byte_ok(b: u8) -> bool {
    (97 <= b && b <= 122) || (48 <= b && b <= 57) || b == 45
}

/// The verdict on a pack ID: it must be non-empty text of at most
/// `MAX_ID_BYTES` bytes without control codes, and then made of lowercase
/// ASCII letters, digits and `-` only.
pub open spec fn id_check(id: &str) -> Result<(), &'static str> {
    if id@.len() == 0 || id.spec_bytes().len() > 32 || exists|i: int|
        0 <= i < id@.len() && #[trigger] is_control(id@[i]) {
        Err("invalid id")
    } else if exists|i: int|
        0 <= i < id.spec_bytes().len() && !#[trigger] id_byte_ok(id.spec_bytes()[i]) {
        Err("invalid mod id")
    } else {
        Ok(())
    }
}

/// Checks a pack ID against `id_check`.
pub fn check_id(id: &str) -> (r: Result<(), &'static str>)
    ensures
        r == id_check(id),
{
    let bytes = id.as_bytes();
    if id.is_empty() || bytes.len() > MAX_ID_BYTES {
        return Err("invalid id");
    }
    let mut chars = id.chars();
    let ghost mut k: int = 0;
    loop
        invariant
            0 <= k <= id@.len(),
            chars.obeys_prophetic_iter_laws(),
            chars.remaining() == id@.skip(k),
            forall|j: int| 0 <= j < k ==> !#[trigger] is_control(id@[j]),
        ensures
            forall|j: int| 0 <= j < id@.len() ==> !#[trigger] is_control(id@[j]),
        decreases id@.len() - k,
    {
        let next = chars.next();
        match next {
            Some(c) => {
                assert(c == id@[k]);
                let code = c as u32;
                if code <= 0x1f || (0x7f <= code && code <= 0x9f) {
                    assert(is_control(id@[k]));
                    return Err("invalid id");
                }
                proof {
                    k = k + 1;
                }
            },
            None => {
                assert(k == id@.len());
                break;
            },
        }
    }
    let mut i: usize = 0;
    while i < bytes.len()
        invariant
            bytes@ == id.spec_bytes(),
            !(id@.len() == 0 || id.spec_bytes().len() > 32),
            forall|j: int| 0 <= j < id@.len() ==> !#[trigger] is_control(id@[j]),
            i <= bytes@.len(),
            forall|j: int| 0 <= j < i ==> #[trigger] id_byte_ok(bytes@[j]),
        decreases bytes@.len() - i,
    {
        let b = bytes[i];
        if !((97 <= b && b <= 122) || (48 <= b && b <= 57) || b == 45) {
            assert(!id_byte_ok(id.spec_bytes()[i as int]));
            return Err("invalid mod id");
        }
        i = i + 1;
    }
    Ok(())
}

/// Ballistic settings of an orb pack as bit patterns of singles: launch
/// speed, gravity, upward launch speed, radius and lifetime, in world units
/// and seconds.
#[derive(Clone, Copy, Debug, PartialEq, Eq, Structural)]
pub struct ProjectileConfig {
    pub speed: u32,
    pub gravity: u32,
    pub lift: u32,
    pub radius: u32,
    pub lifetime: u32,
}

/// Ballistic delivery as a manifest gives it: its settings and the mesh of
/// the flying projectile.
#[derive(Clone, Copy)]
pub struct Ballistic {
    pub config: ProjectileConfig,
    pub mesh: &'static [u8],
}

/// The settings of a delivery, if it is ballistic.
pub open spec fn ballistic_config(b: Option<Ballistic>) -> Option<ProjectileConfig> {
    match b {
        Some(b) => Some(b.config),
        None => None,
    }
}

/// The projectile mesh of a delivery, if it is ballistic.
pub open spec fn ballistic_mesh(b: Option<Ballistic>) -> Option<&'static [u8]> {
    match b {
        Some(b) => Some(b.mesh),
        None => None,
    }
}

/// Whether the single with bit pattern `bits` lies between the singles
/// `low` and `high`, both non-negative: for non-negative singles the order
/// of the bit patterns is the order of the values, and negative zero equals
/// zero. NaN and infinity lie outside every such range.
pub open spec fn single_in(bits: u32, low: u32, high: u32) -> bool {
    (bits <= 0x7fff_ffff && low <= bits && bits <= high) || (bits == 0x8000_0000 && low == 0)
}

/// The verdict on ballistic settings: speed 100 to 2000, gravity 0 to 1200,
/// lift 0 to 300, radius 0.5 to 8 and lifetime 0.1 to 5 seconds.
pub open spec fn config_check(c: ProjectileConfig) -> Result<(), &'static str> {
    if !single_in(c.speed, 0x42c8_0000, 0x44fa_0000) {
        Err("invalid speed")
    } else if !single_in(c.gravity, 0, 0x4496_0000) {
        Err("invalid gravity")
    } else if !single_in(c.lift, 0, 0x4396_0000) {
        Err("invalid lift")
    } else if !single_in(c.radius, 0x3f00_0000, 0x4100_0000) {
        Err("invalid radius")
    } else if !single_in(c.lifetime, 0x3dcc_cccd, 0x40a0_0000) {
        Err("invalid lifetime")
    } else {
        Ok(())
    }
}

/// The documented ranges, as values: for non-negative finite settings the
/// check accepts exactly speed 100 to 2000, gravity 0 to 1200, lift 0 to
/// 300, radius 1/2 to 8 and lifetime 1/10 to 5, and names the first setting
/// out of its range.
pub proof fn lemma_config_documented_ranges(c: ProjectileConfig)
    requires
        c.speed < 0x7f80_0000,
        c.gravity < 0x7f80_0000,
        c.lift < 0x7f80_0000,
        c.radius < 0x7f80_0000,
        c.lifetime < 0x7f80_0000,
    ensures
        config_check(c) == if !value_within(c.speed, 100, 1, 2000, 1) {
            Err("invalid speed")
        } else if !value_within(c.gravity, 0, 1, 1200, 1) {
            Err("invalid gravity")
        } else if !value_within(c.lift, 0, 1, 300, 1) {
            Err("invalid lift")
        } else if !value_within(c.radius, 1, 2, 8, 1) {
            Err("invalid radius")
        } else if !value_within(c.lifetime, 1, 10, 5, 1) {
            Err("invalid lifetime")
        } else {
            Ok::<(), &'static str>(())
        },
{
    lemma2_to64();
    // Exponents and significands of the bound patterns.
    assert(single_exponent(0x42c8_0000) == 133 && single_significand(0x42c8_0000) == 13107200);
    assert(single_exponent(0x44fa_0000) == 137 && single_significand(0x44fa_0000) == 16384000);
    assert(single_exponent(0x4496_0000) == 137 && single_significand(0x4496_0000) == 9830400);
    assert(single_exponent(0x4396_0000) == 135 && single_significand(0x4396_0000) == 9830400);
    assert(single_exponent(0x3f00_0000) == 126 && single_significand(0x3f00_0000) == 8388608);
    assert(single_exponent(0x4100_0000) == 130 && single_significand(0x4100_0000) == 8388608);
    assert(single_exponent(0x3dcc_cccd) == 123 && single_significand(0x3dcc_cccd) == 13421773);
    assert(single_exponent(0x3dcc_cccc) == 123 && single_significand(0x3dcc_cccc) == 13421772);
    assert(single_exponent(0x42c7_ffff) == 133 && single_significand(0x42c7_ffff) == 13107199);
    assert(single_exponent(0x3eff_ffff) == 125 && single_significand(0x3eff_ffff) == 16777215);
    assert(single_exponent(0x40a0_0000) == 129 && single_significand(0x40a0_0000) == 10485760);
    assert(pow2(17) == 131072 && pow2(13) == 8192 && pow2(15) == 32768 && pow2(24) == 16777216);
    assert(pow2(20) == 1048576 && pow2(27) == 134217728 && pow2(25) == 33554432 && pow2(21)
        == 2097152);
    // Upper bounds, exact.
    lemma_single_scaled_vs(0x44fa_0000, 2000, 1);
    lemma_single_scaled_vs(0x4496_0000, 1200, 1);
    lemma_single_scaled_vs(0x4396_0000, 300, 1);
    lemma_single_scaled_vs(0x4100_0000, 8, 1);
    lemma_single_scaled_vs(0x40a0_0000, 5, 1);
    // Lower bounds: the least singles at or above 100, 1/2 and 1/10.
    lemma_single_scaled_vs(0x42c8_0000, 100, 1);
    lemma_single_scaled_vs(0x42c7_ffff, 100, 1);
    lemma_single_scaled_vs(0x3f00_0000, 1, 2);
    lemma_single_scaled_vs(0x3eff_ffff, 1, 2);
    lemma_single_scaled_vs(0x3dcc_cccd, 1, 10);
    lemma_single_scaled_vs(0x3dcc_cccc, 1, 10);
    lemma_single_at_most(c.speed, 0x44fa_0000, 2000, 1);
    lemma_single_at_least(c.speed, 0x42c8_0000, 100, 1);
    lemma_single_at_most(c.gravity, 0x4496_0000, 1200, 1);
    lemma_single_at_most(c.lift, 0x4396_0000, 300, 1);
    lemma_single_at_most(c.radius, 0x4100_0000, 8, 1);
    lemma_single_at_least(c.radius, 0x3f00_0000, 1, 2);
    lemma_single_at_most(c.lifetime, 0x40a0_0000, 5, 1);
    lemma_single_at_least(c.lifetime, 0x3dcc_cccd, 1, 10);
}

fn within(bits: u32, low: u32, high: u32) -> (r: bool)
    ensures
        r == single_in(bits, low, high),
{
    (bits <= 0x7fff_ffff && low <= bits && bits <= high) || (bits == 0x8000_0000 && low == 0)
}

/// Checks ballistic settings against `config_check`.
pub fn check_config(c: ProjectileConfig) -> (r: Result<(), &'static str>)
    ensures
        r == config_check(c),
{
    if !within(c.speed, 0x42c8_0000, 0x44fa_0000) {
        Err("invalid speed")
    } else if !within(c.gravity, 0, 0x4496_0000) {
        Err("invalid gravity")
    } else if !within(c.lift, 0, 0x4396_0000) {
        Err("invalid lift")
    } else if !within(c.radius, 0x3f00_0000, 0x4100_0000) {
        Err("invalid radius")
    } else if !within(c.lifetime, 0x3dcc_cccd, 0x40a0_0000) {
        Err("invalid lifetime")
    } else {
        Ok(())
    }
}

/// The verdict on a pack's resources, in the order the catalogue checks
/// them: ballistic settings, projectile mesh, delivery profile (settings
/// and mesh exactly for orb effects), character, viewmodel.
pub open spec fn resource_check(
    character: Seq<u8>,
    viewmodel: Option<&'static [u8]>,
    effects: ShotStyle,
    projectile: Option<ProjectileConfig>,
    projectile_mesh: Option<&'static [u8]>,
) -> Result<(), &'static str> {
    if projectile is Some && config_check(projectile->0) is Err {
        config_check(projectile->0)
    } else if projectile_mesh is Some && opvm_check(projectile_mesh->0@) is Err {
        opvm_check(projectile_mesh->0@)
    } else if (effects == ShotStyle::Orb) != (projectile is Some) || (projectile is Some) != (
    projectile_mesh is Some) {
        Err("orb effects require ballistic delivery and vice versa")
    } else if opch_check(character) is Err {
        opch_check(character)
    } else if viewmodel is Some && opvm_check(viewmodel->0@) is Err {
        opvm_check(viewmodel->0@)
    } else {
        Ok(())
    }
}

/// The verdict on a pack: its ID, then its resources.
pub open spec fn pack_check(
    id: &str,
    character: Seq<u8>,
    viewmodel: Option<&'static [u8]>,
    effects: ShotStyle,
    projectile: Option<ProjectileConfig>,
    projectile_mesh: Option<&'static [u8]>,
) -> Result<(), &'static str> {
    if id_check(id) is Err {
        id_check(id)
    } else {
        resource_check(character, viewmodel, effects, projectile, projectile_mesh)
    }
}

/// Checks a pack's resources against `resource_check`.
fn check_resources(
    character: &'static [u8],
    viewmodel: Option<&'static [u8]>,
    effects: ShotStyle,
    projectile: Option<ProjectileConfig>,
    projectile_mesh: Option<&'static [u8]>,
) -> (r: Result<(), &'static str>)
    ensures
        r == resource_check(character@, viewmodel, effects, projectile, projectile_mesh),
{
    if let Some(config) = projectile {
        if let Err(e) = check_config(config) {
            return Err(e);
        }
    }
    if let Some(mesh) = projectile_mesh {
        if let Err(e) = crate::viewmodel::validate(mesh) {
            return Err(e);
        }
    }
    let orb = match effects {
        ShotStyle::Orb => true,
        _ => false,
    };
    if orb != projectile.is_some() || projectile.is_some() != projectile_mesh.is_some() {
        return Err("orb effects require ballistic delivery and vice versa");
    }
    if let Err(e) = crate::format::validate(character) {
        return Err(e);
    }
    if let Some(mesh) = viewmodel {
        if let Err(e) = crate::viewmodel::validate(mesh) {
            return Err(e);
        }
    }
    Ok(())
}

/// Appearance chosen at game initialization: the muzzle position in
/// viewmodel space (bit patterns of X, Y and Z), the shot style and the
/// weapon motion. It changes no collision, hitscan, damage or random draw.
#[derive(Clone, Copy, Debug)]
pub struct Presentation {
    pub muzzle: [u32; 3],
    pub shot: ShotStyle,
    pub motion: ViewMotion,
}

/// Bit patterns of the procedural rifle's muzzle, (0.0, 0.6, -31.0) in
/// viewmodel space (the gun points down -Z).
pub open spec fn rifle_muzzle() -> Seq<u32> {
    seq![0u32, 0x3f19_999au32, 0xc1f8_0000u32]
}

pub fn muzzle_local() -> (r: [u32; 3])
    ensures
        r@ == rifle_muzzle(),
{
    let r = [0u32, 0x3f19_999au32, 0xc1f8_0000u32];
    assert(r@ =~= rifle_muzzle());
    r
}

pub struct ModPack {
    pub id: &'static str,
    character: &'static [u8],
    viewmodel: Option<&'static [u8]>,
    pub effects: ShotStyle,
    pub motion: ViewMotion,
    pub projectile: Option<ProjectileConfig>,
    projectile_mesh: Option<&'static [u8]>,
}

impl ModPack {
    pub closed spec fn pack_id(self) -> &'static str {
        self.id
    }

    pub closed spec fn shot_style(self) -> ShotStyle {
        self.effects
    }

    pub closed spec fn view_motion(self) -> ViewMotion {
        self.motion
    }

    /// Character bytes of the pack.
    pub closed spec fn character_bytes(self) -> Seq<u8> {
        self.character@
    }

    pub closed spec fn viewmodel_bytes(self) -> Option<&'static [u8]> {
        self.viewmodel
    }

    /// Ballistic settings of the pack, for orb delivery.
    pub closed spec fn projectile_config(self) -> Option<ProjectileConfig> {
        self.projectile
    }

    pub closed spec fn projectile_bytes(self) -> Option<&'static [u8]> {
        self.projectile_mesh
    }

    /// The ID and every resource of the pack passed validation, and a
    /// projectile mesh is present exactly for orb delivery.
    pub closed spec fn wf(self) -> bool {
        pack_check(
            self.pack_id(),
            self.character_bytes(),
            self.viewmodel_bytes(),
            self.effects,
            self.projectile,
            self.projectile_bytes(),
        ) is Ok
    }

    /// Assembles a pack from its resources, rejecting it with the first
    /// failing rule.
    pub fn new(
        id: &'static str,
        character: &'static [u8],
        viewmodel: Option<&'static [u8]>,
        effects: ShotStyle,
        motion: ViewMotion,
        projectile: Option<Ballistic>,
    ) -> (r: Result<ModPack, &'static str>)
        ensures
            match r {
                Ok(pack) => {
                    &&& pack.wf()
                    &&& pack.pack_id() == id
                    &&& pack.character_bytes() == character@
                    &&& pack.viewmodel_bytes() == viewmodel
                    &&& pack.shot_style() == effects
                    &&& pack.view_motion() == motion
                    &&& pack.projectile_config() == ballistic_config(projectile)
                    &&& pack.projectile_bytes() == ballistic_mesh(projectile)
                },
                Err(e) => pack_check(
                    id,
                    character@,
                    viewmodel,
                    effects,
                    ballistic_config(projectile),
                    ballistic_mesh(projectile),
                ) == Err::<
                    (),
                    &'static str,
                >(e),
            },
    {
        if let Err(e) = check_id(id) {
            return Err(e);
        }
        let (config, projectile_mesh) = match projectile {
            Some(b) => (Some(b.config), Some(b.mesh)),
            None => (None, None),
        };
        if let Err(e) = check_resources(character, viewmodel, effects, config, projectile_mesh) {
            return Err(e);
        }
        Ok(ModPack { id, character, viewmodel, effects, motion, projectile: config, projectile_mesh })
    }

    /// The pack's character; validated when the pack was made.
    pub fn character(&self) -> (r: Asset)
        requires
            self.wf(),
        ensures
            r@ == self.character_bytes(),
    {
        crate::character::selected_asset(self.character)
    }

    /// The first-person mesh, if the pack has one.
    pub fn viewmodel(&self) -> (r: Option<ViewModel>)
        requires
            self.wf(),
        ensures
            r is Some <==> self.viewmodel_bytes() is Some,
            r matches Some(mesh) ==> mesh@ == self.viewmodel_bytes()->0@,
    {
        match self.viewmodel {
            Some(data) => match ViewModel::parse(data) {
                Ok(mesh) => Some(mesh),
                Err(_) => {
                    assert(false);
                    None
                },
            },
            None => None,
        }
    }

    /// The mesh of a thrown projectile, for ballistic packs.
    pub fn projectile_mesh(&self) -> (r: Option<ViewModel>)
        requires
            self.wf(),
        ensures
            r is Some <==> self.shot_style() == ShotStyle::Orb,
            r matches Some(mesh) ==> mesh@ == self.projectile_bytes()->0@,
    {
        match self.projectile_mesh {
            Some(data) => match ViewModel::parse(data) {
                Ok(mesh) => Some(mesh),
                Err(_) => {
                    assert(false);
                    None
                },
            },
            None => None,
        }
    }

    /// The pack's presentation: its viewmodel's muzzle, or the procedural
    /// rifle's without one, with the pack's shot style and motion.
    pub fn presentation(&self) -> (r: Presentation)
        requires
            self.wf(),
        ensures
            r.shot == self.shot_style(),
            r.motion == self.view_motion(),
            self.viewmodel_bytes() is None ==> r.muzzle@ == rifle_muzzle(),
            self.viewmodel_bytes() matches Some(bytes) ==> r.muzzle@ == seq![
                le32(bytes@, 12) as u32,
                le32(bytes@, 16) as u32,
                le32(bytes@, 20) as u32,
            ],
    {
        let muzzle = match self.viewmodel() {
            Some(mesh) => mesh.muzzle(),
            None => muzzle_local(),
        };
        Presentation { muzzle, shot: self.effects, motion: self.motion }
    }
}

/// Most packs a build carries: Classic and seven more.
pub const MAX_PACKS: usize = 8;

/// Baked resources of all packs together, in bytes (8 MiB).
pub const MAX_PAYLOAD_BYTES: usize = 8388608;

impl ModPack {
    /// Bytes of baked resources the pack carries: its character, viewmodel
    /// and projectile mesh.
    pub open spec fn payload(self) -> nat {
        self.character_bytes().len() + match self.viewmodel_bytes() {
            Some(b) => b@.len(),
            None => 0,
        } + match self.projectile_bytes() {
            Some(b) => b@.len(),
            None => 0,
        }
    }
}

/// The resources and settings of one pack as a manifest names them, not yet
/// checked.
#[derive(Clone, Copy)]
pub struct PackSource {
    pub id: &'static str,
    pub character: &'static [u8],
    pub viewmodel: Option<&'static [u8]>,
    pub effects: ShotStyle,
    pub motion: ViewMotion,
    pub projectile: Option<Ballistic>,
}

/// The pack made from `source`, whether or not it passes the checks.
pub closed spec fn pack_of(source: PackSource) -> ModPack {
    ModPack {
        id: source.id,
        character: source.character,
        viewmodel: source.viewmodel,
        effects: source.effects,
        motion: source.motion,
        projectile: ballistic_config(source.projectile),
        projectile_mesh: ballistic_mesh(source.projectile),
    }
}

/// A valid pack has ballistic settings and a projectile mesh exactly for
/// orb effects, and its settings lie within their ranges.
pub proof fn lemma_orb_packs_are_configured(pack: ModPack)
    requires
        pack.wf(),
    ensures
        (pack.shot_style() == ShotStyle::Orb) == (pack.projectile_config() is Some),
        (pack.projectile_config() is Some) == (pack.projectile_bytes() is Some),
        pack.projectile_config() matches Some(c) ==> config_check(c) is Ok,
{
}

/// A pack made from a source carries the source's ID, resources and
/// settings.
pub proof fn lemma_pack_of(source: PackSource)
    ensures
        pack_of(source).pack_id() == source.id,
        pack_of(source).character_bytes() == source.character@,
        pack_of(source).viewmodel_bytes() == source.viewmodel,
        pack_of(source).shot_style() == source.effects,
        pack_of(source).view_motion() == source.motion,
        pack_of(source).projectile_config() == ballistic_config(source.projectile),
        pack_of(source).projectile_bytes() == ballistic_mesh(source.projectile),
{
}

/// The packs a build considers: Classic first, then the added ones in
/// order.
pub open spec fn candidates(classic: PackSource, added: Seq<PackSource>) -> Seq<ModPack> {
    seq![pack_of(classic)] + added.map_values(|source: PackSource| pack_of(source))
}

/// Baked resources of the first `n` packs.
pub open spec fn payload_through(packs: Seq<ModPack>, n: int) -> nat
    decreases n,
{
    if n <= 0 {
        0
    } else {
        payload_through(packs, n - 1) + packs[n - 1].payload()
    }
}

/// An earlier pack has the ID of pack `k`.
pub open spec fn id_taken(packs: Seq<ModPack>, k: int) -> bool {
    exists|j: int|
        0 <= j < k && #[trigger] packs[j].pack_id().spec_bytes() == packs[k].pack_id().spec_bytes()
}

/// The verdict on packs `k` onward, each in turn as the build checks it:
/// its ID, an ID no earlier pack has, its resources, and the running
/// payload within the budget.
pub open spec fn catalog_check_from(packs: Seq<ModPack>, k: int) -> Result<(), &'static str>
    decreases packs.len() - k,
{
    if k < 0 || k >= packs.len() {
        Ok(())
    } else if id_check(packs[k].pack_id()) is Err {
        id_check(packs[k].pack_id())
    } else if id_taken(packs, k) {
        Err("duplicate mod id")
    } else if resource_check(
        packs[k].character_bytes(),
        packs[k].viewmodel_bytes(),
        packs[k].shot_style(),
        packs[k].projectile_config(),
        packs[k].projectile_bytes(),
    ) is Err {
        resource_check(
            packs[k].character_bytes(),
            packs[k].viewmodel_bytes(),
            packs[k].shot_style(),
            packs[k].projectile_config(),
            packs[k].projectile_bytes(),
        )
    } else if payload_through(packs, k + 1) > MAX_PAYLOAD_BYTES {
        Err("mod bundle exceeds 8 MiB baked resource budget")
    } else {
        catalog_check_from(packs, k + 1)
    }
}

/// The verdict on a build's packs: at most seven besides Classic, then
/// every pack in order.
pub open spec fn catalog_check(classic: PackSource, added: Seq<PackSource>) -> Result<(), &'static str> {
    if added.len() >= MAX_PACKS {
        Err("at most seven additional mod packs")
    } else {
        catalog_check_from(candidates(classic, added), 0)
    }
}

/// Whether two byte strings are equal.
fn same_bytes(a: &[u8], b: &[u8]) -> (r: bool)
    ensures
        r == (a@ == b@),
{
    if a.len() != b.len() {
        return false;
    }
    let mut i: usize = 0;
    while i < a.len()
        invariant
            a@.len() == b@.len(),
            i <= a@.len(),
            forall|j: int| 0 <= j < i ==> a@[j] == b@[j],
        decreases a@.len() - i,
    {
        if a[i] != b[i] {
            return false;
        }
        i = i + 1;
    }
    assert(a@ =~= b@);
    true
}

/// The packs a build carries, validated together: Classic first and at most
/// seven more, with distinct IDs and 8 MiB of baked resources in all.
pub struct Catalog {
    packs: Vec<ModPack>,
}

impl Catalog {
    /// The packs in menu order.
    pub closed spec fn packs(self) -> Seq<ModPack> {
        self.packs@
    }

    #[verifier::type_invariant]
    closed spec fn accepted(self) -> bool {
        &&& 1 <= self.packs@.len() <= MAX_PACKS
        &&& catalog_check_from(self.packs@, 0) is Ok
    }

    /// Checks Classic and the added packs as a build does, and accepts them
    /// as a catalogue or names the first failing rule of `catalog_check`.
    pub fn new(classic: PackSource, added: Vec<PackSource>) -> (r: Result<Catalog, &'static str>)
        ensures
            match r {
                Ok(catalog) => catalog.packs() == candidates(classic, added@) && catalog_check(
                    classic,
                    added@,
                ) is Ok,
                Err(e) => catalog_check(classic, added@) == Err::<(), &'static str>(e),
            },
    {
        if added.len() >= MAX_PACKS {
            return Err("at most seven additional mod packs");
        }
        let ghost all = candidates(classic, added@);
        let total = added.len() + 1;
        let mut packs: Vec<ModPack> = Vec::new();
        let mut payload: usize = 0;
        let mut k: usize = 0;
        while k < total
            invariant
                total == added@.len() + 1,
                total <= MAX_PACKS,
                all == candidates(classic, added@),
                all.len() == total,
                k <= total,
                packs@ == all.take(k as int),
                payload == payload_through(all, k as int),
                payload <= MAX_PAYLOAD_BYTES,
                catalog_check_from(all, 0) == catalog_check_from(all, k as int),
            decreases total - k,
        {
            let source = if k == 0 {
                classic
            } else {
                added[k - 1]
            };
            let (config, projectile_mesh) = match source.projectile {
                Some(b) => (Some(b.config), Some(b.mesh)),
                None => (None, None),
            };
            let pack = ModPack {
                id: source.id,
                character: source.character,
                viewmodel: source.viewmodel,
                effects: source.effects,
                motion: source.motion,
                projectile: config,
                projectile_mesh,
            };
            assert(pack == all[k as int]);
            if let Err(e) = check_id(pack.id) {
                return Err(e);
            }
            let id = pack.id.as_bytes();
            let mut j: usize = 0;
            while j < k
                invariant
                    total == added@.len() + 1,
                    total <= MAX_PACKS,
                    all == candidates(classic, added@),
                    all.len() == total,
                    catalog_check_from(all, 0) == catalog_check_from(all, k as int),
                    id_check(all[k as int].pack_id()) is Ok,
                    packs@ == all.take(k as int),
                    k < total,
                    j <= k,
                    id@ == all[k as int].pack_id().spec_bytes(),
                    forall|i: int|
                        0 <= i < j ==> (#[trigger] all[i]).pack_id().spec_bytes() != id@,
                decreases k - j,
            {
                if same_bytes(packs[j].id.as_bytes(), id) {
                    assert(all[j as int].pack_id().spec_bytes() == all[k as int].pack_id().spec_bytes());
                    assert(id_taken(all, k as int));
                    return Err("duplicate mod id");
                }
                j = j + 1;
            }
            assert(!id_taken(all, k as int));
            if let Err(e) = check_resources(
                pack.character,
                pack.viewmodel,
                pack.effects,
                pack.projectile,
                pack.projectile_mesh,
            ) {
                return Err(e);
            }
            let mut left: usize = MAX_PAYLOAD_BYTES - payload;
            let mut too_large = pack.character.len() > left;
            if !too_large {
                left = left - pack.character.len();
                if let Some(mesh) = pack.viewmodel {
                    too_large = mesh.len() > left;
                    if !too_large {
                        left = left - mesh.len();
                    }
                }
            }
            if !too_large {
                if let Some(mesh) = pack.projectile_mesh {
                    too_large = mesh.len() > left;
                    if !too_large {
                        left = left - mesh.len();
                    }
                }
            }
            assert(payload_through(all, k + 1) == payload + all[k as int].payload());
            if too_large {
                return Err("mod bundle exceeds 8 MiB baked resource budget");
            }
            payload = MAX_PAYLOAD_BYTES - left;
            packs.push(pack);
            assert(packs@ =~= all.take(k + 1));
            k = k + 1;
        }
        assert(all.take(total as int) =~= all);
        Ok(Catalog { packs })
    }

    /// How many packs the catalogue holds: Classic and up to seven more.
    pub fn len(&self) -> (r: usize)
        ensures
            r == self.packs().len(),
            1 <= r <= MAX_PACKS,
    {
        proof {
            use_type_invariant(self);
        }
        self.packs.len()
    }

    /// The pack at `index`, if there is one; every pack of a catalogue is
    /// valid.
    pub fn get(&self, index: usize) -> (r: Option<&ModPack>)
        ensures
            index < self.packs().len() ==> r == Some(&self.packs()[index as int]),
            index >= self.packs().len() ==> r is None,
            r matches Some(pack) ==> pack.wf(),
    {
        proof {
            use_type_invariant(self);
            lemma_accepted_from(self.packs@, 0);
        }
        get(self.packs.as_slice(), index)
    }

    /// The pack the menu opens on: the one named `wanted`, when a non-empty
    /// name is given (`None` when no pack has it), else the first added
    /// pack when there is one besides Classic, else Classic.
    pub fn initial(&self, wanted: Option<&str>) -> (r: Option<usize>)
        ensures
            r matches Some(i) ==> i < self.packs().len(),
            (wanted matches Some(id) && id@.len() > 0) ==> {
                let id = wanted->0;
                &&& r is None <==> forall|i: int|
                    0 <= i < self.packs().len()
                        ==> (#[trigger] self.packs()[i]).pack_id().spec_bytes() != id.spec_bytes()
                &&& r matches Some(i) ==> self.packs()[i as int].pack_id().spec_bytes()
                    == id.spec_bytes()
            },
            !(wanted matches Some(id) && id@.len() > 0) ==> r == Some(
                if self.packs().len() > 1 {
                    1usize
                } else {
                    0usize
                },
            ),
    {
        proof {
            use_type_invariant(self);
        }
        if let Some(id) = wanted {
            if !id.is_empty() {
                let name = id.as_bytes();
                let mut i: usize = 0;
                while i < self.packs.len()
                    invariant
                        wanted == Some(id),
                        id@.len() > 0,
                        i <= self.packs@.len(),
                        name@ == id.spec_bytes(),
                        forall|j: int|
                            0 <= j < i ==> (#[trigger] self.packs@[j]).pack_id().spec_bytes()
                                != name@,
                    decreases self.packs@.len() - i,
                {
                    if same_bytes(self.packs[i].id.as_bytes(), name) {
                        assert(self.packs()[i as int].pack_id().spec_bytes() == id.spec_bytes());
                        return Some(i);
                    }
                    i = i + 1;
                }
                return None;
            }
        }
        if self.packs.len() > 1 {
            Some(1)
        } else {
            Some(0)
        }
    }
}

/// The documented limits: eight packs (Classic and seven more), 8 MiB of
/// baked resources, pack IDs of at most 32 bytes; an eighth added pack is
/// refused whatever the packs hold.
pub proof fn lemma_documented_limits(classic: PackSource, added: Seq<PackSource>)
    ensures
        MAX_PACKS == 8,
        MAX_PAYLOAD_BYTES == 8 * 1024 * 1024,
        MAX_ID_BYTES == 32,
        added.len() >= 8 ==> catalog_check(classic, added) == Err::<(), &'static str>(
            "at most seven additional mod packs",
        ),
        added.len() <= 7 ==> catalog_check(classic, added) != Err::<(), &'static str>(
            "at most seven additional mod packs",
        ),
{
    if added.len() <= 7 {
        lemma_no_count_error_from(candidates(classic, added), 0);
    }
}

/// The per-pack checks never give the count error.
proof fn lemma_no_count_error_from(packs: Seq<ModPack>, k: int)
    ensures
        catalog_check_from(packs, k) != Err::<(), &'static str>("at most seven additional mod packs"),
    decreases packs.len() - k,
{
    if 0 <= k < packs.len() {
        lemma_no_count_error_from(packs, k + 1);
    }
}

/// Every pack of an accepted catalogue from `k` on is valid, has an ID no
/// earlier pack has, and the payload through it stays within the budget.
proof fn lemma_accepted_from(packs: Seq<ModPack>, k: int)
    requires
        0 <= k,
        catalog_check_from(packs, k) is Ok,
    ensures
        forall|i: int| k <= i < packs.len() ==> !#[trigger] id_taken(packs, i),
        forall|i: int| k <= i < packs.len() ==> (#[trigger] packs[i]).wf(),
        forall|i: int|
            k <= i < packs.len() ==> #[trigger] payload_through(packs, i + 1) <= MAX_PAYLOAD_BYTES,
    decreases packs.len() - k,
{
    if k < packs.len() {
        lemma_accepted_from(packs, k + 1);
    }
}

/// An accepted build holds Classic first and at most seven more packs,
/// every one valid, no two with one ID, and at most 8 MiB of baked
/// resources in all.
pub proof fn lemma_catalog_limits(classic: PackSource, added: Seq<PackSource>)
    requires
        catalog_check(classic, added) is Ok,
    ensures
        ({
            let packs = candidates(classic, added);
            &&& 1 <= packs.len() <= MAX_PACKS
            &&& packs[0] == pack_of(classic)
            &&& forall|i: int| 0 <= i < packs.len() ==> (#[trigger] packs[i]).wf()
            &&& forall|i: int, j: int|
                0 <= i < j < packs.len() ==> (#[trigger] packs[i]).pack_id().spec_bytes() != (
                #[trigger] packs[j]).pack_id().spec_bytes()
            &&& payload_through(packs, packs.len() as int) <= MAX_PAYLOAD_BYTES
        }),
{
    let packs = candidates(classic, added);
    lemma_accepted_from(packs, 0);
    assert forall|i: int, j: int|
        0 <= i < j < packs.len() implies (#[trigger] packs[i]).pack_id().spec_bytes() != (
        #[trigger] packs[j]).pack_id().spec_bytes() by {
        assert(!id_taken(packs, j));
    }
    assert(payload_through(packs, (packs.len() - 1) + 1) <= MAX_PAYLOAD_BYTES);
}

/// The pack at `index` of a catalogue, if there is one.
pub fn get(packs: &[ModPack], index: usize) -> (r: Option<&ModPack>)
    ensures
        index < packs@.len() ==> r == Some(&packs@[index as int]),
        index >= packs@.len() ==> r is None,
{
    if index < packs.len() {
        Some(&packs[index])
    } else {
        None
    }
}

} // verus!

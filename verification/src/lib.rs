//! Verified core of the OpenStrike handheld runtime: the baked character
//! (OPCH) and viewmodel (OPVM) formats, mod packs, the fixed-step clock,
//! frame-time window, weapon catalogue and rounds, the bounded shot pool,
//! bot economy and armor, touch buttons, bounded map reads, the draw
//! batches of expanded cooked maps and the merging of visible face runs.
use vstd::prelude::*;

pub mod bytes;
pub mod single;
pub mod format;
pub mod character;
pub mod viewmodel;
pub mod map_source;
pub mod map_read;
pub mod clock;
pub mod frame_times;
pub mod weapon;
pub mod mods;
pub mod radar;
pub mod weapon_model;
pub mod bot;
pub mod projectile;
pub mod cooked_map;
pub mod draw_runs;
pub mod touch;

verus! {

} // verus!

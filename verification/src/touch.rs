//! Touch buttons as the guest reports them: fire (1), reload (2), jump (4)
//! and walk (8). Fire and walk are levels; reload and jump are edges that
//! stay queued until the next simulation tick, so a press and release inside
//! one guest turn still delivers exactly one reload or jump. On the lower
//! screen of the handheld with a physical pad only reload is an edge; fire,
//! jump and walk are levels added to the pad's own input.
use vstd::prelude::*;

verus! {

pub const FIRE: i32 = 1;
pub const RELOAD: i32 = 2;
pub const JUMP: i32 = 4;
pub const WALK: i32 = 8;

/// Whether `bit` is set in `buttons`.
pub open spec fn held(buttons: i32, bit: i32) -> bool {
    buttons & bit != 0
}

/// What one simulation tick receives from the touch buttons.
#[derive(Clone, Copy, Debug, PartialEq, Eq, Structural)]
pub struct ButtonTick {
    pub fire: bool,
    pub walk: bool,
    pub reload: bool,
    pub jump: bool,
}

#[derive(Clone, Copy, Debug)]
pub struct TouchButtons {
    /// Buttons of the latest report, reduced to the four known bits.
    pub buttons: i32,
    reload: bool,
    jump: bool,
}

impl TouchButtons {
    /// Buttons of the latest report.
    pub closed spec fn reported(self) -> i32 {
        self.buttons
    }

    pub closed spec fn reload_queued(self) -> bool {
        self.reload
    }

    pub closed spec fn jump_queued(self) -> bool {
        self.jump
    }

    /// The state after a report of `buttons`.
    pub closed spec fn updated(self, buttons: i32) -> TouchButtons {
        TouchButtons {
            buttons: buttons & 15,
            reload: self.reload || (held(buttons, RELOAD) && !held(self.buttons, RELOAD)),
            jump: self.jump || (held(buttons, JUMP) && !held(self.buttons, JUMP)),
        }
    }

    /// The state after a tick consumed the queued edges.
    pub closed spec fn ticked(self) -> TouchButtons {
        TouchButtons { buttons: self.buttons, reload: false, jump: false }
    }

    pub fn new() -> (r: Self)
        ensures
            r.reported() == 0,
            !r.reload_queued(),
            !r.jump_queued(),
    {
        TouchButtons { buttons: 0, reload: false, jump: false }
    }

    /// Takes a report: queues reload and jump when their bit goes from up to
    /// down, and keeps the buttons for the held levels.
    pub fn update(&mut self, buttons: i32)
        ensures
            *final(self) == old(self).updated(buttons),
            final(self).reported() == buttons & 15,
            final(self).reload_queued() == (old(self).reload_queued() || (held(buttons, RELOAD)
                && !held(old(self).reported(), RELOAD))),
            final(self).jump_queued() == (old(self).jump_queued() || (held(buttons, JUMP)
                && !held(old(self).reported(), JUMP))),
    {
        self.reload = self.reload || (buttons & RELOAD != 0 && self.buttons & RELOAD == 0);
        self.jump = self.jump || (buttons & JUMP != 0 && self.buttons & JUMP == 0);
        self.buttons = buttons & 15;
    }

    /// The input of one tick: held fire and walk, and each queued edge once.
    pub fn tick(&mut self) -> (r: ButtonTick)
        ensures
            r.fire == held(old(self).reported(), FIRE),
            r.walk == held(old(self).reported(), WALK),
            r.reload == old(self).reload_queued(),
            r.jump == old(self).jump_queued(),
            *final(self) == old(self).ticked(),
            final(self).reported() == old(self).reported(),
            !final(self).reload_queued(),
            !final(self).jump_queued(),
    {
        let r = ButtonTick {
            fire: self.buttons & FIRE != 0,
            walk: self.buttons & WALK != 0,
            reload: self.reload,
            jump: self.jump,
        };
        self.reload = false;
        self.jump = false;
        r
    }

    /// Forgets every button and queued edge (the game paused).
    pub fn clear(&mut self)
        ensures
            final(self).reported() == 0,
            !final(self).reload_queued(),
            !final(self).jump_queued(),
    {
        *self = Self::new();
    }
}

/// Touch buttons of the lower screen of the handheld with a physical pad:
/// fire, jump and walk are held levels, and reload is an edge that stays
/// queued until a tick takes it.
#[derive(Clone, Copy, Debug)]
pub struct ScreenButtons {
    buttons: u32,
    reload: bool,
}

/// Whether `bit` is set in `buttons`.
pub open spec fn level(buttons: u32, bit: u32) -> bool {
    buttons & bit != 0
}

impl ScreenButtons {
    /// Buttons of the latest report, reduced to the four known bits.
    pub closed spec fn reported(self) -> u32 {
        self.buttons
    }

    pub closed spec fn reload_queued(self) -> bool {
        self.reload
    }

    /// The state after a report of `buttons`.
    pub closed spec fn updated(self, buttons: u32) -> ScreenButtons {
        ScreenButtons {
            buttons: buttons & 15,
            reload: self.reload || (level(buttons, 2) && !level(self.buttons, 2)),
        }
    }

    /// The state after a tick took the queued reload.
    pub closed spec fn taken(self) -> ScreenButtons {
        ScreenButtons { buttons: self.buttons, reload: false }
    }

    pub fn new() -> (r: Self)
        ensures
            r.reported() == 0,
            !r.reload_queued(),
    {
        ScreenButtons { buttons: 0, reload: false }
    }

    /// Takes a report: queues reload when its bit goes from up to down and
    /// keeps the buttons for the held levels.
    pub fn update(&mut self, buttons: u32)
        ensures
            *final(self) == old(self).updated(buttons),
            final(self).reported() == buttons & 15,
            final(self).reload_queued() == (old(self).reload_queued() || (level(buttons, 2)
                && !level(old(self).reported(), 2))),
    {
        self.reload = self.reload || (buttons & 2 != 0 && self.buttons & 2 == 0);
        self.buttons = buttons & 15;
    }

    /// Adds the touch buttons to a tick's input: the held fire, jump and
    /// walk levels, and the queued reload, which it consumes.
    pub fn apply(&mut self, tick: &mut ButtonTick)
        ensures
            final(tick).fire == (old(tick).fire || level(old(self).reported(), 1)),
            final(tick).reload == (old(tick).reload || old(self).reload_queued()),
            final(tick).jump == (old(tick).jump || level(old(self).reported(), 4)),
            final(tick).walk == (old(tick).walk || level(old(self).reported(), 8)),
            *final(self) == old(self).taken(),
            final(self).reported() == old(self).reported(),
            !final(self).reload_queued(),
    {
        tick.fire = tick.fire || self.buttons & 1 != 0;
        tick.reload = tick.reload || self.reload;
        tick.jump = tick.jump || self.buttons & 4 != 0;
        tick.walk = tick.walk || self.buttons & 8 != 0;
        self.reload = false;
    }
}

/// A reload pressed and released on the lower screen before a tick is
/// delivered by that tick only, while the released holds are gone.
pub proof fn lemma_released_reload_kept_once(state: ScreenButtons, pressed: u32)
    requires
        level(pressed, 2),
        !level(state.reported(), 2),
    ensures
        state.updated(pressed).updated(0).reload_queued(),
        state.updated(pressed).updated(0).reported() == 0,
        !state.updated(pressed).updated(0).taken().reload_queued(),
{
    assert(0u32 & 15 == 0) by (bit_vector);
}

/// A reload or jump pressed and released between two ticks is delivered by
/// the next tick, and only by that one, whatever else the reports hold.
pub proof fn lemma_subframe_press_delivered_once(state: TouchButtons, pressed: i32, released: i32)
    requires
        held(pressed, RELOAD) && !held(state.reported(), RELOAD),
    ensures
        state.updated(pressed).updated(released).reload_queued(),
        !state.updated(pressed).updated(released).ticked().reload_queued(),
        !state.updated(pressed).updated(released).ticked().ticked().reload_queued(),
{
}

/// Holding a button across reports queues its edge once: a second report
/// with the bit still down adds nothing after a tick.
pub proof fn lemma_held_button_queues_once(state: TouchButtons, buttons: i32)
    requires
        held(buttons, JUMP),
    ensures
        !state.updated(buttons).ticked().updated(buttons).jump_queued(),
{
    assert(held(buttons & 15, JUMP) == held(buttons, JUMP)) by (bit_vector);
}

} // verus!

//! The timing-bar minigame: a bar sweeps along a track and a single timed
//! press turns its distance from the track's centre into damage.
//!
//! Positions are in milli-pixels: 1000 units make one pixel.
use vstd::prelude::*;

verus! {

/// Where the bar starts, near the left end of the track.
pub const TRACK_START: i64 = 50_000;

/// The far (right) end of the track; a bar beyond it has missed.
pub const TRACK_END: i64 = 750_000;

/// The centre of the track, where a press does full damage.
pub const TRACK_CENTER: i64 = 400_000;

/// Below this distance from the centre a press does full damage.
pub const PERFECT_RADIUS: u64 = 20_000;

/// At or beyond this distance from the centre a press does no damage.
pub const HIT_RADIUS: u64 = 100_000;

/// Damage of a perfectly timed press.
pub const MAX_DAMAGE: u32 = 100;

/// The largest bar speed (milli-pixels per tick) that the bar accepts.
pub const MAX_BAR_SPEED: i64 = 1_000_000_000;

/// Damage of a press at `distance` milli-pixels from the centre: full below
/// twenty pixels, then one point less per whole pixel, none from a hundred on.
pub open spec fn damage_at(distance: int) -> int {
    if distance < PERFECT_RADIUS {
        MAX_DAMAGE as int
    } else if distance < HIT_RADIUS {
        (HIT_RADIUS - distance) / 1000
    } else {
        0
    }
}

pub open spec fn abs(v: int) -> int {
    if v < 0 {
        -v
    } else {
        v
    }
}

/// Damage for a press at `distance` milli-pixels from the track's centre.
pub fn damage_for_distance(distance: u64) -> (r: u32)
    ensures
        r == damage_at(distance as int),
{
    if distance < PERFECT_RADIUS {
        MAX_DAMAGE
    } else if distance < HIT_RADIUS {
        ((HIT_RADIUS - distance) / 1000) as u32
    } else {
        0
    }
}

/// Distance of a bar position from the track's centre.
pub fn distance_from_center(position: i64) -> (r: u64)
    ensures
        r == abs(position - TRACK_CENTER),
{
    let d: i128 = position as i128 - TRACK_CENTER as i128;
    if d < 0 {
        (-d) as u64
    } else {
        d as u64
    }
}

/// The damage law: full damage at the centre, none from a hundred pixels
/// out, never more than full damage nor less than none.
pub proof fn lemma_damage_range(distance: int)
    requires
        0 <= distance,
    ensures
        0 <= damage_at(distance) <= MAX_DAMAGE,
        damage_at(0) == MAX_DAMAGE,
        distance >= HIT_RADIUS ==> damage_at(distance) == 0,
        0 < distance < PERFECT_RADIUS ==> damage_at(distance) == MAX_DAMAGE,
{
}

/// Damage never grows as the press lands farther from the centre.
pub proof fn lemma_damage_monotone(near: int, far: int)
    requires
        0 <= near <= far,
    ensures
        damage_at(far) <= damage_at(near),
{
    if near >= PERFECT_RADIUS && far < HIT_RADIUS {
        assert((HIT_RADIUS - far) / 1000 <= (HIT_RADIUS - near) / 1000) by (nonlinear_arith)
            requires
                HIT_RADIUS - far <= HIT_RADIUS - near,
                0 <= HIT_RADIUS - far,
        ;
    }
}

/// The sweeping indicator of the attack phase.
pub struct AttackBar {
    /// Position along the track, in milli-pixels.
    pub position: i64,
    /// Milli-pixels moved per tick.
    pub speed: i64,
    /// Whether the bar still waits for a press.
    pub active: bool,
}

impl AttackBar {
    pub open spec fn wf(&self) -> bool {
        &&& 0 <= self.speed <= MAX_BAR_SPEED
        &&& self.active ==> TRACK_START <= self.position <= TRACK_END
    }

    /// A bar at rest at the start of the track.
    pub fn new(speed: i64) -> (r: AttackBar)
        requires
            0 <= speed <= MAX_BAR_SPEED,
        ensures
            r.wf(),
            r.position == TRACK_START,
            r.speed == speed,
            !r.active,
    {
        AttackBar { position: TRACK_START, speed, active: false }
    }

    /// Puts the bar at the start of the track and lets it run.
    pub fn start(&mut self)
        requires
            old(self).wf(),
        ensures
            final(self).wf(),
            final(self).position == TRACK_START,
            final(self).speed == old(self).speed,
            final(self).active,
    {
        self.position = TRACK_START;
        self.active = true;
    }

    /// One tick of a running bar: it advances by its speed, then either has
    /// run past the end of the track (a miss, `Some(0)`), or resolves the
    /// press `confirm` into its damage, or keeps running (`None`).
    pub fn tick(&mut self, confirm: bool) -> (r: Option<u32>)
        requires
            old(self).wf(),
        ensures
            final(self).wf(),
            final(self).speed == old(self).speed,
            !old(self).active ==> *final(self) == *old(self) && r is None,
            old(self).active ==> final(self).position == old(self).position + old(self).speed,
            old(self).active && final(self).position > TRACK_END ==> r == Some(0u32)
                && !final(self).active,
            old(self).active && final(self).position <= TRACK_END && confirm ==> !final(self).active
                && r == Some(damage_at(abs(final(self).position - TRACK_CENTER)) as u32),
            old(self).active && final(self).position <= TRACK_END && !confirm ==> final(self).active
                && r is None,
    {
        if !self.active {
            return None;
        }
        self.position = self.position + self.speed;
        if self.position > TRACK_END {
            self.active = false;
            Some(0)
        } else if confirm {
            self.active = false;
            Some(damage_for_distance(distance_from_center(self.position)))
        } else {
            None
        }
    }
}

} // verus!

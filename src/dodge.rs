//! The dodge phase: the player's token ("heart"), its two movement models,
//! the spawn cadence of hazards and the collision test against them.
use crate::geometry::{clamp, clamped, Point, Rect};
use crate::hazards::{advance_hazards, any_hit, spawn_volley, survivors, volley, Bone, DodgeMode};
use crate::input::InputSnapshot;
use vstd::prelude::*;

verus! {

/// Left edge of the arena that holds the token.
pub const ARENA_LEFT: i64 = 60_000;
/// Right edge of the arena.
pub const ARENA_RIGHT: i64 = 730_000;
/// Top edge of the arena.
pub const ARENA_TOP: i64 = 330_000;
/// Bottom edge of the arena.
pub const ARENA_BOTTOM: i64 = 460_000;
/// The floor on which the token lands in gravity mode.
pub const FLOOR: i64 = 440_000;
/// Where the token starts each dodge phase.
pub const HEART_START_X: i64 = 400_000;
/// Where the token starts each dodge phase.
pub const HEART_START_Y: i64 = 395_000;
/// Width and height of the token's hitbox.
pub const HEART_SIZE: i64 = 10_000;
/// Distance the token moves per tick when steered.
pub const STEP: i64 = 4_000;
/// Downward acceleration per tick in gravity mode.
pub const GRAVITY: i64 = 900;
/// Extra downward acceleration per tick while fast-falling.
pub const FAST_FALL: i64 = 1_500;
/// Vertical velocity that a jump sets.
pub const JUMP_VELOCITY: i64 = -13_000;
/// The greatest downward speed the token keeps after a tick.
pub const MAX_FALL_SPEED: i64 = 110_000;
/// Hazards spawn on every tick whose count is a multiple of this.
pub const SPAWN_INTERVAL: u32 = 40;

/// The player's token: position, velocity and the jump latch.
#[derive(Clone, Copy, Debug, PartialEq, Eq, Structural)]
pub struct Token {
    pub pos: Point,
    pub velocity: Point,
    /// Set on landing, cleared by a jump.
    pub can_jump: bool,
}

impl Token {
    /// In the arena, never moving sideways by velocity, with a bounded fall.
    pub open spec fn wf(&self) -> bool {
        &&& ARENA_LEFT <= self.pos.x <= ARENA_RIGHT
        &&& ARENA_TOP <= self.pos.y <= ARENA_BOTTOM
        &&& self.velocity.x == 0
        &&& JUMP_VELOCITY <= self.velocity.y <= MAX_FALL_SPEED
    }

    /// The token's hitbox.
    pub open spec fn hitbox(&self) -> Rect {
        Rect { x: self.pos.x, y: self.pos.y, width: HEART_SIZE, height: HEART_SIZE }
    }
}

/// Horizontal position after steering left and right.
pub open spec fn steered_x(x: int, input: InputSnapshot) -> int {
    x - (if input.left_held { STEP as int } else { 0 }) + (if input.right_held { STEP as int } else { 0 })
}

/// Whether this tick's input makes a grounded token jump.
pub open spec fn jumps(t: Token, input: InputSnapshot) -> bool {
    input.up_pressed && t.can_jump
}

/// Vertical velocity in gravity mode before it moves the token: gravity, a
/// jump that replaces it, and fast-fall while airborne.
pub open spec fn gravity_velocity(t: Token, input: InputSnapshot) -> int {
    let v = if jumps(t, input) { JUMP_VELOCITY as int } else { t.velocity.y + GRAVITY };
    let airborne = !t.can_jump || jumps(t, input);
    if input.down_held && airborne { v + FAST_FALL } else { v }
}

/// Height the token reaches in gravity mode before the floor stops it.
pub open spec fn gravity_height(t: Token, input: InputSnapshot) -> int {
    t.pos.y + gravity_velocity(t, input)
}

/// The token lands on the floor this tick.
pub open spec fn lands(t: Token, input: InputSnapshot) -> bool {
    gravity_height(t, input) > FLOOR
}

/// The token after one tick of gravity mode.
pub open spec fn gravity_next(t: Token, input: InputSnapshot) -> Token {
    let landed = lands(t, input);
    let y = if landed { FLOOR as int } else { gravity_height(t, input) };
    Token {
        pos: Point {
            x: clamped(steered_x(t.pos.x as int, input), ARENA_LEFT as int, ARENA_RIGHT as int) as i64,
            y: clamped(y, ARENA_TOP as int, ARENA_BOTTOM as int) as i64,
        },
        velocity: Point { x: 0, y: if landed { 0 } else { gravity_velocity(t, input) as i64 } },
        can_jump: landed || (t.can_jump && !jumps(t, input)),
    }
}

/// The token after one tick of free flight: it moves one step for each
/// direction held, and its velocity and latch are left alone.
pub open spec fn flight_next(t: Token, input: InputSnapshot) -> Token {
    let dy = (if input.down_held { STEP as int } else { 0 }) - (if input.up_held { STEP as int } else { 0 });
    Token {
        pos: Point {
            x: clamped(steered_x(t.pos.x as int, input), ARENA_LEFT as int, ARENA_RIGHT as int) as i64,
            y: clamped(t.pos.y + dy, ARENA_TOP as int, ARENA_BOTTOM as int) as i64,
        },
        ..t
    }
}

/// One tick of gravity-mode movement.
///
/// The token never ends below the floor; a jump leaves it unable to jump
/// again, and landing lets it jump.
pub fn gravity_step(t: Token, input: InputSnapshot) -> (r: Token)
    requires
        t.wf(),
    ensures
        r == gravity_next(t, input),
        r.wf(),
        r.pos.y <= FLOOR,
        lands(t, input) ==> r.can_jump,
        t.pos.y <= FLOOR && jumps(t, input) ==> !r.can_jump,
{
    let jump = input.up_pressed && t.can_jump;
    let mut vy: i64 = if jump { JUMP_VELOCITY } else { t.velocity.y + GRAVITY };
    let can_jump = t.can_jump && !jump;
    if input.down_held && !can_jump {
        vy = vy + FAST_FALL;
    }
    let mut x = t.pos.x;
    if input.left_held {
        x = x - STEP;
    }
    if input.right_held {
        x = x + STEP;
    }
    let mut y = t.pos.y + vy;
    let landed = y > FLOOR;
    if landed {
        y = FLOOR;
        vy = 0;
    }
    let r = Token {
        pos: Point { x: clamp(x, ARENA_LEFT, ARENA_RIGHT), y: clamp(y, ARENA_TOP, ARENA_BOTTOM) },
        velocity: Point { x: 0, y: vy },
        can_jump: landed || can_jump,
    };
    r
}

/// One tick of free-flight movement.
pub fn flight_step(t: Token, input: InputSnapshot) -> (r: Token)
    requires
        t.wf(),
    ensures
        r == flight_next(t, input),
        r.wf(),
{
    let mut x = t.pos.x;
    let mut y = t.pos.y;
    if input.left_held {
        x = x - STEP;
    }
    if input.right_held {
        x = x + STEP;
    }
    if input.up_held {
        y = y - STEP;
    }
    if input.down_held {
        y = y + STEP;
    }
    Token { pos: Point { x: clamp(x, ARENA_LEFT, ARENA_RIGHT), y: clamp(y, ARENA_TOP, ARENA_BOTTOM) }, ..t }
}

} // verus!

verus! {

/// The token after one tick of movement in `mode`.
pub open spec fn moved_token(mode: DodgeMode, t: Token, input: InputSnapshot) -> Token {
    match mode {
        DodgeMode::Gravity => gravity_next(t, input),
        DodgeMode::FreeFlight => flight_next(t, input),
    }
}

/// The hazards present on tick `tick` before they move: those already in
/// the field, and on every spawn tick the generator's new volley after them.
pub open spec fn with_spawn(
    bones: Seq<Bone>,
    mode: DodgeMode,
    tick: int,
    pattern: int,
    lane: int,
) -> Seq<Bone> {
    if tick % (SPAWN_INTERVAL as int) == 0 {
        bones + volley(mode, pattern, lane)
    } else {
        bones
    }
}

/// The mode that a roll picks: even rolls give gravity, odd ones free flight.
pub open spec fn mode_of_roll(roll: int) -> DodgeMode {
    if roll % 2 == 0 {
        DodgeMode::Gravity
    } else {
        DodgeMode::FreeFlight
    }
}

/// Everything the dodge phase owns.
pub struct DodgeState {
    pub token: Token,
    pub mode: DodgeMode,
    pub bones: Vec<Bone>,
}

impl DodgeState {
    pub open spec fn wf(&self) -> bool {
        &&& self.token.wf()
        &&& forall|i: int| 0 <= i < self.bones.len() ==> #[trigger] self.bones@[i].wf()
    }

    /// The token at its start, at rest and not yet able to jump, with no
    /// hazards, in gravity mode.
    pub fn new() -> (r: DodgeState)
        ensures
            r.wf(),
            r.token.pos == (Point { x: HEART_START_X, y: HEART_START_Y }),
            r.token.velocity == (Point { x: 0, y: 0 }),
            !r.token.can_jump,
            r.mode == DodgeMode::Gravity,
            r.bones@.len() == 0,
    {
        DodgeState {
            token: Token {
                pos: Point { x: HEART_START_X, y: HEART_START_Y },
                velocity: Point { x: 0, y: 0 },
                can_jump: false,
            },
            mode: DodgeMode::Gravity,
            bones: Vec::new(),
        }
    }

    /// Entry into a dodge phase: the token returns to its start at rest,
    /// the hazards are cleared and the mode is picked by `mode_roll`.
    pub fn enter(&mut self, mode_roll: u32)
        requires
            old(self).wf(),
        ensures
            final(self).wf(),
            final(self).token.pos == (Point { x: HEART_START_X, y: HEART_START_Y }),
            final(self).token.velocity == (Point { x: 0, y: 0 }),
            final(self).token.can_jump == old(self).token.can_jump,
            final(self).mode == mode_of_roll(mode_roll as int),
            final(self).bones@.len() == 0,
    {
        self.token.pos = Point { x: HEART_START_X, y: HEART_START_Y };
        self.token.velocity = Point { x: 0, y: 0 };
        self.bones = Vec::new();
        self.mode = if mode_roll % 2 == 0 {
            DodgeMode::Gravity
        } else {
            DodgeMode::FreeFlight
        };
    }

    /// End of a dodge phase: no hazards remain and the mode is gravity again.
    pub fn finish(&mut self)
        requires
            old(self).wf(),
        ensures
            final(self).wf(),
            final(self).token == old(self).token,
            final(self).mode == DodgeMode::Gravity,
            final(self).bones@.len() == 0,
    {
        self.bones = Vec::new();
        self.mode = DodgeMode::Gravity;
    }

    /// One tick of the dodge phase, `tick` being the phase's tick count:
    /// the token moves, a volley spawns on every spawn tick, every hazard
    /// advances and those out of the field go. The result tells whether the
    /// token's hitbox overlaps any hazard after they moved.
    pub fn tick(&mut self, tick: u32, input: InputSnapshot, pattern: u32, lane: u32) -> (hit: bool)
        requires
            old(self).wf(),
        ensures
            final(self).wf(),
            final(self).mode == old(self).mode,
            final(self).token == moved_token(old(self).mode, old(self).token, input),
            final(self).bones@ == survivors(
                with_spawn(old(self).bones@, old(self).mode, tick as int, pattern as int, lane as int),
            ),
            hit == any_hit(
                final(self).token.hitbox(),
                with_spawn(old(self).bones@, old(self).mode, tick as int, pattern as int, lane as int),
            ),
    {
        self.token = match self.mode {
            DodgeMode::Gravity => gravity_step(self.token, input),
            DodgeMode::FreeFlight => flight_step(self.token, input),
        };
        let ghost before = self.bones@;
        if tick % SPAWN_INTERVAL == 0 {
            let mut volley = spawn_volley(self.mode, pattern, lane);
            self.bones.append(&mut volley);
        }
        assert(self.bones@ =~= with_spawn(before, self.mode, tick as int, pattern as int, lane as int));
        let hitbox = Rect { x: self.token.pos.x, y: self.token.pos.y, width: HEART_SIZE, height: HEART_SIZE };
        advance_hazards(&mut self.bones, &hitbox)
    }
}

} // verus!

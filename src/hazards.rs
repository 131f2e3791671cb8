//! The hazard field of the dodge phase: the pattern generator that creates
//! hazards ("bones") and the per-tick advance that moves, tests and culls them.
use crate::geometry::{Point, Rect};
use vstd::prelude::*;

verus! {

/// How the player's token moves during a dodge phase; it also decides
/// which hazard patterns appear.
#[derive(Clone, Copy, Debug, PartialEq, Eq, Structural)]
pub enum DodgeMode {
    /// The token falls, lands on a floor and jumps.
    Gravity,
    /// The token flies freely in four directions.
    FreeFlight,
}

/// A moving, damaging rectangle.
#[derive(Clone, Copy, Debug, PartialEq, Eq, Structural)]
pub struct Bone {
    /// Top-left corner.
    pub pos: Point,
    /// Width and height.
    pub size: Point,
    /// Displacement per tick.
    pub velocity: Point,
}

/// Left edge of the region in which hazards live.
pub const FIELD_LEFT: i64 = -50_000;
/// Right edge of the region in which hazards live.
pub const FIELD_RIGHT: i64 = 850_000;
/// Top edge of the region in which hazards live.
pub const FIELD_TOP: i64 = 200_000;
/// Bottom edge of the region in which hazards live.
pub const FIELD_BOTTOM: i64 = 600_000;
/// No hazard moves faster than this along either axis.
pub const MAX_HAZARD_SPEED: i64 = 7_000;
/// No hazard is wider or taller than this.
pub const MAX_HAZARD_SIZE: i64 = 100_000;

/// Top of the band in which sideways hazards of free flight travel.
pub const LANE_TOP: i64 = 330_000;
/// Height of that band.
pub const LANE_HEIGHT: u32 = 110_000;
/// Left end of the band in which vertical hazards of free flight travel.
pub const LANE_LEFT: i64 = 60_000;
/// Width of that band.
pub const LANE_WIDTH: u32 = 670_000;

/// Number of hazard patterns in gravity mode.
pub const GRAVITY_PATTERNS: u32 = 3;
/// Number of hazard patterns in free flight.
pub const FLIGHT_PATTERNS: u32 = 6;

pub open spec fn bone(px: int, py: int, w: int, h: int, vx: int, vy: int) -> Bone {
    Bone {
        pos: Point { x: px as i64, y: py as i64 },
        size: Point { x: w as i64, y: h as i64 },
        velocity: Point { x: vx as i64, y: vy as i64 },
    }
}

impl Bone {
    /// The hazard's position lies within the field.
    pub open spec fn in_field(&self) -> bool {
        FIELD_LEFT <= self.pos.x <= FIELD_RIGHT && FIELD_TOP <= self.pos.y <= FIELD_BOTTOM
    }

    /// A hazard as the field holds it: in the field, of bounded size and speed.
    pub open spec fn wf(&self) -> bool {
        &&& self.in_field()
        &&& 0 <= self.size.x <= MAX_HAZARD_SIZE
        &&& 0 <= self.size.y <= MAX_HAZARD_SIZE
        &&& -MAX_HAZARD_SPEED <= self.velocity.x <= MAX_HAZARD_SPEED
        &&& -MAX_HAZARD_SPEED <= self.velocity.y <= MAX_HAZARD_SPEED
    }

    /// The hazard one tick later.
    pub open spec fn moved(self) -> Bone {
        Bone {
            pos: Point {
                x: (self.pos.x + self.velocity.x) as i64,
                y: (self.pos.y + self.velocity.y) as i64,
            },
            ..self
        }
    }

    pub open spec fn area(self) -> Rect {
        Rect { x: self.pos.x, y: self.pos.y, width: self.size.x, height: self.size.y }
    }

    fn new(px: i64, py: i64, w: i64, h: i64, vx: i64, vy: i64) -> (r: Bone)
        ensures
            r == bone(px as int, py as int, w as int, h as int, vx as int, vy as int),
    {
        Bone { pos: Point { x: px, y: py }, size: Point { x: w, y: h }, velocity: Point { x: vx, y: vy } }
    }

    fn advanced(&self) -> (r: Bone)
        requires
            self.wf(),
        ensures
            r == self.moved(),
    {
        Bone {
            pos: Point { x: self.pos.x + self.velocity.x, y: self.pos.y + self.velocity.y },
            ..*self
        }
    }

    fn in_field_exec(&self) -> (r: bool)
        ensures
            r == self.in_field(),
    {
        FIELD_LEFT <= self.pos.x && self.pos.x <= FIELD_RIGHT && FIELD_TOP <= self.pos.y
            && self.pos.y <= FIELD_BOTTOM
    }

    /// The hazard's rectangle.
    pub fn rect(&self) -> (r: Rect)
        ensures
            r == self.area(),
    {
        Rect { x: self.pos.x, y: self.pos.y, width: self.size.x, height: self.size.y }
    }
}

/// The hazards that gravity pattern `k` creates: one low from the right, one
/// high from the left, or a low pair converging from both sides.
pub open spec fn gravity_volley(k: int) -> Seq<Bone> {
    if k == 0 {
        seq![bone(800_000, 420_000, 20_000, 50_000, -6_000, 0)]
    } else if k == 1 {
        seq![bone(-50_000, 320_000, 20_000, 90_000, 6_000, 0)]
    } else {
        seq![
            bone(800_000, 440_000, 20_000, 30_000, -5_000, 0),
            bone(-50_000, 440_000, 20_000, 30_000, 5_000, 0),
        ]
    }
}

/// The hazard that free-flight pattern `k` creates: a sweep from the left,
/// the right, the top or the bottom at offset `lane` within its band, or a
/// diagonal sweep from the top-left or the bottom-left corner.
pub open spec fn flight_volley(k: int, lane: int) -> Bone {
    if k == 0 {
        bone(-50_000, LANE_TOP + lane % (LANE_HEIGHT as int), 100_000, 10_000, 7_000, 0)
    } else if k == 1 {
        bone(800_000, LANE_TOP + lane % (LANE_HEIGHT as int), 100_000, 10_000, -7_000, 0)
    } else if k == 2 {
        bone(LANE_LEFT + lane % (LANE_WIDTH as int), 250_000, 10_000, 100_000, 0, 5_000)
    } else if k == 3 {
        bone(LANE_LEFT + lane % (LANE_WIDTH as int), 500_000, 10_000, 100_000, 0, -5_000)
    } else if k == 4 {
        bone(0, 250_000, 15_000, 60_000, 4_000, 4_000)
    } else {
        bone(0, 500_000, 15_000, 60_000, 4_000, -4_000)
    }
}

/// What the generator creates for `mode`, given the pattern roll and the
/// lane roll; each roll is taken modulo the number of its choices.
pub open spec fn volley(mode: DodgeMode, pattern: int, lane: int) -> Seq<Bone> {
    match mode {
        DodgeMode::Gravity => gravity_volley(pattern % (GRAVITY_PATTERNS as int)),
        DodgeMode::FreeFlight => seq![flight_volley(pattern % (FLIGHT_PATTERNS as int), lane)],
    }
}

/// The pattern generator: the hazards of one spawn, chosen by the rolls.
pub fn spawn_volley(mode: DodgeMode, pattern: u32, lane: u32) -> (r: Vec<Bone>)
    ensures
        r@ == volley(mode, pattern as int, lane as int),
        forall|i: int| 0 <= i < r.len() ==> #[trigger] r@[i].wf(),
{
    let mut r: Vec<Bone> = Vec::new();
    match mode {
        DodgeMode::Gravity => {
            let k = pattern % GRAVITY_PATTERNS;
            if k == 0 {
                r.push(Bone::new(800_000, 420_000, 20_000, 50_000, -6_000, 0));
            } else if k == 1 {
                r.push(Bone::new(-50_000, 320_000, 20_000, 90_000, 6_000, 0));
            } else {
                r.push(Bone::new(800_000, 440_000, 20_000, 30_000, -5_000, 0));
                r.push(Bone::new(-50_000, 440_000, 20_000, 30_000, 5_000, 0));
            }
        },
        DodgeMode::FreeFlight => {
            let k = pattern % FLIGHT_PATTERNS;
            let y = LANE_TOP + (lane % LANE_HEIGHT) as i64;
            let x = LANE_LEFT + (lane % LANE_WIDTH) as i64;
            if k == 0 {
                r.push(Bone::new(-50_000, y, 100_000, 10_000, 7_000, 0));
            } else if k == 1 {
                r.push(Bone::new(800_000, y, 100_000, 10_000, -7_000, 0));
            } else if k == 2 {
                r.push(Bone::new(x, 250_000, 10_000, 100_000, 0, 5_000));
            } else if k == 3 {
                r.push(Bone::new(x, 500_000, 10_000, 100_000, 0, -5_000));
            } else if k == 4 {
                r.push(Bone::new(0, 250_000, 15_000, 60_000, 4_000, 4_000));
            } else {
                r.push(Bone::new(0, 500_000, 15_000, 60_000, 4_000, -4_000));
            }
        },
    }
    assert(r@ =~= volley(mode, pattern as int, lane as int));
    r
}

/// The hazards of `s` one tick later, without those that left the field,
/// in their order.
pub open spec fn survivors(s: Seq<Bone>) -> Seq<Bone>
    decreases s.len(),
{
    if s.len() == 0 {
        s
    } else {
        let rest = survivors(s.drop_last());
        if s.last().moved().in_field() {
            rest.push(s.last().moved())
        } else {
            rest
        }
    }
}

/// Some hazard of `s`, one tick later, overlaps `target`.
pub open spec fn any_hit(target: Rect, s: Seq<Bone>) -> bool {
    exists|i: int| 0 <= i < s.len() && target.overlaps(#[trigger] s[i].moved().area())
}

/// One tick of the hazard field: every hazard moves by its velocity; the
/// result tells whether any moved hazard overlaps `target`; hazards that
/// left the field are removed, so every hazard kept lies in the field.
pub fn advance_hazards(bones: &mut Vec<Bone>, target: &Rect) -> (hit: bool)
    requires
        target.bounded(),
        forall|i: int| 0 <= i < old(bones).len() ==> #[trigger] old(bones)@[i].wf(),
    ensures
        final(bones)@ == survivors(old(bones)@),
        hit == any_hit(*target, old(bones)@),
        forall|i: int| 0 <= i < final(bones).len() ==> #[trigger] final(bones)@[i].wf(),
{
    let mut kept: Vec<Bone> = Vec::new();
    let mut hit = false;
    let mut i: usize = 0;
    while i < bones.len()
        invariant
            i <= bones.len(),
            target.bounded(),
            bones@ == old(bones)@,
            forall|j: int| 0 <= j < bones.len() ==> #[trigger] bones@[j].wf(),
            kept@ == survivors(bones@.take(i as int)),
            forall|j: int| 0 <= j < kept.len() ==> #[trigger] kept@[j].wf(),
            hit == any_hit(*target, bones@.take(i as int)),
        decreases bones.len() - i,
    {
        assert(bones@[i as int].wf());
        let b = bones[i].advanced();
        assert(b.area().bounded());
        let touches = target.intersects(&b.rect());
        if touches {
            hit = true;
        }
        if b.in_field_exec() {
            assert(b.wf());
            kept.push(b);
        }
        proof {
            let s = bones@.take(i as int + 1);
            assert(s.drop_last() =~= bones@.take(i as int));
            assert(s.last() == bones@[i as int]);
            if touches {
                assert(s[i as int] == bones@[i as int]);
            }
            assert(any_hit(*target, s) == (any_hit(*target, bones@.take(i as int)) || touches))
                by {
                if any_hit(*target, s) && !touches {
                    let j = choose|j: int|
                        0 <= j < s.len() && target.overlaps(#[trigger] s[j].moved().area());
                    assert(j != i);
                    assert(bones@.take(i as int)[j] == s[j]);
                }
                if any_hit(*target, bones@.take(i as int)) {
                    let j = choose|j: int|
                        0 <= j < i && target.overlaps(
                            #[trigger] bones@.take(i as int)[j].moved().area(),
                        );
                    assert(s[j] == bones@.take(i as int)[j]);
                }
            }
        }
        i = i + 1;
    }
    assert(bones@.take(bones.len() as int) =~= bones@);
    *bones = kept;
    hit
}

} // verus!

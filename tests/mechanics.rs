use gorkitale::{
    advance_hazards, damage_for_distance, distance_from_center, flight_step, gravity_step,
    spawn_volley, AttackBar, Bone, DodgeMode, InputSnapshot, Point, Rect, Token, MAX_BAR_SPEED,
    TRACK_CENTER, TRACK_END, TRACK_START,
};

#[test]
fn damage_at_boundaries() {
    assert_eq!(damage_for_distance(0), 100);
    assert_eq!(damage_for_distance(19_999), 100);
    assert_eq!(damage_for_distance(19_900), 100);
    assert_eq!(damage_for_distance(20_000), 80);
    assert_eq!(damage_for_distance(50_500), 49);
    assert_eq!(damage_for_distance(99_000), 1);
    assert_eq!(damage_for_distance(99_999), 0);
    assert_eq!(damage_for_distance(100_000), 0);
    assert_eq!(damage_for_distance(150_000), 0);
}

#[test]
fn damage_never_grows_with_distance() {
    let mut last = damage_for_distance(0);
    for d in (0..=200_000u64).step_by(250) {
        let now = damage_for_distance(d);
        assert!(now <= last);
        assert!(now <= 100);
        last = now;
    }
}

#[test]
fn distance_is_symmetric_around_centre() {
    assert_eq!(distance_from_center(TRACK_CENTER), 0);
    assert_eq!(distance_from_center(TRACK_CENTER - 19_999), 19_999);
    assert_eq!(distance_from_center(TRACK_CENTER + 19_999), 19_999);
    assert_eq!(distance_from_center(i64::MIN), (TRACK_CENTER as u64) + (1u64 << 63));
}

#[test]
fn overshoot_is_a_miss_at_any_speed() {
    for speed in [1_000i64, 7_999, 8_000, 123_457, 700_001, 5_000_000, MAX_BAR_SPEED] {
        let mut bar = AttackBar::new(speed);
        bar.start();
        let mut result = None;
        let mut ticks = 0;
        while result.is_none() {
            result = bar.tick(false);
            ticks += 1;
            assert!(ticks < 1_000);
        }
        assert_eq!(result, Some(0));
        assert!(!bar.active);
        assert!(bar.position > TRACK_END);
        assert_eq!(bar.tick(true), None);
    }
}

#[test]
fn press_resolves_bar_into_damage() {
    let mut bar = AttackBar::new(10_000);
    bar.start();
    assert_eq!(bar.position, TRACK_START);
    for _ in 0..30 {
        assert_eq!(bar.tick(false), None);
    }
    // At 360 pixels: forty from the centre.
    assert_eq!(bar.tick(true), Some(60));
    assert!(!bar.active);
}

fn resting(x: i64, y: i64, can_jump: bool) -> Token {
    Token { pos: Point { x, y }, velocity: Point { x: 0, y: 0 }, can_jump }
}

#[test]
fn gravity_jump_and_landing() {
    let jump = InputSnapshot { up_pressed: true, ..InputSnapshot::idle() };
    let t = gravity_step(resting(400_000, 440_000, true), jump);
    assert!(!t.can_jump);
    assert_eq!(t.velocity.y, -13_000);
    assert_eq!(t.pos.y, 427_000);
    let mut t = t;
    let mut landed = false;
    for _ in 0..100 {
        t = gravity_step(t, InputSnapshot::idle());
        assert!(t.pos.y <= 440_000);
        if t.can_jump {
            landed = true;
            assert_eq!(t.pos.y, 440_000);
            assert_eq!(t.velocity.y, 0);
            break;
        }
    }
    assert!(landed);
}

#[test]
fn gravity_cannot_jump_in_the_air() {
    let jump = InputSnapshot { up_pressed: true, ..InputSnapshot::idle() };
    let t = gravity_step(resting(400_000, 395_000, false), jump);
    assert_eq!(t.velocity.y, 900);
    assert_eq!(t.pos.y, 395_900);
    let fast = InputSnapshot { down_held: true, ..InputSnapshot::idle() };
    let t = gravity_step(resting(400_000, 395_000, false), fast);
    assert_eq!(t.velocity.y, 2_400);
}

#[test]
fn steering_stays_in_arena() {
    let left = InputSnapshot { left_held: true, up_held: true, ..InputSnapshot::idle() };
    let t = flight_step(resting(61_000, 331_000, false), left);
    assert_eq!(t.pos, Point { x: 60_000, y: 330_000 });
    let right = InputSnapshot { right_held: true, down_held: true, ..InputSnapshot::idle() };
    let t = flight_step(resting(400_000, 400_000, false), right);
    assert_eq!(t.pos, Point { x: 404_000, y: 404_000 });
    let t = gravity_step(resting(729_000, 440_000, true), right);
    assert_eq!(t.pos.x, 730_000);
}

#[test]
fn gravity_patterns() {
    let low = spawn_volley(DodgeMode::Gravity, 0, 0);
    assert_eq!(low.len(), 1);
    assert_eq!(low[0].pos, Point { x: 800_000, y: 420_000 });
    assert_eq!(low[0].velocity, Point { x: -6_000, y: 0 });
    let pair = spawn_volley(DodgeMode::Gravity, 5, 0);
    assert_eq!(pair.len(), 2);
    assert_eq!(pair[0].velocity.x, -5_000);
    assert_eq!(pair[1].velocity.x, 5_000);
}

#[test]
fn flight_patterns_use_the_lane() {
    let from_left = spawn_volley(DodgeMode::FreeFlight, 0, 110_005);
    assert_eq!(from_left[0].pos, Point { x: -50_000, y: 330_005 });
    let from_top = spawn_volley(DodgeMode::FreeFlight, 8, 1_000);
    assert_eq!(from_top[0].pos, Point { x: 61_000, y: 250_000 });
    assert_eq!(from_top[0].velocity, Point { x: 0, y: 5_000 });
    let diagonal = spawn_volley(DodgeMode::FreeFlight, 5, 0);
    assert_eq!(diagonal[0].velocity, Point { x: 4_000, y: -4_000 });
}

#[test]
fn hazards_leaving_the_field_are_removed() {
    let b = |x: i64, y: i64, vx: i64, vy: i64| Bone {
        pos: Point { x, y },
        size: Point { x: 20_000, y: 30_000 },
        velocity: Point { x: vx, y: vy },
    };
    let mut bones = vec![b(-47_000, 400_000, -5_000, 0), b(100_000, 300_000, 5_000, 0), b(0, 598_000, 0, 4_000)];
    let far = Rect { x: 0, y: 0, width: 1, height: 1 };
    let hit = advance_hazards(&mut bones, &far);
    assert!(!hit);
    assert_eq!(bones.len(), 1);
    assert_eq!(bones[0].pos, Point { x: 105_000, y: 300_000 });
    let heart = Rect { x: 120_000, y: 310_000, width: 10_000, height: 10_000 };
    assert!(advance_hazards(&mut bones, &heart));
    let touching = Rect { x: 135_000, y: 310_000, width: 10_000, height: 10_000 };
    assert!(!advance_hazards(&mut bones, &touching));
    assert_eq!(bones[0].pos.x, 115_000);
}

#[test]
fn rectangles_touching_do_not_intersect() {
    let a = Rect { x: 2, y: 2, width: 4, height: 4 };
    assert!(a.intersects(&a));
    assert!(a.intersects(&Rect { x: 3, y: 3, width: 4, height: 4 }));
    assert!(!a.intersects(&Rect { x: 6, y: 2, width: 4, height: 4 }));
    assert!(!a.intersects(&Rect { x: 20, y: 20, width: 4, height: 4 }));
}

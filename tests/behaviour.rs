use sprite_walk::animation::{next_frame, Animation, AnimationIndices};
use sprite_walk::camera::CameraFocus;
use sprite_walk::movement::{Character, Keys, DEPTH_STEP, STEPS_PER_UNIT};
use sprite_walk::scene::{Scene, FRAME_PERIOD_NS, RUN_FIRST, RUN_LAST};
use sprite_walk::timer::FrameTimer;

const MS: u64 = 1_000_000;

fn keys(up: bool, down: bool, left: bool, right: bool) -> Keys {
    Keys { up, down, left, right }
}

#[test]
fn next_frame_steps_and_wraps() {
    assert_eq!(next_frame(1, 6, 1), 2);
    assert_eq!(next_frame(1, 6, 5), 6);
    assert_eq!(next_frame(1, 6, 6), 1);
    assert_eq!(next_frame(3, 3, 3), 3);
}

#[test]
fn timer_fires_and_keeps_remainder() {
    let mut t = FrameTimer::new(100 * MS);
    assert!(!t.tick(30 * MS));
    assert_eq!(t.elapsed_ns, 30 * MS);
    assert!(t.tick(120 * MS));
    assert_eq!(t.elapsed_ns, 50 * MS);
    assert!(t.tick(350 * MS));
    assert_eq!(t.elapsed_ns, 0);
    assert!(!t.tick(0));
    assert_eq!(t.period_ns, 100 * MS);
}

#[test]
fn timer_fires_exactly_at_period() {
    let mut t = FrameTimer::new(100 * MS);
    assert!(!t.tick(100 * MS - 1));
    assert!(t.tick(1));
    assert_eq!(t.elapsed_ns, 0);
}

#[test]
fn timer_bounds_periods_per_tick() {
    let t = FrameTimer::new(1);
    assert!(t.can_tick(0xFFFF_FFFF));
    assert!(!t.can_tick(0x1_0000_0000));
    let slow = FrameTimer::new(100 * MS);
    assert!(slow.can_tick(400_000_000 * MS));
    assert!(!slow.can_tick(u64::MAX));
}

#[test]
fn animation_starts_on_first_frame() {
    let a = Animation::new(AnimationIndices { first: 1, last: 6 }, 100 * MS);
    assert_eq!(a.index, 1);
    assert_eq!(a.timer.elapsed_ns, 0);
}

#[test]
fn animation_wraps_after_last_frame() {
    let mut a = Animation::new(AnimationIndices { first: 1, last: 6 }, 100 * MS);
    for expected in 2..=6 {
        a.advance(100 * MS);
        assert_eq!(a.index, expected);
    }
    a.advance(40 * MS);
    assert_eq!(a.index, 6);
    a.advance(60 * MS);
    assert_eq!(a.index, 1);
}

#[test]
fn animation_index_stays_in_range() {
    let mut a = Animation::new(AnimationIndices { first: 1, last: 6 }, 100 * MS);
    let deltas = [16 * MS, 17 * MS, 250 * MS, 0, 99 * MS, 1, 1000 * MS, 33 * MS];
    for round in 0..50 {
        for d in deltas.iter() {
            a.advance(*d + round);
            assert!(1 <= a.index && a.index <= 6);
        }
    }
}

#[test]
fn long_frame_advances_one_step_only() {
    let mut a = Animation::new(AnimationIndices { first: 1, last: 6 }, 100 * MS);
    a.advance(350 * MS);
    assert_eq!(a.index, 2);
    assert_eq!(a.timer.elapsed_ns, 50 * MS);
}

#[test]
fn holding_up_moves_up_and_forward() {
    let mut c = Character::new(0, 0, 0);
    c.step(keys(true, false, false, false), 500 * MS);
    assert_eq!(c.y, 50 * STEPS_PER_UNIT);
    assert_eq!(c.x, 0);
    assert_eq!(c.z, DEPTH_STEP);
    assert!(!c.flip_x);
}

#[test]
fn holding_down_moves_down_and_back() {
    let mut c = Character::new(0, 10, 0);
    c.step(keys(false, true, false, false), 10 * MS);
    assert_eq!(c.y, 10 - STEPS_PER_UNIT);
    assert_eq!(c.z, -DEPTH_STEP);
}

#[test]
fn distance_independent_of_frame_slicing() {
    let held = keys(true, false, false, true);
    let mut sliced = Character::new(7, -3, 0);
    for _ in 0..10 {
        sliced.step(held, 50 * MS);
    }
    let mut whole = Character::new(7, -3, 0);
    whole.step(held, 500 * MS);
    assert_eq!(sliced.x, whole.x);
    assert_eq!(sliced.y, whole.y);
    assert_eq!(whole.x, 7 + 50 * STEPS_PER_UNIT);
    assert_eq!(whole.y, -3 + 50 * STEPS_PER_UNIT);
    assert_eq!(sliced.z, 10 * DEPTH_STEP);
    assert_eq!(whole.z, DEPTH_STEP);
}

#[test]
fn diagonal_is_not_normalised() {
    let mut c = Character::new(0, 0, 0);
    c.step(keys(false, true, true, false), 1000 * MS);
    assert_eq!(c.x, -100 * STEPS_PER_UNIT);
    assert_eq!(c.y, -100 * STEPS_PER_UNIT);
}

#[test]
fn opposite_keys_cancel() {
    let mut c = Character::new(5, 6, 7);
    c.step(keys(true, true, true, true), 1000 * MS);
    assert_eq!((c.x, c.y, c.z), (5, 6, 7));
}

#[test]
fn facing_follows_last_horizontal_key() {
    let mut c = Character::new(0, 0, 0);
    c.step(keys(false, false, true, false), MS);
    assert!(c.flip_x);
    c.step(keys(true, false, false, false), MS);
    assert!(c.flip_x);
    c.step(keys(false, false, true, true), MS);
    assert!(!c.flip_x);
    c.step(keys(false, false, false, true), MS);
    assert!(!c.flip_x);
    c.step(keys(false, false, true, false), MS);
    assert!(c.flip_x);
}

#[test]
fn step_range_limits() {
    let c = Character::new(0, 0, 0);
    assert!(c.can_step(1000 * MS));
    assert!(!c.can_step(u64::MAX));
    let edge = Character::new(i64::MAX - DEPTH_STEP - 100, 0, 0);
    assert!(edge.can_step(1));
    assert!(!edge.can_step(2));
}

#[test]
fn camera_follows_target() {
    let mut cam = CameraFocus::new(1, 2);
    let target = Character::new(40, -50, 60);
    cam.follow(&target);
    assert_eq!((cam.x, cam.y), (40, -50));
}

#[test]
fn scene_starts_at_origin_on_run_cycle() {
    let s = Scene::new();
    assert_eq!(s.animation.indices.first, RUN_FIRST);
    assert_eq!(s.animation.indices.last, RUN_LAST);
    assert_eq!(s.animation.index, 1);
    assert_eq!(s.animation.timer.period_ns, FRAME_PERIOD_NS);
    assert_eq!(s.character, Character::new(0, 0, 0));
    assert_eq!(s.camera, CameraFocus::new(0, 0));
}

#[test]
fn camera_on_character_after_every_frame() {
    let mut s = Scene::new();
    let frames = [
        (keys(true, false, false, false), 16 * MS),
        (keys(false, false, true, false), 120 * MS),
        (keys(false, true, false, true), 33 * MS),
        (keys(false, false, false, false), 7 * MS),
    ];
    for (k, d) in frames.iter() {
        assert!(s.can_update(*d));
        s.update(*k, *d);
        assert_eq!(s.camera.x, s.character.x);
        assert_eq!(s.camera.y, s.character.y);
    }
    assert_eq!(s.animation.index, 2);
    assert!(!s.character.flip_x);
}

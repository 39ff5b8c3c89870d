use entity_motion::arith::isqrt;
use entity_motion::enemy::{Enemy, EnemyClass, EnemyState};
use entity_motion::game::{App, Key};
use entity_motion::player::{Heading, Player, POSITION_LIMIT, VELOCITY_LIMIT};

const PX: i64 = 1_000_000;
const PX_PER_S: i64 = 1_000;

fn squared_speed(p: &Player) -> i128 {
    let (vx, vy) = (p.velocity_x as i128, p.velocity_y as i128);
    vx * vx + vy * vy
}

fn start_player() -> Player {
    Player::new(50 * PX, 50 * PX, 2000, 200 * PX_PER_S)
}

#[test]
fn integer_square_roots() {
    assert_eq!(isqrt(0), 0);
    assert_eq!(isqrt(1), 1);
    assert_eq!(isqrt(15), 3);
    assert_eq!(isqrt(16), 4);
    assert_eq!(isqrt(200_000u128 * 200_000 / 2), 141_421);
    assert_eq!(isqrt(u128::MAX), u64::MAX);
}

#[test]
fn new_player_is_at_rest() {
    let p = start_player();
    assert_eq!((p.x, p.y), (50 * PX, 50 * PX));
    assert_eq!((p.velocity_x, p.velocity_y, p.velocity), (0, 0, 0));
    assert_eq!((p.acc_x, p.acc_y), (0, 0));
    assert!(!p.is_accelerating_x && !p.is_accelerating_y);
    assert_eq!(p.rotation, Heading { dx: 1, dy: 0 });
}

#[test]
fn first_tick_reaches_cap_without_limiting() {
    let mut p = start_player();
    p.accelerate_right();
    p.update((0, 0), 100);
    assert_eq!(p.velocity_x, 200 * PX_PER_S);
    assert_eq!(p.velocity_y, 0);
    assert_eq!(p.velocity, 200_000);
    // 200 px/s for 0.1 s
    assert_eq!(p.x, 70 * PX);
    assert_eq!(p.y, 50 * PX);
}

#[test]
fn second_tick_engages_limiting() {
    let mut p = start_player();
    p.accelerate_right();
    p.update((0, 0), 100);
    p.update((0, 0), 100);
    // measured before limiting: 400 px/s
    assert_eq!(p.velocity, 400_000);
    // 400 - 200 / sqrt(2) = 258.578... px/s
    assert_eq!(p.velocity_x, 258_579);
    assert_eq!(p.velocity_y, 0);
    assert_eq!(p.x, 70 * PX + 25_857_900);
}

#[test]
fn limiting_pulls_both_fast_axes() {
    let mut p = start_player();
    p.velocity_x = 300_000;
    p.velocity_y = -300_000;
    p.calculate_velocity();
    // floor(300000 * sqrt 2)
    assert_eq!(p.velocity, 424_264);
    let before = squared_speed(&p);
    p.reduce_velocity();
    assert!(squared_speed(&p) <= before);
    // excess 224264, shed floor(224264 / sqrt 2) = 158578
    assert_eq!(p.velocity_x, 300_000 - 158_578);
    assert_eq!(p.velocity_y, -300_000 + 158_578);
}

#[test]
fn limiting_leaves_slow_axis_alone() {
    let mut p = start_player();
    p.velocity_x = 400_000;
    p.velocity_y = 100_000;
    p.calculate_velocity();
    assert_eq!(p.velocity, 412_310);
    let before = squared_speed(&p);
    p.reduce_velocity();
    assert!(squared_speed(&p) <= before);
    // shed floor(212310 / sqrt 2) = 150125
    assert_eq!(p.velocity_x, 400_000 - 150_125);
    assert_eq!(p.velocity_y, 100_000);
}

#[test]
fn limiting_idle_within_cap() {
    let mut p = start_player();
    p.velocity_x = 150_000;
    p.velocity_y = 0;
    p.calculate_velocity();
    let before = p;
    p.reduce_velocity();
    assert_eq!(p, before);
}

#[test]
fn rest_band_snaps_to_zero() {
    let mut p = start_player();
    // rest band for 2000 px/s^2 is 20 px/s
    p.velocity_x = 20_000;
    p.velocity_y = -19_999;
    p.update((0, 0), 16);
    assert_eq!((p.velocity_x, p.velocity_y), (0, 0));
    assert_eq!((p.acc_x, p.acc_y), (0, 0));
    assert_eq!((p.x, p.y), (50 * PX, 50 * PX));
}

#[test]
fn friction_brakes_outside_rest_band() {
    let mut p = start_player();
    p.velocity_x = 20_001;
    p.velocity_y = -100_000;
    p.stop_move_x();
    p.stop_move_y();
    assert_eq!(p.acc_x, -2000);
    assert_eq!(p.acc_y, 2000);
    assert_eq!((p.velocity_x, p.velocity_y), (20_001, -100_000));
}

#[test]
fn braking_takes_one_extra_tick_to_stop() {
    let mut p = start_player();
    p.velocity_x = 50_000;
    p.update((0, 0), 10);
    assert_eq!(p.velocity_x, 30_000);
    p.update((0, 0), 10);
    assert_eq!(p.velocity_x, 10_000);
    p.update((0, 0), 10);
    assert_eq!(p.velocity_x, 0);
    assert_eq!(p.acc_x, 0);
}

#[test]
fn accelerate_right_twice_is_once() {
    let mut once = start_player();
    once.accelerate_right();
    let mut twice = start_player();
    twice.accelerate_right();
    twice.accelerate_right();
    assert_eq!(once, twice);
    assert_eq!(once.acc_x, 2000);
    assert!(once.is_accelerating_x);
}

#[test]
fn thrust_commands_set_signs() {
    let mut p = start_player();
    p.accelerate_left();
    p.accelerate_up();
    assert_eq!((p.acc_x, p.acc_y), (-2000, -2000));
    p.accelerate_down();
    assert_eq!((p.acc_x, p.acc_y), (-2000, 2000));
    p.break_x();
    assert_eq!(p.acc_x, 0);
    assert!(!p.is_accelerating_x);
    assert!(p.is_accelerating_y);
    p.break_y();
    assert_eq!(p.acc_y, 0);
    assert!(!p.is_accelerating_y);
}

#[test]
fn release_keeps_velocity() {
    let mut p = start_player();
    p.accelerate_right();
    p.update((0, 0), 50);
    p.break_x();
    assert_eq!(p.velocity_x, 100_000);
}

#[test]
fn heading_right_half_plane() {
    let mut p = start_player();
    p.update_rotation((60 * PX, 40 * PX));
    assert_eq!(p.rotation, Heading { dx: 10_000_000, dy: -10_000_000 });
    assert!(!p.rotation.is_turned());
}

#[test]
fn heading_left_half_plane_turns() {
    let mut p = start_player();
    p.update_rotation((10 * PX, 50 * PX));
    assert_eq!(p.rotation, Heading { dx: -40_000_000, dy: 0 });
    assert!(p.rotation.is_turned());
}

#[test]
fn heading_straight_up_or_down_is_not_turned() {
    let mut p = start_player();
    p.update_rotation((50 * PX, 0));
    assert_eq!(p.rotation.dx, 0);
    assert!(!p.rotation.is_turned());
}

#[test]
fn update_faces_cursor_from_new_position() {
    let mut p = start_player();
    p.accelerate_right();
    p.update((100 * PX, 50 * PX), 100);
    assert_eq!(p.rotation, Heading { dx: 30_000_000, dy: 0 });
}

#[test]
fn huge_tick_saturates() {
    let mut p = Player::new(POSITION_LIMIT - 1, 0, 1_000_000_000, VELOCITY_LIMIT);
    p.accelerate_right();
    p.update((0, 0), u32::MAX);
    assert_eq!(p.velocity_x, VELOCITY_LIMIT);
    assert_eq!(p.x, POSITION_LIMIT);
}

fn enemy_at(x: i64, y: i64, size: u64) -> Enemy {
    Enemy { x, y, size, class: EnemyClass::Circle, state: EnemyState::Alive }
}

#[test]
fn collision_bounds() {
    let e = enemy_at(200 * PX, 300 * PX, 50 * PX as u64);
    let mut p = start_player();
    assert!(!p.is_collided(&e));
    p.x = 200 * PX;
    p.y = 300 * PX;
    assert!(p.is_collided(&e));
    // edges touch: 25 px half size plus 10 px footprint
    p.x = 235 * PX;
    assert!(p.is_collided(&e));
    p.x = 235 * PX + 1;
    assert!(!p.is_collided(&e));
    p.x = 165 * PX;
    p.y = 265 * PX;
    assert!(p.is_collided(&e));
    p.y = 265 * PX - 1;
    assert!(!p.is_collided(&e));
}

#[test]
fn enemy_visibility_follows_state() {
    let mut e = enemy_at(0, 0, 1);
    assert!(e.is_visible());
    e.state = EnemyState::Dead;
    assert!(!e.is_visible());
    Enemy::update();
    assert_eq!(e.state, EnemyState::Dead);
}

#[test]
fn new_app_layout() {
    let app = App::new();
    assert_eq!(app.player, start_player());
    let square = Enemy {
        x: 200 * PX,
        y: 300 * PX,
        size: 50 * PX as u64,
        class: EnemyClass::Square,
        state: EnemyState::Alive,
    };
    assert_eq!(app.enemy, square);
    assert_eq!(app.cursor_pos, (0, 0));
}

#[test]
fn keys_map_to_axes() {
    let mut app = App::new();
    app.input(Key::W, true);
    assert_eq!(app.player.acc_y, -2000);
    app.input(Key::S, true);
    assert_eq!(app.player.acc_y, 2000);
    app.input(Key::A, true);
    assert_eq!(app.player.acc_x, -2000);
    app.input(Key::D, true);
    assert_eq!(app.player.acc_x, 2000);
    app.input(Key::W, false);
    assert_eq!(app.player.acc_y, 0);
    assert!(!app.player.is_accelerating_y);
    app.input(Key::A, false);
    assert_eq!(app.player.acc_x, 0);
    assert!(!app.player.is_accelerating_x);
}

#[test]
fn other_keys_are_ignored() {
    let mut app = App::new();
    let before = app.player;
    app.input(Key::Other, true);
    app.input(Key::Other, false);
    assert_eq!(app.player, before);
}

#[test]
fn cursor_move_turns_player_at_once() {
    let mut app = App::new();
    app.cursor_move((0, 50 * PX));
    assert_eq!(app.cursor_pos, (0, 50 * PX));
    assert_eq!(app.player.rotation, Heading { dx: -50 * PX as i128, dy: 0 });
    assert!(app.player.rotation.is_turned());
}

#[test]
fn entering_enemy_kills_it_on_that_tick() {
    let mut app = App::new();
    app.update(16);
    assert_eq!(app.enemy.state, EnemyState::Alive);
    app.player.x = 190 * PX;
    app.player.y = 300 * PX;
    app.player.velocity_x = 100 * PX_PER_S;
    app.player.accelerate_right();
    app.update(100);
    assert_eq!(app.enemy.state, EnemyState::Dead);
    assert!(!app.enemy.is_visible());
}

#[test]
fn dead_enemy_stays_dead() {
    let mut app = App::new();
    app.player.x = 200 * PX;
    app.player.y = 300 * PX;
    app.update(16);
    assert_eq!(app.enemy.state, EnemyState::Dead);
    app.player.x = 50 * PX;
    app.player.y = 50 * PX;
    for _ in 0..20 {
        app.input(Key::D, true);
        app.cursor_move((700 * PX, 500 * PX));
        app.update(16);
        assert_eq!(app.enemy.state, EnemyState::Dead);
    }
}

#[test]
fn thrust_for_many_ticks_stays_bounded() {
    let mut app = App::new();
    app.input(Key::D, true);
    app.input(Key::S, true);
    for _ in 0..1000 {
        app.update(16);
        assert!(app.player.velocity_x.abs() <= VELOCITY_LIMIT);
        assert!(app.player.velocity_y.abs() <= VELOCITY_LIMIT);
    }
    // the single-pass limiter settles near, not under, the cap
    assert!(app.player.velocity > 200_000);
    assert!(app.player.velocity < 300_000);
}

use vstd::prelude::*;

use crate::arith::{
    floor_sqrt, isqrt, lemma_floor_sqrt, lemma_floor_sqrt_is, lemma_mul_within,
    lemma_root_at_most, lemma_square_within,
};
use crate::enemy::Enemy;

verus! {

/// Bound on each position coordinate, in micro-pixels.
pub const POSITION_LIMIT: i64 = 1_000_000_000_000_000_000;

/// Bound on each velocity component, in milli-pixels per second.
pub const VELOCITY_LIMIT: i64 = 1_000_000_000_000_000;

/// Largest thrust magnitude, in pixels per second squared.
pub const ACCEL_LIMIT: i64 = 1_000_000_000;

/// Half-extent of the player's square footprint, in micro-pixels (ten pixels).
pub const PLAYER_RADIUS: i64 = 10_000_000;

/// `v` held within `[-limit, limit]`.
pub open spec fn clip(v: int, limit: int) -> int {
    if v > limit {
        limit
    } else if v < -limit {
        -limit
    } else {
        v
    }
}

/// Half-width of the band of velocities treated as rest, for a thrust
/// magnitude `acc`: `acc / 100` pixels per second, in milli-pixels per second.
pub open spec fn rest_band(acc: int) -> int {
    10 * acc
}

/// Velocity and acceleration of one axis after the friction decision: brake
/// at full magnitude outside the rest band, stop dead inside it.
pub open spec fn friction(v: int, a: int, acc: int) -> (int, int) {
    if v < -rest_band(acc) {
        (v, acc)
    } else if v > rest_band(acc) {
        (v, -acc)
    } else {
        (0, 0)
    }
}

/// Magnitude of a velocity vector, rounded down.
pub open spec fn speed_of(vx: int, vy: int) -> int {
    floor_sqrt(vx * vx + vy * vy)
}

/// The correction applied to a fast axis when the speed exceeds the cap by
/// `excess`: `excess / sqrt(2)`, rounded down.
pub open spec fn shed(excess: int) -> int {
    floor_sqrt(excess * excess / 2)
}

/// One axis after the limiting pass: an axis beyond `0.7 * max` in either
/// direction is pulled back toward zero by `correction`; slower axes stay.
pub open spec fn limited_component(v: int, correction: int, max: int) -> int {
    if 10 * v > 7 * max {
        v - correction
    } else if 10 * v < -7 * max {
        v + correction
    } else {
        v
    }
}

/// `v` held within `[-limit, limit]`.
fn saturate(v: i128, limit: i128) -> (r: i128)
    requires
        limit >= 0,
    ensures
        r == clip(v as int, limit as int),
{
    if v > limit {
        limit
    } else if v < -limit {
        -limit
    } else {
        v
    }
}

/// Direction from the entity toward the point it faces, in micro-pixels.
///
/// The heading angle is `atan(dy / dx)`, plus a half turn when `dx < 0`.
#[derive(Clone, Copy, Debug, PartialEq, Eq, Structural)]
pub struct Heading {
    pub dx: i128,
    pub dy: i128,
}

impl Heading {
    /// Whether the heading takes the half-turn correction: the target lies
    /// strictly left of the entity.
    pub fn is_turned(&self) -> (r: bool)
        ensures
            r == (self.dx < 0),
    {
        self.dx < 0
    }
}

/// The steerable entity.
#[derive(Clone, Copy, Debug, PartialEq, Eq, Structural)]
pub struct Player {
    /// Position, in micro-pixels.
    pub x: i64,
    pub y: i64,
    /// Velocity, in milli-pixels per second.
    pub velocity_x: i64,
    pub velocity_y: i64,
    /// Speed measured at the last tick, in milli-pixels per second.
    pub velocity: u64,
    /// Current thrust per axis, in pixels per second squared.
    pub acc_x: i64,
    pub acc_y: i64,
    /// Thrust magnitude, in pixels per second squared.
    pub acc_value: i64,
    /// Speed cap, in milli-pixels per second.
    pub max_velocity: i64,
    pub is_accelerating_x: bool,
    pub is_accelerating_y: bool,
    pub rotation: Heading,
}

impl Player {
    /// The bounds within which the fixed-point state is kept.
    pub open spec fn wf(self) -> bool {
        &&& 0 <= self.acc_value <= ACCEL_LIMIT
        &&& 0 <= self.max_velocity <= VELOCITY_LIMIT
        &&& -POSITION_LIMIT <= self.x <= POSITION_LIMIT
        &&& -POSITION_LIMIT <= self.y <= POSITION_LIMIT
        &&& -VELOCITY_LIMIT <= self.velocity_x <= VELOCITY_LIMIT
        &&& -VELOCITY_LIMIT <= self.velocity_y <= VELOCITY_LIMIT
        &&& self.velocity <= 2 * VELOCITY_LIMIT
        &&& -self.acc_value <= self.acc_x <= self.acc_value
        &&& -self.acc_value <= self.acc_y <= self.acc_value
    }

    pub open spec fn thrust_left(self) -> Player {
        Player { acc_x: (-self.acc_value) as i64, is_accelerating_x: true, ..self }
    }

    pub open spec fn thrust_right(self) -> Player {
        Player { acc_x: self.acc_value, is_accelerating_x: true, ..self }
    }

    pub open spec fn thrust_up(self) -> Player {
        Player { acc_y: (-self.acc_value) as i64, is_accelerating_y: true, ..self }
    }

    pub open spec fn thrust_down(self) -> Player {
        Player { acc_y: self.acc_value, is_accelerating_y: true, ..self }
    }

    pub open spec fn released_x(self) -> Player {
        Player { acc_x: 0, is_accelerating_x: false, ..self }
    }

    pub open spec fn released_y(self) -> Player {
        Player { acc_y: 0, is_accelerating_y: false, ..self }
    }

    /// The friction decision on the horizontal axis.
    pub open spec fn stopping_x(self) -> Player {
        let (v, a) = friction(self.velocity_x as int, self.acc_x as int, self.acc_value as int);
        Player { velocity_x: v as i64, acc_x: a as i64, ..self }
    }

    /// The friction decision on the vertical axis.
    pub open spec fn stopping_y(self) -> Player {
        let (v, a) = friction(self.velocity_y as int, self.acc_y as int, self.acc_value as int);
        Player { velocity_y: v as i64, acc_y: a as i64, ..self }
    }

    /// Acceleration integrated over `dt` milliseconds into the velocity.
    pub open spec fn accelerated(self, dt: u32) -> Player {
        Player {
            velocity_x: clip(self.velocity_x + self.acc_x * dt, VELOCITY_LIMIT as int) as i64,
            velocity_y: clip(self.velocity_y + self.acc_y * dt, VELOCITY_LIMIT as int) as i64,
            ..self
        }
    }

    /// The speed recomputed from the velocity.
    pub open spec fn measured(self) -> Player {
        Player { velocity: speed_of(self.velocity_x as int, self.velocity_y as int) as u64, ..self }
    }

    /// The limiting pass, driven by the last measured speed.
    pub open spec fn limited(self) -> Player {
        if self.velocity > self.max_velocity {
            let c = shed(self.velocity - self.max_velocity);
            let m = self.max_velocity as int;
            Player {
                velocity_x: clip(
                    limited_component(self.velocity_x as int, c, m),
                    VELOCITY_LIMIT as int,
                ) as i64,
                velocity_y: clip(
                    limited_component(self.velocity_y as int, c, m),
                    VELOCITY_LIMIT as int,
                ) as i64,
                ..self
            }
        } else {
            self
        }
    }

    /// Velocity integrated over `dt` milliseconds into the position.
    pub open spec fn moved(self, dt: u32) -> Player {
        Player {
            x: clip(self.x + self.velocity_x * dt, POSITION_LIMIT as int) as i64,
            y: clip(self.y + self.velocity_y * dt, POSITION_LIMIT as int) as i64,
            ..self
        }
    }

    /// The heading turned toward `target`.
    pub open spec fn aimed_at(self, target: (i64, i64)) -> Player {
        Player {
            rotation: Heading {
                dx: (target.0 - self.x) as i128,
                dy: (target.1 - self.y) as i128,
            },
            ..self
        }
    }

    /// Friction on the axes without thrust, the friction pass.
    pub open spec fn braked(self) -> Player {
        let p = if self.is_accelerating_x {
            self
        } else {
            self.stopping_x()
        };
        if p.is_accelerating_y {
            p
        } else {
            p.stopping_y()
        }
    }

    /// One tick of `dt` milliseconds with the pointer at `cursor_pos`.
    pub open spec fn stepped(self, cursor_pos: (i64, i64), dt: u32) -> Player {
        self.braked().accelerated(dt).measured().limited().moved(dt).aimed_at(cursor_pos)
    }

    /// The footprint of the player meets the enemy's square: the projections
    /// on both axes intersect (coordinates doubled so that half a size is exact).
    pub open spec fn collides(self, enemy: Enemy) -> bool {
        let r = 2 * PLAYER_RADIUS;
        &&& 2 * self.x - r <= 2 * enemy.x + enemy.size
        &&& 2 * enemy.x - enemy.size <= 2 * self.x + r
        &&& 2 * self.y - r <= 2 * enemy.y + enemy.size
        &&& 2 * enemy.y - enemy.size <= 2 * self.y + r
    }

    /// A player at rest at `(x, y)`, facing along the positive x axis.
    pub fn new(x: i64, y: i64, acc_value: i64, max_velocity: i64) -> (r: Player)
        requires
            -POSITION_LIMIT <= x <= POSITION_LIMIT,
            -POSITION_LIMIT <= y <= POSITION_LIMIT,
            0 <= acc_value <= ACCEL_LIMIT,
            0 <= max_velocity <= VELOCITY_LIMIT,
        ensures
            r.wf(),
            r == (Player {
                x,
                y,
                velocity_x: 0,
                velocity_y: 0,
                velocity: 0,
                acc_x: 0,
                acc_y: 0,
                acc_value,
                max_velocity,
                is_accelerating_x: false,
                is_accelerating_y: false,
                rotation: Heading { dx: 1, dy: 0 },
            }),
    {
        Player {
            x,
            y,
            velocity_x: 0,
            velocity_y: 0,
            velocity: 0,
            acc_x: 0,
            acc_y: 0,
            acc_value,
            max_velocity,
            is_accelerating_x: false,
            is_accelerating_y: false,
            rotation: Heading { dx: 1, dy: 0 },
        }
    }
    /// One tick of `dt` milliseconds: friction on the axes without thrust,
    /// acceleration into velocity, speed measurement, the limiting pass,
    /// velocity into position, and the heading toward `cursor_pos`.
    pub fn update(&mut self, cursor_pos: (i64, i64), dt: u32)
        requires
            old(self).wf(),
        ensures
            final(self).wf(),
            *final(self) == old(self).stepped(cursor_pos, dt),
    {
        if !self.is_accelerating_x {
            self.stop_move_x();
        }
        if !self.is_accelerating_y {
            self.stop_move_y();
        }
        proof {
            lemma_mul_within(self.acc_x as int, dt as int, ACCEL_LIMIT as int, 0xffff_ffff);
            lemma_mul_within(self.acc_y as int, dt as int, ACCEL_LIMIT as int, 0xffff_ffff);
        }
        let vx = self.velocity_x as i128 + self.acc_x as i128 * dt as i128;
        let vy = self.velocity_y as i128 + self.acc_y as i128 * dt as i128;
        self.velocity_x = saturate(vx, VELOCITY_LIMIT as i128) as i64;
        self.velocity_y = saturate(vy, VELOCITY_LIMIT as i128) as i64;

        self.calculate_velocity();

        if self.velocity > self.max_velocity as u64 {
            self.reduce_velocity();
        }

        proof {
            lemma_mul_within(self.velocity_x as int, dt as int, VELOCITY_LIMIT as int, 0xffff_ffff);
            lemma_mul_within(self.velocity_y as int, dt as int, VELOCITY_LIMIT as int, 0xffff_ffff);
        }
        let x = self.x as i128 + self.velocity_x as i128 * dt as i128;
        let y = self.y as i128 + self.velocity_y as i128 * dt as i128;
        self.x = saturate(x, POSITION_LIMIT as i128) as i64;
        self.y = saturate(y, POSITION_LIMIT as i128) as i64;

        self.update_rotation(cursor_pos);
    }

    /// Turns the heading toward `cursor_pos`.
    pub fn update_rotation(&mut self, cursor_pos: (i64, i64))
        ensures
            *final(self) == old(self).aimed_at(cursor_pos),
    {
        let delta_x = cursor_pos.0 as i128 - self.x as i128;
        let delta_y = cursor_pos.1 as i128 - self.y as i128;
        self.rotation = Heading { dx: delta_x, dy: delta_y };
    }

    /// Recomputes the speed from the velocity.
    pub fn calculate_velocity(&mut self)
        requires
            old(self).wf(),
        ensures
            final(self).wf(),
            *final(self) == old(self).measured(),
    {
        let vx = self.velocity_x as i128;
        let vy = self.velocity_y as i128;
        proof {
            lemma_square_within(vx as int, VELOCITY_LIMIT as int);
            lemma_square_within(vy as int, VELOCITY_LIMIT as int);
        }
        let speed = isqrt((vx * vx + vy * vy) as u128);
        proof {
            assert(2 * VELOCITY_LIMIT * (2 * VELOCITY_LIMIT) >= 2 * (VELOCITY_LIMIT * VELOCITY_LIMIT));
            lemma_root_at_most((vx * vx + vy * vy) as int, speed as int, 2 * VELOCITY_LIMIT);
        }
        self.velocity = speed;
    }

    /// The limiting pass: when the measured speed exceeds the cap, each axis
    /// beyond `0.7 * max_velocity` is pulled back by `excess / sqrt(2)`.
    pub fn reduce_velocity(&mut self)
        requires
            old(self).wf(),
        ensures
            final(self).wf(),
            *final(self) == old(self).limited(),
    {
        if self.velocity > self.max_velocity as u64 {
            let excess: u64 = self.velocity - self.max_velocity as u64;
            proof {
                lemma_square_within(excess as int, 2 * VELOCITY_LIMIT);
            }
            let correction = isqrt(excess as u128 * excess as u128 / 2);
            proof {
                lemma_root_at_most((excess * excess / 2) as int, correction as int, excess as int);
            }
            let c = correction as i64;
            let threshold = 7 * self.max_velocity;

            let vx = self.velocity_x;
            let nx = if 10 * vx > threshold {
                vx - c
            } else if 10 * vx < -threshold {
                vx + c
            } else {
                vx
            };
            self.velocity_x = saturate(nx as i128, VELOCITY_LIMIT as i128) as i64;

            let vy = self.velocity_y;
            let ny = if 10 * vy > threshold {
                vy - c
            } else if 10 * vy < -threshold {
                vy + c
            } else {
                vy
            };
            self.velocity_y = saturate(ny as i128, VELOCITY_LIMIT as i128) as i64;
        }
    }

    /// The friction decision on the horizontal axis.
    pub fn stop_move_x(&mut self)
        requires
            old(self).wf(),
        ensures
            final(self).wf(),
            *final(self) == old(self).stopping_x(),
    {
        let band = 10 * self.acc_value;
        if self.velocity_x < -band {
            self.acc_x = self.acc_value;
        } else if self.velocity_x > band {
            self.acc_x = -self.acc_value;
        } else {
            self.velocity_x = 0;
            self.acc_x = 0;
        }
    }

    /// The friction decision on the vertical axis.
    pub fn stop_move_y(&mut self)
        requires
            old(self).wf(),
        ensures
            final(self).wf(),
            *final(self) == old(self).stopping_y(),
    {
        let band = 10 * self.acc_value;
        if self.velocity_y < -band {
            self.acc_y = self.acc_value;
        } else if self.velocity_y > band {
            self.acc_y = -self.acc_value;
        } else {
            self.velocity_y = 0;
            self.acc_y = 0;
        }
    }

    pub fn accelerate_left(&mut self)
        requires
            old(self).wf(),
        ensures
            final(self).wf(),
            *final(self) == old(self).thrust_left(),
    {
        self.acc_x = -self.acc_value;
        self.is_accelerating_x = true;
    }

    pub fn accelerate_up(&mut self)
        requires
            old(self).wf(),
        ensures
            final(self).wf(),
            *final(self) == old(self).thrust_up(),
    {
        self.acc_y = -self.acc_value;
        self.is_accelerating_y = true;
    }

    pub fn accelerate_right(&mut self)
        requires
            old(self).wf(),
        ensures
            final(self).wf(),
            *final(self) == old(self).thrust_right(),
    {
        self.acc_x = self.acc_value;
        self.is_accelerating_x = true;
    }

    pub fn accelerate_down(&mut self)
        requires
            old(self).wf(),
        ensures
            final(self).wf(),
            *final(self) == old(self).thrust_down(),
    {
        self.acc_y = self.acc_value;
        self.is_accelerating_y = true;
    }

    /// Ends horizontal thrust; the velocity is left to friction.
    pub fn break_x(&mut self)
        requires
            old(self).wf(),
        ensures
            final(self).wf(),
            *final(self) == old(self).released_x(),
    {
        self.is_accelerating_x = false;
        self.acc_x = 0;
    }

    /// Ends vertical thrust; the velocity is left to friction.
    pub fn break_y(&mut self)
        requires
            old(self).wf(),
        ensures
            final(self).wf(),
            *final(self) == old(self).released_y(),
    {
        self.is_accelerating_y = false;
        self.acc_y = 0;
    }

    /// Whether the player's footprint overlaps the enemy's square.
    pub fn is_collided(&self, enemy: &Enemy) -> (r: bool)
        ensures
            r == self.collides(*enemy),
    {
        let r = 2 * PLAYER_RADIUS as i128;
        let px = 2 * self.x as i128;
        let py = 2 * self.y as i128;
        let ex = 2 * enemy.x as i128;
        let ey = 2 * enemy.y as i128;
        let s = enemy.size as i128;
        px - r <= ex + s && ex - s <= px + r && py - r <= ey + s && ey - s <= py + r
    }
}

/// Squared magnitude of the player's velocity.
pub open spec fn speed_squared(p: Player) -> int {
    p.velocity_x * p.velocity_x + p.velocity_y * p.velocity_y
}

/// An entity without thrust whose velocity lies inside the rest band on both
/// axes is at rest after one tick: zero velocity and zero acceleration.
pub proof fn lemma_rest_band_stops(p: Player, cursor_pos: (i64, i64), dt: u32)
    requires
        p.wf(),
        !p.is_accelerating_x,
        !p.is_accelerating_y,
        -rest_band(p.acc_value as int) <= p.velocity_x <= rest_band(p.acc_value as int),
        -rest_band(p.acc_value as int) <= p.velocity_y <= rest_band(p.acc_value as int),
    ensures
        p.stepped(cursor_pos, dt).velocity_x == 0,
        p.stepped(cursor_pos, dt).velocity_y == 0,
        p.stepped(cursor_pos, dt).acc_x == 0,
        p.stepped(cursor_pos, dt).acc_y == 0,
{
    let q = p.braked();
    assert(q.velocity_x == 0 && q.velocity_y == 0 && q.acc_x == 0 && q.acc_y == 0);
    let r = q.accelerated(dt);
    assert(r.velocity_x == 0 && r.velocity_y == 0);
    assert(r.velocity_x as int * r.velocity_x as int + r.velocity_y as int * r.velocity_y as int
        == 0);
    lemma_floor_sqrt_is(0, 0);
    assert(r.measured().velocity == 0);
}

/// A tick whose integrated speed stays within the cap leaves the limiting
/// pass idle: the velocity is the integrated one, and the speed afterward is
/// its magnitude and within the cap.
pub proof fn lemma_within_cap_untouched(p: Player, cursor_pos: (i64, i64), dt: u32)
    requires
        p.wf(),
        p.braked().accelerated(dt).measured().velocity <= p.max_velocity,
    ensures
        p.stepped(cursor_pos, dt).velocity <= p.stepped(cursor_pos, dt).max_velocity,
        p.stepped(cursor_pos, dt).velocity_x == p.braked().accelerated(dt).velocity_x,
        p.stepped(cursor_pos, dt).velocity_y == p.braked().accelerated(dt).velocity_y,
        p.stepped(cursor_pos, dt).velocity == speed_of(
            p.stepped(cursor_pos, dt).velocity_x as int,
            p.stepped(cursor_pos, dt).velocity_y as int,
        ),
{
    let q = p.braked().accelerated(dt);
    let vx = q.velocity_x as int;
    let vy = q.velocity_y as int;
    lemma_square_within(vx, VELOCITY_LIMIT as int);
    lemma_square_within(vy, VELOCITY_LIMIT as int);
    lemma_floor_sqrt(vx * vx + vy * vy);
    lemma_root_at_most(vx * vx + vy * vy, speed_of(vx, vy), 2 * VELOCITY_LIMIT);
}

/// `clip` never moves a value away from zero.
proof fn lemma_clip_square(v: int, limit: int)
    requires
        0 <= limit,
    ensures
        clip(v, limit) * clip(v, limit) <= v * v,
{
    let w = clip(v, limit);
    assert(w * w <= v * v) by (nonlinear_arith)
        requires
            (0 <= w <= v) || (v <= w <= 0),
    ;
}

/// Pulling a component of magnitude `a` toward zero by `c`, with
/// `0 <= c <= 2a`, does not increase its square.
proof fn lemma_pull_square(a: int, c: int)
    requires
        0 <= c <= 2 * a,
    ensures
        (a - c) * (a - c) <= a * a,
{
    assert((a - c) * (a - c) <= a * a) by (nonlinear_arith)
        requires
            0 <= c <= 2 * a,
    ;
}

/// The limiting pass never makes the entity faster: applied right after the
/// speed is measured, the squared magnitude of the velocity does not grow.
pub proof fn lemma_limiting_never_speeds_up(p: Player)
    requires
        p.wf(),
        p.velocity == speed_of(p.velocity_x as int, p.velocity_y as int),
    ensures
        speed_squared(p.limited()) <= speed_squared(p),
{
    if p.velocity > p.max_velocity {
        let vx = p.velocity_x as int;
        let vy = p.velocity_y as int;
        let m = p.max_velocity as int;
        let n = vx * vx + vy * vy;
        let s = p.velocity as int;
        let e = s - m;
        let c = shed(e);
        let ax = if vx >= 0 { vx } else { -vx };
        let ay = if vy >= 0 { vy } else { -vy };
        assert(ax * ax == vx * vx && ay * ay == vy * vy) by (nonlinear_arith)
            requires
                ax == if vx >= 0 { vx } else { -vx },
                ay == if vy >= 0 { vy } else { -vy },
        ;
        assert(n >= 0) by (nonlinear_arith)
            requires
                n == vx * vx + vy * vy,
        ;
        lemma_floor_sqrt(n);
        let h = e * e / 2;
        assert(0 <= h <= e * e) by (nonlinear_arith)
            requires
                h == e * e / 2,
        ;
        lemma_floor_sqrt(h);
        lemma_root_at_most(h, c, e);
        assert(n <= (ax + ay) * (ax + ay)) by (nonlinear_arith)
            requires
                n == vx * vx + vy * vy,
                ax * ax == vx * vx,
                ay * ay == vy * vy,
                0 <= ax,
                0 <= ay,
        ;
        lemma_root_at_most(n, s, ax + ay);
        let fast_x = 10 * vx > 7 * m || 10 * vx < -7 * m;
        let fast_y = 10 * vy > 7 * m || 10 * vy < -7 * m;
        let wx = limited_component(vx, c, m);
        let wy = limited_component(vy, c, m);
        assert(wx * wx == if fast_x { (ax - c) * (ax - c) } else { vx * vx }) by (nonlinear_arith)
            requires
                wx == limited_component(vx, c, m),
                ax == if vx >= 0 { vx } else { -vx },
                fast_x == (10 * vx > 7 * m || 10 * vx < -7 * m),
                m >= 0,
        ;
        assert(wy * wy == if fast_y { (ay - c) * (ay - c) } else { vy * vy }) by (nonlinear_arith)
            requires
                wy == limited_component(vy, c, m),
                ay == if vy >= 0 { vy } else { -vy },
                fast_y == (10 * vy > 7 * m || 10 * vy < -7 * m),
                m >= 0,
        ;
        if fast_x && fast_y {
            assert((ax - c) * (ax - c) + (ay - c) * (ay - c) <= ax * ax + ay * ay)
                by (nonlinear_arith)
                requires
                    0 <= c <= ax + ay,
            ;
        } else if fast_x {
            lemma_pull_square(ax, c);
        } else if fast_y {
            lemma_pull_square(ay, c);
        }
        assert(wx * wx + wy * wy <= n);
        lemma_clip_square(wx, VELOCITY_LIMIT as int);
        lemma_clip_square(wy, VELOCITY_LIMIT as int);
    }
}

/// The heading points from the entity's new position toward the pointer, so
/// the half-turn correction applies exactly when the pointer lies left of it.
pub proof fn lemma_heading_half_plane(p: Player, cursor_pos: (i64, i64), dt: u32)
    requires
        p.wf(),
    ensures
        p.stepped(cursor_pos, dt).rotation.dx == cursor_pos.0 - p.stepped(cursor_pos, dt).x,
        p.stepped(cursor_pos, dt).rotation.dy == cursor_pos.1 - p.stepped(cursor_pos, dt).y,
        (p.stepped(cursor_pos, dt).rotation.dx < 0) == (cursor_pos.0 < p.stepped(
            cursor_pos,
            dt,
        ).x),
{
}

/// Thrust commands are idempotent: issuing one twice is issuing it once.
pub proof fn lemma_thrust_idempotent(p: Player)
    ensures
        p.thrust_right().thrust_right() == p.thrust_right(),
        p.thrust_left().thrust_left() == p.thrust_left(),
        p.thrust_up().thrust_up() == p.thrust_up(),
        p.thrust_down().thrust_down() == p.thrust_down(),
{
}

} // verus!

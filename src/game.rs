use vstd::prelude::*;

use crate::enemy::{Enemy, EnemyClass, EnemyState};
use crate::player::Player;

verus! {

/// The keys the coordinator reacts to; every other button is `Other`.
#[derive(Clone, Copy, Debug, PartialEq, Eq, Structural)]
pub enum Key {
    W,
    A,
    S,
    D,
    Other,
}

/// Owns the player, the enemy and the last pointer position (micro-pixels).
#[derive(Clone, Copy, Debug)]
pub struct App {
    pub player: Player,
    pub enemy: Enemy,
    pub cursor_pos: (i64, i64),
}

/// The player at the start: at (50, 50) pixels, thrust 2000 px/s², cap 200 px/s.
pub open spec fn initial_player() -> Player {
    Player {
        x: 50_000_000,
        y: 50_000_000,
        velocity_x: 0,
        velocity_y: 0,
        velocity: 0,
        acc_x: 0,
        acc_y: 0,
        acc_value: 2000,
        max_velocity: 200_000,
        is_accelerating_x: false,
        is_accelerating_y: false,
        rotation: crate::player::Heading { dx: 1, dy: 0 },
    }
}

/// The enemy at the start: a living 50-pixel square centred on (200, 300) pixels.
pub open spec fn initial_enemy() -> Enemy {
    Enemy {
        x: 200_000_000,
        y: 300_000_000,
        size: 50_000_000,
        class: EnemyClass::Square,
        state: EnemyState::Alive,
    }
}

impl App {
    pub open spec fn wf(self) -> bool {
        self.player.wf()
    }

    /// The player after a key goes down or up: W/S drive the vertical axis,
    /// A/D the horizontal one; other keys change nothing.
    pub open spec fn keyed(self, key: Key, is_press: bool) -> App {
        let p = self.player;
        let q = match (key, is_press) {
            (Key::W, true) => p.thrust_up(),
            (Key::S, true) => p.thrust_down(),
            (Key::A, true) => p.thrust_left(),
            (Key::D, true) => p.thrust_right(),
            (Key::W, false) | (Key::S, false) => p.released_y(),
            (Key::A, false) | (Key::D, false) => p.released_x(),
            _ => p,
        };
        App { player: q, ..self }
    }

    /// The pointer moved to `pos`: it is recorded and the player faces it.
    pub open spec fn pointed(self, pos: (i64, i64)) -> App {
        App { player: self.player.aimed_at(pos), cursor_pos: pos, ..self }
    }

    /// One tick: the player moves, then a living enemy that it touches dies.
    pub open spec fn ticked(self, dt: u32) -> App {
        let p = self.player.stepped(self.cursor_pos, dt);
        let e = if self.enemy.state == EnemyState::Alive && p.collides(self.enemy) {
            Enemy { state: EnemyState::Dead, ..self.enemy }
        } else {
            self.enemy
        };
        App { player: p, enemy: e, ..self }
    }

    pub fn new() -> (r: App)
        ensures
            r.wf(),
            r.player == initial_player(),
            r.enemy == initial_enemy(),
            r.cursor_pos == (0i64, 0i64),
    {
        let player = Player::new(50_000_000, 50_000_000, 2000, 200_000);
        let enemy = Enemy {
            x: 200_000_000,
            y: 300_000_000,
            size: 50_000_000,
            class: EnemyClass::Square,
            state: EnemyState::Alive,
        };
        App { player, enemy, cursor_pos: (0, 0) }
    }

    /// Records the pointer position and turns the player toward it at once.
    pub fn cursor_move(&mut self, pos: (i64, i64))
        requires
            old(self).wf(),
        ensures
            final(self).wf(),
            *final(self) == old(self).pointed(pos),
    {
        self.cursor_pos = pos;
        self.player.update_rotation(pos);
    }

    /// A key went down (`is_press`) or up.
    pub fn input(&mut self, key: Key, is_press: bool)
        requires
            old(self).wf(),
        ensures
            final(self).wf(),
            *final(self) == old(self).keyed(key, is_press),
    {
        match (key, is_press) {
            (Key::W, true) => self.player.accelerate_up(),
            (Key::S, true) => self.player.accelerate_down(),
            (Key::A, true) => self.player.accelerate_left(),
            (Key::D, true) => self.player.accelerate_right(),
            (Key::W, false) | (Key::S, false) => self.player.break_y(),
            (Key::A, false) | (Key::D, false) => self.player.break_x(),
            _ => {},
        }
    }

    /// One tick of `dt` milliseconds.
    pub fn update(&mut self, dt: u32)
        requires
            old(self).wf(),
        ensures
            final(self).wf(),
            *final(self) == old(self).ticked(dt),
            old(self).enemy.state == EnemyState::Dead ==> final(self).enemy.state
                == EnemyState::Dead,
    {
        self.player.update(self.cursor_pos, dt);
        if self.enemy.state == EnemyState::Alive && self.player.is_collided(&self.enemy) {
            self.enemy.state = EnemyState::Dead;
        }
    }
}

/// Once the enemy is dead it stays dead: no tick, key or pointer move can
/// bring it back.
pub proof fn lemma_dead_stays_dead(
    app: App,
    dt: u32,
    key: Key,
    is_press: bool,
    pos: (i64, i64),
)
    requires
        app.enemy.state == EnemyState::Dead,
    ensures
        app.ticked(dt).enemy.state == EnemyState::Dead,
        app.keyed(key, is_press).enemy == app.enemy,
        app.pointed(pos).enemy == app.enemy,
{
}

} // verus!

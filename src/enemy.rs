use vstd::prelude::*;

verus! {

/// Display tag of an enemy; it has no effect on behaviour.
#[derive(Clone, Copy, Debug, PartialEq, Eq, Structural)]
pub enum EnemyClass {
    Circle,
    Square,
}

#[derive(Clone, Copy, Debug, PartialEq, Eq, Structural)]
pub enum EnemyState {
    Alive,
    Dead,
}

/// The stationary target: a square of side `size` centred on `(x, y)`,
/// all in micro-pixels.
#[derive(Clone, Copy, Debug, PartialEq, Eq, Structural)]
pub struct Enemy {
    pub x: i64,
    pub y: i64,
    pub size: u64,
    pub class: EnemyClass,
    pub state: EnemyState,
}

impl Enemy {
    /// Enemies have no physics of their own: a tick leaves them as they are.
    pub fn update() {
    }

    /// Whether the enemy is drawn: only a living enemy is.
    pub fn is_visible(&self) -> (r: bool)
        ensures
            r == (self.state == EnemyState::Alive),
    {
        self.state == EnemyState::Alive
    }
}

} // verus!

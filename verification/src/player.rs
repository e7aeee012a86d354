use crate::timer::OnceTimer;
use vstd::prelude::*;

verus! {

/// Hit points a player starts a session with.
pub const PLAYER_START_HEALTH: i32 = 5;

/// Time between two shots: 0.3 s as `Duration::from_secs_f32` reads the `f32` value 0.3.
pub const PLAYER_FIRE_RATE_NS: u64 = 300_000_012;

/// Length of the invincibility window after a hit: 1 s.
pub const PLAYER_INVINCIBILITY_NS: u64 = 1_000_000_000;

/// Length of the squash animation after a shot: 0.18 s as `Duration::from_secs_f32`
/// reads the `f32` value 0.18.
pub const PLAYER_SHOOT_SQUASH_NS: u64 = 180_000_007;

/// How long a bullet lives: 1.5 s.
pub const BULLET_LIFETIME_NS: u64 = 1_500_000_000;

/// Marks the player entity.
#[derive(Clone, Copy, Debug)]
pub struct Player;

/// The player's remaining hit points.
#[derive(Clone, Copy, Debug, PartialEq, Eq, Structural)]
pub struct Health(pub i32);

/// A direction on the grid of the eight compass points and the origin, as read from
/// held keys: each coordinate is -1, 0 or 1 (x to the right, y upwards).
#[derive(Clone, Copy, Debug, PartialEq, Eq, Structural)]
pub struct GridDirection {
    pub x: i8,
    pub y: i8,
}

impl GridDirection {
    pub open spec fn is_zero_spec(&self) -> bool {
        self.x == 0 && self.y == 0
    }

    pub fn zero() -> (d: GridDirection)
        ensures
            d.x == 0 && d.y == 0,
    {
        GridDirection { x: 0, y: 0 }
    }

    #[verifier::when_used_as_spec(is_zero_spec)]
    pub fn is_zero(&self) -> (r: bool)
        ensures
            r == self.is_zero_spec(),
            r <==> (self.x == 0 && self.y == 0),
    {
        self.x == 0 && self.y == 0
    }
}

/// A direction is the zero direction exactly when both of its coordinates are 0: every
/// other direction, such as each of the four arrow directions, is an aim.
pub proof fn law_zero_direction_is_origin(d: GridDirection)
    ensures
        d.is_zero_spec() <==> (d.x == 0 && d.y == 0),
        (d.x != 0 || d.y != 0) ==> !d.is_zero_spec(),
{
}

/// Holding any arrow key gives an aim, one step along a single axis.
pub proof fn law_arrow_keys_aim(left: bool, right: bool, up: bool, down: bool, d: GridDirection)
    requires
        d == (if left {
            GridDirection { x: -1i8, y: 0 }
        } else if right {
            GridDirection { x: 1, y: 0 }
        } else if up {
            GridDirection { x: 0, y: 1 }
        } else if down {
            GridDirection { x: 0, y: -1i8 }
        } else {
            GridDirection { x: 0, y: 0 }
        }),
    ensures
        (left || right || up || down) <==> !d.is_zero_spec(),
        (left || right || up || down) ==> (d.x == 0) != (d.y == 0),
        -1 <= d.x <= 1 && -1 <= d.y <= 1,
{
}

/// The aim read from the arrow keys. Only one key counts, in the order left, right,
/// up, down; with none of them held there is no aim.
pub fn shooting_input_direction(left: bool, right: bool, up: bool, down: bool) -> (d: GridDirection)
    ensures
        d == (if left {
            GridDirection { x: -1i8, y: 0 }
        } else if right {
            GridDirection { x: 1, y: 0 }
        } else if up {
            GridDirection { x: 0, y: 1 }
        } else if down {
            GridDirection { x: 0, y: -1i8 }
        } else {
            GridDirection { x: 0, y: 0 }
        }),
{
    if left {
        GridDirection { x: -1, y: 0 }
    } else if right {
        GridDirection { x: 1, y: 0 }
    } else if up {
        GridDirection { x: 0, y: 1 }
    } else if down {
        GridDirection { x: 0, y: -1 }
    } else {
        GridDirection::zero()
    }
}

/// The movement read from the WASD keys before it is scaled to unit length: every held
/// key adds its unit step, so opposite keys cancel.
pub fn movement_input_axes(left: bool, right: bool, up: bool, down: bool) -> (d: GridDirection)
    ensures
        d.x == (if right { 1int } else { 0 }) - (if left { 1int } else { 0 }),
        d.y == (if up { 1int } else { 0 }) - (if down { 1int } else { 0 }),
{
    let mut x: i8 = 0;
    let mut y: i8 = 0;
    if left {
        x = x - 1;
    }
    if right {
        x = x + 1;
    }
    if up {
        y = y + 1;
    }
    if down {
        y = y - 1;
    }
    GridDirection { x, y }
}

/// The window after a hit during which the player takes no damage.
pub struct Invincibility {
    timer: OnceTimer,
}

impl Invincibility {
    pub closed spec fn clock(&self) -> OnceTimer {
        self.timer
    }

    pub open spec fn active(&self) -> bool {
        !self.clock().finished()
    }

    /// Advances the window by `delta_ns` nanoseconds.
    pub fn tick(&mut self, delta_ns: u64)
        ensures
            final(self).clock().is_tick_of(old(self).clock(), delta_ns as nat),
    {
        self.timer.tick(delta_ns);
    }

    /// Opens a new window from its start.
    pub fn start(&mut self)
        ensures
            final(self).clock().is_reset_of(old(self).clock()),
    {
        self.timer.reset();
    }

    /// The window's clock, from which its blinking is drawn.
    pub fn timer(&self) -> (t: &OnceTimer)
        ensures
            *t == self.clock(),
    {
        &self.timer
    }

    /// Whether the window is still open.
    pub fn is_active(&self) -> (r: bool)
        ensures
            r == self.active(),
    {
        !self.timer.is_finished()
    }
}

impl Default for Invincibility {
    /// A window of the full length that is already closed: a window only opens after
    /// the player takes damage, so a fresh player can be hit.
    fn default() -> (inv: Invincibility)
        ensures
            inv.clock().duration() == PLAYER_INVINCIBILITY_NS,
            inv.clock().elapsed() == PLAYER_INVINCIBILITY_NS,
            inv.clock().finished(),
            !inv.clock().finished_last_tick(),
            !inv.active(),
    {
        Invincibility { timer: OnceTimer::new_finished(PLAYER_INVINCIBILITY_NS) }
    }
}

/// The player's gun and its cooldown between shots.
pub struct Weapon {
    cooldown: OnceTimer,
}

impl Weapon {
    pub closed spec fn clock(&self) -> OnceTimer {
        self.cooldown
    }

    /// A weapon whose cooldown has already run out: it can fire after its first tick.
    pub fn new(fire_rate_ns: u64) -> (w: Weapon)
        ensures
            w.clock().duration() == fire_rate_ns,
            w.clock().elapsed() == fire_rate_ns,
            !w.clock().finished(),
            !w.clock().finished_last_tick(),
    {
        Weapon { cooldown: OnceTimer::new_elapsed(fire_rate_ns) }
    }

    pub fn tick(&mut self, delta_ns: u64)
        ensures
            final(self).clock().is_tick_of(old(self).clock(), delta_ns as nat),
    {
        self.cooldown.tick(delta_ns);
    }

    /// The cooldown has run out.
    pub fn can_fire(&self) -> (r: bool)
        ensures
            r == self.clock().finished(),
    {
        self.cooldown.is_finished()
    }

    /// Starts the cooldown after a shot.
    pub fn trigger(&mut self)
        ensures
            final(self).clock().is_reset_of(old(self).clock()),
    {
        self.cooldown.reset();
    }
}

/// The squash-and-stretch animation played after each shot.
pub struct ShootSquash {
    timer: OnceTimer,
}

impl ShootSquash {
    pub closed spec fn clock(&self) -> OnceTimer {
        self.timer
    }

    /// An animation that has already played out.
    pub fn new() -> (s: ShootSquash)
        ensures
            s.clock().duration() == PLAYER_SHOOT_SQUASH_NS,
            s.clock().elapsed() == PLAYER_SHOOT_SQUASH_NS,
            !s.clock().finished(),
            !s.clock().finished_last_tick(),
    {
        ShootSquash { timer: OnceTimer::new_elapsed(PLAYER_SHOOT_SQUASH_NS) }
    }

    /// Plays the animation again from its start.
    pub fn restart(&mut self)
        ensures
            final(self).clock().is_reset_of(old(self).clock()),
    {
        self.timer.reset();
    }

    pub fn tick(&mut self, delta_ns: u64)
        ensures
            final(self).clock().is_tick_of(old(self).clock(), delta_ns as nat),
    {
        self.timer.tick(delta_ns);
    }

    /// The animation's clock, from which its progress is drawn.
    pub fn timer(&self) -> (t: &OnceTimer)
        ensures
            *t == self.clock(),
    {
        &self.timer
    }
}

/// What a freshly spawned player carries besides its looks and its body.
pub struct PlayerBundle {
    pub health: Health,
    pub weapon: Weapon,
    pub invincibility: Invincibility,
    pub shoot_squash: ShootSquash,
}

impl PlayerBundle {
    /// Full health, a weapon ready after its first tick, a closed invincibility window,
    /// and no squash animation playing.
    pub fn new() -> (b: PlayerBundle)
        ensures
            b.health.0 == PLAYER_START_HEALTH,
            b.weapon.clock().duration() == PLAYER_FIRE_RATE_NS,
            b.weapon.clock().elapsed() == PLAYER_FIRE_RATE_NS,
            !b.weapon.clock().finished(),
            !b.weapon.clock().finished_last_tick(),
            b.invincibility.clock().duration() == PLAYER_INVINCIBILITY_NS,
            b.invincibility.clock().elapsed() == PLAYER_INVINCIBILITY_NS,
            b.invincibility.clock().finished(),
            !b.invincibility.active(),
            !b.invincibility.clock().finished_last_tick(),
            b.shoot_squash.clock().duration() == PLAYER_SHOOT_SQUASH_NS,
            b.shoot_squash.clock().elapsed() == PLAYER_SHOOT_SQUASH_NS,
            !b.shoot_squash.clock().finished(),
            !b.shoot_squash.clock().finished_last_tick(),
    {
        PlayerBundle {
            health: Health(PLAYER_START_HEALTH),
            weapon: Weapon::new(PLAYER_FIRE_RATE_NS),
            invincibility: Invincibility::default(),
            shoot_squash: ShootSquash::new(),
        }
    }
}

/// One fixed step of the shooting system for one player: the cooldown advances by
/// `delta_ns`; then, when the player aims and the cooldown has run out, a shot is
/// fired, which restarts both the cooldown and the squash animation.
/// Returns whether a shot was fired.
pub fn shoot_step(weapon: &mut Weapon, shoot_squash: &mut ShootSquash, delta_ns: u64, aim: GridDirection) -> (fired: bool)
    ensures
        ({
            let t = crate::timer::once_tick(
                old(weapon).clock().duration(),
                old(weapon).clock().elapsed(),
                old(weapon).clock().finished(),
                delta_ns as nat,
            );
            &&& fired == (!aim.is_zero() && t.1)
            &&& fired == ((aim.x != 0 || aim.y != 0) && t.1)
        }),
        fired ==> final(weapon).clock().is_reset_of(old(weapon).clock()),
        fired ==> final(shoot_squash).clock().is_reset_of(old(shoot_squash).clock()),
        !fired ==> final(weapon).clock().is_tick_of(old(weapon).clock(), delta_ns as nat),
        !fired ==> *final(shoot_squash) == *old(shoot_squash),
{
    weapon.tick(delta_ns);
    if !aim.is_zero() && weapon.can_fire() {
        shoot_squash.restart();
        weapon.trigger();
        true
    } else {
        false
    }
}

} // verus!

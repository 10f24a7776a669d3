use vstd::prelude::*;
use crate::MAX_COORD;
use crate::NUMBER_OF_ENEMIES;
use crate::PLAYER_SIZE;
use crate::PLAYER_SPEED;
use crate::geometry::Arena;
use crate::geometry::Bounds;
use crate::geometry::Position;
use crate::geometry::confine;
use crate::geometry::confine_spec;
use crate::movement::KeyState;
use crate::movement::MAX_DT;
use crate::movement::player_move_spec;
use crate::enemy::enemy_move_spec;
use crate::enemy::enemy_movement_random;
use crate::enemy::enemy_movement_step;
use vstd::arithmetic::div_mod::lemma_div_pos_is_pos;
use vstd::arithmetic::div_mod::lemma_multiply_divide_lt;

verus! {

/// The player entity: exactly one exists, created at startup.
#[derive(Clone, Copy, PartialEq, Eq, Structural, Debug)]
pub struct Player {
    pub position: Position,
}

/// An enemy entity: a fixed set is created at startup.
#[derive(Clone, Copy, PartialEq, Eq, Structural, Debug)]
pub struct Enemy {
    pub position: Position,
}

/// The simulation world: the arena, the one player and the fixed set of
/// enemies. An explicit per-tick driver runs the systems over it in the
/// documented order.
#[derive(Debug)]
pub struct World {
    pub arena: Arena,
    pub player: Player,
    pub enemies: Vec<Enemy>,
}

/// `p_new` is one frame of tweened enemy motion from `p_old` under some
/// uniform draw.
pub open spec fn moved_by_some_roll(p_old: Position, p_new: Position, dt_ms: i64) -> bool {
    exists|roll: u32| p_new == enemy_move_spec(p_old, roll, dt_ms)
}

/// `p_new` is one frame of tweened enemy motion from `p_old` under some
/// uniform draw, clamped into the bounds `b`.
pub open spec fn confined_move_by_some_roll(
    p_old: Position,
    p_new: Position,
    dt_ms: i64,
    b: Bounds,
) -> bool {
    exists|roll: u32| p_new == confine_spec(enemy_move_spec(p_old, roll, dt_ms), b)
}

impl World {
    /// The arena is well formed and large enough for the sprite extent.
    pub open spec fn geometry_ok(self) -> bool {
        &&& self.arena.well_formed()
        &&& PLAYER_SIZE <= self.arena.width
        &&& PLAYER_SIZE <= self.arena.height
    }

    /// The rectangle every entity's centre must end the frame in.
    pub open spec fn bounds_spec(self) -> Bounds {
        self.arena.bounds_spec(PLAYER_SIZE)
    }

    pub open spec fn player_in_range(self) -> bool {
        self.player.position.in_range()
    }

    pub open spec fn enemies_in_range(self) -> bool {
        forall|i: int|
            0 <= i < self.enemies@.len() ==> (#[trigger] self.enemies@[i]).position.in_range()
    }

    /// Every entity's coordinates are small enough for one frame of
    /// movement arithmetic.
    pub open spec fn coords_ok(self) -> bool {
        self.player_in_range() && self.enemies_in_range()
    }

    /// The frame invariant: every entity's centre lies within the arena
    /// bounds. The confinement system establishes it every frame.
    pub open spec fn all_confined(self) -> bool {
        &&& self.bounds_spec().contains(self.player.position)
        &&& forall|i: int|
            0 <= i < self.enemies@.len() ==> self.bounds_spec().contains(
                (#[trigger] self.enemies@[i]).position,
            )
    }

    /// The movement system: apply one frame of key-driven, time-scaled
    /// velocity to the player.
    pub fn player_movement(&mut self, keys: &KeyState, dt_ms: i64)
        requires
            old(self).player_in_range(),
            0 <= dt_ms <= MAX_DT,
        ensures
            final(self).arena == old(self).arena,
            final(self).enemies == old(self).enemies,
            final(self).player.position == player_move_spec(
                old(self).player.position,
                *keys,
                PLAYER_SPEED,
                dt_ms,
            ),
    {
        let p = crate::movement::player_movement(self.player.position, keys, PLAYER_SPEED, dt_ms);
        self.player = Player { position: p };
    }

    /// The confinement system for the player: clamp its centre into the
    /// arena bounds.
    pub fn confine_player_movement(&mut self)
        requires
            old(self).geometry_ok(),
        ensures
            final(self).arena == old(self).arena,
            final(self).enemies == old(self).enemies,
            final(self).player.position == confine_spec(
                old(self).player.position,
                old(self).bounds_spec(),
            ),
            final(self).bounds_spec().contains(final(self).player.position),
            final(self).player_in_range(),
    {
        let b = self.arena.bounds(PLAYER_SIZE);
        let p = confine(self.player.position, &b);
        self.player = Player { position: p };
    }

    /// The enemy motion system with the frame's uniform draws handed in:
    /// each enemy takes one frame of tweened motion under its own roll.
    #[verifier::loop_isolation(false)]
    pub fn enemy_movement_with_rolls(&mut self, dt_ms: i64, rolls: &Vec<u32>)
        requires
            old(self).enemies_in_range(),
            rolls@.len() == old(self).enemies@.len(),
        ensures
            final(self).arena == old(self).arena,
            final(self).player == old(self).player,
            final(self).enemies@.len() == old(self).enemies@.len(),
            forall|i: int|
                0 <= i < old(self).enemies@.len() ==> (#[trigger] final(self).enemies@[i]).position
                    == enemy_move_spec(old(self).enemies@[i].position, rolls@[i], dt_ms),
    {
        let n = self.enemies.len();
        let mut moved: Vec<Enemy> = Vec::new();
        let mut i: usize = 0;
        while i < n
            invariant
                i <= n,
                moved@.len() == i as int,
                forall|j: int|
                    0 <= j < i as int ==> (#[trigger] moved@[j]).position == enemy_move_spec(
                        self.enemies@[j].position,
                        rolls@[j],
                        dt_ms,
                    ),
            decreases n - i,
        {
            let p = enemy_movement_step(self.enemies[i].position, rolls[i], dt_ms);
            moved.push(Enemy { position: p });
            i += 1;
        }
        self.enemies = moved;
    }

    /// The enemy motion system as the frame driver runs it: one uniform
    /// value is drawn fresh per enemy, so each enemy ends the frame one
    /// tweened step along some rolled direction.
    #[verifier::loop_isolation(false)]
    pub fn enemy_movement(&mut self, dt_ms: i64)
        requires
            old(self).enemies_in_range(),
        ensures
            final(self).arena == old(self).arena,
            final(self).player == old(self).player,
            final(self).enemies@.len() == old(self).enemies@.len(),
            forall|i: int|
                0 <= i < old(self).enemies@.len() ==> moved_by_some_roll(
                    old(self).enemies@[i].position,
                    (#[trigger] final(self).enemies@[i]).position,
                    dt_ms,
                ),
    {
        let n = self.enemies.len();
        let mut moved: Vec<Enemy> = Vec::new();
        let mut i: usize = 0;
        while i < n
            invariant
                i <= n,
                moved@.len() == i as int,
                forall|j: int|
                    0 <= j < i as int ==> moved_by_some_roll(
                        self.enemies@[j].position,
                        (#[trigger] moved@[j]).position,
                        dt_ms,
                    ),
            decreases n - i,
        {
            let p = enemy_movement_random(self.enemies[i].position, dt_ms);
            moved.push(Enemy { position: p });
            proof {
                assert(moved_by_some_roll(
                    self.enemies@[i as int].position,
                    moved@[i as int].position,
                    dt_ms,
                )) by {
                    let roll = choose|roll: u32|
                        p == enemy_move_spec(self.enemies@[i as int].position, roll, dt_ms);
                    assert(moved@[i as int].position == enemy_move_spec(
                        self.enemies@[i as int].position,
                        roll,
                        dt_ms,
                    ));
                }
            }
            i += 1;
        }
        self.enemies = moved;
    }

    /// The confinement system for the enemies: clamp every enemy's centre
    /// into the arena bounds.
    #[verifier::loop_isolation(false)]
    pub fn confine_enemy_movement(&mut self)
        requires
            old(self).geometry_ok(),
        ensures
            final(self).arena == old(self).arena,
            final(self).player == old(self).player,
            final(self).enemies@.len() == old(self).enemies@.len(),
            forall|i: int|
                0 <= i < old(self).enemies@.len() ==> (#[trigger] final(self).enemies@[i]).position
                    == confine_spec(old(self).enemies@[i].position, old(self).bounds_spec()),
            forall|i: int|
                0 <= i < final(self).enemies@.len() ==> final(self).bounds_spec().contains(
                    (#[trigger] final(self).enemies@[i]).position,
                ),
            final(self).enemies_in_range(),
    {
        let b = self.arena.bounds(PLAYER_SIZE);
        let n = self.enemies.len();
        let mut confined: Vec<Enemy> = Vec::new();
        let mut i: usize = 0;
        while i < n
            invariant
                i <= n,
                confined@.len() == i as int,
                forall|j: int|
                    0 <= j < i as int ==> (#[trigger] confined@[j]).position == confine_spec(
                        self.enemies@[j].position,
                        self.bounds_spec(),
                    ),
            decreases n - i,
        {
            let p = confine(self.enemies[i].position, &b);
            confined.push(Enemy { position: p });
            i += 1;
        }
        self.enemies = confined;
        proof {
            assert forall|i: int|
                0 <= i < final(self).enemies@.len() implies final(self).bounds_spec().contains(
                (#[trigger] final(self).enemies@[i]).position,
            ) by {
                lemma_confined_in_bounds_in_range(
                    old(self).arena,
                    final(self).enemies@[i].position,
                );
            }
            assert forall|i: int|
                0 <= i < final(self).enemies@.len() implies (
            #[trigger] final(self).enemies@[i]).position.in_range() by {
                lemma_confined_in_bounds_in_range(
                    old(self).arena,
                    final(self).enemies@[i].position,
                );
            }
        }
    }

    /// One frame of the simulation, systems in the documented order:
    /// movement then confinement for the player, tweened motion then
    /// confinement for each enemy. `rolls` hands in the frame's uniform
    /// draws, one per enemy, so a driver can inject a seeded generator.
    /// Afterward every entity lies within the arena bounds.
    pub fn tick(&mut self, keys: &KeyState, dt_ms: i64, rolls: &Vec<u32>)
        requires
            old(self).geometry_ok(),
            old(self).coords_ok(),
            0 <= dt_ms <= MAX_DT,
            rolls@.len() == old(self).enemies@.len(),
        ensures
            final(self).arena == old(self).arena,
            final(self).enemies@.len() == old(self).enemies@.len(),
            final(self).player.position == confine_spec(
                player_move_spec(old(self).player.position, *keys, PLAYER_SPEED, dt_ms),
                old(self).bounds_spec(),
            ),
            forall|i: int|
                0 <= i < old(self).enemies@.len() ==> (#[trigger] final(self).enemies@[i]).position
                    == confine_spec(
                    enemy_move_spec(old(self).enemies@[i].position, rolls@[i], dt_ms),
                    old(self).bounds_spec(),
                ),
            final(self).all_confined(),
            final(self).geometry_ok(),
            final(self).coords_ok(),
    {
        self.player_movement(keys, dt_ms);
        self.confine_player_movement();
        self.enemy_movement_with_rolls(dt_ms, rolls);
        self.confine_enemy_movement();
        proof {
            lemma_confined_in_bounds_in_range(old(self).arena, final(self).player.position);
        }
    }

    /// One frame of the simulation with the uniform draws taken fresh from
    /// the process-wide generator, as the frame driver runs it.
    pub fn tick_random(&mut self, keys: &KeyState, dt_ms: i64)
        requires
            old(self).geometry_ok(),
            old(self).coords_ok(),
            0 <= dt_ms <= MAX_DT,
        ensures
            final(self).arena == old(self).arena,
            final(self).enemies@.len() == old(self).enemies@.len(),
            final(self).player.position == confine_spec(
                player_move_spec(old(self).player.position, *keys, PLAYER_SPEED, dt_ms),
                old(self).bounds_spec(),
            ),
            forall|i: int|
                0 <= i < old(self).enemies@.len() ==> confined_move_by_some_roll(
                    old(self).enemies@[i].position,
                    (#[trigger] final(self).enemies@[i]).position,
                    dt_ms,
                    old(self).bounds_spec(),
                ),
            final(self).all_confined(),
            final(self).geometry_ok(),
            final(self).coords_ok(),
    {
        self.player_movement(keys, dt_ms);
        self.confine_player_movement();
        let ghost before_motion = *self;
        self.enemy_movement(dt_ms);
        let ghost after_motion = *self;
        self.confine_enemy_movement();
        proof {
            lemma_confined_in_bounds_in_range(old(self).arena, final(self).player.position);
            assert forall|i: int| 0 <= i < old(self).enemies@.len() implies confined_move_by_some_roll(
                old(self).enemies@[i].position,
                (#[trigger] final(self).enemies@[i]).position,
                dt_ms,
                old(self).bounds_spec(),
            ) by {
                assert(moved_by_some_roll(
                    before_motion.enemies@[i].position,
                    after_motion.enemies@[i].position,
                    dt_ms,
                ));
                let roll = choose|roll: u32|
                    after_motion.enemies@[i].position == enemy_move_spec(
                        before_motion.enemies@[i].position,
                        roll,
                        dt_ms,
                    );
                assert(final(self).enemies@[i].position == confine_spec(
                    enemy_move_spec(old(self).enemies@[i].position, roll, dt_ms),
                    old(self).bounds_spec(),
                ));
            }
        }
    }
}

/// A position inside the bounds rectangle of a well-formed arena also lies
/// within the machine coordinate range.
proof fn lemma_confined_in_bounds_in_range(a: Arena, p: Position)
    requires
        a.well_formed(),
        PLAYER_SIZE <= a.width,
        PLAYER_SIZE <= a.height,
        a.bounds_spec(PLAYER_SIZE).contains(p),
    ensures
        p.in_range(),
{
}

/// Startup: the player spawns at the centre of the arena.
pub fn spawn_player(arena: &Arena) -> (p: Player)
    requires
        arena.well_formed(),
    ensures
        p.position.x == arena.width / 2,
        p.position.y == arena.height / 2,
        p.position.in_range(),
{
    Player { position: arena.center() }
}

/// Where a spawned enemy starts: the fractions rx / 2^32 and ry / 2^32 of
/// the arena's width and height.
pub open spec fn spawn_position_spec(arena: Arena, rx: u32, ry: u32) -> Position {
    Position {
        x: ((rx as int * arena.width as int) / 0x1_0000_0000) as i64,
        y: ((ry as int * arena.height as int) / 0x1_0000_0000) as i64,
    }
}

/// Scale a uniform draw to a coordinate in [0, extent): the fraction
/// roll / 2^32 of the extent, rounded down.
fn scale_to_extent(roll: u32, extent: i64) -> (v: i64)
    requires
        0 < extent <= MAX_COORD,
    ensures
        v == (roll as int * extent as int) / 0x1_0000_0000,
        0 <= v < extent,
{
    proof {
        let ghost r: int = roll as int;
        let ghost e: int = extent as int;
        let ghost base: int = 0x1_0000_0000;
        assert(0 <= r * e <= (base - 1) * MAX_COORD && r * e < base * e) by (nonlinear_arith)
            requires
                0 <= r < base,
                0 < e <= MAX_COORD,
        {
        }
        lemma_div_pos_is_pos(r * e, base);
        lemma_multiply_divide_lt(r * e, base, e);
    }
    let prod: u64 = (roll as u64) * (extent as u64);
    (prod / 0x1_0000_0000u64) as i64
}

/// Startup: one enemy per pair of uniform draws, placed at the drawn
/// fraction of the arena's width and height.
#[verifier::loop_isolation(false)]
pub fn spawn_enemies_with_rolls(arena: &Arena, rolls: &Vec<(u32, u32)>) -> (es: Vec<Enemy>)
    requires
        arena.well_formed(),
    ensures
        es@.len() == rolls@.len(),
        forall|i: int|
            0 <= i < es@.len() ==> (#[trigger] es@[i]).position == spawn_position_spec(
                *arena,
                rolls@[i].0,
                rolls@[i].1,
            ),
        forall|i: int|
            0 <= i < es@.len() ==> 0 <= (#[trigger] es@[i]).position.x < arena.width
                && 0 <= es@[i].position.y < arena.height,
{
    let n = rolls.len();
    let mut es: Vec<Enemy> = Vec::new();
    let mut i: usize = 0;
    while i < n
        invariant
            i <= n,
            es@.len() == i as int,
            forall|j: int|
                0 <= j < i as int ==> (#[trigger] es@[j]).position == spawn_position_spec(
                    *arena,
                    rolls@[j].0,
                    rolls@[j].1,
                ),
            forall|j: int|
                0 <= j < i as int ==> 0 <= (#[trigger] es@[j]).position.x < arena.width
                    && 0 <= es@[j].position.y < arena.height,
        decreases n - i,
    {
        let (rx, ry) = rolls[i];
        let x = scale_to_extent(rx, arena.width);
        let y = scale_to_extent(ry, arena.height);
        es.push(Enemy { position: Position { x, y } });
        i += 1;
    }
    es
}

/// Startup as the frame driver runs it: spawn the fixed number of
/// enemies, each at a freshly drawn random fraction of the arena.
#[verifier::loop_isolation(false)]
pub fn spawn_enemies(arena: &Arena) -> (es: Vec<Enemy>)
    requires
        arena.well_formed(),
    ensures
        es@.len() == NUMBER_OF_ENEMIES,
        forall|i: int|
            0 <= i < es@.len() ==> 0 <= (#[trigger] es@[i]).position.x < arena.width
                && 0 <= es@[i].position.y < arena.height,
        forall|i: int| 0 <= i < es@.len() ==> (#[trigger] es@[i]).position.in_range(),
{
    let mut es: Vec<Enemy> = Vec::new();
    let mut i: usize = 0;
    while i < NUMBER_OF_ENEMIES
        invariant
            i <= NUMBER_OF_ENEMIES,
            es@.len() == i as int,
            forall|j: int|
                0 <= j < i as int ==> 0 <= (#[trigger] es@[j]).position.x < arena.width
                    && 0 <= es@[j].position.y < arena.height,
        decreases NUMBER_OF_ENEMIES - i,
    {
        let rx: u32 = rand::random::<u32>();
        let ry: u32 = rand::random::<u32>();
        let x = scale_to_extent(rx, arena.width);
        let y = scale_to_extent(ry, arena.height);
        es.push(Enemy { position: Position { x, y } });
        i += 1;
    }
    es
}

} // verus!

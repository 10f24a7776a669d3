use arena_sim::NUMBER_OF_ENEMIES;
use arena_sim::geometry::Arena;
use arena_sim::geometry::Position;
use arena_sim::movement::KeyState;
use arena_sim::world::Enemy;
use arena_sim::world::Player;
use arena_sim::world::World;
use arena_sim::world::spawn_enemies;
use arena_sim::world::spawn_enemies_with_rolls;
use arena_sim::world::spawn_player;

fn arena_800_by_600() -> Arena {
    // 800 x 600 pixels, in milli-pixels.
    Arena { width: 800_000, height: 600_000 }
}

fn press_right() -> KeyState {
    KeyState { left: false, h: false, right: true, l: false, down: false, j: false, up: false, k: false }
}

#[test]
fn player_spawns_at_center() {
    let arena = arena_800_by_600();
    let player = spawn_player(&arena);
    assert_eq!(player.position, Position { x: 400_000, y: 300_000 });
}

#[test]
fn press_right_for_one_second_lands_at_700() {
    let arena = arena_800_by_600();
    let mut world = World { arena, player: spawn_player(&arena), enemies: Vec::new() };
    // One simulated second at 300 px/s: 400 + 300 = 700 pixels, and the
    // confinement pass leaves the in-bounds position unchanged.
    world.tick(&press_right(), 1000, &Vec::new());
    assert_eq!(world.player.position, Position { x: 700_000, y: 300_000 });
}

#[test]
fn press_right_near_wall_clamps_to_768() {
    let arena = arena_800_by_600();
    let mut world = World {
        arena,
        player: Player { position: Position { x: 770_000, y: 300_000 } },
        enemies: Vec::new(),
    };
    // 770 + 300 = 1070 pixels, clamped to 800 - 64/2 = 768 pixels.
    world.tick(&press_right(), 1000, &Vec::new());
    assert_eq!(world.player.position, Position { x: 768_000, y: 300_000 });
}

#[test]
fn tick_confines_every_enemy() {
    let arena = arena_800_by_600();
    let mut world = World {
        arena,
        player: spawn_player(&arena),
        enemies: vec![
            Enemy { position: Position { x: 10, y: 20 } },
            Enemy { position: Position { x: 799_999, y: 599_999 } },
            Enemy { position: Position { x: 400_000, y: 300_000 } },
        ],
    };
    let rolls = vec![0u32, u32::MAX, 0x4000_0000u32];
    world.tick(&KeyState::none(), 16, &rolls);
    assert_eq!(world.enemies.len(), 3);
    for e in &world.enemies {
        assert!(32_000 <= e.position.x && e.position.x <= 768_000);
        assert!(32_000 <= e.position.y && e.position.y <= 568_000);
    }
    // The centered enemy rolled the right-quartile value and walked
    // 16/1000 of one pixel.
    assert_eq!(world.enemies[2].position, Position { x: 400_016, y: 300_000 });
}

#[test]
fn tick_random_also_confines() {
    let arena = arena_800_by_600();
    let mut world = World {
        arena,
        player: spawn_player(&arena),
        enemies: spawn_enemies(&arena),
    };
    for _ in 0..120 {
        world.tick_random(&press_right(), 16);
    }
    for e in &world.enemies {
        assert!(32_000 <= e.position.x && e.position.x <= 768_000);
        assert!(32_000 <= e.position.y && e.position.y <= 568_000);
    }
    assert!(world.player.position.x <= 768_000);
}

#[test]
fn spawn_enemies_spawns_the_fixed_count_inside() {
    let arena = arena_800_by_600();
    let enemies = spawn_enemies(&arena);
    assert_eq!(enemies.len(), NUMBER_OF_ENEMIES);
    for e in &enemies {
        assert!(0 <= e.position.x && e.position.x < arena.width);
        assert!(0 <= e.position.y && e.position.y < arena.height);
    }
}

#[test]
fn spawn_rolls_scale_to_arena_fractions() {
    let arena = arena_800_by_600();
    let enemies = spawn_enemies_with_rolls(&arena, &vec![(0u32, 0u32), (u32::MAX, u32::MAX)]);
    assert_eq!(enemies.len(), 2);
    assert_eq!(enemies[0].position, Position { x: 0, y: 0 });
    // The largest roll lands just inside the far edge.
    assert_eq!(enemies[1].position, Position { x: 799_999, y: 599_999 });
}

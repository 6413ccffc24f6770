use bullet_hell::geometry::{follow, Point, UNITS_PER_WORLD_UNIT};
use bullet_hell::input::{intent, normalize_or_zero, HeldKeys, Intent, KeyEdge, DIAGONAL_COMPONENT, DIRECTION_SCALE};
use bullet_hell::movement::{move_position, DEFAULT_MOVEMENT_SPEED};
use bullet_hell::phase::GameState;
use bullet_hell::systems::{
    draw_cursor, fire_projectiles, fixed_update, follow_character, move_character,
    on_assets_loaded, rotate_character, setup, setup_camera, spawn_character, CursorMarker,
    SystemError, CAMERA_START_Z, CURSOR_MARKER_RADIUS, FOREGROUND_Z,
};
use bullet_hell::world::{EntityKind, QueryError, World};

const SIXTIETH_OF_A_SECOND_NS: u64 = 16_666_667;

fn right() -> HeldKeys {
    let mut k = HeldKeys::none();
    k.arrow_right = true;
    k
}

fn world_with(camera: Point, player: Point) -> World {
    let mut w = World::new();
    w.spawn(EntityKind::Camera, camera);
    w.spawn(EntityKind::Player, player);
    w
}

fn units(v: i64) -> i64 {
    v * UNITS_PER_WORLD_UNIT
}

#[test]
fn zero_intent_normalizes_to_zero() {
    let d = normalize_or_zero(Intent { x: 0, y: 0 });
    assert_eq!((d.x, d.y), (0, 0));
}

#[test]
fn axis_intent_normalizes_to_unit() {
    let d = normalize_or_zero(Intent { x: -1, y: 0 });
    assert_eq!((d.x, d.y), (-DIRECTION_SCALE, 0));
    let d = normalize_or_zero(Intent { x: 0, y: 1 });
    assert_eq!((d.x, d.y), (0, DIRECTION_SCALE));
}

#[test]
fn diagonal_intent_normalizes_to_unit_length() {
    let d = normalize_or_zero(Intent { x: 1, y: -1 });
    assert_eq!((d.x, d.y), (DIAGONAL_COMPONENT, -DIAGONAL_COMPONENT));
    let len = ((d.x as f64).powi(2) + (d.y as f64).powi(2)).sqrt() / DIRECTION_SCALE as f64;
    assert!((len - 1.0).abs() < 1e-6);
}

#[test]
fn opposite_keys_cancel() {
    let mut k = HeldKeys::none();
    k.arrow_left = true;
    k.key_d = true;
    k.key_w = true;
    let i = intent(&k);
    assert_eq!(i, Intent { x: 0, y: 1 });
}

#[test]
fn alternate_bindings_move_the_same_way() {
    let mut k = HeldKeys::none();
    k.key_a = true;
    k.arrow_left = true;
    k.key_s = true;
    assert_eq!(intent(&k), Intent { x: -1, y: -1 });
}

#[test]
fn displacement_is_speed_times_elapsed() {
    let p = Point::new(0, 0, 7);
    let dir = normalize_or_zero(Intent { x: 1, y: 0 });
    let r = move_position(p, dir, DEFAULT_MOVEMENT_SPEED, 500_000_000).unwrap();
    assert_eq!(r, Point::new(units(64), 0, 7));
}

#[test]
fn diagonal_displacement_has_speed_length() {
    let p = Point::new(0, 0, 0);
    let dir = normalize_or_zero(Intent { x: -1, y: 1 });
    let r = move_position(p, dir, 128, 1_000_000_000).unwrap();
    let len = ((r.x as f64).powi(2) + (r.y as f64).powi(2)).sqrt() / UNITS_PER_WORLD_UNIT as f64;
    assert!((len - 128.0).abs() < 1e-3);
    assert!(r.x < 0 && r.y > 0 && r.x == -r.y);
}

#[test]
fn zero_intent_does_not_move() {
    let p = Point::new(5, -5, 1);
    let dir = normalize_or_zero(Intent { x: 0, y: 0 });
    assert_eq!(move_position(p, dir, 128, 123_456_789), Some(p));
}

#[test]
fn leaving_the_position_range_is_refused() {
    let p = Point::new(i64::MAX - 10, 0, 0);
    let dir = normalize_or_zero(Intent { x: 1, y: 0 });
    assert_eq!(move_position(p, dir, 128, 1), None);
    let mut w = world_with(Point::new(0, 0, 0), p);
    assert_eq!(move_character(&mut w, &right(), 1), Err(SystemError::OutOfRange));
    assert_eq!(w.position(1), p);
}

#[test]
fn one_second_right_in_sixty_ticks() {
    let mut w = world_with(Point::new(0, 0, CAMERA_START_Z), Point::new(0, 0, 0));
    for _ in 0..60 {
        assert_eq!(fixed_update(GameState::Playing, &mut w, &right(), SIXTIETH_OF_A_SECOND_NS), Ok(()));
    }
    let p = w.position(1);
    let x = p.x as f64 / UNITS_PER_WORLD_UNIT as f64;
    assert!((x - 128.0).abs() < 1e-3);
    assert_eq!(p.y, 0);
}

#[test]
fn camera_halves_distance_each_tick() {
    let mut w = world_with(Point::new(units(100), units(100), 0), Point::new(0, 0, 0));
    assert_eq!(follow_character(&mut w), Ok(()));
    assert_eq!(w.position(0), Point::new(units(50), units(50), 0));
    assert_eq!(follow_character(&mut w), Ok(()));
    assert_eq!(follow_character(&mut w), Ok(()));
    assert_eq!(w.position(0), Point::new(12_500_000_000, 12_500_000_000, 0));
    assert_eq!(w.position(1), Point::new(0, 0, 0));
}

#[test]
fn follow_rounds_odd_distance_toward_target() {
    let r = follow(Point::new(0, 0, 0), Point::new(3, -3, 1));
    assert_eq!(r, Point::new(2, -2, 1));
}

#[test]
fn camera_reaches_stationary_player_without_overshoot() {
    let target = Point::new(-7, 1_000, 0);
    let mut cam = Point::new(100, 0, 0);
    for _ in 0..64 {
        let next = follow(cam, target);
        assert!(next.x <= cam.x && next.x >= target.x);
        assert!(next.y >= cam.y && next.y <= target.y);
        cam = next;
    }
    assert_eq!(cam, target);
}

#[test]
fn follow_uses_position_after_this_tick_move() {
    let mut w = world_with(Point::new(0, 0, 0), Point::new(0, 0, 0));
    assert_eq!(fixed_update(GameState::Playing, &mut w, &right(), 1_000_000_000), Ok(()));
    assert_eq!(w.position(1), Point::new(units(128), 0, 0));
    assert_eq!(w.position(0), Point::new(units(64), 0, 0));
}

#[test]
fn no_gameplay_outside_playing() {
    for state in [GameState::LoadingScreen, GameState::Upgrading, GameState::GameOver] {
        let mut w = world_with(Point::new(units(9), 0, 0), Point::new(0, 0, 0));
        assert_eq!(fixed_update(state, &mut w, &right(), 1_000_000_000), Ok(()));
        assert_eq!(w.position(0), Point::new(units(9), 0, 0));
        assert_eq!(w.position(1), Point::new(0, 0, 0));
    }
}

#[test]
fn missing_player_is_reported() {
    let mut w = World::new();
    setup_camera(&mut w);
    assert_eq!(w.find_unique(EntityKind::Player), Err(QueryError::NoEntities));
    assert_eq!(move_character(&mut w, &right(), 1), Err(SystemError::Player(QueryError::NoEntities)));
    assert_eq!(follow_character(&mut w), Err(SystemError::Player(QueryError::NoEntities)));
    assert_eq!(fixed_update(GameState::Playing, &mut w, &right(), 1), Err(SystemError::Player(QueryError::NoEntities)));
}

#[test]
fn two_players_are_reported() {
    let mut w = world_with(Point::new(0, 0, 0), Point::new(0, 0, 0));
    setup(&mut w);
    assert_eq!(w.find_unique(EntityKind::Player), Err(QueryError::MultipleEntities));
    assert_eq!(move_character(&mut w, &right(), 1), Err(SystemError::Player(QueryError::MultipleEntities)));
    assert_eq!(w.position(1), Point::new(0, 0, 0));
}

#[test]
fn missing_camera_is_reported() {
    let mut w = World::new();
    setup(&mut w);
    assert_eq!(follow_character(&mut w), Err(SystemError::Camera(QueryError::NoEntities)));
    setup_camera(&mut w);
    setup_camera(&mut w);
    assert_eq!(follow_character(&mut w), Err(SystemError::Camera(QueryError::MultipleEntities)));
}

#[test]
fn movement_stays_when_follow_fails() {
    let mut w = World::new();
    setup(&mut w);
    assert_eq!(fixed_update(GameState::Playing, &mut w, &right(), 1_000_000_000), Err(SystemError::Camera(QueryError::NoEntities)));
    assert_eq!(w.position(0), Point::new(units(128), 0, 0));
}

#[test]
fn unique_lookup_finds_index() {
    let mut w = World::new();
    spawn_character(&mut w);
    setup_camera(&mut w);
    assert_eq!(w.find_unique(EntityKind::Player), Ok(0));
    assert_eq!(w.find_unique(EntityKind::Camera), Ok(2));
    assert_eq!(w.find_unique(EntityKind::Scenery), Ok(1));
    assert_eq!(w.count(EntityKind::Projectile), 0);
    assert_eq!(w.position(0), Point::new(0, 0, FOREGROUND_Z));
    assert_eq!(w.position(1), Point::from_units(10, 10, 0));
}

#[test]
fn held_fire_key_spawns_one_projectile() {
    let mut w = World::new();
    let mut edge = KeyEdge::new();
    for _ in 0..10 {
        let pressed = edge.update(true);
        fire_projectiles(&mut w, pressed);
    }
    let pressed = edge.update(false);
    fire_projectiles(&mut w, pressed);
    assert_eq!(w.count(EntityKind::Projectile), 1);
    assert_eq!(w.position(0), Point::new(0, 0, FOREGROUND_Z));
}

#[test]
fn two_presses_spawn_two_projectiles() {
    let mut w = World::new();
    let mut edge = KeyEdge::new();
    for held in [true, true, false, false, true, false] {
        let pressed = edge.update(held);
        fire_projectiles(&mut w, pressed);
    }
    assert_eq!(w.count(EntityKind::Projectile), 2);
}

#[test]
fn no_pointer_no_marker() {
    assert_eq!(draw_cursor(None), None);
}

#[test]
fn marker_at_cursor_world_position() {
    let p = Point::from_units(-3, 4, 0);
    assert_eq!(draw_cursor(Some(p)), Some(CursorMarker { center: p, radius: CURSOR_MARKER_RADIUS }));
}

#[test]
fn loading_screen_gives_way_to_play() {
    assert_eq!(GameState::initial(true), GameState::LoadingScreen);
    assert_eq!(GameState::initial(false), GameState::Playing);
    let mut state = GameState::initial(true);
    assert!(!state.is_playing());
    let mut w = World::new();
    on_assets_loaded(&mut state, &mut w);
    assert_eq!(state, GameState::Playing);
    assert!(state.is_playing());
    assert_eq!(w.count(EntityKind::Player), 1);
    on_assets_loaded(&mut state, &mut w);
    assert_eq!(state, GameState::Playing);
    assert_eq!(w.count(EntityKind::Player), 1);
    assert_eq!(GameState::GameOver.after_assets_loaded(), GameState::GameOver);
    assert_eq!(GameState::Upgrading.after_assets_loaded(), GameState::Upgrading);
}

#[test]
fn orientation_changes_nothing() {
    let mut w = world_with(Point::new(1, 2, 3), Point::new(4, 5, 6));
    rotate_character(&mut w);
    assert_eq!(w.position(0), Point::new(1, 2, 3));
    assert_eq!(w.position(1), Point::new(4, 5, 6));
}

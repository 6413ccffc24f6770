//! The systems of the game and the order in which a tick runs them.
use vstd::prelude::*;
use crate::geometry::{Point, follow, follow_point};
use crate::input::{HeldKeys, direction_of, intent, intent_of, normalize_or_zero, rising_edge};
use crate::movement::{DEFAULT_MOVEMENT_SPEED, move_position, step_position};
use crate::phase::GameState;
use crate::world::{
    Entity,
    EntityKind,
    QueryError,
    World,
    count_kind,
    lemma_count_push,
    lemma_last_index_of,
    lemma_update_same_kind,
    unique_spec,
};

verus! {

/// Where the camera starts: the origin, far enough toward the viewer to see
/// everything at depth up to 999.9.
pub const CAMERA_START_Z: i64 = 999_900_000_000;

/// Depth of the character of the plugin variant and of projectiles.
pub const FOREGROUND_Z: i64 = 5_000_000_000;

/// Radius of the cursor marker, in position units.
pub const CURSOR_MARKER_RADIUS: i64 = 5_000_000_000;

/// Why a system could not run.
#[derive(Clone, Copy, Debug, PartialEq, Eq, Structural)]
pub enum SystemError {
    /// There is not exactly one player.
    Player(QueryError),
    /// There is not exactly one camera.
    Camera(QueryError),
    /// The player would leave the range of positions.
    OutOfRange,
}

/// A marker drawn for the current frame only.
#[derive(Clone, Copy, Debug, PartialEq, Eq, Structural)]
pub struct CursorMarker {
    pub center: Point,
    pub radius: i64,
}

pub open spec fn camera_entity() -> Entity {
    Entity { kind: EntityKind::Camera, pos: Point { x: 0, y: 0, z: CAMERA_START_Z } }
}

/// Spawns the camera at its starting point.
pub fn setup_camera(world: &mut World)
    ensures
        final(world)@ == old(world)@.push(camera_entity()),
{
    world.spawn(EntityKind::Camera, Point::new(0, 0, CAMERA_START_Z));
}

/// Spawns the player at the origin, on entering play.
pub fn setup(world: &mut World)
    ensures
        final(world)@ == old(world)@.push(
            Entity { kind: EntityKind::Player, pos: Point { x: 0, y: 0, z: 0 } },
        ),
{
    world.spawn(EntityKind::Player, Point::new(0, 0, 0));
}

/// Spawns the player in the foreground at the origin and a piece of scenery at
/// (10, 10) behind it.
pub fn spawn_character(world: &mut World)
    ensures
        final(world)@ == old(world)@.push(
            Entity { kind: EntityKind::Player, pos: Point { x: 0, y: 0, z: FOREGROUND_Z } },
        ).push(
            Entity {
                kind: EntityKind::Scenery,
                pos: Point { x: 10_000_000_000, y: 10_000_000_000, z: 0 },
            },
        ),
{
    world.spawn(EntityKind::Player, Point::new(0, 0, FOREGROUND_Z));
    world.spawn(EntityKind::Scenery, Point::new(10_000_000_000, 10_000_000_000, 0));
}

/// The entities after the movement system, or why it failed.
pub open spec fn move_spec(s: Seq<Entity>, keys: HeldKeys, elapsed_ns: u64) -> Result<
    Seq<Entity>,
    SystemError,
> {
    match unique_spec(s, EntityKind::Player) {
        Err(e) => Err(SystemError::Player(e)),
        Ok(i) => match step_position(
            s[i as int].pos,
            direction_of(intent_of(keys)),
            DEFAULT_MOVEMENT_SPEED,
            elapsed_ns,
        ) {
            None => Err(SystemError::OutOfRange),
            Some(p) => Ok(s.update(i as int, Entity { kind: EntityKind::Player, pos: p })),
        },
    }
}

/// The entities after the camera follow system, or why it failed.
pub open spec fn follow_spec(s: Seq<Entity>) -> Result<Seq<Entity>, SystemError> {
    match unique_spec(s, EntityKind::Camera) {
        Err(e) => Err(SystemError::Camera(e)),
        Ok(c) => match unique_spec(s, EntityKind::Player) {
            Err(e) => Err(SystemError::Player(e)),
            Ok(p) => Ok(
                s.update(
                    c as int,
                    Entity {
                        kind: EntityKind::Camera,
                        pos: follow_point(s[c as int].pos, s[p as int].pos),
                    },
                ),
            ),
        },
    }
}

/// Applies a system's outcome: on success the new entities are there, on
/// failure nothing changed.
pub open spec fn applied(
    outcome: Result<Seq<Entity>, SystemError>,
    before: Seq<Entity>,
    after: Seq<Entity>,
    r: Result<(), SystemError>,
) -> bool {
    match outcome {
        Ok(s) => r is Ok && after == s,
        Err(e) => r == Err::<(), SystemError>(e) && after == before,
    }
}

/// Moves the unique player by the held keys' normalised direction at the
/// base speed over `elapsed_ns`.
pub fn move_character(world: &mut World, keys: &HeldKeys, elapsed_ns: u64) -> (r: Result<
    (),
    SystemError,
>)
    ensures
        applied(move_spec(old(world)@, *keys, elapsed_ns), old(world)@, final(world)@, r),
{
    let i = match world.find_unique(EntityKind::Player) {
        Err(e) => {
            return Err(SystemError::Player(e));
        },
        Ok(i) => i,
    };
    let dir = normalize_or_zero(intent(keys));
    match move_position(world.position(i), dir, DEFAULT_MOVEMENT_SPEED, elapsed_ns) {
        None => Err(SystemError::OutOfRange),
        Some(p) => {
            world.set_position(i, p);
            Ok(())
        },
    }
}

/// Moves the unique camera half of the way to the unique player.
pub fn follow_character(world: &mut World) -> (r: Result<(), SystemError>)
    ensures
        applied(follow_spec(old(world)@), old(world)@, final(world)@, r),
{
    let c = match world.find_unique(EntityKind::Camera) {
        Err(e) => {
            return Err(SystemError::Camera(e));
        },
        Ok(c) => c,
    };
    let p = match world.find_unique(EntityKind::Player) {
        Err(e) => {
            return Err(SystemError::Player(e));
        },
        Ok(p) => p,
    };
    let target = world.position(p);
    let cam = world.position(c);
    world.set_position(c, follow(cam, target));
    Ok(())
}

/// Turning the player toward the cursor is not a feature yet: the system
/// leaves the world as it is.
pub fn rotate_character(world: &mut World)
    ensures
        final(world)@ == old(world)@,
{
}

/// One fixed tick: while playing, movement, then camera follow, then
/// orientation, stopping at the first system that fails (a movement made
/// before the camera lookup failed stays). In any other phase nothing runs.
pub fn fixed_update(state: GameState, world: &mut World, keys: &HeldKeys, elapsed_ns: u64) -> (r:
    Result<(), SystemError>)
    ensures
        !(state is Playing) ==> r is Ok && final(world)@ == old(world)@,
        state is Playing ==> match move_spec(old(world)@, *keys, elapsed_ns) {
            Err(e) => r == Err::<(), SystemError>(e) && final(world)@ == old(world)@,
            Ok(moved) => applied(follow_spec(moved), moved, final(world)@, r),
        },
{
    if !state.is_playing() {
        return Ok(());
    }
    match move_character(world, keys, elapsed_ns) {
        Err(e) => {
            return Err(e);
        },
        Ok(()) => {},
    }
    match follow_character(world) {
        Err(e) => {
            return Err(e);
        },
        Ok(()) => {},
    }
    rotate_character(world);
    Ok(())
}

pub open spec fn projectile_entity() -> Entity {
    Entity { kind: EntityKind::Projectile, pos: Point { x: 0, y: 0, z: FOREGROUND_Z } }
}

/// The entities after the projectile system in a frame where the fire key was
/// or was not just pressed.
pub open spec fn fire_spec(s: Seq<Entity>, just_pressed: bool) -> Seq<Entity> {
    if just_pressed {
        s.push(projectile_entity())
    } else {
        s
    }
}

/// Spawns one projectile, at a fixed point in the foreground, in a frame where
/// the fire key was just pressed.
pub fn fire_projectiles(world: &mut World, just_pressed: bool)
    ensures
        final(world)@ == fire_spec(old(world)@, just_pressed),
{
    if just_pressed {
        world.spawn(EntityKind::Projectile, Point::new(0, 0, FOREGROUND_Z));
    }
}

/// The marker of a frame: a circle at the cursor's world position, or nothing
/// when the pointer is outside the window or cannot be projected.
pub fn draw_cursor(cursor_world: Option<Point>) -> (r: Option<CursorMarker>)
    ensures
        r == match cursor_world {
            None => None,
            Some(p) => Some(CursorMarker { center: p, radius: CURSOR_MARKER_RADIUS }),
        },
{
    match cursor_world {
        None => None,
        Some(p) => Some(CursorMarker { center: p, radius: CURSOR_MARKER_RADIUS }),
    }
}

/// Takes the phase past the loading screen once every asset has loaded, and
/// runs the systems of entering play when that happens.
pub fn on_assets_loaded(state: &mut GameState, world: &mut World)
    ensures
        *final(state) == old(state).after_assets_loaded_spec(),
        *old(state) is LoadingScreen ==> final(world)@ == old(world)@.push(
            Entity { kind: EntityKind::Player, pos: Point { x: 0, y: 0, z: 0 } },
        ),
        !(*old(state) is LoadingScreen) ==> final(world)@ == old(world)@,
{
    let entering = match *state {
        GameState::LoadingScreen => true,
        _ => false,
    };
    *state = state.after_assets_loaded();
    if entering {
        setup(world);
    }
}

/// Within one tick the camera follows where the movement of that same tick
/// put the player, not where the player stood before it.
pub proof fn lemma_follow_sees_this_tick_move(s: Seq<Entity>, keys: HeldKeys, elapsed_ns: u64)
    requires
        s.len() <= usize::MAX,
        move_spec(s, keys, elapsed_ns) is Ok,
        follow_spec(move_spec(s, keys, elapsed_ns)->Ok_0) is Ok,
    ensures
        ({
            let moved = move_spec(s, keys, elapsed_ns)->Ok_0;
            let after = follow_spec(moved)->Ok_0;
            let p = unique_spec(s, EntityKind::Player)->Ok_0 as int;
            let c = unique_spec(s, EntityKind::Camera)->Ok_0 as int;
            &&& Some(moved[p].pos) == step_position(
                s[p].pos,
                direction_of(intent_of(keys)),
                DEFAULT_MOVEMENT_SPEED,
                elapsed_ns,
            )
            &&& after[c].pos == follow_point(s[c].pos, moved[p].pos)
            &&& after[p] == moved[p]
        }),
{
    let moved = move_spec(s, keys, elapsed_ns)->Ok_0;
    let p = unique_spec(s, EntityKind::Player)->Ok_0 as int;
    lemma_last_index_of(s, EntityKind::Player);
    assert(count_kind(s, EntityKind::Player) == 1);
    assert(s[p].kind == EntityKind::Player);
    assert(moved[p].kind == EntityKind::Player);
    lemma_update_same_kind(s, p, moved[p], EntityKind::Camera);
    lemma_update_same_kind(s, p, moved[p], EntityKind::Player);
    lemma_last_index_of(moved, EntityKind::Camera);
    lemma_last_index_of(s, EntityKind::Camera);
    assert(count_kind(s, EntityKind::Camera) == 1);
    let c = unique_spec(s, EntityKind::Camera)->Ok_0 as int;
    assert(s[c].kind == EntityKind::Camera);
    assert(c != p);
}

/// The fire key's state over a run of frames, latest last, starting from a
/// key held (`was_held`) or not before the first of them.
pub open spec fn held_before_last(was_held: bool, frames: Seq<bool>) -> bool {
    if frames.len() >= 2 {
        frames[frames.len() - 2]
    } else {
        was_held
    }
}

/// The entities after the projectile system has run on each of `frames`.
pub open spec fn fire_frames(s: Seq<Entity>, was_held: bool, frames: Seq<bool>) -> Seq<Entity>
    decreases frames.len(),
{
    if frames.len() == 0 {
        s
    } else {
        fire_spec(
            fire_frames(s, was_held, frames.drop_last()),
            rising_edge(held_before_last(was_held, frames), frames.last()),
        )
    }
}

/// `k` frames with the key held, from a key that was not held, spawn one
/// projectile.
proof fn lemma_held_frames(s: Seq<Entity>, k: nat)
    requires
        k >= 1,
    ensures
        fire_frames(s, false, Seq::new(k, |i: int| true)) == s.push(projectile_entity()),
    decreases k,
{
    let f = Seq::new(k, |i: int| true);
    if k >= 2 {
        assert(f.drop_last() =~= Seq::new((k - 1) as nat, |i: int| true));
        lemma_held_frames(s, (k - 1) as nat);
        assert(held_before_last(false, f));
        assert(!rising_edge(held_before_last(false, f), f.last()));
    } else {
        assert(f.drop_last() =~= Seq::<bool>::empty());
        assert(fire_frames(s, false, Seq::<bool>::empty()) == s);
        assert(rising_edge(held_before_last(false, f), f.last()));
    }
}

/// Holding the fire key for `k` frames and then releasing it spawns exactly
/// one projectile, whatever `k`.
pub proof fn lemma_one_press_one_projectile(s: Seq<Entity>, k: nat)
    requires
        k >= 1,
    ensures
        ({
            let frames = Seq::new(k + 1, |i: int| i < k);
            let after = fire_frames(s, false, frames);
            &&& after == s.push(projectile_entity())
            &&& count_kind(after, EntityKind::Projectile) == count_kind(s, EntityKind::Projectile)
                + 1
        }),
{
    let frames = Seq::new(k + 1, |i: int| i < k);
    assert(frames.drop_last() =~= Seq::new(k, |i: int| true));
    lemma_held_frames(s, k);
    lemma_count_push(s, projectile_entity(), EntityKind::Projectile);
}

} // verus!

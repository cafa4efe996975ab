use vstd::prelude::*;

use crate::attack_manager::AttackManager;
use crate::ecs::{CollRect, Enemy, Posture, Speed, SpriteDrawable, Zako, ZakoState};
use crate::ecs_player::{move_capturing_player, posture_ok, recapture_effect, ship_limit, start_player_capturing, start_recapture_effect};
use crate::ecs_world::{
    empty_components, no_components, Components, Entity, Owl, OwlCaptureAttackPhase, OwlCapturingState, OwlState,
    PlayerShip, TractorBeam, Troops, World, TRACTOR_BEAM_SPRITE_COUNT, TROOPS_COUNT,
};
use crate::enemy_types::{EnemyType, FormationIndex};
use crate::game_info::{GameInfo, GameState};
use crate::game_manager::StarManager;
use crate::consts::HEIGHT;
use crate::ecs::{forward, forward_ok, forwarded, motion_ok, move_to_formation};
use crate::enemy_base::{half_shift, slot_ok};
use crate::math::{angle_diff, atan2_lut, atan2_spec, clamp, clamp_spec, diff_angle, normalize_angle, normalized, ANGLE, ONE};
use crate::owl::{capture_target_angle, steer_diff};
use crate::formation::Formation;
use crate::types::trunc_div;
use crate::player::PlayerState;
use crate::tractor_beam::TractorBeamState;
use crate::types::{Vec2I, Vector2D};
use crate::traj::{formation_x_of, owl_attack_table, owl_rush_attack_table, stepped, table_ok, Traj, TrajCommand};
use crate::enemy_types::CaptureState;

verus! {

/// Frames that the opened beam waits for the ship.
pub const BEAM_WAIT_FRAMES: u32 = 180;
/// Horizontal reach of the beam.
pub const BEAM_RANGE: i32 = 24 * 256;

/// The beam's size stays between closed and fully open, and its counters far from overflow.
pub open spec fn beam_ok(tb: TractorBeam) -> bool {
    &&& 0 <= tb.size_count <= 12 * ONE
    &&& tb.state == TractorBeamState::Opening ==> tb.size_count < 12 * ONE
    &&& tb.state == TractorBeamState::Full ==> tb.count < BEAM_WAIT_FRAMES
    &&& tb.state == TractorBeamState::Capturing ==> tb.capturing_player.is_some()
    &&& tb.color_count < 0x1000_0000
    &&& -ship_limit() <= tb.pos.x <= ship_limit()
    &&& -ship_limit() <= tb.pos.y <= ship_limit() - 8 * ONE
}

/// A closed beam, just opening below a boss, with no part shown.
pub open spec fn is_new_beam(tb: TractorBeam, pos: Vec2I) -> bool {
    &&& tb.pos == pos
    &&& tb.state == TractorBeamState::Opening
    &&& tb.count == 0
    &&& tb.color_count == 0
    &&& tb.size_count == 0
    &&& tb.capturing_player.is_none()
    &&& forall|i: int| 0 <= i < 12 ==> (#[trigger] tb.beam_sprites@[i]).is_none()
}

pub fn create_tractor_beam(pos: &Vec2I) -> (tb: TractorBeam)
    ensures
        is_new_beam(tb, *pos),
{
    TractorBeam {
        pos: *pos,
        state: TractorBeamState::Opening,
        count: 0,
        color_count: 0,
        size_count: 0,
        beam_sprites: [None; 12],
        capturing_player: None,
    }
}

pub fn tractor_beam_closed(tb: &TractorBeam) -> (b: bool)
    ensures
        b == (tb.state == TractorBeamState::Closed),
{
    tb.state == TractorBeamState::Closed
}

pub fn is_tractor_beam_capturing(tb: &TractorBeam) -> (b: bool)
    ensures
        b == (tb.state == TractorBeamState::Capturing),
{
    tb.state == TractorBeamState::Capturing
}

/// The beam holds a ship and pulls it in.
pub fn start_capturing(tb: &mut TractorBeam, player_entity: Entity)
    ensures
        *final(tb) == (TractorBeam {
            capturing_player: Some(player_entity),
            state: TractorBeamState::Capturing,
            count: 0,
            ..*old(tb)
        }),
{
    tb.capturing_player = Some(player_entity);
    tb.state = TractorBeamState::Capturing;
    tb.count = 0;
}

/// The entity at a place is a ship with a posture.
pub open spec fn is_ship(w: Seq<Option<Components>>, i: int) -> bool {
    w[i] matches Some(c) && c.player.is_some() && c.posture.is_some()
}

/// The ship at a place is within the beam's reach, sideways.
pub open spec fn in_beam(w: Seq<Option<Components>>, i: int, beam_pos: Vec2I) -> bool {
    is_ship(w, i) && -BEAM_RANGE <= w[i].unwrap().posture.unwrap().0.x - beam_pos.x <= BEAM_RANGE
}

/// The first ship that the beam reaches, if the play lets it capture; none else.
pub open spec fn beam_target(w: Seq<Option<Components>>, beam_pos: Vec2I, can: bool, r: Option<Entity>) -> bool {
    match r {
        Some(e) => can && 0 <= e.0 < w.len() && in_beam(w, e.0 as int, beam_pos)
            && forall|j: int| 0 <= j < e.0 ==> !#[trigger] in_beam(w, j, beam_pos),
        None => !can || forall|j: int| 0 <= j < w.len() ==> !#[trigger] in_beam(w, j, beam_pos),
    }
}

/// The first ship in the world, if any.
pub open spec fn first_ship(w: Seq<Option<Components>>, r: Option<Entity>) -> bool {
    match r {
        Some(e) => 0 <= e.0 < w.len() && is_ship(w, e.0 as int)
            && forall|j: int| 0 <= j < e.0 ==> !#[trigger] is_ship(w, j),
        None => forall|j: int| 0 <= j < w.len() ==> !#[trigger] is_ship(w, j),
    }
}

/// Ships are within the bounds of the field.
pub open spec fn ships_ok(w: Seq<Option<Components>>) -> bool {
    forall|i: int| 0 <= i < w.len() ==> (#[trigger] is_ship(w, i) ==> posture_ok(w[i].unwrap().posture.unwrap()))
}

/// The ship that the beam can capture: the first within its reach, while the play lets it.
pub fn can_tractor_beam_capture_player(game_info: &GameInfo, beam_pos: &Vec2I, world: &World) -> (r: Option<Entity>)
    requires
        ships_ok(world.entities@),
        -ship_limit() <= beam_pos.x <= ship_limit(),
    ensures
        beam_target(world.entities@, *beam_pos, game_info.game_state == GameState::Playing, r),
{
    let mut i: usize = 0;
    while i < world.entities.len()
        invariant
            i <= world.entities@.len(),
            ships_ok(world.entities@),
            -ship_limit() <= beam_pos.x <= ship_limit(),
            forall|j: int| 0 <= j < i ==> !(game_info.game_state == GameState::Playing
                && #[trigger] in_beam(world.entities@, j, *beam_pos)),
        decreases world.entities@.len() - i,
    {
        if let Some(c) = world.entities[i] {
            if let (Some(_player), Some(post)) = (c.player, c.posture) {
                assert(is_ship(world.entities@, i as int));
                if game_info.can_capture() && -BEAM_RANGE <= post.0.x - beam_pos.x && post.0.x - beam_pos.x <= BEAM_RANGE {
                    return Some(Entity(i));
                }
            }
        }
        i += 1;
    }
    None
}

/// The first ship of the world.
pub fn find_ship(world: &World) -> (r: Option<Entity>)
    ensures
        first_ship(world.entities@, r),
{
    let mut i: usize = 0;
    while i < world.entities.len()
        invariant
            i <= world.entities@.len(),
            forall|j: int| 0 <= j < i ==> !#[trigger] is_ship(world.entities@, j),
        decreases world.entities@.len() - i,
    {
        if let Some(c) = world.entities[i] {
            if c.player.is_some() && c.posture.is_some() {
                return Some(Entity(i));
            }
        }
        i += 1;
    }
    None
}

/// One of the first `n` parts of the beam shows the entity at a place.
pub open spec fn shows_upto(sprites: Seq<Option<Entity>>, n: int, j: int) -> bool
    decreases n,
{
    if n <= 0 {
        false
    } else {
        shows_upto(sprites, n - 1, j) || (sprites[n - 1] matches Some(e) && e.0 == j)
    }
}

/// Some part of the beam shows the entity at a place.
pub open spec fn shows(sprites: Seq<Option<Entity>>, j: int) -> bool {
    shows_upto(sprites, 12, j)
}

/// The world after a beam breaks: its parts leave, and a ship that it was pulling goes back
/// down.
pub open spec fn broken_world(w: Seq<Option<Components>>, tb: TractorBeam) -> Seq<Option<Components>> {
    Seq::new(w.len(), |j: int| if shows(tb.beam_sprites@, j) {
        None
    } else if tb.state == TractorBeamState::Capturing && j == tb.capturing_player.unwrap().0 {
        let pc = w[j].unwrap();
        Some(Components { player: Some(PlayerShip { state: PlayerState::EscapeCapturing, ..pc.player.unwrap() }), ..pc })
    } else {
        w[j]
    })
}

/// The parts of the beam are taken out of the world and the beam closes; a ship that it was
/// pulling goes back down.
pub fn break_tractor_beam(tb: &mut TractorBeam, world: &mut World)
    requires
        old(tb).state == TractorBeamState::Capturing ==> (old(tb).capturing_player matches Some(pe)
            && (old(world).at(pe) matches Some(pc) && pc.player.is_some())
            && !shows(old(tb).beam_sprites@, pe.0 as int)),
        old(tb).state != TractorBeamState::Capturing ==> old(tb).capturing_player.is_none(),
    ensures
        final(tb).state == TractorBeamState::Closed,
        forall|i: int| 0 <= i < 12 ==> (#[trigger] final(tb).beam_sprites@[i]).is_none(),
        (TractorBeam { state: old(tb).state, beam_sprites: old(tb).beam_sprites, ..*final(tb) }) == *old(tb),
        final(world).entities@ == broken_world(old(world).entities@, *old(tb)),
{
    let ghost sprites = tb.beam_sprites@;
    let mut i: usize = 0;
    while i < TRACTOR_BEAM_SPRITE_COUNT
        invariant
            i <= 12,
            tb.beam_sprites@.len() == 12,
            sprites.len() == 12,
            forall|k: int| 0 <= k < i ==> (#[trigger] tb.beam_sprites@[k]).is_none(),
            forall|k: int| i <= k < 12 ==> #[trigger] tb.beam_sprites@[k] == sprites[k],
            (TractorBeam { beam_sprites: old(tb).beam_sprites, ..*tb }) == *old(tb),
            old(tb).beam_sprites@ == sprites,
            world.entities@.len() == old(world).entities@.len(),
            forall|j: int| 0 <= j < old(world).entities@.len() ==> #[trigger] world.entities@[j] == if shows_upto(sprites, i as int, j) {
                None
            } else {
                old(world).entities@[j]
            },
        decreases 12 - i,
    {
        if let Some(e) = tb.beam_sprites[i] {
            world.remove(e);
        }
        tb.beam_sprites[i] = None;
        i += 1;
    }
    if tb.state == TractorBeamState::Capturing {
        let pe = tb.capturing_player.unwrap();
        let pc = world.get(pe).unwrap();
        let p = pc.player.unwrap();
        world.put(pe, Components { player: Some(PlayerShip { state: PlayerState::EscapeCapturing, ..p }), ..pc });
    }
    tb.state = TractorBeamState::Closed;
    assert(world.entities@ =~= broken_world(old(world).entities@, *old(tb)));
}

/// The ship that the beam captures, if any.
pub open spec fn beam_target_of(w: Seq<Option<Components>>, beam_pos: Vec2I, can: bool) -> Option<Entity> {
    if exists|e: Entity| beam_target(w, beam_pos, can, Some(e)) {
        Some(choose|e: Entity| beam_target(w, beam_pos, can, Some(e)))
    } else {
        None
    }
}

/// The first ship of the world, if any.
pub open spec fn first_ship_of(w: Seq<Option<Components>>) -> Option<Entity> {
    if exists|e: Entity| first_ship(w, Some(e)) {
        Some(choose|e: Entity| first_ship(w, Some(e)))
    } else {
        None
    }
}

/// There is one first ship within the beam's reach.
pub proof fn lemma_beam_target_unique(w: Seq<Option<Components>>, beam_pos: Vec2I, can: bool, r: Option<Entity>)
    requires
        beam_target(w, beam_pos, can, r),
    ensures
        r == beam_target_of(w, beam_pos, can),
{
    match r {
        Some(e) => {
            assert(exists|e2: Entity| beam_target(w, beam_pos, can, Some(e2)));
            let e2 = choose|e2: Entity| beam_target(w, beam_pos, can, Some(e2));
            if e2.0 < e.0 {
                assert(!in_beam(w, e2.0 as int, beam_pos));
            } else if e.0 < e2.0 {
                assert(!in_beam(w, e.0 as int, beam_pos));
            }
        },
        None => {
            if exists|e2: Entity| beam_target(w, beam_pos, can, Some(e2)) {
                let e2 = choose|e2: Entity| beam_target(w, beam_pos, can, Some(e2));
                assert(in_beam(w, e2.0 as int, beam_pos));
            }
        },
    }
}

/// There is one first ship.
pub proof fn lemma_first_ship_unique(w: Seq<Option<Components>>, r: Option<Entity>)
    requires
        first_ship(w, r),
    ensures
        r == first_ship_of(w),
{
    match r {
        Some(e) => {
            assert(exists|e2: Entity| first_ship(w, Some(e2)));
            let e2 = choose|e2: Entity| first_ship(w, Some(e2));
            if e2.0 < e.0 {
                assert(!is_ship(w, e2.0 as int));
            } else if e.0 < e2.0 {
                assert(!is_ship(w, e.0 as int));
            }
        },
        None => {
            if exists|e2: Entity| first_ship(w, Some(e2)) {
                let e2 = choose|e2: Entity| first_ship(w, Some(e2));
                assert(is_ship(w, e2.0 as int));
            }
        },
    }
}

/// After the beam closed, a boss that holds the ship waits before it flies back.
pub fn set_owl_capturing_player_completed(owl: &mut Owl, captured: bool)
    ensures
        *final(owl) == if captured {
            Owl { state: OwlState::CaptureAttack(OwlCaptureAttackPhase::CaptureDoneWait), count: 0, ..*old(owl) }
        } else {
            *old(owl)
        },
{
    if captured {
        owl.state = OwlState::CaptureAttack(OwlCaptureAttackPhase::CaptureDoneWait);
        owl.count = 0;
    }
}

/// The beam has closed; with the ship held, the game learns of the capture.
pub fn on_capturing_player_completed(owl: &mut Owl, captured: bool, game_info: &mut GameInfo)
    requires
        old(game_info).wf(),
        captured ==> old(game_info).capture_enemy_fi.1 >= 1,
    ensures
        final(game_info).wf(),
        *final(owl) == if captured {
            Owl { state: OwlState::CaptureAttack(OwlCaptureAttackPhase::CaptureDoneWait), count: 0, ..*old(owl) }
        } else {
            *old(owl)
        },
        *final(game_info) == if captured {
            GameInfo { capture_state: CaptureState::Captured, game_state: GameState::Captured, count: 0, ..*old(game_info) }
        } else {
            *old(game_info)
        },
{
    set_owl_capturing_player_completed(owl, captured);
    if captured {
        game_info.player_captured();
    }
}

/// The fighter that a boss has made of the player's ship: an enemy in the slot above the
/// boss's, flying with it.
pub open spec fn captured_fighter(fi: FormationIndex, pos: Vec2I) -> Components {
    Components {
        enemy: Some(Enemy { enemy_type: EnemyType::CapturedFighter, formation_index: fi, is_formation: false }),
        zako: Some(Zako { state: ZakoState::Troop, traj: None }),
        posture: Some(Posture(pos, 0)),
        speed: Some(Speed(0, 0)),
        coll_rect: Some(CollRect { offset: Vector2D { x: -6i32, y: -6i32 }, size: Vector2D { x: 12i32, y: 12i32 } }),
        sprite: Some(SpriteDrawable { sprite_name: "rustacean_captured", offset: Vector2D { x: -8i32, y: -8i32 } }),
        ..no_components()
    }
}

/// The ship is captured: it disappears, and a captured fighter appears below the boss in
/// the slot above the boss's, as the boss's only escort; one more enemy is alive.
pub fn on_player_captured(enemy: &Enemy, pos: &Vec2I, owner: Entity, player: Entity, game_info: &mut GameInfo,
    world: &mut World)
    requires
        enemy.formation_index.1 >= 1,
        old(world).at(player).is_some(),
        old(world).at(owner).is_some(),
        old(game_info).alive_enemy_count < 0xffff_ffff,
        -0x7000_0000 <= pos.y <= 0x7000_0000,
    ensures
        ({
            let w1 = old(world).put_spec(player, Components { sprite: None, ..old(world).at(player).unwrap() });
            let w2 = w1.push(Some(captured_fighter(
                FormationIndex(enemy.formation_index.0, (enemy.formation_index.1 - 1) as u8),
                Vector2D { x: pos.x, y: (pos.y + 8 * ONE) as i32 })));
            let oc = final(world).at(owner).unwrap();
            &&& final(world).entities@ == w2.update(owner.0 as int, Some(Components { troops: oc.troops, ..w2[owner.0 as int].unwrap() }))
            &&& oc.troops matches Some(t) && t.members@ == seq![
                Some((Entity(old(world).entities@.len() as usize), Vector2D { x: 0i32, y: 4096i32 })),
                None::<(Entity, Vec2I)>,
                None::<(Entity, Vec2I)>]
        }),
        *final(game_info) == (GameInfo { alive_enemy_count: (old(game_info).alive_enemy_count + 1) as u32, ..*old(game_info) }),
{
    crate::ecs_player::set_player_captured(world, player);
    let fi = FormationIndex(enemy.formation_index.0, enemy.formation_index.1 - 1);
    let mut c = empty_components();
    c.enemy = Some(Enemy { enemy_type: EnemyType::CapturedFighter, formation_index: fi, is_formation: false });
    c.zako = Some(Zako { state: ZakoState::Troop, traj: None });
    c.posture = Some(Posture(pos.plus(&Vector2D::new(0, 8 * ONE)), 0));
    c.speed = Some(Speed(0, 0));
    c.coll_rect = Some(CollRect { offset: Vector2D::new(-6, -6), size: Vector2D::new(12, 12) });
    c.sprite = Some(SpriteDrawable { sprite_name: "rustacean_captured", offset: Vector2D::new(-8, -8) });
    let captured = world.push(c);
    let troops = Troops { members: [Some((captured, Vector2D::new(0, 16 * ONE))), None, None] };
    let oc = world.get(owner).unwrap();
    world.put(owner, Components { troops: Some(troops), ..oc });
    game_info.alive_enemy_count = game_info.alive_enemy_count + 1;
}

/// A part of the beam: its step, shown where the beam starts.
pub open spec fn beam_part(i: int, pos: Vec2I) -> Components {
    Components { beam_part: Some(i as usize), posture: Some(Posture(pos, 0)), ..no_components() }
}

/// The posture of a ship pulled one frame toward a place, and whether it got there.
pub open spec fn pulled(post: Posture, target: Vec2I) -> (Posture, bool) {
    let dx = target.x - post.0.x;
    let dy = target.y - post.0.y;
    let done = dx == 0 && dy == 0;
    (Posture(
        Vector2D {
            x: (post.0.x + crate::math::clamp_spec(dx, -ONE, ONE as int)) as i32,
            y: (post.0.y + crate::math::clamp_spec(dy, -ONE, ONE as int)) as i32,
        },
        if done { 0 } else { (post.1 + crate::recaptured_fighter::SPIN_STEP) as i32 },
    ), done)
}

/// Runs a boss's tractor beam one frame. Opening, it grows a third of a step a frame, a new
/// part shown at each step, until it is fully open; open, it takes the first ship within its
/// reach (the ship is then pulled, the stars and the attacks stop), or closes after three
/// seconds; closing, it shrinks likewise, its parts taken out, and once closed a boss that
/// holds the ship learns it; pulling, it moves the ship in, and once the ship is there the
/// ship becomes the boss's fighter and the beam closes.
pub fn do_move_tractor_beam(tb: &mut TractorBeam, entity: Entity, owl: &mut Owl, enemy: &Enemy,
    game_info: &mut GameInfo, star_manager: &mut StarManager, attack_manager: &mut AttackManager, world: &mut World)
    requires
        beam_ok(*old(tb)),
        old(tb).color_count + 1 < 0x1000_0000,
        old(game_info).wf(),
        ships_ok(old(world).entities@),
        old(tb).state == TractorBeamState::Capturing ==> ({
            let pe = old(tb).capturing_player.unwrap();
            &&& first_ship_of(old(world).entities@) matches Some(pf)
                && old(world).entities@[pf.0 as int].unwrap().player.unwrap().state == PlayerState::Capturing
            &&& old(world).at(pe).is_some()
            &&& old(world).at(entity).is_some()
            &&& enemy.formation_index.1 >= 1
            &&& old(game_info).alive_enemy_count < 0xffff_ffff
        }),
        old(tb).state == TractorBeamState::Closing && old(tb).capturing_player.is_some()
            ==> old(game_info).capture_enemy_fi.1 >= 1,
    ensures
        final(game_info).wf(),
        beam_ok(*final(tb)),
        final(tb).pos == old(tb).pos,
        final(tb).color_count == old(tb).color_count + 1,
        ({
            let tb0 = *old(tb);
            let w0 = old(world).entities@;
            match tb0.state {
                TractorBeamState::Opening => {
                    let pn = (tb0.size_count as int) / (ONE as int);
                    let sz = tb0.size_count + ONE / 3;
                    let an = sz / (ONE as int);
                    &&& *final(owl) == *old(owl)
                    &&& *final(game_info) == *old(game_info)
                    &&& *final(star_manager) == *old(star_manager)
                    &&& *final(attack_manager) == *old(attack_manager)
                    &&& final(tb).capturing_player == tb0.capturing_player
                    &&& if an != pn {
                        &&& final(world).entities@ == w0.push(Some(beam_part(pn, tb0.pos)))
                        &&& final(tb).beam_sprites@ == tb0.beam_sprites@.update(pn, Some(Entity(w0.len() as usize)))
                        &&& if an >= 12 {
                            final(tb).size_count == an * ONE && final(tb).state == TractorBeamState::Full && final(tb).count == 0
                        } else {
                            final(tb).size_count == sz && final(tb).state == TractorBeamState::Opening && final(tb).count == tb0.count
                        }
                    } else {
                        &&& final(world).entities@ == w0
                        &&& final(tb).beam_sprites == tb0.beam_sprites
                        &&& final(tb).size_count == sz && final(tb).state == TractorBeamState::Opening && final(tb).count == tb0.count
                    }
                },
                TractorBeamState::Full => {
                    &&& *final(owl) == *old(owl)
                    &&& final(tb).beam_sprites == tb0.beam_sprites
                    &&& final(tb).size_count == tb0.size_count
                    &&& match beam_target_of(w0, tb0.pos, old(game_info).game_state == GameState::Playing) {
                        Some(pe) => {
                            let pc = w0[pe.0 as int].unwrap();
                            &&& final(world).entities@ == w0.update(pe.0 as int, Some(Components {
                                player: Some(PlayerShip { state: PlayerState::Capturing, ..pc.player.unwrap() }),
                                coll_rect: None,
                                ..pc
                            }))
                            &&& final(tb).capturing_player == Some(pe)
                            &&& final(tb).state == TractorBeamState::Capturing
                            &&& final(tb).count == 0
                            &&& *final(game_info) == (GameInfo { capture_state: CaptureState::Capturing, ..*old(game_info) })
                            &&& *final(star_manager) == (StarManager { capturing: true, ..*old(star_manager) })
                            &&& *final(attack_manager) == (AttackManager { paused: true, ..*old(attack_manager) })
                        },
                        None => {
                            &&& final(world).entities@ == w0
                            &&& final(tb).capturing_player == tb0.capturing_player
                            &&& final(tb).count == tb0.count + 1
                            &&& final(tb).state == if tb0.count + 1 >= BEAM_WAIT_FRAMES {
                                TractorBeamState::Closing
                            } else {
                                TractorBeamState::Full
                            }
                            &&& *final(game_info) == *old(game_info)
                            &&& *final(star_manager) == *old(star_manager)
                            &&& *final(attack_manager) == *old(attack_manager)
                        },
                    }
                },
                TractorBeamState::Closing => {
                    let pn = (tb0.size_count + ONE - 1) / (ONE as int);
                    let sz: int = if tb0.size_count > ONE / 3 { tb0.size_count - ONE / 3 } else { 0 };
                    let an = (sz + ONE - 1) / (ONE as int);
                    let captured = tb0.capturing_player.is_some();
                    &&& final(tb).size_count == sz
                    &&& final(tb).count == tb0.count
                    &&& final(tb).capturing_player == tb0.capturing_player
                    &&& *final(attack_manager) == *old(attack_manager)
                    &&& if an != pn {
                        &&& final(tb).beam_sprites@ == tb0.beam_sprites@.update(an, None)
                        &&& final(world).entities@ == match tb0.beam_sprites@[an] {
                            Some(e) => if e.0 < w0.len() { w0.update(e.0 as int, None) } else { w0 },
                            None => w0,
                        }
                        &&& if an == 0 {
                            &&& final(tb).state == TractorBeamState::Closed
                            &&& *final(star_manager) == if captured {
                                StarManager { capturing: false, ..*old(star_manager) }
                            } else {
                                *old(star_manager)
                            }
                            &&& *final(owl) == if captured {
                                Owl { state: OwlState::CaptureAttack(OwlCaptureAttackPhase::CaptureDoneWait), count: 0, ..*old(owl) }
                            } else {
                                *old(owl)
                            }
                            &&& *final(game_info) == if captured {
                                GameInfo { capture_state: CaptureState::Captured, game_state: GameState::Captured, count: 0, ..*old(game_info) }
                            } else {
                                *old(game_info)
                            }
                        } else {
                            &&& final(tb).state == TractorBeamState::Closing
                            &&& *final(star_manager) == *old(star_manager)
                            &&& *final(owl) == *old(owl)
                            &&& *final(game_info) == *old(game_info)
                        }
                    } else {
                        &&& final(tb).beam_sprites == tb0.beam_sprites
                        &&& final(world).entities@ == w0
                        &&& final(tb).state == TractorBeamState::Closing
                        &&& *final(star_manager) == *old(star_manager)
                        &&& *final(owl) == *old(owl)
                        &&& *final(game_info) == *old(game_info)
                    }
                },
                TractorBeamState::Closed => {
                    &&& *final(tb) == (TractorBeam { color_count: (tb0.color_count + 1) as u32, ..tb0 })
                    &&& final(world).entities@ == w0
                    &&& *final(owl) == *old(owl)
                    &&& *final(game_info) == *old(game_info)
                    &&& *final(star_manager) == *old(star_manager)
                    &&& *final(attack_manager) == *old(attack_manager)
                },
                TractorBeamState::Capturing => {
                    let pf = first_ship_of(w0).unwrap();
                    let pfc = w0[pf.0 as int].unwrap();
                    let (post, done) = pulled(pfc.posture.unwrap(), Vector2D { x: tb0.pos.x, y: (tb0.pos.y + 8 * ONE) as i32 });
                    let p1 = pfc.player.unwrap();
                    let w1 = w0.update(pf.0 as int, Some(Components {
                        player: Some(if done { PlayerShip { state: PlayerState::Captured, ..p1 } } else { p1 }),
                        posture: Some(post),
                        ..pfc
                    }));
                    &&& *final(owl) == *old(owl)
                    &&& *final(star_manager) == *old(star_manager)
                    &&& *final(attack_manager) == *old(attack_manager)
                    &&& final(tb).beam_sprites == tb0.beam_sprites
                    &&& final(tb).size_count == tb0.size_count
                    &&& final(tb).count == tb0.count
                    &&& final(tb).capturing_player == tb0.capturing_player
                    &&& if done {
                        let pe = tb0.capturing_player.unwrap();
                        let w2 = w1.update(pe.0 as int, Some(Components { sprite: None, ..w1[pe.0 as int].unwrap() }));
                        let w3 = w2.push(Some(captured_fighter(
                            FormationIndex(enemy.formation_index.0, (enemy.formation_index.1 - 1) as u8),
                            Vector2D { x: tb0.pos.x, y: (tb0.pos.y + 8 * ONE) as i32 })));
                        let oc = final(world).at(entity).unwrap();
                        &&& final(world).entities@ == w3.update(entity.0 as int, Some(Components { troops: oc.troops, ..w3[entity.0 as int].unwrap() }))
                        &&& oc.troops matches Some(t) && t.members@ == seq![
                            Some((Entity(w0.len() as usize), Vector2D { x: 0i32, y: 4096i32 })),
                            None::<(Entity, Vec2I)>,
                            None::<(Entity, Vec2I)>]
                        &&& final(tb).state == TractorBeamState::Closing
                        &&& *final(game_info) == (GameInfo { alive_enemy_count: (old(game_info).alive_enemy_count + 1) as u32, ..*old(game_info) })
                    } else {
                        &&& final(world).entities@ == w1
                        &&& final(tb).state == TractorBeamState::Capturing
                        &&& *final(game_info) == *old(game_info)
                    }
                },
            }
        }),
{
    tb.color_count = tb.color_count + 1;
    match tb.state {
        TractorBeamState::Opening => {
            let pn = tb.size_count / ONE;
            tb.size_count = tb.size_count + ONE / 3;
            let an = tb.size_count / ONE;
            if an != pn {
                let i = pn as usize;
                let mut part = empty_components();
                part.beam_part = Some(i);
                part.posture = Some(Posture(tb.pos, 0));
                let e = world.push(part);
                tb.beam_sprites[i] = Some(e);
                if an >= 12 {
                    tb.size_count = an * ONE;
                    tb.state = TractorBeamState::Full;
                    tb.count = 0;
                }
            }
        },
        TractorBeamState::Full => {
            let target = can_tractor_beam_capture_player(game_info, &tb.pos, world);
            proof {
                lemma_beam_target_unique(world.entities@, tb.pos, game_info.game_state == GameState::Playing, target);
            }
            if let Some(pe) = target {
                let pc = world.get(pe).unwrap();
                let mut player = pc.player.unwrap();
                start_player_capturing(&mut player, world, pe);
                let pc2 = world.get(pe).unwrap();
                world.put(pe, Components { player: Some(player), ..pc2 });
                start_capturing(tb, pe);
                game_info.start_capturing();
                star_manager.set_capturing(true);
                attack_manager.pause(true);
                return;
            }
            tb.count = tb.count + 1;
            if tb.count >= BEAM_WAIT_FRAMES {
                tb.state = TractorBeamState::Closing;
            }
        },
        TractorBeamState::Closing => {
            let pn = (tb.size_count + ONE - 1) / ONE;
            if tb.size_count > ONE / 3 {
                tb.size_count = tb.size_count - ONE / 3;
            } else {
                tb.size_count = 0;
            }
            let an = (tb.size_count + ONE - 1) / ONE;
            if an != pn {
                let i = an as usize;
                if let Some(e) = tb.beam_sprites[i] {
                    world.remove(e);
                }
                tb.beam_sprites[i] = None;
                if an == 0 {
                    tb.state = TractorBeamState::Closed;
                    let captured = tb.capturing_player.is_some();
                    if captured {
                        star_manager.set_capturing(false);
                    }
                    on_capturing_player_completed(owl, captured, game_info);
                    return;
                }
            }
        },
        TractorBeamState::Closed => {},
        TractorBeamState::Capturing => {
            let pe = tb.capturing_player.unwrap();
            let pf_opt = find_ship(world);
            proof {
                lemma_first_ship_unique(world.entities@, pf_opt);
            }
            let pf = pf_opt.unwrap();
            let pfc = world.get(pf).unwrap();
            let mut player = pfc.player.unwrap();
            let mut posture = pfc.posture.unwrap();
            let target = tb.pos.plus(&Vector2D::new(0, 8 * ONE));
            let done = move_capturing_player(&mut player, &mut posture, &target);
            world.put(pf, Components { player: Some(player), posture: Some(posture), ..pfc });
            if done {
                on_player_captured(enemy, &tb.pos, entity, pe, game_info, world);
                tb.state = TractorBeamState::Closing;
            }
        },
    }
}

/// One of the first `n` places of an escort holds the entity at a place.
pub open spec fn member_upto(members: Seq<Option<(Entity, Vec2I)>>, n: int, j: int) -> bool
    decreases n,
{
    if n <= 0 {
        false
    } else {
        member_upto(members, n - 1, j) || (members[n - 1] matches Some(m) && m.0.0 == j)
    }
}

/// An escort member back in its slot: it rests there again.
pub open spec fn released(c: Components) -> Components {
    Components {
        enemy: Some(Enemy { is_formation: true, ..c.enemy.unwrap() }),
        zako: match c.zako {
            Some(z) => Some(Zako { state: ZakoState::Formation, ..z }),
            None => None,
        },
        ..c
    }
}

/// The world after the members of an escort that are enemies go back to their slots.
pub open spec fn release_world(w: Seq<Option<Components>>, members: Seq<Option<(Entity, Vec2I)>>) -> Seq<Option<Components>> {
    Seq::new(w.len(), |j: int| if member_upto(members, 3, j) && (w[j] matches Some(c) && c.enemy.is_some()) {
        Some(released(w[j].unwrap()))
    } else {
        w[j]
    })
}

/// The members of an escort go back to their slots, and the escort is empty.
pub fn release_troops(troops: &mut Troops, world: &mut World)
    ensures
        forall|i: int| 0 <= i < 3 ==> (#[trigger] final(troops).members@[i]).is_none(),
        final(world).entities@ == release_world(old(world).entities@, old(troops).members@),
{
    let ghost members = troops.members@;
    let mut i: usize = 0;
    while i < TROOPS_COUNT
        invariant
            i <= 3,
            troops.members@.len() == 3,
            members.len() == 3,
            forall|k: int| 0 <= k < i ==> (#[trigger] troops.members@[k]).is_none(),
            forall|k: int| i <= k < 3 ==> #[trigger] troops.members@[k] == members[k],
            old(troops).members@ == members,
            world.entities@.len() == old(world).entities@.len(),
            forall|j: int| 0 <= j < old(world).entities@.len() ==> #[trigger] world.entities@[j] == if member_upto(members, i as int, j)
                && (old(world).entities@[j] matches Some(c) && c.enemy.is_some()) {
                Some(released(old(world).entities@[j].unwrap()))
            } else {
                old(world).entities@[j]
            },
        decreases 3 - i,
    {
        if let Some(m) = troops.members[i] {
            if let Some(c) = world.get(m.0) {
                if let Some(enemy) = c.enemy {
                    let zako = match c.zako {
                        Some(z) => Some(Zako { state: ZakoState::Formation, ..z }),
                        None => None,
                    };
                    world.put(m.0, Components { enemy: Some(Enemy { is_formation: true, ..enemy }), zako, ..c });
                }
            }
        }
        troops.members[i] = None;
        i += 1;
    }
    assert(world.entities@ =~= release_world(old(world).entities@, members));
}

/// The world after a boss goes back to its slot: its escort goes back too and leaves it, and
/// it rests in its slot; a boss without life leaves the world.
pub open spec fn to_formation_world(w: Seq<Option<Components>>, e: Entity, life: u32) -> Seq<Option<Components>> {
    let c = w[e.0 as int].unwrap();
    let w1 = match c.troops {
        Some(t) => release_world(w, t.members@),
        None => w,
    };
    let c1 = w1[e.0 as int].unwrap();
    let w2 = w1.update(e.0 as int, Some(Components {
        troops: None,
        enemy: Some(Enemy { is_formation: true, ..c1.enemy.unwrap() }),
        ..c1
    }));
    if life == 0 { w2.update(e.0 as int, None) } else { w2 }
}

/// A boss is back in its slot: its escort goes back to theirs, it rests there, and it leaves
/// the world if it has no life left; tells whether it stays.
pub fn set_to_formation(owl: &mut Owl, entity: Entity, world: &mut World) -> (stays: bool)
    requires
        old(world).at(entity) matches Some(c) && c.enemy.is_some(),
        old(world).at(entity).unwrap().troops matches Some(t) ==> !member_upto(t.members@, 3, entity.0 as int),
    ensures
        stays == (old(owl).life != 0),
        *final(owl) == (Owl { capturing_state: OwlCapturingState::Idle, state: OwlState::Formation, ..*old(owl) }),
        final(world).entities@ == to_formation_world(old(world).entities@, entity, old(owl).life),
{
    let c = world.get(entity).unwrap();
    if let Some(t) = c.troops {
        let mut troops = t;
        release_troops(&mut troops, world);
    }
    let c1 = world.get(entity).unwrap();
    let enemy = c1.enemy.unwrap();
    world.put(entity, Components { troops: None, enemy: Some(Enemy { is_formation: true, ..enemy }), ..c1 });
    owl.capturing_state = OwlCapturingState::Idle;
    owl.state = OwlState::Formation;
    if owl.life == 0 {
        world.remove(entity);
        false
    } else {
        true
    }
}

/// Bounds of a boss's target under which its dive runs without overflow.
pub open spec fn target_ok(t: Vec2I) -> bool {
    -0x3_0000 <= t.x <= 0x3_0000 && -0x3_0000 <= t.y <= 0x3_0000
}

/// One frame of a boss's capture attack, by its step, from the boss, its posture and speed, the
/// game and the world before to those after. It dives at the place above the ship, turning
/// at most to 30 degrees off straight down, and there opens its beam, facing down. With the
/// beam closed and nothing caught it leaves downward and comes back from the top to its slot;
/// when the beam takes the ship the capture starts. Once the ship is held, it waits two
/// seconds, flies back to its slot, and pushes the captured fighter up to its place above,
/// after which both rest in the formation and the capture scene is over.
pub open spec fn capture_step(entity: Entity, phase: OwlCaptureAttackPhase, formation: &Formation,
    owl0: Owl, post0: Posture, speed0: Speed, gi0: GameInfo, w0: Seq<Option<Components>>,
    owl1: Owl, post1: Posture, speed1: Speed, gi1: GameInfo, w1: Seq<Option<Components>>) -> bool {
    let p = post0.0;
    let a = post0.1;
    let spd = speed0.0;
    let va = speed0.1;
    let c0 = w0[entity.0 as int].unwrap();
    let no_beam = w0.update(entity.0 as int, Some(Components { tractor_beam: None, ..c0 }));
    match phase {
        OwlCaptureAttackPhase::Capture => {
            let t = owl0.target_pos;
            let ta = capture_target_angle(atan2_spec(-(t.y - p.y), t.x - p.x));
            let d = steer_diff(angle_diff(ta, a as int), va as int);
            let locked = -4 * ONE <= d < 4 * ONE;
            &&& gi1 == gi0
            &&& if p.y >= t.y {
                let ftb = w1[entity.0 as int].unwrap().tractor_beam;
                &&& post1 == Posture(Vector2D { x: p.x, y: t.y }, (ANGLE / 2 * ONE) as i32)
                &&& speed1 == Speed(0, 0)
                &&& ftb matches Some(tb) && is_new_beam(tb, Vector2D { x: p.x, y: (t.y + 8 * ONE) as i32 })
                &&& w1 == w0.update(entity.0 as int, Some(Components { tractor_beam: ftb, ..c0 }))
                &&& owl1 == (Owl { state: OwlState::CaptureAttack(OwlCaptureAttackPhase::CaptureBeam), ..owl0 })
            } else {
                &&& post1 == Posture(p, if locked { ta as i32 } else { a })
                &&& speed1 == Speed(spd, if locked { 0 } else { va })
                &&& w1 == w0
                &&& owl1 == owl0
            }
        },
        OwlCaptureAttackPhase::CaptureBeam => {
            let tb = c0.tractor_beam.unwrap();
            &&& post1 == post0
            &&& if tb.state == TractorBeamState::Closed {
                &&& w1 == no_beam
                &&& speed1 == Speed(640i32, va)
                &&& owl1 == (Owl { state: OwlState::CaptureAttack(OwlCaptureAttackPhase::NoCaptureGoOut), ..owl0 })
                &&& gi1 == gi0
            } else if tb.state == TractorBeamState::Capturing {
                &&& w1 == w0
                &&& speed1 == speed0
                &&& owl1 == (Owl {
                    capturing_state: OwlCapturingState::BeamTracting,
                    state: OwlState::CaptureAttack(OwlCaptureAttackPhase::Capturing),
                    ..owl0
                })
                &&& gi1 == (GameInfo { game_state: GameState::Capturing, capture_state: CaptureState::Capturing, ..gi0 })
            } else {
                &&& w1 == w0
                &&& speed1 == speed0
                &&& owl1 == owl0
                &&& gi1 == gi0
            }
        },
        OwlCaptureAttackPhase::NoCaptureGoOut => {
            &&& w1 == w0
            &&& speed1 == speed0
            &&& if p.y >= (HEIGHT + 8) * ONE {
                let target = formation.pos_spec(c0.enemy.unwrap().formation_index);
                &&& post1 == Posture(Vector2D { x: target.x, y: (p.y + (-32 - (HEIGHT + 8)) * ONE) as i32 }, a)
                &&& owl1 == (Owl { state: OwlState::MoveToFormation, capturing_state: OwlCapturingState::Failed, ..owl0 })
                &&& gi1 == (GameInfo { capture_state: CaptureState::NoCapture, capture_enemy_fi: FormationIndex(0, 0), ..gi0 })
            } else {
                &&& post1 == post0
                &&& owl1 == owl0
                &&& gi1 == gi0
            }
        },
        OwlCaptureAttackPhase::Capturing => {
            &&& w1 == w0
            &&& post1 == post0
            &&& speed1 == speed0
            &&& owl1 == owl0
            &&& gi1 == gi0
        },
        OwlCaptureAttackPhase::CaptureDoneWait => {
            let n = owl0.count + 1;
            &&& w1 == if owl0.count == 0 { no_beam } else { w0 }
            &&& post1 == post0
            &&& gi1 == gi0
            &&& if n >= 120 {
                &&& speed1 == Speed(640i32, va)
                &&& owl1 == (Owl { count: n as u32, state: OwlState::CaptureAttack(OwlCaptureAttackPhase::CaptureDoneBack), ..owl0 })
            } else {
                &&& speed1 == speed0
                &&& owl1 == (Owl { count: n as u32, ..owl0 })
            }
        },
        OwlCaptureAttackPhase::CaptureDoneBack => {
            let target = formation.pos_spec(c0.enemy.unwrap().formation_index);
            let dx = target.x - p.x;
            let dy = target.y - p.y;
            let sq = half_shift(dx) * half_shift(dx) + half_shift(dy) * half_shift(dy);
            let sp = half_shift(spd as int);
            &&& w1 == w0
            &&& gi1 == gi0
            &&& if sq > sp * sp {
                let dlimit = trunc_div(spd * 5, 3);
                &&& post1 == Posture(p, (a + clamp_spec(angle_diff(atan2_spec(-dy, dx), a as int), -dlimit, dlimit)) as i32)
                &&& speed1 == Speed(spd, 0)
                &&& owl1 == owl0
            } else {
                &&& post1 == Posture(target, normalized(a as int) as i32)
                &&& speed1 == Speed(0, 0)
                &&& owl1 == (Owl {
                    capturing_state: OwlCapturingState::Idle,
                    state: OwlState::CaptureAttack(OwlCaptureAttackPhase::CaptureDonePushUp),
                    ..owl0
                })
            }
        },
        OwlCaptureAttackPhase::CaptureDonePushUp => {
            let t = c0.troops.unwrap();
            let m = t.members@[0].unwrap();
            let y = m.1.y - ONE;
            &&& post1 == Posture(p, (a - clamp_spec(a as int, -(ANGLE * ONE / 128), ANGLE * ONE / 128)) as i32)
            &&& speed1 == speed0
            &&& if y <= -16 * ONE {
                &&& w1 == to_formation_world(w0, entity, owl0.life)
                &&& owl1 == (Owl { capturing_state: OwlCapturingState::Idle, state: OwlState::Formation, ..owl0 })
                &&& gi1 == (GameInfo { game_state: GameState::WaitReady, count: 59, ..gi0 })
            } else {
                let ft = w1[entity.0 as int].unwrap().troops.unwrap();
                &&& w1 == w0.update(entity.0 as int, Some(Components { troops: Some(ft), ..c0 }))
                &&& ft.members@ == t.members@.update(0, Some((m.0, Vector2D { x: m.1.x, y: y as i32 })))
                &&& owl1 == owl0
                &&& gi1 == gi0
            }
        },
    }
}

/// What a capture attack needs to run a frame: bounds, and the components of its step.
pub open spec fn capture_ok(entity: Entity, phase: OwlCaptureAttackPhase, owl: Owl, post: Posture, speed: Speed,
    gi: GameInfo, w: &World) -> bool {
    &&& motion_ok(post, speed)
    &&& target_ok(owl.target_pos)
    &&& owl.count < 0xffff_ffff
    &&& gi.wf()
    &&& w.at(entity) matches Some(c)
    &&& phase == OwlCaptureAttackPhase::CaptureBeam ==> w.at(entity).unwrap().tractor_beam.is_some()
    &&& phase == OwlCaptureAttackPhase::NoCaptureGoOut || phase == OwlCaptureAttackPhase::CaptureDoneBack
        || phase == OwlCaptureAttackPhase::CaptureDonePushUp ==> (w.at(entity).unwrap().enemy matches Some(en)
        && slot_ok(en.formation_index))
    &&& phase == OwlCaptureAttackPhase::NoCaptureGoOut ==> gi.capture_state != CaptureState::Captured
    &&& phase == OwlCaptureAttackPhase::CaptureDonePushUp ==> (w.at(entity).unwrap().troops matches Some(t)
        && (t.members@[0] matches Some(m) && -0x10_0000 <= m.1.y)
        && !member_upto(t.members@, 3, entity.0 as int))
}

/// Runs one frame of a boss's capture attack (see `capture_step`).
pub fn run_capture_attack(owl: &mut Owl, entity: Entity, phase: OwlCaptureAttackPhase, posture: &mut Posture,
    speed: &mut Speed, formation: &Formation, game_info: &mut GameInfo, world: &mut World)
    requires
        capture_ok(entity, phase, *old(owl), *old(posture), *old(speed), *old(game_info), &*old(world)),
        formation.wf(),
    ensures
        final(game_info).wf(),
        forward_ok(*final(posture), *final(speed)),
        capture_step(entity, phase, formation, *old(owl), *old(posture), *old(speed), *old(game_info),
            old(world).entities@, *final(owl), *final(posture), *final(speed), *final(game_info), final(world).entities@),
{
    proof {
        formation.lemma_wf_bounds();
    }
    let c0 = world.get(entity).unwrap();
    match phase {
        OwlCaptureAttackPhase::Capture => {
            let dlimit: i32 = 4 * ONE;
            let dpos = owl.target_pos.minus(&posture.0);
            let target_angle = atan2_lut(-dpos.y, dpos.x);
            let ang_limit: i32 = ANGLE * ONE / 2 - ANGLE * ONE * 30 / 360;
            let target_angle = if target_angle >= 0 {
                if target_angle > ang_limit { target_angle } else { ang_limit }
            } else {
                if target_angle < -ang_limit { target_angle } else { -ang_limit }
            };
            assert(-ANGLE * ONE / 2 <= target_angle <= ANGLE * ONE / 2);
            let mut d = diff_angle(target_angle, posture.1);
            if speed.1 > 0 && d < 0 {
                d += ANGLE * ONE;
            } else if speed.1 < 0 && d > 0 {
                d -= ANGLE * ONE;
            }
            if d >= -dlimit && d < dlimit {
                posture.1 = target_angle;
                speed.1 = 0;
            }
            if posture.0.y >= owl.target_pos.y {
                posture.0.y = owl.target_pos.y;
                speed.0 = 0;
                posture.1 = ANGLE / 2 * ONE;
                speed.1 = 0;
                let tb = create_tractor_beam(&posture.0.plus(&Vector2D::new(0, 8 * ONE)));
                world.put(entity, Components { tractor_beam: Some(tb), ..c0 });
                owl.state = OwlState::CaptureAttack(OwlCaptureAttackPhase::CaptureBeam);
            }
        },
        OwlCaptureAttackPhase::CaptureBeam => {
            let tb = c0.tractor_beam.unwrap();
            if tractor_beam_closed(&tb) {
                world.put(entity, Components { tractor_beam: None, ..c0 });
                speed.0 = 5 * ONE / 2;
                owl.state = OwlState::CaptureAttack(OwlCaptureAttackPhase::NoCaptureGoOut);
            } else if is_tractor_beam_capturing(&tb) {
                game_info.capture_player();
                owl.capturing_state = OwlCapturingState::BeamTracting;
                owl.state = OwlState::CaptureAttack(OwlCaptureAttackPhase::Capturing);
            }
        },
        OwlCaptureAttackPhase::NoCaptureGoOut => {
            if posture.0.y >= (HEIGHT + 8) * ONE {
                let enemy = c0.enemy.unwrap();
                let target_pos = formation.pos(&enemy.formation_index);
                let offset = Vector2D::new(target_pos.x - posture.0.x, (-32 - (HEIGHT + 8)) * ONE);
                posture.0 = posture.0.plus(&offset);
                owl.state = OwlState::MoveToFormation;
                owl.capturing_state = OwlCapturingState::Failed;
                game_info.end_capture_attack();
            }
        },
        OwlCaptureAttackPhase::Capturing => {},
        OwlCaptureAttackPhase::CaptureDoneWait => {
            if owl.count == 0 {
                world.put(entity, Components { tractor_beam: None, ..c0 });
            }
            owl.count = owl.count + 1;
            if owl.count >= 120 {
                speed.0 = 5 * ONE / 2;
                owl.state = OwlState::CaptureAttack(OwlCaptureAttackPhase::CaptureDoneBack);
            }
        },
        OwlCaptureAttackPhase::CaptureDoneBack => {
            let enemy = c0.enemy.unwrap();
            if move_to_formation(posture, speed, &enemy.formation_index, formation) {
                speed.0 = 0;
                let a = posture.1;
                posture.1 = normalize_angle(a);
                assert(normalized(a as int) == a);
                owl.capturing_state = OwlCapturingState::Idle;
                owl.state = OwlState::CaptureAttack(OwlCaptureAttackPhase::CaptureDonePushUp);
            }
        },
        OwlCaptureAttackPhase::CaptureDonePushUp => {
            let t = c0.troops.unwrap();
            let ang: i32 = ANGLE * ONE / 128;
            posture.1 = posture.1 - clamp(posture.1, -ang, ang);
            let m = t.members[0].unwrap();
            let y = m.1.y - ONE;
            let topy: i32 = -16 * ONE;
            if y <= topy {
                set_to_formation(owl, entity, world);
                game_info.capture_completed();
            } else {
                let mut troops = t;
                troops.members[0] = Some((m.0, Vector2D::new(m.1.x, y)));
                world.put(entity, Components { troops: Some(troops), ..c0 });
            }
        },
    }
}

/// A fighter is set free: the captured fighter leaves the world and a rescued fighter spins
/// where it was; the attacks pause, the rescue starts, and one enemy less is alive.
pub fn start_recapturing(owner_entity: Entity, player_entity: Entity, attack_manager: &mut AttackManager,
    game_info: &mut GameInfo, world: &mut World)
    requires
        old(world).at(owner_entity) matches Some(c) && c.posture.is_some(),
        old(game_info).wf(),
        old(game_info).alive_enemy_count > 0,
    ensures
        final(game_info).wf(),
        ({
            let post = old(world).at(owner_entity).unwrap().posture.unwrap();
            final(world).entities@ == old(world).entities@.push(Some(recapture_effect(post.0, post.1, player_entity)))
                .update(owner_entity.0 as int, None)
        }),
        *final(attack_manager) == (AttackManager { paused: true, ..*old(attack_manager) }),
        *final(game_info) == (GameInfo {
            game_state: GameState::Recapturing,
            capture_state: CaptureState::Recapturing,
            alive_enemy_count: (old(game_info).alive_enemy_count - 1) as u32,
            ..*old(game_info)
        }),
{
    let post = world.get(owner_entity).unwrap().posture.unwrap();
    start_recapture_effect(world, &post.0, post.1, player_entity);
    world.remove(owner_entity);
    attack_manager.pause(true);
    game_info.start_recapturing();
    game_info.decrement_alive_enemy();
}

/// The escort member is the captured fighter: an enemy in the given slot.
pub open spec fn is_cap_member(w: Seq<Option<Components>>, m: Option<(Entity, Vec2I)>, cap_fi: FormationIndex) -> bool {
    m matches Some(x) && x.0.0 < w.len() && (w[x.0.0 as int] matches Some(tc)
        && (tc.enemy matches Some(en) && en.formation_index == cap_fi))
}

/// The first place of the escort that holds the captured fighter; 3 when none does.
pub open spec fn cap_member_index(w: Seq<Option<Components>>, members: Seq<Option<(Entity, Vec2I)>>, cap_fi: FormationIndex) -> int {
    if is_cap_member(w, members[0], cap_fi) {
        0
    } else if is_cap_member(w, members[1], cap_fi) {
        1
    } else if is_cap_member(w, members[2], cap_fi) {
        2
    } else {
        3
    }
}

fn cap_member(world: &World, m: Option<(Entity, Vec2I)>, cap_fi: FormationIndex) -> (b: bool)
    ensures
        b == is_cap_member(world.entities@, m, cap_fi),
{
    match m {
        Some(x) => match world.get(x.0) {
            Some(tc) => match tc.enemy {
                Some(en) => en.formation_index == cap_fi,
                None => false,
            },
            None => false,
        },
        None => false,
    }
}

/// An escort that still has a member.
pub open spec fn has_member(members: Seq<Option<(Entity, Vec2I)>>) -> bool {
    members[0].is_some() || members[1].is_some() || members[2].is_some()
}

/// The world once a destroyed boss's beam is gone: the beam breaks and leaves the boss.
pub open spec fn beam_gone_world(w: Seq<Option<Components>>, e: Entity) -> Seq<Option<Components>> {
    let c = w[e.0 as int].unwrap();
    match c.tractor_beam {
        Some(tb) => broken_world(w, tb).update(e.0 as int, Some(Components { tractor_beam: None, ..c })),
        None => w,
    }
}

/// A shot hits a boss. With life left it loses some and looks damaged. Else it is
/// destroyed: its beam breaks; a capture in progress ends (a ship being pulled escapes); a
/// captured fighter in its escort is set free; and it leaves the world, unless it still has
/// an escort, which it keeps leading unseen and untouchable. Tells whether it was destroyed.
pub fn set_owl_damage(owl: &mut Owl, entity: Entity, power: u32, player_entity: Entity,
    attack_manager: &mut AttackManager, star_manager: &mut StarManager, game_info: &mut GameInfo, world: &mut World)
    -> (destroyed: bool)
    requires
        old(world).at(entity) matches Some(c) && c.sprite.is_some() && c.enemy.is_some(),
        old(game_info).wf(),
        old(owl).capturing_state == OwlCapturingState::Attacking || old(owl).capturing_state == OwlCapturingState::Failed
            ==> old(game_info).capture_state != CaptureState::Captured,
        old(owl).life <= power ==> ({
            let c = old(world).at(entity).unwrap();
            &&& c.tractor_beam matches Some(tb) ==> {
                &&& !shows(tb.beam_sprites@, entity.0 as int)
                &&& tb.state == TractorBeamState::Capturing ==> (tb.capturing_player matches Some(pe)
                    && pe != entity
                    && (old(world).at(pe) matches Some(pc) && pc.player.is_some())
                    && !shows(tb.beam_sprites@, pe.0 as int))
                &&& tb.state != TractorBeamState::Capturing ==> tb.capturing_player.is_none()
            }
            &&& c.troops matches Some(t) ==> {
                let w1 = beam_gone_world(old(world).entities@, entity);
                let cap_fi = FormationIndex(c.enemy.unwrap().formation_index.0, (c.enemy.unwrap().formation_index.1 - 1) as u8);
                let k = cap_member_index(w1, t.members@, cap_fi);
                &&& c.enemy.unwrap().formation_index.1 >= 1
                &&& k < 3 ==> {
                    let te = t.members@[k].unwrap().0;
                    &&& te != entity
                    &&& w1[te.0 as int].unwrap().posture.is_some()
                    &&& old(game_info).alive_enemy_count > 0
                }
            }
        }),
    ensures
        final(game_info).wf(),
        destroyed == (old(owl).life <= power),
        ({
            let c = old(world).at(entity).unwrap();
            let w0 = old(world).entities@;
            if old(owl).life > power {
                &&& *final(owl) == (Owl { life: (old(owl).life - power) as u32, ..*old(owl) })
                &&& final(world).entities@ == w0.update(entity.0 as int, Some(Components {
                    sprite: Some(SpriteDrawable { sprite_name: "cpp21", ..c.sprite.unwrap() }),
                    ..c
                }))
                &&& *final(game_info) == *old(game_info)
                &&& *final(star_manager) == *old(star_manager)
                &&& *final(attack_manager) == *old(attack_manager)
            } else {
                let w1 = beam_gone_world(w0, entity);
                let g1 = match old(owl).capturing_state {
                    OwlCapturingState::Idle => *old(game_info),
                    _ => GameInfo { capture_state: CaptureState::NoCapture, capture_enemy_fi: FormationIndex(0, 0), ..*old(game_info) },
                };
                &&& *final(owl) == (Owl { life: 0, capturing_state: OwlCapturingState::Idle, ..*old(owl) })
                &&& *final(star_manager) == if old(owl).capturing_state == OwlCapturingState::BeamTracting {
                    StarManager { capturing: false, ..*old(star_manager) }
                } else {
                    *old(star_manager)
                }
                &&& match c.troops {
                    Some(t) => {
                        let cap_fi = FormationIndex(c.enemy.unwrap().formation_index.0, (c.enemy.unwrap().formation_index.1 - 1) as u8);
                        let k = cap_member_index(w1, t.members@, cap_fi);
                        let members = if k < 3 { t.members@.update(k, None) } else { t.members@ };
                        let w2 = if k < 3 {
                            let te = t.members@[k].unwrap().0;
                            let post = w1[te.0 as int].unwrap().posture.unwrap();
                            w1.push(Some(recapture_effect(post.0, post.1, player_entity))).update(te.0 as int, None)
                        } else {
                            w1
                        };
                        &&& *final(attack_manager) == if k < 3 {
                            AttackManager { paused: true, ..*old(attack_manager) }
                        } else {
                            *old(attack_manager)
                        }
                        &&& *final(game_info) == if k < 3 {
                            GameInfo {
                                game_state: GameState::Recapturing,
                                capture_state: CaptureState::Recapturing,
                                alive_enemy_count: (g1.alive_enemy_count - 1) as u32,
                                ..g1
                            }
                        } else {
                            g1
                        }
                        &&& if has_member(members) {
                            let ft = final(world).entities@[entity.0 as int].unwrap().troops.unwrap();
                            &&& ft.members@ == members
                            &&& final(world).entities@ == w2.update(entity.0 as int, Some(Components {
                                sprite: None,
                                coll_rect: None,
                                troops: Some(ft),
                                ..w2[entity.0 as int].unwrap()
                            }))
                        } else {
                            final(world).entities@ == w2.update(entity.0 as int, None)
                        }
                    },
                    None => {
                        &&& *final(attack_manager) == *old(attack_manager)
                        &&& *final(game_info) == g1
                        &&& final(world).entities@ == w1.update(entity.0 as int, None)
                    },
                }
            }
        }),
{
    let c = world.get(entity).unwrap();
    if owl.life > power {
        owl.life = owl.life - power;
        let sp = c.sprite.unwrap();
        world.put(entity, Components { sprite: Some(SpriteDrawable { sprite_name: "cpp21", ..sp }), ..c });
        return false;
    }
    owl.life = 0;
    if let Some(tb0) = c.tractor_beam {
        let mut tb = tb0;
        break_tractor_beam(&mut tb, world);
        let c1 = world.get(entity).unwrap();
        world.put(entity, Components { tractor_beam: None, ..c1 });
        assert(world.entities@ =~= beam_gone_world(old(world).entities@, entity));
    }
    let ghost w1 = world.entities@;
    match owl.capturing_state {
        OwlCapturingState::Idle => {},
        OwlCapturingState::BeamTracting => {
            game_info.escape_capturing();
            star_manager.set_capturing(false);
        },
        OwlCapturingState::Attacking | OwlCapturingState::Failed => {
            game_info.end_capture_attack();
        },
    }
    let c2 = world.get(entity).unwrap();
    let keep = match c2.troops {
        Some(t) => {
            let en = c.enemy.unwrap();
            let cap_fi = FormationIndex(en.formation_index.0, en.formation_index.1 - 1);
            let k: usize = if cap_member(world, t.members[0], cap_fi) {
                0
            } else if cap_member(world, t.members[1], cap_fi) {
                1
            } else if cap_member(world, t.members[2], cap_fi) {
                2
            } else {
                3
            };
            let mut troops = t;
            if k < 3 {
                let te = troops.members[k].unwrap().0;
                start_recapturing(te, player_entity, attack_manager, game_info, world);
                troops.members[k] = None;
            }
            let keep = troops.members[0].is_some() || troops.members[1].is_some() || troops.members[2].is_some();
            if keep {
                let c3 = world.get(entity).unwrap();
                world.put(entity, Components { troops: Some(troops), ..c3 });
            }
            keep
        },
        None => false,
    };
    owl.capturing_state = OwlCapturingState::Idle;
    if !keep {
        world.remove(entity);
    } else {
        let c4 = world.get(entity).unwrap();
        world.put(entity, Components { sprite: None, coll_rect: None, ..c4 });
    }
    true
}

/// Life of a new boss: two hits.
pub const OWL_LIFE: u32 = 2;

/// A boss entering the screen along a path.
pub fn create_owl(traj: Traj) -> (o: Owl)
    ensures
        o == (Owl {
            state: OwlState::Appearance,
            traj: Some(traj),
            capturing_state: OwlCapturingState::Idle,
            target_pos: Vector2D { x: 0i32, y: 0i32 },
            count: 0,
            life: OWL_LIFE,
        }),
{
    Owl {
        state: OwlState::Appearance,
        traj: Some(traj),
        capturing_state: OwlCapturingState::Idle,
        target_pos: Vector2D::new(0, 0),
        count: 0,
        life: OWL_LIFE,
    }
}

/// The path goes on after a step.
pub open spec fn goes_on(t: Traj) -> bool {
    t.index < t.command_table@.len() || t.delay > 0
}

/// Runs a path one frame and places the boss on it; tells whether the path goes on.
fn fly(traj: &mut Traj, posture: &mut Posture, speed: &mut Speed, formation: &Formation) -> (cont: bool)
    requires
        old(traj).limits_ok(),
        formation.wf(),
    ensures
        ({
            let t2 = stepped(*old(traj), formation_x_of(formation, old(traj).fi));
            &&& *final(traj) == t2
            &&& cont == goes_on(t2)
            &&& *final(posture) == Posture(t2.pos_spec(), t2.angle)
            &&& *final(speed) == Speed(t2.speed, t2.vangle)
        }),
{
    let cont = traj.update(formation);
    posture.0 = traj.pos();
    posture.1 = traj.angle;
    speed.0 = traj.speed;
    speed.1 = traj.vangle;
    cont
}

/// A rush: the boss attacks again along a path from where it is, mirrored on the right half.
pub open spec fn rushing(t: Traj, pos: Vec2I, fi: FormationIndex) -> bool {
    &&& t.pos == pos
    &&& t.flip_x == (fi.0 >= 5)
    &&& t.fi == fi
    &&& t.index == 0
    &&& t.delay == 0
    &&& table_ok(t.command_table@)
}

/// Starts a rush attack from where the boss is.
pub fn rush_attack(owl: &mut Owl, table: &'static [TrajCommand], posture: &Posture, fi: &FormationIndex)
    requires
        table_ok(table@),
    ensures
        final(owl).traj matches Some(t) && rushing(t, posture.0, *fi) && t.command_table == table,
        (Owl { traj: old(owl).traj, ..*final(owl) }) == *old(owl),
{
    let flip_x = fi.0 >= 5;
    let mut traj = Traj::new(table, &Vector2D::new(0, 0), flip_x, *fi);
    traj.set_pos(&posture.0);
    owl.traj = Some(traj);
}

/// The frame of a boss's path attack: at the path's end it attacks again in a rush, or else
/// heads back to its slot.
pub open spec fn attack_traj_step(owl0: Owl, post0: Posture, speed0: Speed, formation: &Formation, fi: FormationIndex,
    rush: bool, owl1: Owl, post1: Posture, speed1: Speed) -> bool {
    match owl0.traj {
        Some(t) => {
            let t2 = stepped(t, formation_x_of(formation, t.fi));
            &&& post1 == Posture(t2.pos_spec(), t2.angle)
            &&& speed1 == Speed(t2.speed, t2.vangle)
            &&& if goes_on(t2) {
                owl1 == Owl { traj: Some(t2), ..owl0 }
            } else if rush {
                owl1.traj matches Some(nt) && rushing(nt, post1.0, fi) && owl1 == Owl { traj: owl1.traj, ..owl0 }
            } else {
                owl1 == Owl { traj: None, state: OwlState::MoveToFormation, ..owl0 }
            }
        },
        None => {
            &&& post1 == post0
            &&& speed1 == speed0
            &&& if rush {
                owl1.traj matches Some(nt) && rushing(nt, post1.0, fi) && owl1 == Owl { traj: owl1.traj, ..owl0 }
            } else {
                owl1 == Owl { traj: None, state: OwlState::MoveToFormation, ..owl0 }
            }
        },
    }
}

/// A boss's path attack, a frame.
fn update_attack_traj(owl: &mut Owl, enemy: &Enemy, posture: &mut Posture, speed: &mut Speed, formation: &Formation,
    game_info: &GameInfo)
    requires
        old(owl).traj matches Some(t) ==> t.limits_ok(),
        formation.wf(),
    ensures
        attack_traj_step(*old(owl), *old(posture), *old(speed), formation, enemy.formation_index,
            game_info.is_rush_spec(), *final(owl), *final(posture), *final(speed)),
{
    let cont = match owl.traj {
        Some(t) => {
            let mut traj = t;
            let cont = fly(&mut traj, posture, speed, formation);
            owl.traj = Some(traj);
            cont
        },
        None => false,
    };
    if !cont {
        owl.traj = None;
        if game_info.is_rush() {
            rush_attack(owl, owl_rush_attack_table(), posture, &enemy.formation_index);
        } else {
            owl.state = OwlState::MoveToFormation;
        }
    }
}

/// What a boss needs to run a frame: its path within bounds, its slot, and what its state asks.
pub open spec fn owl_frame_ok(entity: Entity, owl: Owl, post: Posture, speed: Speed, gi: GameInfo, w: &World) -> bool {
    &&& motion_ok(post, speed)
    &&& owl.traj matches Some(t) ==> t.limits_ok()
    &&& w.at(entity) matches Some(c)
    &&& (w.at(entity).unwrap().enemy matches Some(en) && slot_ok(en.formation_index))
    &&& gi.wf()
    &&& owl.state == OwlState::MoveToFormation ==> (w.at(entity).unwrap().troops matches Some(t)
        ==> !member_upto(t.members@, 3, entity.0 as int))
    &&& owl.state matches OwlState::CaptureAttack(phase) ==> capture_ok(entity, phase, owl, post, speed, gi, w)
}

/// Runs a boss one frame, by its state: along its entry path and then to its slot; resting
/// in the formation, turning upright; along its attack path; in a capture attack (then
/// moving on); or flying back to its slot, where it comes to rest with its escort.
pub fn do_move_owl(owl: &mut Owl, entity: Entity, posture: &mut Posture, speed: &mut Speed, formation: &Formation,
    game_info: &mut GameInfo, world: &mut World)
    requires
        owl_frame_ok(entity, *old(owl), *old(posture), *old(speed), *old(game_info), &*old(world)),
        formation.wf(),
    ensures
        final(game_info).wf(),
        ({
            let fi = old(world).at(entity).unwrap().enemy.unwrap().formation_index;
            let w0 = old(world).entities@;
            match old(owl).state {
                OwlState::Appearance => {
                    &&& final(world).entities@ == w0
                    &&& *final(game_info) == *old(game_info)
                    &&& match old(owl).traj {
                        Some(t) => {
                            let t2 = stepped(t, formation_x_of(formation, t.fi));
                            &&& *final(posture) == Posture(t2.pos_spec(), t2.angle)
                            &&& *final(speed) == Speed(t2.speed, t2.vangle)
                            &&& *final(owl) == if goes_on(t2) {
                                Owl { traj: Some(t2), ..*old(owl) }
                            } else {
                                Owl { traj: None, state: OwlState::MoveToFormation, ..*old(owl) }
                            }
                        },
                        None => {
                            &&& *final(posture) == *old(posture)
                            &&& *final(speed) == *old(speed)
                            &&& *final(owl) == (Owl { traj: None, state: OwlState::MoveToFormation, ..*old(owl) })
                        },
                    }
                },
                OwlState::Formation => {
                    let a = old(posture).1;
                    &&& final(world).entities@ == w0
                    &&& *final(game_info) == *old(game_info)
                    &&& *final(owl) == *old(owl)
                    &&& *final(speed) == *old(speed)
                    &&& *final(posture) == Posture(formation.pos_spec(fi), (a - clamp_spec(a as int, -(ANGLE * ONE / 128), ANGLE * ONE / 128)) as i32)
                },
                OwlState::TrajAttack => {
                    &&& final(world).entities@ == w0
                    &&& *final(game_info) == *old(game_info)
                    &&& attack_traj_step(*old(owl), *old(posture), *old(speed), formation, fi,
                        old(game_info).is_rush_spec(), *final(owl), *final(posture), *final(speed))
                },
                OwlState::CaptureAttack(phase) => {
                    exists|mid: Posture| {
                        &&& capture_step(entity, phase, formation, *old(owl), *old(posture), *old(speed), *old(game_info),
                            w0, *final(owl), mid, *final(speed), *final(game_info), final(world).entities@)
                        &&& *final(posture) == forwarded(mid, *final(speed))
                    }
                },
                OwlState::MoveToFormation => {
                    let target = formation.pos_spec(fi);
                    let p = old(posture).0;
                    let a = old(posture).1;
                    let spd = old(speed).0;
                    let dx = target.x - p.x;
                    let dy = target.y - p.y;
                    let sq = half_shift(dx) * half_shift(dx) + half_shift(dy) * half_shift(dy);
                    let sp = half_shift(spd as int);
                    &&& *final(game_info) == *old(game_info)
                    &&& if sq > sp * sp {
                        let dlimit = trunc_div(spd * 5, 3);
                        let mid = Posture(p, (a + clamp_spec(angle_diff(atan2_spec(-dy, dx), a as int), -dlimit, dlimit)) as i32);
                        &&& *final(speed) == Speed(spd, 0)
                        &&& *final(posture) == forwarded(mid, Speed(spd, 0))
                        &&& *final(owl) == *old(owl)
                        &&& final(world).entities@ == w0
                    } else {
                        &&& *final(speed) == Speed(0, 0)
                        &&& *final(posture) == forwarded(Posture(target, normalized(a as int) as i32), Speed(0, 0))
                        &&& *final(owl) == (Owl { capturing_state: OwlCapturingState::Idle, state: OwlState::Formation, ..*old(owl) })
                        &&& final(world).entities@ == to_formation_world(w0, entity, old(owl).life)
                    }
                },
            }
        }),
{
    let c = world.get(entity).unwrap();
    let enemy = c.enemy.unwrap();
    match owl.state {
        OwlState::Appearance => {
            let cont = match owl.traj {
                Some(t) => {
                    let mut traj = t;
                    let cont = fly(&mut traj, posture, speed, formation);
                    owl.traj = Some(traj);
                    cont
                },
                None => false,
            };
            if !cont {
                owl.traj = None;
                owl.state = OwlState::MoveToFormation;
            }
        },
        OwlState::Formation => {
            posture.0 = formation.pos(&enemy.formation_index);
            let ang: i32 = ANGLE * ONE / 128;
            posture.1 = posture.1 - clamp(posture.1, -ang, ang);
        },
        OwlState::TrajAttack => {
            update_attack_traj(owl, &enemy, posture, speed, formation, game_info);
        },
        OwlState::CaptureAttack(phase) => {
            run_capture_attack(owl, entity, phase, posture, speed, formation, game_info, world);
            let ghost mid = *posture;
            forward(posture, speed);
            assert(capture_step(entity, phase, formation, *old(owl), *old(posture), *old(speed), *old(game_info),
                old(world).entities@, *owl, mid, *speed, *game_info, world.entities@));
        },
        OwlState::MoveToFormation => {
            let arrived = move_to_formation(posture, speed, &enemy.formation_index, formation);
            forward(posture, speed);
            if arrived {
                set_to_formation(owl, entity, world);
            }
        },
    }
}

/// The slots of a boss's escort: below left, below right, and above.
pub open spec fn troop_slot(fi: FormationIndex, k: int) -> FormationIndex {
    if k == 0 {
        FormationIndex((fi.0 - 1) as u8, (fi.1 + 1) as u8)
    } else if k == 1 {
        FormationIndex((fi.0 + 1) as u8, (fi.1 + 1) as u8)
    } else {
        FormationIndex(fi.0, (fi.1 - 1) as u8)
    }
}

/// The entity at a place is a small enemy resting in one of the escort slots of a boss.
pub open spec fn joins(w: Seq<Option<Components>>, j: int, fi: FormationIndex) -> bool {
    &&& w[j] matches Some(c)
    &&& c.zako.is_some()
    &&& c.posture.is_some()
    &&& c.enemy matches Some(en)
    &&& en.is_formation
    &&& (en.formation_index == troop_slot(fi, 0) || en.formation_index == troop_slot(fi, 1)
        || en.formation_index == troop_slot(fi, 2))
}

/// The places, in order, of the first `n` entities that join a boss's escort.
pub open spec fn joiners(w: Seq<Option<Components>>, fi: FormationIndex, n: int) -> Seq<int>
    decreases n,
{
    if n <= 0 {
        Seq::empty()
    } else if joins(w, n - 1, fi) {
        joiners(w, fi, n - 1).push(n - 1)
    } else {
        joiners(w, fi, n - 1)
    }
}

/// A small enemy that joined an escort: it left its slot and flies with the boss.
pub open spec fn joined(c: Components) -> Components {
    Components {
        enemy: Some(Enemy { is_formation: false, ..c.enemy.unwrap() }),
        zako: Some(Zako { state: ZakoState::Troop, ..c.zako.unwrap() }),
        ..c
    }
}

/// The world once the enemies among the first `n` that join an escort have joined.
pub open spec fn joined_world(w: Seq<Option<Components>>, fi: FormationIndex, n: int) -> Seq<Option<Components>> {
    Seq::new(w.len(), |j: int| if j < n && joins(w, j, fi) { Some(joined(w[j].unwrap())) } else { w[j] })
}

/// The escort places after the joiners: each with its offset from the boss, in order.
pub open spec fn troop_member(w: Seq<Option<Components>>, js: Seq<int>, k: int, leader_pos: Vec2I) -> Option<(Entity, Vec2I)> {
    if k < js.len() {
        let p = w[js[k]].unwrap().posture.unwrap().0;
        Some((Entity(js[k] as usize), Vector2D { x: (p.x - leader_pos.x) as i32, y: (p.y - leader_pos.y) as i32 }))
    } else {
        None
    }
}

proof fn lemma_joiners_len(w: Seq<Option<Components>>, fi: FormationIndex, n: int, m: int)
    requires
        0 <= n <= m,
    ensures
        joiners(w, fi, n).len() <= joiners(w, fi, m).len(),
        forall|k: int| 0 <= k < joiners(w, fi, n).len() ==> #[trigger] joiners(w, fi, m)[k] == joiners(w, fi, n)[k],
    decreases m - n,
{
    if n < m {
        lemma_joiners_len(w, fi, n, m - 1);
    }
}

proof fn lemma_joiners_range(w: Seq<Option<Components>>, fi: FormationIndex, n: int)
    requires
        0 <= n,
    ensures
        forall|k: int| 0 <= k < joiners(w, fi, n).len() ==> 0 <= #[trigger] joiners(w, fi, n)[k] < n
            && joins(w, joiners(w, fi, n)[k], fi),
    decreases n,
{
    if n > 0 {
        lemma_joiners_range(w, fi, n - 1);
        assert forall|k: int| 0 <= k < joiners(w, fi, n).len() implies 0 <= #[trigger] joiners(w, fi, n)[k] < n
            && joins(w, joiners(w, fi, n)[k], fi) by {
            if k < joiners(w, fi, n - 1).len() {
                assert(joiners(w, fi, n)[k] == joiners(w, fi, n - 1)[k]);
            }
        }
    }
}

proof fn lemma_joiners_nonempty(w: Seq<Option<Components>>, fi: FormationIndex, n: int, j: int)
    requires
        0 <= j < n,
        joins(w, j, fi),
    ensures
        joiners(w, fi, n).len() > 0,
    decreases n,
{
    if j < n - 1 {
        lemma_joiners_nonempty(w, fi, n - 1, j);
    }
}

/// Picks the escort of a boss that starts a path attack: each small enemy resting in the
/// slot below left, below right or above the boss, in the order of the world, leaves its
/// slot and flies with the boss at its offset from it; the boss gets the escort if it has one.
pub fn choose_troops(leader_entity: Entity, leader_fi: &FormationIndex, leader_pos: &Vec2I, world: &mut World)
    requires
        1 <= leader_fi.0 <= 254,
        1 <= leader_fi.1 <= 254,
        -0x3_0000 <= leader_pos.x <= 0x3_0000,
        -0x3_0000 <= leader_pos.y <= 0x3_0000,
        forall|j: int| #![trigger old(world).entities@[j]] 0 <= j < old(world).entities@.len()
            && joins(old(world).entities@, j, *leader_fi)
            ==> -0x3_0000 <= old(world).entities@[j].unwrap().posture.unwrap().0.x <= 0x3_0000
            && -0x3_0000 <= old(world).entities@[j].unwrap().posture.unwrap().0.y <= 0x3_0000,
        joiners(old(world).entities@, *leader_fi, old(world).entities@.len() as int).len() <= 3,
        old(world).at(leader_entity).is_some(),
    ensures
        ({
            let w0 = old(world).entities@;
            let js = joiners(w0, *leader_fi, w0.len() as int);
            let w1 = joined_world(w0, *leader_fi, w0.len() as int);
            if js.len() > 0 {
                let ft = final(world).entities@[leader_entity.0 as int].unwrap().troops.unwrap();
                &&& final(world).entities@ == w1.update(leader_entity.0 as int, Some(Components {
                    troops: Some(ft),
                    ..w1[leader_entity.0 as int].unwrap()
                }))
                &&& forall|k: int| 0 <= k < 3 ==> #[trigger] ft.members@[k] == troop_member(w0, js, k, *leader_pos)
            } else {
                final(world).entities@ == w0 && w1 == w0
            }
        }),
{
    let ghost w0 = world.entities@;
    let ghost len = w0.len() as int;
    let slots = [
        FormationIndex(leader_fi.0 - 1, leader_fi.1 + 1),
        FormationIndex(leader_fi.0 + 1, leader_fi.1 + 1),
        FormationIndex(leader_fi.0, leader_fi.1 - 1),
    ];
    let mut troops = Troops { members: [None, None, None] };
    let mut i: usize = 0;
    let mut j: usize = 0;
    proof {
        lemma_joiners_len(w0, *leader_fi, 0, len);
    }
    while j < world.entities.len()
        invariant
            world.entities@.len() == w0.len(),
            len == w0.len(),
            0 <= j <= len,
            slots@ == seq![troop_slot(*leader_fi, 0), troop_slot(*leader_fi, 1), troop_slot(*leader_fi, 2)],
            i == joiners(w0, *leader_fi, j as int).len(),
            joiners(w0, *leader_fi, len).len() <= 3,
            -0x3_0000 <= leader_pos.x <= 0x3_0000,
            -0x3_0000 <= leader_pos.y <= 0x3_0000,
            forall|jj: int| #![trigger w0[jj]] 0 <= jj < len && joins(w0, jj, *leader_fi)
                ==> -0x3_0000 <= w0[jj].unwrap().posture.unwrap().0.x <= 0x3_0000
                && -0x3_0000 <= w0[jj].unwrap().posture.unwrap().0.y <= 0x3_0000,
            forall|k: int| 0 <= k < 3 ==> #[trigger] troops.members@[k]
                == troop_member(w0, joiners(w0, *leader_fi, j as int), k, *leader_pos),
            forall|jj: int| 0 <= jj < len ==> #[trigger] world.entities@[jj]
                == if jj < j && joins(w0, jj, *leader_fi) { Some(joined(w0[jj].unwrap())) } else { w0[jj] },
        decreases len - j,
    {
        proof {
            lemma_joiners_len(w0, *leader_fi, j as int + 1, len);
            lemma_joiners_range(w0, *leader_fi, j as int);
        }
        if let Some(c) = world.entities[j] {
            if let (Some(en), Some(z), Some(post)) = (c.enemy, c.zako, c.posture) {
                if en.is_formation && (en.formation_index == slots[0] || en.formation_index == slots[1]
                    || en.formation_index == slots[2]) {
                    assert(joins(w0, j as int, *leader_fi));
                    assert(i < 3);
                    let offset = post.0.minus(leader_pos);
                    troops.members[i] = Some((Entity(j), offset));
                    let mut enemy = en;
                    let mut zako = z;
                    crate::ecs::set_zako_to_troop(&mut zako, &mut enemy);
                    world.entities.set(j, Some(Components { enemy: Some(enemy), zako: Some(zako), ..c }));
                    i += 1;
                    assert(joiners(w0, *leader_fi, j as int + 1) == joiners(w0, *leader_fi, j as int).push(j as int));
                }
            }
        }
        j += 1;
    }
    assert(world.entities@ =~= joined_world(w0, *leader_fi, len));
    if i == 0 {
        assert forall|jj: int| 0 <= jj < len implies !joins(w0, jj, *leader_fi) by {
            if joins(w0, jj, *leader_fi) {
                lemma_joiners_nonempty(w0, *leader_fi, len, jj);
            }
        }
        assert(world.entities@ =~= w0);
        assert(joined_world(w0, *leader_fi, len) =~= w0);
    }
    if i > 0 {
        let c = world.get(leader_entity).unwrap();
        world.put(leader_entity, Components { troops: Some(troops), ..c });
    }
}

/// Where a capturing boss dives to: above the ship's row, under the ship.
pub open spec fn capture_target(player_pos: Vec2I) -> Vec2I {
    Vector2D { x: player_pos.x, y: ((HEIGHT - 16 - 8 - 88) * ONE) as i32 }
}

/// What a boss needs to start an attack: its slot and posture within bounds, and, for a
/// path attack, an escort of at most three.
pub open spec fn start_attack_ok(entity: Entity, capture_attack: bool, w: &World) -> bool {
    &&& w.at(entity) matches Some(c)
    &&& (c.enemy matches Some(en) && 1 <= en.formation_index.0 <= 254 && 1 <= en.formation_index.1 <= 254)
    &&& (c.posture matches Some(p) && -0x3_0000 <= p.0.x <= 0x3_0000 && -0x3_0000 <= p.0.y <= 0x3_0000)
    &&& !capture_attack ==> {
        let fi = w.at(entity).unwrap().enemy.unwrap().formation_index;
        &&& forall|j: int| #![trigger w.entities@[j]] 0 <= j < w.entities@.len() && joins(w.entities@, j, fi)
            ==> -0x3_0000 <= w.entities@[j].unwrap().posture.unwrap().0.x <= 0x3_0000
            && -0x3_0000 <= w.entities@[j].unwrap().posture.unwrap().0.y <= 0x3_0000
        &&& joiners(w.entities@, fi, w.entities@.len() as int).len() <= 3
    }
}

/// A boss leaves its slot to attack. A path attack takes its escort along, mirrored on the
/// right half. A capture attack dives, turning inward, at the place above the ship.
pub fn owl_start_attack(owl: &mut Owl, capture_attack: bool, speed: &mut Speed, player_pos: &Vec2I, entity: Entity,
    world: &mut World)
    requires
        start_attack_ok(entity, capture_attack, &*old(world)),
    ensures
        ({
            let w0 = old(world).entities@;
            let c = w0[entity.0 as int].unwrap();
            let fi = c.enemy.unwrap().formation_index;
            let post = c.posture.unwrap();
            if !capture_attack {
                let js = joiners(w0, fi, w0.len() as int);
                let w1 = joined_world(w0, fi, w0.len() as int);
                let fc = final(world).entities@[entity.0 as int].unwrap();
                &&& final(world).entities@ == w1.update(entity.0 as int, Some(Components {
                    troops: fc.troops,
                    enemy: Some(Enemy { is_formation: false, ..w1[entity.0 as int].unwrap().enemy.unwrap() }),
                    ..w1[entity.0 as int].unwrap()
                }))
                &&& js.len() == 0 ==> fc.troops == w1[entity.0 as int].unwrap().troops
                &&& js.len() > 0 ==> (fc.troops matches Some(ft)
                    && forall|k: int| 0 <= k < 3 ==> #[trigger] ft.members@[k] == troop_member(w0, js, k, post.0))
                &&& *final(speed) == *old(speed)
                &&& final(owl).traj matches Some(t) && rushing(t, post.0, fi)
                &&& *final(owl) == (Owl { traj: final(owl).traj, state: OwlState::TrajAttack, ..*old(owl) })
            } else {
                &&& final(world).entities@ == w0.update(entity.0 as int, Some(Components {
                    posture: Some(Posture(post.0, 0)),
                    enemy: Some(Enemy { is_formation: false, ..c.enemy.unwrap() }),
                    ..c
                }))
                &&& *final(speed) == Speed(384i32, if fi.0 < 5 { -1024i32 } else { 1024i32 })
                &&& *final(owl) == (Owl {
                    capturing_state: OwlCapturingState::Attacking,
                    target_pos: capture_target(*player_pos),
                    state: OwlState::CaptureAttack(OwlCaptureAttackPhase::Capture),
                    ..*old(owl)
                })
            }
        }),
{
    let c = world.get(entity).unwrap();
    let fi = c.enemy.unwrap().formation_index;
    let flip_x = fi.0 >= 5;
    if !capture_attack {
        let pos = c.posture.unwrap().0;
        choose_troops(entity, &fi, &pos, world);
        let mut traj = Traj::new(owl_attack_table(), &Vector2D::new(0, 0), flip_x, fi);
        traj.set_pos(&pos);
        owl.traj = Some(traj);
        owl.state = OwlState::TrajAttack;
    } else {
        owl.capturing_state = OwlCapturingState::Attacking;
        let dlimit: i32 = 4 * ONE;
        speed.0 = 3 * ONE / 2;
        let post = c.posture.unwrap();
        world.put(entity, Components { posture: Some(Posture(post.0, 0)), ..c });
        if fi.0 < 5 {
            speed.1 = -dlimit;
        } else {
            speed.1 = dlimit;
        }
        owl.target_pos = Vector2D::new(player_pos.x, (HEIGHT - 16 - 8 - 88) * ONE);
        owl.state = OwlState::CaptureAttack(OwlCaptureAttackPhase::Capture);
    }
    let c2 = world.get(entity).unwrap();
    let en = c2.enemy.unwrap();
    world.put(entity, Components { enemy: Some(Enemy { is_formation: false, ..en }), ..c2 });
}

/// An escort place puts its member, if it has a posture, at its offset from the boss, with
/// the boss's heading.
pub open spec fn placed(w: Seq<Option<Components>>, m: Option<(Entity, Vec2I)>, pos: Vec2I, angle: i32) -> Seq<Option<Components>> {
    match m {
        Some(x) => if x.0.0 < w.len() && (w[x.0.0 as int] matches Some(c) && c.posture.is_some()) {
            w.update(x.0.0 as int, Some(Components {
                posture: Some(Posture(Vector2D { x: (pos.x + x.1.x) as i32, y: (pos.y + x.1.y) as i32 }, angle)),
                ..w[x.0.0 as int].unwrap()
            }))
        } else {
            w
        },
        None => w,
    }
}

/// The offsets of an escort stay within bounds.
pub open spec fn troops_ok(troops: Troops) -> bool {
    forall|k: int| 0 <= k < 3 ==> (#[trigger] troops.members@[k] matches Some(x)
        ==> -0x10_0000 <= x.1.x <= 0x10_0000 && -0x10_0000 <= x.1.y <= 0x10_0000)
}

/// An escort flies with its boss: each member at its offset from the boss, with its heading.
pub fn update_troops(troops: &Troops, owner: Entity, _owl: &Owl, world: &mut World)
    requires
        troops_ok(*troops),
        old(world).at(owner) matches Some(c) && (c.posture matches Some(p)
            && -0x3_0000 <= p.0.x <= 0x3_0000 && -0x3_0000 <= p.0.y <= 0x3_0000),
    ensures
        ({
            let p = old(world).at(owner).unwrap().posture.unwrap();
            let w0 = old(world).entities@;
            final(world).entities@ == placed(placed(placed(w0, troops.members@[0], p.0, p.1),
                troops.members@[1], p.0, p.1), troops.members@[2], p.0, p.1)
        }),
{
    let p = world.get(owner).unwrap().posture.unwrap();
    let mut k: usize = 0;
    let ghost w0 = world.entities@;
    while k < TROOPS_COUNT
        invariant
            k <= 3,
            troops_ok(*troops),
            -0x3_0000 <= p.0.x <= 0x3_0000,
            -0x3_0000 <= p.0.y <= 0x3_0000,
            world.entities@ == if k == 0 {
                w0
            } else if k == 1 {
                placed(w0, troops.members@[0], p.0, p.1)
            } else if k == 2 {
                placed(placed(w0, troops.members@[0], p.0, p.1), troops.members@[1], p.0, p.1)
            } else {
                placed(placed(placed(w0, troops.members@[0], p.0, p.1), troops.members@[1], p.0, p.1),
                    troops.members@[2], p.0, p.1)
            },
        decreases 3 - k,
    {
        if let Some(m) = troops.members[k] {
            if let Some(mc) = world.get(m.0) {
                if let Some(_mp) = mc.posture {
                    world.put(m.0, Components { posture: Some(Posture(p.0.plus(&m.1), p.1)), ..mc });
                }
            }
        }
        k += 1;
    }
}

} // verus!

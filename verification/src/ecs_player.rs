use vstd::prelude::*;

use crate::attack_manager::{no_attacker, AttackManager};
use crate::consts::{CENTER_X, HEIGHT, MYSHOT_SPEED, PLAYER_SPEED, PLAYER_Y, WIDTH};
use crate::ecs::{CollRect, Posture, SpriteDrawable};
use crate::ecs_world::{no_components, empty_components, Components, Entity, PlayerShip, PlayerShot, RecapturedFighter, World};
use crate::enemy_types::{CaptureState, FormationIndex};
use crate::game_info::{GameInfo, GameState};
use crate::math::{calc_velocity, clamp, clamp_spec, velocity, ANGLE, ONE};
use crate::pad::{bit_of, has_bit, Pad, PadBit};
use crate::player::{right_bound, PlayerState};
use crate::recaptured_fighter::{RecapturedFighterState, SPIN_STEP};
use crate::types::{Vec2I, Vector2D};

verus! {

/// Where the ship goes back to while a rescued fighter comes down.
pub const HOME_X: i32 = 26624;

/// Bound of the coordinates of the ship and of a rescued fighter.
pub open spec fn ship_limit() -> int { 0x2_0000 }

/// The posture stays well inside the bounds of the field.
pub open spec fn posture_ok(p: Posture) -> bool {
    &&& -ship_limit() <= p.0.x <= ship_limit()
    &&& -ship_limit() <= p.0.y <= ship_limit()
    &&& -0x4000_0000 <= p.1 <= 0x4000_0000
}

/// The entity exists with a ship and a posture within bounds.
pub open spec fn ship_ok(w: &World, e: Entity) -> bool {
    &&& w.at(e) matches Some(c)
    &&& c.player.is_some()
    &&& c.posture matches Some(p) && posture_ok(p)
}

pub fn new_player() -> (p: PlayerShip)
    ensures
        p == (PlayerShip { state: PlayerState::Normal, count: 0, shot_enable: true, dual: None }),
{
    PlayerShip { state: PlayerState::Normal, count: 0, shot_enable: true, dual: None }
}

/// The ship's sprite.
pub open spec fn ship_sprite() -> SpriteDrawable {
    SpriteDrawable { sprite_name: "rustacean", offset: Vector2D { x: -8i32, y: -8i32 } }
}

pub fn player_sprite() -> (s: SpriteDrawable)
    ensures
        s == ship_sprite(),
{
    SpriteDrawable { sprite_name: "rustacean", offset: Vector2D::new(-8, -8) }
}

pub fn player_coll_rect() -> (r: CollRect)
    ensures
        r == (CollRect { offset: Vector2D { x: -4i32, y: -4i32 }, size: Vector2D { x: 8i32, y: 8i32 } }),
{
    CollRect { offset: Vector2D::new(-4, -4), size: Vector2D::new(8, 8) }
}

/// The ship's x after the pad moves it: left and right by the ship's speed, within the
/// field (one ship narrower when dual).
pub open spec fn steered_x(x: int, pad: u32, dual: bool) -> int {
    let x1 = if has_bit(pad, bit_of(PadBit::L)) {
        if x - PLAYER_SPEED < 8 * ONE { 8 * ONE } else { x - PLAYER_SPEED }
    } else {
        x
    };
    if has_bit(pad, bit_of(PadBit::R)) {
        if x1 + PLAYER_SPEED > right_bound(dual) { right_bound(dual) } else { x1 + PLAYER_SPEED }
    } else {
        x1
    }
}

/// The components with a new posture.
pub open spec fn with_posture(c: Components, p: Posture) -> Components {
    Components { posture: Some(p), ..c }
}

/// The components with a new ship state.
pub open spec fn with_player(c: Components, p: PlayerShip) -> Components {
    Components { player: Some(p), ..c }
}

/// Moves the ship one frame by its state: steered by the pad (with its second fighter
/// beside it), back home, or down out of a broken capture; other states leave it to the
/// tractor beam or to the game.
pub fn do_move_player(world: &mut World, entity: Entity, pad: &Pad, game_info: &mut GameInfo,
    attack_manager: &mut AttackManager)
    requires
        ship_ok(&*old(world), entity),
        old(game_info).wf(),
        old(world).at(entity).unwrap().player.unwrap().state == PlayerState::Normal ==>
            (old(world).at(entity).unwrap().player.unwrap().dual matches Some(d) ==> old(world).at(d) matches Some(dc)
                && dc.posture.is_some()),
    ensures
        final(game_info).wf(),
        ({
            let c = old(world).at(entity).unwrap();
            let p = c.player.unwrap();
            let post = c.posture.unwrap();
            match p.state {
                PlayerState::Normal => {
                    let x = steered_x(post.0.x as int, pad.pad, p.dual.is_some());
                    let w1 = old(world).put_spec(entity, with_posture(c, Posture(Vector2D { x: x as i32, y: post.0.y }, post.1)));
                    &&& *final(game_info) == *old(game_info)
                    &&& *final(attack_manager) == *old(attack_manager)
                    &&& final(world).entities@ == match p.dual {
                        Some(d) => {
                            let dc = w1[d.0 as int].unwrap();
                            let dp = dc.posture.unwrap();
                            w1.update(d.0 as int, Some(with_posture(dc,
                                Posture(Vector2D { x: (x + 16 * ONE) as i32, y: dp.0.y }, dp.1))))
                        },
                        None => w1,
                    }
                },
                PlayerState::MoveHomePos => {
                    let x = post.0.x + clamp_spec(HOME_X - post.0.x, -2 * ONE, 2 * ONE);
                    &&& *final(game_info) == *old(game_info)
                    &&& *final(attack_manager) == *old(attack_manager)
                    &&& final(world).entities@ == old(world).put_spec(entity,
                        with_posture(c, Posture(Vector2D { x: x as i32, y: post.0.y }, post.1)))
                },
                PlayerState::EscapeCapturing => {
                    let y = post.0.y + ONE;
                    if y >= PLAYER_Y {
                        let c1 = Components {
                            posture: Some(Posture(Vector2D { x: post.0.x, y: PLAYER_Y }, 0)),
                            player: Some(PlayerShip { state: PlayerState::Normal, ..p }),
                            ..c
                        };
                        &&& final(world).entities@ == old(world).put_spec(entity, c1).push(
                            Some(Components { coll_rect: Some(CollRect {
                                offset: Vector2D { x: -4i32, y: -4i32 }, size: Vector2D { x: 8i32, y: 8i32 } }),
                                ..no_components() }))
                        &&& *final(attack_manager) == (AttackManager { paused: false, ..*old(attack_manager) })
                        &&& *final(game_info) == (GameInfo { game_state: crate::game_info::GameState::Playing, ..*old(game_info) })
                    } else {
                        &&& final(world).entities@ == old(world).put_spec(entity,
                            with_posture(c, Posture(Vector2D { x: post.0.x, y: y as i32 }, 0)))
                        &&& *final(game_info) == *old(game_info)
                        &&& *final(attack_manager) == *old(attack_manager)
                    }
                },
                _ => {
                    &&& final(world).entities@ == old(world).entities@
                    &&& *final(game_info) == *old(game_info)
                    &&& *final(attack_manager) == *old(attack_manager)
                },
            }
        }),
{
    let c = match world.get(entity) {
        Some(c) => c,
        None => { return; },
    };
    let p = match c.player {
        Some(p) => p,
        None => { return; },
    };
    let post = match c.posture {
        Some(post) => post,
        None => { return; },
    };
    match p.state {
        PlayerState::Normal => {
            let mut x = post.0.x;
            if pad.is_pressed(PadBit::L) {
                x = x - PLAYER_SPEED;
                let left: i32 = 8 * ONE;
                if x < left {
                    x = left;
                }
            }
            if pad.is_pressed(PadBit::R) {
                x = x + PLAYER_SPEED;
                let right: i32 = if p.dual.is_some() { (224 - 8 - 16) * ONE } else { (224 - 8) * ONE };
                if x > right {
                    x = right;
                }
            }
            world.put(entity, Components { posture: Some(Posture(Vector2D::new(x, post.0.y), post.1)), ..c });
            if let Some(d) = p.dual {
                match world.get(d) {
                    Some(dc) => {
                        match dc.posture {
                            Some(dp) => {
                                world.put(d, Components {
                                    posture: Some(Posture(Vector2D::new(x + 16 * ONE, dp.0.y), dp.1)),
                                    ..dc
                                });
                            },
                            None => {},
                        }
                    },
                    None => {},
                }
            }
        },
        PlayerState::Capturing | PlayerState::Dead | PlayerState::Captured => {},
        PlayerState::MoveHomePos => {
            let speed: i32 = 2 * ONE;
            let x = post.0.x + clamp(HOME_X - post.0.x, -speed, speed);
            world.put(entity, Components { posture: Some(Posture(Vector2D::new(x, post.0.y), post.1)), ..c });
        },
        PlayerState::EscapeCapturing => {
            let y = post.0.y + ONE;
            if y >= PLAYER_Y {
                world.put(entity, Components {
                    posture: Some(Posture(Vector2D::new(post.0.x, PLAYER_Y), 0)),
                    player: Some(PlayerShip { state: PlayerState::Normal, ..p }),
                    ..c
                });
                let mut coll = empty_components();
                coll.coll_rect = Some(player_coll_rect());
                world.push(coll);
                attack_manager.pause(false);
                game_info.escape_ended();
            } else {
                world.put(entity, Components { posture: Some(Posture(Vector2D::new(post.0.x, y), 0)), ..c });
            }
        },
    }
}

/// A ship fires while its shots are enabled and it is steered or being pulled.
pub fn can_player_fire(player: &PlayerShip) -> (b: bool)
    ensures
        b == (player.shot_enable && (player.state == PlayerState::Normal || player.state == PlayerState::Capturing)),
{
    if !player.shot_enable {
        return false;
    }
    match player.state {
        PlayerState::Normal | PlayerState::Capturing => true,
        _ => false,
    }
}

pub fn enable_player_shot(player: &mut PlayerShip, enable: bool)
    ensures
        *final(player) == (PlayerShip { shot_enable: enable, ..*old(player) }),
{
    player.shot_enable = enable;
}

/// The beam has caught the ship: it is pulled and can no longer be hit.
pub fn start_player_capturing(player: &mut PlayerShip, world: &mut World, entity: Entity)
    requires
        old(world).at(entity).is_some(),
    ensures
        *final(player) == (PlayerShip { state: PlayerState::Capturing, ..*old(player) }),
        final(world).entities@ == old(world).put_spec(entity,
            Components { coll_rect: None, ..old(world).at(entity).unwrap() }),
{
    player.state = PlayerState::Capturing;
    let c = world.get(entity).unwrap();
    world.put(entity, Components { coll_rect: None, ..c });
}

/// The ship has become the boss's: it is no longer drawn.
pub fn set_player_captured(world: &mut World, entity: Entity)
    requires
        old(world).at(entity).is_some(),
    ensures
        final(world).entities@ == old(world).put_spec(entity,
            Components { sprite: None, ..old(world).at(entity).unwrap() }),
{
    let c = world.get(entity).unwrap();
    world.put(entity, Components { sprite: None, ..c });
}

/// The boss pulling the ship was destroyed: the ship goes back down.
pub fn escape_player_from_tractor_beam(player: &mut PlayerShip)
    ensures
        *final(player) == (PlayerShip { state: PlayerState::EscapeCapturing, ..*old(player) }),
{
    player.state = PlayerState::EscapeCapturing;
}

/// One frame of a ship pulled by the beam: a dot toward the target on each axis while it
/// spins; there it is captured, upright; tells whether it got there.
pub fn move_capturing_player(player: &mut PlayerShip, posture: &mut Posture, target_pos: &Vec2I) -> (done: bool)
    requires
        old(player).state == PlayerState::Capturing,
        posture_ok(*old(posture)),
        -ship_limit() <= target_pos.x <= ship_limit(),
        -ship_limit() <= target_pos.y <= ship_limit(),
    ensures
        ({
            let p = old(posture).0;
            let dx = target_pos.x - p.x;
            let dy = target_pos.y - p.y;
            &&& final(posture).0 == (Vector2D { x: (p.x + clamp_spec(dx, -ONE, ONE as int)) as i32,
                y: (p.y + clamp_spec(dy, -ONE, ONE as int)) as i32 })
            &&& done == (dx == 0 && dy == 0)
            &&& final(posture).1 == if done { 0 } else { old(posture).1 + SPIN_STEP }
            &&& *final(player) == if done {
                PlayerShip { state: PlayerState::Captured, ..*old(player) }
            } else {
                *old(player)
            }
        }),
{
    let d = target_pos.minus(&posture.0);
    posture.0.x = posture.0.x + clamp(d.x, -ONE, ONE);
    posture.0.y = posture.0.y + clamp(d.y, -ONE, ONE);
    posture.1 = posture.1 + SPIN_STEP;
    if d.x == 0 && d.y == 0 {
        player.state = PlayerState::Captured;
        posture.1 = 0;
        true
    } else {
        false
    }
}

/// The ship comes back to its start place, drawn and hittable again.
pub open spec fn restarted(c: Components) -> Components {
    let post = c.posture.unwrap();
    Components {
        player: Some(PlayerShip { state: PlayerState::Normal, ..c.player.unwrap() }),
        posture: Some(Posture(Vector2D { x: CENTER_X, y: PLAYER_Y }, post.1)),
        sprite: Some(ship_sprite()),
        coll_rect: Some(CollRect { offset: Vector2D { x: -4i32, y: -4i32 }, size: Vector2D { x: 8i32, y: 8i32 } }),
        ..c
    }
}

/// Puts the ship back at its start place, drawn and hittable.
pub fn restart_player(world: &mut World, entity: Entity)
    requires
        old(world).at(entity) matches Some(c) && c.player.is_some() && c.posture.is_some(),
    ensures
        final(world).entities@ == old(world).put_spec(entity, restarted(old(world).at(entity).unwrap())),
{
    let c = world.get(entity).unwrap();
    let p = c.player.unwrap();
    let post = c.posture.unwrap();
    world.put(entity, Components {
        player: Some(PlayerShip { state: PlayerState::Normal, ..p }),
        posture: Some(Posture(Vector2D::new(CENTER_X, PLAYER_Y), post.1)),
        sprite: Some(player_sprite()),
        coll_rect: Some(player_coll_rect()),
        ..c
    });
}

/// The ship is hit. One ship of a dual fighter is lost: the hit one if it is the second,
/// else the first, the second taking its place. A single ship dies: it is no longer drawn
/// nor hittable. Tells whether it died.
pub fn crash_player(world: &mut World, entity: Entity, dual: bool) -> (died: bool)
    requires
        ship_ok(&*old(world), entity),
        old(world).at(entity).unwrap().player.unwrap().dual matches Some(d)
            ==> d != entity && (old(world).at(d) matches Some(dc) && dc.posture.is_some()),
    ensures
        ({
            let c = old(world).at(entity).unwrap();
            let p = c.player.unwrap();
            let c1 = Components { player: Some(PlayerShip { dual: None, ..p }), ..c };
            match p.dual {
                Some(d) => {
                    &&& !died
                    &&& final(world).entities@ == if dual {
                        old(world).put_spec(entity, c1).update(d.0 as int, None)
                    } else {
                        let dp = old(world).at(d).unwrap().posture.unwrap();
                        old(world).put_spec(entity, Components {
                            posture: Some(Posture(dp.0, c.posture.unwrap().1)), ..c1 }).update(d.0 as int, None)
                    }
                },
                None => if dual {
                    &&& !died
                    &&& final(world).entities@ == old(world).entities@
                } else {
                    &&& died
                    &&& final(world).entities@ == old(world).put_spec(entity, Components {
                        player: Some(PlayerShip { state: PlayerState::Dead, count: 0, ..p }),
                        coll_rect: None,
                        sprite: None,
                        ..c
                    })
                },
            }
        }),
{
    let c = world.get(entity).unwrap();
    let p = c.player.unwrap();
    let post = c.posture.unwrap();
    match p.dual {
        Some(d) => {
            if dual {
                world.put(entity, Components { player: Some(PlayerShip { dual: None, ..p }), ..c });
                world.remove(d);
            } else {
                let dp = world.get(d).unwrap().posture.unwrap();
                world.put(entity, Components {
                    player: Some(PlayerShip { dual: None, ..p }),
                    posture: Some(Posture(dp.0, post.1)),
                    ..c
                });
                world.remove(d);
            }
            false
        },
        None => {
            if dual {
                false
            } else {
                world.put(entity, Components {
                    player: Some(PlayerShip { state: PlayerState::Dead, count: 0, ..p }),
                    coll_rect: None,
                    sprite: None,
                    ..c
                });
                true
            }
        },
    }
}

/// A fighter set free from a destroyed boss, spinning where the boss was.
pub open spec fn recapture_effect(pos: Vec2I, angle: i32, player_entity: Entity) -> Components {
    Components {
        recaptured_fighter: Some(RecapturedFighter { state: RecapturedFighterState::Rotate, count: 0, player_entity }),
        posture: Some(Posture(pos, angle)),
        sprite: Some(ship_sprite()),
        ..no_components()
    }
}

/// Sets a captured fighter free where its boss was.
pub fn start_recapture_effect(world: &mut World, pos: &Vec2I, angle: i32, player_entity: Entity) -> (e: Entity)
    ensures
        e.0 == old(world).entities@.len(),
        final(world).entities@ == old(world).entities@.push(Some(recapture_effect(*pos, angle, player_entity))),
{
    let mut c = empty_components();
    c.recaptured_fighter = Some(RecapturedFighter { state: RecapturedFighterState::Rotate, count: 0, player_entity });
    c.posture = Some(Posture(*pos, angle));
    c.sprite = Some(player_sprite());
    world.push(c)
}

/// The entities after the end of a rescue: a living ship gets a second fighter at its
/// right; with the ship gone, the fighter becomes the ship at the start place.
pub open spec fn recapture_done_world(w: Seq<Option<Components>>, e: Entity) -> Seq<Option<Components>> {
    let c = w[e.0 as int].unwrap();
    let p = c.player.unwrap();
    let post = c.posture.unwrap();
    if p.state != PlayerState::Dead {
        w.push(Some(Components {
            posture: Some(Posture(Vector2D { x: (post.0.x + 16 * ONE) as i32, y: post.0.y }, 0)),
            sprite: Some(ship_sprite()),
            ..no_components()
        })).update(e.0 as int, Some(Components {
            player: Some(PlayerShip { state: PlayerState::Normal, dual: Some(Entity(w.len() as usize)), ..p }),
            ..c
        }))
    } else {
        w.update(e.0 as int, Some(restarted(c)))
    }
}

/// Ends a rescue for the ship; tells whether it is now dual.
fn set_player_recapture_done(world: &mut World, entity: Entity) -> (dual: bool)
    requires
        ship_ok(&*old(world), entity),
    ensures
        dual == (old(world).at(entity).unwrap().player.unwrap().state != PlayerState::Dead),
        final(world).entities@ == recapture_done_world(old(world).entities@, entity),
{
    let c = world.get(entity).unwrap();
    let p = c.player.unwrap();
    let post = c.posture.unwrap();
    let dual = p.state != PlayerState::Dead;
    if dual {
        let mut fighter = empty_components();
        fighter.posture = Some(Posture(post.0.plus(&Vector2D::new(16 * ONE, 0)), 0));
        fighter.sprite = Some(player_sprite());
        let d = world.push(fighter);
        world.put(entity, Components { player: Some(PlayerShip { state: PlayerState::Normal, dual: Some(d), ..p }), ..c });
    } else {
        restart_player(world, entity);
    }
    dual
}

/// A frame of the rescued fighter `entity`, from the world `w0`, attack manager `am0` and game
/// state `gi0` to `w_out`, `am1` and `gi1`: it spins, then slides beside the ship and down to
/// its line, where it joins the ship and play goes on.
pub open spec fn fighter_recaptured(w0: World, am0: AttackManager, gi0: GameInfo, entity: Entity, w_out: World,
    am1: AttackManager, gi1: GameInfo) -> bool {
    ({
        let c = w0.at(entity).unwrap();
        let me = c.recaptured_fighter.unwrap();
        let post = c.posture.unwrap();
        let pe = me.player_entity;
        let pc = w0.at(pe).unwrap();
        let pp = pc.player.unwrap();
        match me.state {
            RecapturedFighterState::Rotate => {
                let a = post.1 + SPIN_STEP;
                &&& gi1 == gi0
                &&& am1 == am0
                &&& w_out.entities@ == if a >= 4 * ANGLE * ONE && no_attacker(&am0) {
                    let w1 = w0.put_spec(entity, Components {
                        recaptured_fighter: Some(RecapturedFighter { state: RecapturedFighterState::SlideHorz, ..me }),
                        posture: Some(Posture(post.0, 0)),
                        ..c
                    });
                    if pp.state != PlayerState::Dead {
                        w1.update(pe.0 as int, Some(with_player(pc, PlayerShip { state: PlayerState::MoveHomePos, ..pp })))
                    } else {
                        w1
                    }
                } else {
                    w0.put_spec(entity, with_posture(c, Posture(post.0, a as i32)))
                }
            },
            RecapturedFighterState::SlideHorz => {
                let x = CENTER_X + if pp.state != PlayerState::Dead { 8 * ONE } else { 0 };
                let nx = post.0.x + clamp_spec(x - post.0.x, -2 * ONE, 2 * ONE);
                &&& gi1 == gi0
                &&& am1 == am0
                &&& w_out.entities@ == w0.put_spec(entity, Components {
                    recaptured_fighter: Some(RecapturedFighter {
                        state: if nx == x { RecapturedFighterState::SlideDown } else { RecapturedFighterState::SlideHorz },
                        ..me
                    }),
                    posture: Some(Posture(Vector2D { x: nx as i32, y: post.0.y }, post.1)),
                    ..c
                })
            },
            RecapturedFighterState::SlideDown => {
                let ny = post.0.y + clamp_spec(PLAYER_Y - post.0.y, -2 * ONE, 2 * ONE);
                let w1 = w0.put_spec(entity, with_posture(c, Posture(Vector2D { x: post.0.x, y: ny as i32 }, post.1)));
                if ny == PLAYER_Y {
                    let dual = pp.state != PlayerState::Dead;
                    &&& w_out.entities@ == recapture_done_world(w1, pe).update(entity.0 as int, None)
                    &&& am1 == (AttackManager { paused: false, ..am0 })
                    &&& gi1 == (GameInfo {
                        capture_state: if dual { CaptureState::Dual } else { CaptureState::NoCapture },
                        capture_enemy_fi: FormationIndex(0, 0),
                        game_state: GameState::Playing,
                        ..gi0
                    })
                } else {
                    &&& w_out.entities@ == w1
                    &&& gi1 == gi0
                    &&& am1 == am0
                }
            },
            RecapturedFighterState::Done => {
                &&& w_out.entities@ == w0.entities@
                &&& gi1 == gi0
                &&& am1 == am0
            },
        }
    })
}

/// Moves a rescued fighter one frame: it spins four turns and waits for the attacks to end
/// (then a living ship goes home), slides beside the ship's home (or to it when the ship is
/// gone), then down to the ship's row, where it joins the ship and the rescue ends.
pub fn do_recapture_fighter(world: &mut World, entity: Entity, attack_manager: &mut AttackManager,
    game_info: &mut GameInfo)
    requires
        old(world).at(entity) matches Some(c) && c.recaptured_fighter.is_some()
            && (c.posture matches Some(p) && posture_ok(p)),
        ship_ok(&*old(world), old(world).at(entity).unwrap().recaptured_fighter.unwrap().player_entity),
        old(world).at(entity).unwrap().recaptured_fighter.unwrap().player_entity != entity,
        old(game_info).wf(),
    ensures
        final(game_info).wf(),
        fighter_recaptured(*old(world), *old(attack_manager), *old(game_info), entity, *final(world),
            *final(attack_manager), *final(game_info)),
{
    let c = world.get(entity).unwrap();
    let me = c.recaptured_fighter.unwrap();
    let post = c.posture.unwrap();
    let pe = me.player_entity;
    let speed: i32 = 2 * ONE;
    match me.state {
        RecapturedFighterState::Rotate => {
            let a = post.1 + SPIN_STEP;
            if a >= 4 * ANGLE * ONE && attack_manager.is_no_attacker() {
                world.put(entity, Components {
                    recaptured_fighter: Some(RecapturedFighter { state: RecapturedFighterState::SlideHorz, ..me }),
                    posture: Some(Posture(post.0, 0)),
                    ..c
                });
                let pc = world.get(pe).unwrap();
                let pp = pc.player.unwrap();
                if pp.state != PlayerState::Dead {
                    world.put(pe, Components { player: Some(PlayerShip { state: PlayerState::MoveHomePos, ..pp }), ..pc });
                }
            } else {
                world.put(entity, Components { posture: Some(Posture(post.0, a)), ..c });
            }
        },
        RecapturedFighterState::SlideHorz => {
            let living = world.get(pe).unwrap().player.unwrap().state != PlayerState::Dead;
            let x = CENTER_X + if living { 8 * ONE } else { 0 };
            let nx = post.0.x + clamp(x - post.0.x, -speed, speed);
            let state = if nx == x { RecapturedFighterState::SlideDown } else { RecapturedFighterState::SlideHorz };
            world.put(entity, Components {
                recaptured_fighter: Some(RecapturedFighter { state, ..me }),
                posture: Some(Posture(Vector2D::new(nx, post.0.y), post.1)),
                ..c
            });
        },
        RecapturedFighterState::SlideDown => {
            let ny = post.0.y + clamp(PLAYER_Y - post.0.y, -speed, speed);
            world.put(entity, Components { posture: Some(Posture(Vector2D::new(post.0.x, ny), post.1)), ..c });
            if ny == PLAYER_Y {
                let dual = set_player_recapture_done(world, pe);
                game_info.end_recapturing(dual);
                attack_manager.pause(false);
                world.remove(entity);
            }
        },
        RecapturedFighterState::Done => {},
    }
}

/// The sprite of a shot of the player.
pub open spec fn shot_sprite() -> SpriteDrawable {
    SpriteDrawable { sprite_name: "myshot", offset: Vector2D { x: -2i32, y: -4i32 } }
}

pub fn myshot_sprite() -> (s: SpriteDrawable)
    ensures
        s == shot_sprite(),
{
    SpriteDrawable { sprite_name: "myshot", offset: Vector2D::new(-2, -4) }
}

/// The hit box of a shot of the player.
pub open spec fn shot_coll_rect() -> CollRect {
    CollRect { offset: Vector2D { x: -1i32, y: -4i32 }, size: Vector2D { x: 1i32, y: 8i32 } }
}

/// The first shot of a ship: ahead of the ship by four dots along its heading.
pub open spec fn shot_posture(post: Posture) -> Posture {
    let v = velocity(post.1 as int, 4 * ONE);
    Posture(Vector2D { x: (post.0.x + v.x) as i32, y: (post.0.y + v.y) as i32 }, post.1)
}

/// What a ship `player` at `posture` that fires leaves in the world `w0_`, giving `w_out`: a
/// shot ahead of it, and a second one to its right when it is dual.
pub open spec fn myshot_fired(player: PlayerShip, posture: Posture, entity: Entity, fired: bool,
    w0_: Seq<Option<Components>>, w_out: Seq<Option<Components>>) -> bool {
    ({
        let w0 = w0_;
        let sp = shot_posture(posture);
        let first = |dual: Option<Entity>| Components {
            shot: Some(PlayerShot { player_entity: entity, dual }),
            posture: Some(sp),
            coll_rect: Some(shot_coll_rect()),
            sprite: Some(shot_sprite()),
            ..no_components()
        };
        if !fired {
            w_out =~= w0
        } else if player.dual.is_some() {
            w_out =~= w0.push(Some(Components {
                posture: Some(Posture(Vector2D { x: (sp.0.x + 16 * ONE) as i32, y: sp.0.y }, sp.1)),
                sprite: Some(shot_sprite()),
                ..no_components()
            })).push(Some(first(Some(Entity(w0.len() as usize)))))
        } else {
            w_out =~= w0.push(Some(first(None)))
        }
    })
}

/// A ship that may fire does: a shot ahead of it, with a second one to its right when it is
/// dual; tells whether it fired.
pub fn do_fire_myshot(player: &PlayerShip, posture: &Posture, entity: Entity, world: &mut World) -> (fired: bool)
    requires
        posture_ok(*posture),
        player.dual.is_some() ==> posture.1 == 0,
    ensures
        fired == (player.shot_enable && (player.state == PlayerState::Normal || player.state == PlayerState::Capturing)),
        myshot_fired(*player, *posture, entity, fired, old(world).entities@, final(world).entities@),
{
    if !can_player_fire(player) {
        return false;
    }
    let v = calc_velocity(posture.1, 4 * ONE);
    let sp = Posture(posture.0.plus(&v), posture.1);
    let dual = if player.dual.is_some() {
        let mut second = empty_components();
        second.posture = Some(Posture(sp.0.plus(&Vector2D::new(16 * ONE, 0)), sp.1));
        second.sprite = Some(myshot_sprite());
        Some(world.push(second))
    } else {
        None
    };
    let mut c = empty_components();
    c.shot = Some(PlayerShot { player_entity: entity, dual });
    c.posture = Some(sp);
    c.coll_rect = Some(CollRect { offset: Vector2D::new(-1, -4), size: Vector2D::new(1, 8) });
    c.sprite = Some(myshot_sprite());
    world.push(c);
    true
}

/// A place out of the screen, beyond a margin of four dots.
pub open spec fn out_of_screen_spec(pos: Vec2I) -> bool {
    pos.y < -4 * ONE || pos.x < -4 * ONE || pos.x > (WIDTH + 4) * ONE || pos.y > (HEIGHT + 4) * ONE
}

pub fn out_of_screen(pos: &Vec2I) -> (b: bool)
    ensures
        b == out_of_screen_spec(*pos),
{
    let margin: i32 = 4;
    let top: i32 = -margin * ONE;
    let left: i32 = -margin * ONE;
    let right: i32 = (WIDTH + margin) * ONE;
    let bottom: i32 = (HEIGHT + margin) * ONE;
    pos.y < top || pos.x < left || pos.x > right || pos.y > bottom
}

/// A shot moved a frame: straight up, or along its heading.
pub open spec fn shot_moved(post: Posture) -> Posture {
    if post.1 == 0 {
        Posture(Vector2D { x: post.0.x, y: (post.0.y - MYSHOT_SPEED) as i32 }, post.1)
    } else {
        let v = velocity(post.1 as int, MYSHOT_SPEED as int);
        Posture(Vector2D { x: (post.0.x + v.x) as i32, y: (post.0.y + v.y) as i32 }, post.1)
    }
}

/// The world with the shot at a place moved a frame.
pub open spec fn shot_moved_world(w: Seq<Option<Components>>, e: Entity) -> Seq<Option<Components>> {
    let c = w[e.0 as int].unwrap();
    w.update(e.0 as int, Some(Components { posture: Some(shot_moved(c.posture.unwrap())), ..c }))
}

/// A shot that can move: it exists with a posture within bounds.
pub open spec fn shot_entity_ok(w: Seq<Option<Components>>, e: Entity) -> bool {
    &&& e.0 < w.len()
    &&& w[e.0 as int] matches Some(c)
    &&& (c.posture matches Some(p) && posture_ok(p))
}

/// A shot leaves the world, with its second shot.
pub fn delete_myshot(shot: &PlayerShot, entity: Entity, world: &mut World)
    ensures
        final(world).entities@ == ({
            let w0 = old(world).entities@;
            let w1 = match shot.dual {
                Some(d) => if d.0 < w0.len() { w0.update(d.0 as int, None) } else { w0 },
                None => w0,
            };
            if entity.0 < w1.len() { w1.update(entity.0 as int, None) } else { w1 }
        }),
{
    if let Some(d) = shot.dual {
        world.remove(d);
    }
    world.remove(entity);
}

/// A shot, and its second shot, moved a frame in the world `w0`, giving `w_out`.
pub open spec fn myshot_moved(w0: Seq<Option<Components>>, shot: PlayerShot, entity: Entity, w_out: Seq<Option<Components>>) -> bool {
    ({
        let w1 = shot_moved_world(w0, entity);
        let w2 = match shot.dual {
            Some(d) => shot_moved_world(w1, d),
            None => w1,
        };
        let gone = out_of_screen_spec(w2[entity.0 as int].unwrap().posture.unwrap().0) && match shot.dual {
            Some(d) => out_of_screen_spec(w2[d.0 as int].unwrap().posture.unwrap().0),
            None => true,
        };
        w_out =~= if gone {
            let w3 = match shot.dual {
                Some(d) => w2.update(d.0 as int, None),
                None => w2,
            };
            w3.update(entity.0 as int, None)
        } else {
            w2
        }
    })
}

/// Moves a shot, and its second shot, a frame; once both are out of the screen the shot
/// leaves the world.
pub fn do_move_myshot(shot: &PlayerShot, entity: Entity, world: &mut World)
    requires
        shot_entity_ok(old(world).entities@, entity),
        shot.dual matches Some(d) ==> d != entity && shot_entity_ok(old(world).entities@, d),
    ensures
        myshot_moved(old(world).entities@, *shot, entity, final(world).entities@),
{
    let mut cont = false;
    let c = world.get(entity).unwrap();
    let p = c.posture.unwrap();
    let moved = if p.1 == 0 {
        Posture(Vector2D::new(p.0.x, p.0.y - MYSHOT_SPEED), p.1)
    } else {
        Posture(p.0.plus(&calc_velocity(p.1, MYSHOT_SPEED)), p.1)
    };
    world.put(entity, Components { posture: Some(moved), ..c });
    if !out_of_screen(&moved.0) {
        cont = true;
    }
    if let Some(d) = shot.dual {
        let dc = world.get(d).unwrap();
        let dp = dc.posture.unwrap();
        let dmoved = if dp.1 == 0 {
            Posture(Vector2D::new(dp.0.x, dp.0.y - MYSHOT_SPEED), dp.1)
        } else {
            Posture(dp.0.plus(&calc_velocity(dp.1, MYSHOT_SPEED)), dp.1)
        };
        world.put(d, Components { posture: Some(dmoved), ..dc });
        if !out_of_screen(&dmoved.0) {
            cont = true;
        }
    }
    if !cont {
        delete_myshot(shot, entity, world);
    }
}

} // verus!

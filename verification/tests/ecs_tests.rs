use galangua::attack_manager::AttackManager;
use galangua::ecs_effect::{create_earned_piont_effect, create_enemy_explosion_effect, move_sequential_anime};
use galangua::ecs_player::{do_fire_myshot, do_move_myshot};
use galangua::effect::EarnedPointType;
use galangua::ecs::{CollRect, Enemy, Posture, Speed, SpriteDrawable, Zako, ZakoState};
use galangua::ecs_system::{
    coll_check_myshot_enemy, fire_myshot, move_myshot, move_troops, move_zako, recapture_fighter,
};
use galangua::ecs_world::PlayerShot;
use galangua::ecs_owl::{
    create_owl, create_tractor_beam, do_move_owl, do_move_tractor_beam, run_capture_attack, set_owl_damage,
};
use galangua::ecs_player::{crash_player, do_move_player, do_recapture_fighter, new_player, player_sprite, start_recapture_effect};
use galangua::ecs_world::{
    empty_components, Components, Entity, Owl, OwlCaptureAttackPhase, OwlCapturingState, OwlState, PlayerShip, Troops,
    World,
};
use galangua::enemy_types::{CaptureState, EnemyType, FormationIndex};
use galangua::formation::Formation;
use galangua::game_info::{GameInfo, GameState};
use galangua::game_manager::StarManager;
use galangua::pad::Pad;
use galangua::player::PlayerState;
use galangua::recaptured_fighter::RecapturedFighterState;
use galangua::tractor_beam::TractorBeamState;
use galangua::traj::{command_table1, Traj};
use galangua::types::Vec2I;

const ONE: i32 = 256;

fn ship_at(world: &mut World, x: i32, y: i32, state: PlayerState) -> Entity {
    let mut c = empty_components();
    c.player = Some(PlayerShip { state, ..new_player() });
    c.posture = Some(Posture(Vec2I::new(x, y), 0));
    c.sprite = Some(player_sprite());
    world.push(c)
}

fn idle_owl() -> Owl {
    Owl {
        state: OwlState::Formation,
        traj: None,
        capturing_state: OwlCapturingState::Idle,
        target_pos: Vec2I::new(0, 0),
        count: 0,
        life: 2,
    }
}

fn owl_entity(world: &mut World, fi: FormationIndex) -> Entity {
    let mut c = empty_components();
    c.enemy = Some(Enemy { enemy_type: EnemyType::Owl, formation_index: fi, is_formation: true });
    c.posture = Some(Posture(Vec2I::new(100 * ONE, 50 * ONE), 0));
    c.sprite = Some(SpriteDrawable { sprite_name: "cpp11", offset: Vec2I::new(-8, -8) });
    world.push(c)
}

#[test]
fn the_pad_steers_the_ship_and_its_second_fighter() {
    let mut world = World::new();
    let ship = ship_at(&mut world, 100 * ONE, 264 * ONE, PlayerState::Normal);
    let mut d = empty_components();
    d.posture = Some(Posture(Vec2I::new(116 * ONE, 264 * ONE), 0));
    let dual = world.push(d);
    let mut c = world.get(ship).unwrap();
    c.player = Some(PlayerShip { dual: Some(dual), ..c.player.unwrap() });
    world.put(ship, c);

    let mut pad = Pad::new();
    pad.pad = 0b10; // right
    let mut gi = GameInfo::new(0);
    let mut am = AttackManager::new();
    do_move_player(&mut world, ship, &pad, &mut gi, &mut am);
    assert_eq!(100 * ONE + 384, world.get(ship).unwrap().posture.unwrap().0.x);
    assert_eq!(116 * ONE + 384, world.get(dual).unwrap().posture.unwrap().0.x);

    // At the right edge a dual ship stops one ship earlier.
    let mut c = world.get(ship).unwrap();
    c.posture = Some(Posture(Vec2I::new(199 * ONE, 264 * ONE), 0));
    world.put(ship, c);
    do_move_player(&mut world, ship, &pad, &mut gi, &mut am);
    assert_eq!(200 * ONE, world.get(ship).unwrap().posture.unwrap().0.x);
}

#[test]
fn an_escaping_ship_comes_back_down_into_play() {
    let mut world = World::new();
    let ship = ship_at(&mut world, 100 * ONE, 264 * ONE - ONE, PlayerState::EscapeCapturing);
    let pad = Pad::new();
    let mut gi = GameInfo::new(0);
    gi.game_state = GameState::Capturing;
    let mut am = AttackManager::new();
    am.pause(true);
    do_move_player(&mut world, ship, &pad, &mut gi, &mut am);
    let c = world.get(ship).unwrap();
    assert_eq!(264 * ONE, c.posture.unwrap().0.y);
    assert_eq!(PlayerState::Normal, c.player.unwrap().state);
    assert!(!am.paused);
    assert_eq!(GameState::Playing, gi.game_state);
    assert_eq!(2, world.entities.len());
}

#[test]
fn a_dual_ship_loses_one_fighter_and_a_single_one_dies() {
    let mut world = World::new();
    let ship = ship_at(&mut world, 100 * ONE, 264 * ONE, PlayerState::Normal);
    let mut d = empty_components();
    d.posture = Some(Posture(Vec2I::new(116 * ONE, 264 * ONE), 0));
    let dual = world.push(d);
    let mut c = world.get(ship).unwrap();
    c.player = Some(PlayerShip { dual: Some(dual), ..c.player.unwrap() });
    world.put(ship, c);

    // The first ship is hit: the second takes its place.
    assert!(!crash_player(&mut world, ship, false));
    assert_eq!(116 * ONE, world.get(ship).unwrap().posture.unwrap().0.x);
    assert!(world.get(dual).is_none());
    // Then the single ship dies.
    assert!(crash_player(&mut world, ship, false));
    let c = world.get(ship).unwrap();
    assert_eq!(PlayerState::Dead, c.player.unwrap().state);
    assert!(c.sprite.is_none() && c.coll_rect.is_none());
}

#[test]
fn a_rescued_fighter_spins_slides_and_joins_the_ship() {
    let mut world = World::new();
    let ship = ship_at(&mut world, 112 * ONE, 264 * ONE, PlayerState::Normal);
    let fighter = start_recapture_effect(&mut world, &Vec2I::new(90 * ONE, 100 * ONE), 4 * 65536 - 100, ship);
    let mut gi = GameInfo::new(0);
    gi.game_state = GameState::Recapturing;
    gi.capture_state = CaptureState::Recapturing;
    let mut am = AttackManager::new();

    do_recapture_fighter(&mut world, fighter, &mut am, &mut gi);
    let c = world.get(fighter).unwrap();
    assert_eq!(RecapturedFighterState::SlideHorz, c.recaptured_fighter.unwrap().state);
    assert_eq!(0, c.posture.unwrap().1);
    assert_eq!(PlayerState::MoveHomePos, world.get(ship).unwrap().player.unwrap().state);

    // It slides beside the ship's home, then down to the ship's row.
    let mut frames = 0;
    while world.get(fighter).is_some() && frames < 1000 {
        do_recapture_fighter(&mut world, fighter, &mut am, &mut gi);
        frames += 1;
    }
    assert!(world.get(fighter).is_none());
    let p = world.get(ship).unwrap().player.unwrap();
    assert_eq!(PlayerState::Normal, p.state);
    let second = p.dual.unwrap();
    assert_eq!(Vec2I::new(128 * ONE, 264 * ONE), world.get(second).unwrap().posture.unwrap().0);
    assert_eq!(CaptureState::Dual, gi.capture_state);
    assert_eq!(GameState::Playing, gi.game_state);
}

#[test]
fn the_beam_opens_takes_the_ship_and_closes() {
    let mut world = World::new();
    let boss = owl_entity(&mut world, FormationIndex(4, 1));
    let ship = ship_at(&mut world, 100 * ONE, 264 * ONE, PlayerState::Normal);
    let mut tb = create_tractor_beam(&Vec2I::new(100 * ONE, 150 * ONE));
    let mut owl = idle_owl();
    let enemy = world.get(boss).unwrap().enemy.unwrap();
    let mut gi = GameInfo::new(0);
    gi.game_state = GameState::Playing;
    gi.capture_state = CaptureState::CaptureAttacking;
    gi.capture_enemy_fi = FormationIndex(4, 1);
    let mut sm = StarManager::new();
    let mut am = AttackManager::new();

    // A step takes a little over three frames: the first part shows at the fourth.
    for _ in 0..3 {
        do_move_tractor_beam(&mut tb, boss, &mut owl, &enemy, &mut gi, &mut sm, &mut am, &mut world);
    }
    assert_eq!(2, world.entities.len());
    for _ in 0..1 {
        do_move_tractor_beam(&mut tb, boss, &mut owl, &enemy, &mut gi, &mut sm, &mut am, &mut world);
    }
    assert_eq!(3, world.entities.len());
    assert_eq!(Some(Entity(2)), tb.beam_sprites[0]);
    while tb.state == TractorBeamState::Opening {
        do_move_tractor_beam(&mut tb, boss, &mut owl, &enemy, &mut gi, &mut sm, &mut am, &mut world);
    }
    assert_eq!(TractorBeamState::Full, tb.state);
    assert_eq!(12 * ONE, tb.size_count);
    // Open, it takes the ship within its reach.
    do_move_tractor_beam(&mut tb, boss, &mut owl, &enemy, &mut gi, &mut sm, &mut am, &mut world);
    assert_eq!(TractorBeamState::Capturing, tb.state);
    assert_eq!(Some(ship), tb.capturing_player);
    assert_eq!(PlayerState::Capturing, world.get(ship).unwrap().player.unwrap().state);
    assert!(sm.capturing && am.paused);
    assert_eq!(CaptureState::Capturing, gi.capture_state);
    // It pulls the ship in; the ship becomes the boss's fighter.
    let mut frames = 0;
    while tb.state == TractorBeamState::Capturing && frames < 1000 {
        do_move_tractor_beam(&mut tb, boss, &mut owl, &enemy, &mut gi, &mut sm, &mut am, &mut world);
        frames += 1;
    }
    assert_eq!(TractorBeamState::Closing, tb.state);
    assert_eq!(PlayerState::Captured, world.get(ship).unwrap().player.unwrap().state);
    let troops = world.get(boss).unwrap().troops.unwrap();
    let (fighter, offset) = troops.members[0].unwrap();
    assert_eq!(Vec2I::new(0, 16 * ONE), offset);
    let fc = world.get(fighter).unwrap();
    assert_eq!(FormationIndex(4, 0), fc.enemy.unwrap().formation_index);
    assert_eq!(EnemyType::CapturedFighter, fc.enemy.unwrap().enemy_type);
    assert_eq!(1, gi.alive_enemy_count);
    // It closes, and the boss learns that it holds the ship.
    while tb.state == TractorBeamState::Closing {
        do_move_tractor_beam(&mut tb, boss, &mut owl, &enemy, &mut gi, &mut sm, &mut am, &mut world);
    }
    assert_eq!(TractorBeamState::Closed, tb.state);
    assert!(tb.beam_sprites.iter().all(|s| s.is_none()));
    assert_eq!(OwlState::CaptureAttack(OwlCaptureAttackPhase::CaptureDoneWait), owl.state);
    assert_eq!(CaptureState::Captured, gi.capture_state);
    assert_eq!(GameState::Captured, gi.game_state);
    assert!(!sm.capturing);
}

#[test]
fn a_boss_takes_two_hits_and_frees_its_captured_fighter() {
    let mut world = World::new();
    let boss = owl_entity(&mut world, FormationIndex(4, 1));
    let ship = ship_at(&mut world, 100 * ONE, 264 * ONE, PlayerState::Normal);
    let mut f = empty_components();
    f.enemy = Some(Enemy { enemy_type: EnemyType::CapturedFighter, formation_index: FormationIndex(4, 0), is_formation: false });
    f.zako = Some(Zako { state: ZakoState::Troop, traj: None });
    f.posture = Some(Posture(Vec2I::new(100 * ONE, 34 * ONE), 0));
    let fighter = world.push(f);
    let mut c = world.get(boss).unwrap();
    c.troops = Some(Troops { members: [Some((fighter, Vec2I::new(0, -16 * ONE))), None, None] });
    world.put(boss, c);

    let mut owl = idle_owl();
    let mut gi = GameInfo::new(0);
    gi.alive_enemy_count = 2;
    gi.capture_state = CaptureState::Captured;
    gi.capture_enemy_fi = FormationIndex(4, 1);
    let mut sm = StarManager::new();
    let mut am = AttackManager::new();

    assert!(!set_owl_damage(&mut owl, boss, 1, ship, &mut am, &mut sm, &mut gi, &mut world));
    assert_eq!(1, owl.life);
    assert_eq!("cpp21", world.get(boss).unwrap().sprite.unwrap().sprite_name);

    assert!(set_owl_damage(&mut owl, boss, 1, ship, &mut am, &mut sm, &mut gi, &mut world));
    assert_eq!(0, owl.life);
    // The captured fighter left; a rescued one spins where it was; the boss is gone.
    assert!(world.get(fighter).is_none());
    assert!(world.get(boss).is_none());
    let rescued = world.get(Entity(3)).unwrap();
    assert_eq!(RecapturedFighterState::Rotate, rescued.recaptured_fighter.unwrap().state);
    assert_eq!(ship, rescued.recaptured_fighter.unwrap().player_entity);
    assert_eq!(Vec2I::new(100 * ONE, 34 * ONE), rescued.posture.unwrap().0);
    assert!(am.paused);
    assert_eq!(GameState::Recapturing, gi.game_state);
    assert_eq!(CaptureState::Recapturing, gi.capture_state);
    assert_eq!(1, gi.alive_enemy_count);
}

#[test]
fn a_destroyed_boss_with_escorts_keeps_leading_them_unseen() {
    let mut world = World::new();
    let boss = owl_entity(&mut world, FormationIndex(4, 1));
    let mut b = empty_components();
    b.enemy = Some(Enemy { enemy_type: EnemyType::Butterfly, formation_index: FormationIndex(3, 2), is_formation: false });
    let escort = world.push(b);
    let mut c = world.get(boss).unwrap();
    c.troops = Some(Troops { members: [Some((escort, Vec2I::new(-16 * ONE, 16 * ONE))), None, None] });
    world.put(boss, c);
    let mut owl = Owl { life: 1, ..idle_owl() };
    let mut gi = GameInfo::new(0);
    let mut sm = StarManager::new();
    let mut am = AttackManager::new();
    assert!(set_owl_damage(&mut owl, boss, 1, Entity(99), &mut am, &mut sm, &mut gi, &mut world));
    let c = world.get(boss).unwrap();
    assert!(c.sprite.is_none() && c.coll_rect.is_none());
    assert!(c.troops.unwrap().members[0].is_some());
    assert!(!am.paused);
}

#[test]
fn a_capturing_boss_opens_its_beam_above_the_ship() {
    let mut world = World::new();
    let boss = owl_entity(&mut world, FormationIndex(4, 1));
    let mut owl = Owl {
        state: OwlState::CaptureAttack(OwlCaptureAttackPhase::Capture),
        target_pos: Vec2I::new(100 * ONE, 176 * ONE),
        ..idle_owl()
    };
    let mut posture = Posture(Vec2I::new(100 * ONE, 176 * ONE), 32768);
    let mut speed = Speed(384, 0);
    let formation = Formation::new();
    let mut gi = GameInfo::new(0);
    run_capture_attack(&mut owl, boss, OwlCaptureAttackPhase::Capture, &mut posture, &mut speed, &formation, &mut gi, &mut world);
    assert_eq!(OwlState::CaptureAttack(OwlCaptureAttackPhase::CaptureBeam), owl.state);
    assert_eq!(Speed(0, 0).0, speed.0);
    let tb = world.get(boss).unwrap().tractor_beam.unwrap();
    assert_eq!(Vec2I::new(100 * ONE, 184 * ONE), tb.pos);
    assert_eq!(TractorBeamState::Opening, tb.state);

    // After the capture, the boss waits two seconds before it flies back.
    let mut owl = Owl { state: OwlState::CaptureAttack(OwlCaptureAttackPhase::CaptureDoneWait), count: 0, ..owl };
    for _ in 0..119 {
        run_capture_attack(&mut owl, boss, OwlCaptureAttackPhase::CaptureDoneWait, &mut posture, &mut speed, &formation, &mut gi, &mut world);
    }
    assert!(world.get(boss).unwrap().tractor_beam.is_none());
    assert_eq!(OwlState::CaptureAttack(OwlCaptureAttackPhase::CaptureDoneWait), owl.state);
    run_capture_attack(&mut owl, boss, OwlCaptureAttackPhase::CaptureDoneWait, &mut posture, &mut speed, &formation, &mut gi, &mut world);
    assert_eq!(OwlState::CaptureAttack(OwlCaptureAttackPhase::CaptureDoneBack), owl.state);
    assert_eq!(640, speed.0);
}

#[test]
fn a_resting_boss_follows_its_slot_and_an_entering_one_its_path() {
    let mut world = World::new();
    let boss = owl_entity(&mut world, FormationIndex(4, 1));
    let formation = Formation::new();
    let mut gi = GameInfo::new(0);
    let mut owl = idle_owl();
    let mut posture = Posture(Vec2I::new(0, 0), 512);
    let mut speed = Speed(0, 0);
    do_move_owl(&mut owl, boss, &mut posture, &mut speed, &formation, &mut gi, &mut world);
    assert_eq!(formation.pos(&FormationIndex(4, 1)), posture.0);
    assert_eq!(0, posture.1);

    let traj = Traj::new(command_table1(), &Vec2I::new(0, 0), false, FormationIndex(4, 1));
    let mut owl = create_owl(traj);
    do_move_owl(&mut owl, boss, &mut posture, &mut speed, &formation, &mut gi, &mut world);
    assert_eq!(OwlState::Appearance, owl.state);
    assert_eq!(Vec2I::new(34816, -2048).x, posture.0.x);
}

#[test]
fn a_dual_ship_fires_two_shots_that_fly_up_and_leave() {
    let mut world = World::new();
    let ship = ship_at(&mut world, 100 * ONE, 264 * ONE, PlayerState::Normal);
    let player = PlayerShip { dual: Some(Entity(7)), ..new_player() };
    let posture = Posture(Vec2I::new(100 * ONE, 264 * ONE), 0);
    assert!(do_fire_myshot(&player, &posture, ship, &mut world));
    assert_eq!(3, world.entities.len());
    let shot = world.get(Entity(2)).unwrap();
    assert_eq!(Vec2I::new(100 * ONE, 260 * ONE), shot.posture.unwrap().0);
    let s = shot.shot.unwrap();
    assert_eq!(ship, s.player_entity);
    assert_eq!(Some(Entity(1)), s.dual);
    assert_eq!(Vec2I::new(116 * ONE, 260 * ONE), world.get(Entity(1)).unwrap().posture.unwrap().0);

    do_move_myshot(&s, Entity(2), &mut world);
    assert_eq!(254 * ONE, world.get(Entity(2)).unwrap().posture.unwrap().0.y);
    assert_eq!(254 * ONE, world.get(Entity(1)).unwrap().posture.unwrap().0.y);
    let mut frames = 0;
    while world.get(Entity(2)).is_some() && frames < 100 {
        do_move_myshot(&s, Entity(2), &mut world);
        frames += 1;
    }
    assert!(world.get(Entity(2)).is_none() && world.get(Entity(1)).is_none());
    // 260 dots up at 6 a frame, beyond the 4-dot margin.
    assert_eq!(45, frames + 1);

    // A ship that may not fire does not.
    let held = PlayerShip { shot_enable: false, ..new_player() };
    assert!(!do_fire_myshot(&held, &posture, ship, &mut world));
    assert_eq!(3, world.entities.len());
}

#[test]
fn an_explosion_runs_its_sprites_and_leaves() {
    let mut world = World::new();
    let e = create_enemy_explosion_effect(&Vec2I::new(10 * ONE, 20 * ONE), &mut world);
    assert_eq!("ene_exp1", world.get(e).unwrap().sprite.unwrap().sprite_name);
    for _ in 0..4 {
        move_sequential_anime(&mut world, e);
    }
    assert_eq!("ene_exp2", world.get(e).unwrap().sprite.unwrap().sprite_name);
    let mut frames = 4;
    while world.get(e).is_some() {
        move_sequential_anime(&mut world, e);
        frames += 1;
    }
    assert_eq!(20, frames);

    let p = create_earned_piont_effect(EarnedPointType::Point800, &Vec2I::new(0, 0), &mut world);
    assert_eq!("pts800", world.get(p).unwrap().sprite.unwrap().sprite_name);
    assert_eq!(Vec2I::new(-8, -4), world.get(p).unwrap().sprite.unwrap().offset);
}

#[test]
fn the_small_enemies_of_the_world_move_and_the_rest_stays() {
    let f = Formation::new();
    let mut world = World::new();
    let mut c = empty_components();
    c.enemy = Some(Enemy { enemy_type: EnemyType::Bee, formation_index: FormationIndex(3, 4), is_formation: true });
    c.zako = Some(Zako { state: ZakoState::Formation, traj: None });
    c.posture = Some(Posture(Vec2I::new(0, 0), 600));
    c.speed = Some(Speed(0, 0));
    let bee = world.push(c);
    let mut other = empty_components();
    other.posture = Some(Posture(Vec2I::new(5, 6), 7));
    let rock = world.push(other);

    move_zako(&mut world, &f);
    let moved = world.get(bee).unwrap().posture.unwrap();
    assert_eq!(f.pos(&FormationIndex(3, 4)), moved.0);
    assert_eq!(88, moved.1);
    let kept = world.get(rock).unwrap().posture.unwrap();
    assert_eq!(Vec2I::new(5, 6), kept.0);
    assert_eq!(7, kept.1);
}

fn boxed(world: &mut World, x: i32, y: i32, enemy: bool) -> Entity {
    let mut c = empty_components();
    if enemy {
        c.enemy = Some(Enemy { enemy_type: EnemyType::Bee, formation_index: FormationIndex(0, 2), is_formation: true });
        c.coll_rect = Some(CollRect { offset: Vec2I::new(-6, -6), size: Vec2I::new(12, 12) });
    } else {
        c.shot = Some(PlayerShot { player_entity: Entity(0), dual: None });
        c.coll_rect = Some(CollRect { offset: Vec2I::new(-1, -4), size: Vec2I::new(1, 8) });
    }
    c.posture = Some(Posture(Vec2I::new(x * ONE, y * ONE), 0));
    world.push(c)
}

#[test]
fn a_shot_takes_out_the_first_enemy_it_hits_and_itself() {
    let mut world = World::new();
    let near = boxed(&mut world, 100, 100, true);
    let also = boxed(&mut world, 102, 100, true);
    let far = boxed(&mut world, 10, 10, true);
    let shot = boxed(&mut world, 101, 100, false);
    let miss = boxed(&mut world, 150, 100, false);

    coll_check_myshot_enemy(&mut world);
    assert!(world.get(near).is_none());
    assert!(world.get(shot).is_none());
    assert!(world.get(also).is_some());
    assert!(world.get(far).is_some());
    assert!(world.get(miss).is_some());
}

#[test]
fn two_shots_on_one_enemy_are_both_spent() {
    let mut world = World::new();
    let enemy = boxed(&mut world, 100, 100, true);
    let a = boxed(&mut world, 99, 100, false);
    let b = boxed(&mut world, 101, 100, false);

    coll_check_myshot_enemy(&mut world);
    assert!(world.get(enemy).is_none());
    assert!(world.get(a).is_none());
    assert!(world.get(b).is_none());
}

#[test]
fn every_shot_of_the_world_flies_up_each_frame() {
    let mut world = World::new();
    let ship = ship_at(&mut world, 100 * ONE, 264 * ONE, PlayerState::Normal);
    let player = PlayerShip { dual: Some(Entity(7)), ..new_player() };
    let posture = Posture(Vec2I::new(100 * ONE, 264 * ONE), 0);
    assert!(do_fire_myshot(&player, &posture, ship, &mut world));
    move_myshot(&mut world);
    assert_eq!(254 * ONE, world.get(Entity(2)).unwrap().posture.unwrap().0.y);
    assert_eq!(254 * ONE, world.get(Entity(1)).unwrap().posture.unwrap().0.y);
    assert_eq!(264 * ONE, world.get(ship).unwrap().posture.unwrap().0.y);
}

#[test]
fn escorts_of_the_world_follow_their_bosses() {
    let mut world = World::new();
    let boss = owl_entity(&mut world, FormationIndex(4, 1));
    let mut m = empty_components();
    m.posture = Some(Posture(Vec2I::new(0, 0), 0));
    let member = world.push(m);
    let mut c = world.get(boss).unwrap();
    c.owl = Some(idle_owl());
    c.troops = Some(Troops { members: [Some((member, Vec2I::new(16 * ONE, 0))), None, None] });
    world.put(boss, c);

    move_troops(&mut world);
    assert_eq!(Vec2I::new(116 * ONE, 50 * ONE), world.get(member).unwrap().posture.unwrap().0);
}

#[test]
fn a_press_fires_while_fewer_than_two_shots_fly() {
    let mut world = World::new();
    let ship = ship_at(&mut world, 100 * ONE, 264 * ONE, PlayerState::Normal);
    let mut pad = Pad::new();
    fire_myshot(&mut world, &pad);
    assert_eq!(1, world.entities.len());

    pad.on_key(galangua::pad::VKey::Space, true);
    pad.update();
    fire_myshot(&mut world, &pad);
    assert_eq!(2, world.entities.len());
    assert_eq!(Some(ship), world.get(Entity(1)).unwrap().shot.map(|s| s.player_entity));
    fire_myshot(&mut world, &pad);
    assert_eq!(3, world.entities.len());
    // Two shots fly: no third.
    fire_myshot(&mut world, &pad);
    assert_eq!(3, world.entities.len());
}

#[test]
fn the_world_runs_its_rescued_fighters_until_they_join() {
    let mut world = World::new();
    let ship = ship_at(&mut world, 112 * ONE, 264 * ONE, PlayerState::Normal);
    let fighter = start_recapture_effect(&mut world, &Vec2I::new(90 * ONE, 100 * ONE), 4 * 65536 - 100, ship);
    let mut gi = GameInfo::new(0);
    gi.game_state = GameState::Recapturing;
    gi.capture_state = CaptureState::Recapturing;
    let mut am = AttackManager::new();

    recapture_fighter(&mut world, &mut am, &mut gi);
    assert_eq!(RecapturedFighterState::SlideHorz, world.get(fighter).unwrap().recaptured_fighter.unwrap().state);
    let mut frames = 0;
    while world.get(fighter).is_some() && frames < 1000 {
        recapture_fighter(&mut world, &mut am, &mut gi);
        frames += 1;
    }
    assert!(world.get(fighter).is_none());
    assert_eq!(GameState::Playing, gi.game_state);
    assert_eq!(CaptureState::Dual, gi.capture_state);
}

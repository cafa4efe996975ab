use galangua::enemy::{create_enemy, Enemy};
use galangua::enemy_manager::{empty_table, EnemyManager};
use galangua::enemy_types::{EnemyType, FormationIndex};
use galangua::events::EventType;
use galangua::owl::{Owl, OWL_DESTROY_SHOT_WAIT};
use galangua::types::Vec2I;
use galangua::zako::Zako;

#[test]
fn small_enemies_score_double_in_flight() {
    let table = empty_table();
    let mut events = Vec::new();
    let mut pause = 0;
    let mut bee = create_enemy(EnemyType::Bee, &Vec2I::new(0, 0), 0, 0, &FormationIndex(4, 4));
    let r = bee.set_damage(1, &table, &mut events, &mut pause);
    assert!(r.killed);
    assert_eq!(100, r.point);
    let mut z = Zako::new(EnemyType::Butterfly, &Vec2I::new(0, 0), 0, 0, &FormationIndex(4, 2));
    z.set_to_formation();
    let r = z.set_damage(1, &mut events);
    assert_eq!(80, r.point);
    assert_eq!(2, events.len());
}

#[test]
fn destroyed_captured_fighter_is_reported() {
    let mut events = Vec::new();
    let mut z = Zako::new(EnemyType::CapturedFighter, &Vec2I::new(0, 0), 0, 0, &FormationIndex(4, 0));
    let r = z.set_damage(1, &mut events);
    assert_eq!(1000, r.point);
    assert_eq!(Some(&EventType::CapturedFighterDestroyed), events.last());
}

#[test]
fn a_boss_survives_one_hit_and_falls_to_the_second() {
    let table = empty_table();
    let mut events = Vec::new();
    let mut pause = 0;
    let mut owl = Owl::new(&Vec2I::new(0, 0), 0, 0, &FormationIndex(4, 1));
    let r = owl.set_damage(1, &table, &mut events, &mut pause);
    assert!(!r.killed);
    assert_eq!(0, r.point);
    assert_eq!(0, pause);
    let r = owl.set_damage(1, &table, &mut events, &mut pause);
    assert!(r.killed);
    assert_eq!(400, r.point);
    assert_eq!(OWL_DESTROY_SHOT_WAIT, pause);
}

#[test]
fn a_boss_in_formation_scores_150() {
    let mut owl = Owl::new(&Vec2I::new(0, 0), 0, 0, &FormationIndex(4, 1));
    owl.set_to_formation();
    assert_eq!(150, owl.calc_point());
}

#[test]
fn enemy_manager_counts_spawned_and_removed_enemies() {
    let mut em = EnemyManager::new();
    assert!(em.all_destroyed());
    assert!(em.spawn_captured_fighter(&Vec2I::new(100 * 256, 100 * 256), &FormationIndex(4, 0)));
    assert_eq!(1, em.alive_enemy_count);
    assert!(!em.spawn_captured_fighter(&Vec2I::new(100 * 256, 100 * 256), &FormationIndex(4, 0)));
    assert!(!em.all_destroyed());
    match em.get_enemy_at(&FormationIndex(4, 0)) {
        Some(Enemy::Zako(z)) => assert_eq!(EnemyType::CapturedFighter, z.enemy_base.enemy_type),
        _ => panic!("captured fighter expected"),
    }
    assert!(em.remove_enemy(&FormationIndex(4, 0)));
    assert!(!em.remove_enemy(&FormationIndex(4, 0)));
    assert_eq!(0, em.alive_enemy_count);
    assert!(em.all_destroyed());
}

#[test]
fn damage_to_an_enemy_scores_and_removes_it() {
    let mut em = EnemyManager::new();
    em.spawn_captured_fighter(&Vec2I::new(100 * 256, 100 * 256), &FormationIndex(4, 0));
    let mut events = Vec::new();
    assert!(em.set_damage_to_enemy(&FormationIndex(4, 0), 1, &mut events));
    assert!(events.contains(&EventType::AddScore(1000)));
    assert_eq!(0, em.alive_enemy_count);
    assert!(!em.set_damage_to_enemy(&FormationIndex(4, 0), 1, &mut events));
}

#[test]
fn enemy_shots_are_aimed_down_at_the_player() {
    let mut em = EnemyManager::new();
    let targets = vec![Some(Vec2I::new(100 * 256, 250 * 256)), None];
    em.spawn_shot(&Vec2I::new(100 * 256, 50 * 256), &targets, 640);
    let shots: Vec<_> = em.shots.iter().flatten().collect();
    assert_eq!(1, shots.len());
    assert_eq!(Vec2I::new(100 * 256, 50 * 256), shots[0].pos);
    assert_eq!(Vec2I::new(0, 640), shots[0].vel);
}

#[test]
fn held_enemy_fire_spawns_no_shot() {
    let mut em = EnemyManager::new();
    em.pause_enemy_shot(10);
    let targets = vec![Some(Vec2I::new(100 * 256, 250 * 256))];
    em.spawn_shot(&Vec2I::new(100 * 256, 50 * 256), &targets, 640);
    assert!(em.shots.iter().all(|s| s.is_none()));
}

#[test]
fn check_collision_finds_the_hit_enemy() {
    let mut em = EnemyManager::new();
    em.spawn_captured_fighter(&Vec2I::new(100 * 256, 100 * 256), &FormationIndex(4, 0));
    let target = galangua::collision::CollBox { top_left: Vec2I::new(98, 98), size: Vec2I::new(4, 4) };
    assert_eq!(Some(FormationIndex(4, 0)), em.check_collision(&target));
    let miss = galangua::collision::CollBox { top_left: Vec2I::new(0, 0), size: Vec2I::new(4, 4) };
    assert_eq!(None, em.check_collision(&miss));
}

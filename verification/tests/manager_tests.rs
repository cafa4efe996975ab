use galangua::appearance_manager::AppearanceManager;
use galangua::attack_manager::{enum_sides, pick_random, AttackManager};
use galangua::enemy::{create_enemy, Enemy};
use galangua::enemy_base::EnemyState;
use galangua::enemy_manager::empty_table;
use galangua::enemy_types::{EnemyType, FormationIndex};
use galangua::types::Vec2I;

#[test]
fn first_frame_of_a_stage_sends_a_pair() {
    let mut am = AppearanceManager::new(0);
    let table = empty_table();
    assert!(am.update(&table).is_none());
    am.restart(0);
    let borns = am.update(&table).expect("a pair appears");
    assert_eq!(2, borns.len());
    let b0 = borns[0].enemy_base();
    let b1 = borns[1].enemy_base();
    assert_eq!(EnemyType::Butterfly, b0.enemy_type);
    assert_eq!(FormationIndex(4, 2), b0.formation_index);
    assert_eq!(EnemyState::Appearance, b0.state);
    assert_eq!(EnemyType::Bee, b1.enemy_type);
    assert_eq!(FormationIndex(4, 4), b1.formation_index);
    let next = am.update(&table).expect("frames go on");
    assert_eq!(0, next.len());
}

#[test]
fn a_unit_sends_eight_enemies_into_distinct_slots() {
    let mut am = AppearanceManager::new(0);
    am.restart(0);
    let table = empty_table();
    let mut slots = Vec::new();
    for _ in 0..40 {
        if let Some(borns) = am.update(&table) {
            for e in borns {
                slots.push(e.formation_index());
            }
        }
        if am.unit > 0 {
            break;
        }
    }
    assert_eq!(8, slots.len());
    for i in 0..slots.len() {
        for j in (i + 1)..slots.len() {
            assert_ne!(slots[i], slots[j]);
        }
    }
}

#[test]
fn sides_of_rows_and_random_picks() {
    let mut table = empty_table();
    for x in [2u8, 5, 7].iter() {
        let mut e = create_enemy(EnemyType::Bee, &Vec2I::new(0, 0), 0, 0, &FormationIndex(*x, 3));
        e.set_to_formation();
        table[*x as usize + 30] = Some(e);
    }
    let sides = enum_sides(&table);
    assert_eq!(Some((2, 7)), sides[3]);
    assert_eq!(None, sides[2]);
    let mut rows = vec![2, 3, 4, 5];
    let fi = pick_random(&sides, &mut rows).expect("row 3 has enemies");
    assert_eq!(3, fi.1);
    assert!(fi.0 == 2 || fi.0 == 7);
    let mut none_rows = vec![1];
    assert_eq!(None, pick_random(&sides, &mut none_rows));
}

#[test]
fn attack_manager_starts_without_attackers() {
    let mut m = AttackManager::new();
    assert!(m.is_no_attacker());
    m.set_enable(true);
    m.pause(true);
    assert!(m.enable && m.paused);
    m.restart(3);
    assert!(!m.enable && !m.paused);
}

#[test]
fn an_enemy_sent_to_its_slot_rests_there() {
    let mut e = create_enemy(EnemyType::Owl, &Vec2I::new(0, 0), 70000, 0, &FormationIndex(4, 1));
    e.set_to_formation();
    assert!(e.is_formation());
    assert_eq!(70000 - 65536, e.enemy_base().angle);
    match e {
        Enemy::Owl(o) => assert_eq!(2, o.life),
        _ => panic!("boss expected"),
    }
}

#[test]
fn random_picks_reach_both_ends_and_every_row() {
    let mut table = empty_table();
    for (x, y) in [(1u8, 2u8), (8, 2), (3, 3), (6, 3)].iter() {
        let mut e = create_enemy(EnemyType::Bee, &Vec2I::new(0, 0), 0, 0, &FormationIndex(*x, *y));
        e.set_to_formation();
        table[*x as usize + *y as usize * 10] = Some(e);
    }
    let sides = enum_sides(&table);
    let mut seen_left = false;
    let mut seen_right = false;
    let mut seen_row2 = false;
    let mut seen_row3 = false;
    for _ in 0..200 {
        let mut rows = vec![2, 3];
        let fi = pick_random(&sides, &mut rows).unwrap();
        if fi.0 == 1 || fi.0 == 3 { seen_left = true; }
        if fi.0 == 8 || fi.0 == 6 { seen_right = true; }
        if fi.1 == 2 { seen_row2 = true; }
        if fi.1 == 3 { seen_row3 = true; }
    }
    assert!(seen_left && seen_right && seen_row2 && seen_row3);
}

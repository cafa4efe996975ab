use galangua::enemy::{enemy_sprite, create_enemy, Enemy};
use galangua::enemy_base::EnemyState;
use galangua::enemy_manager::{empty_table, EnemyManager};
use galangua::enemy_types::{Accessor, CaptureState, EnemyType, FormationIndex};
use galangua::events::EventType;
use galangua::formation::Formation;
use galangua::game_info::{EneShotSpawner, SoundQueue};
use galangua::owl::{CapturingState, Owl};
use galangua::types::Vec2I;

fn accessor(player: Vec2I) -> Accessor {
    Accessor {
        player_pos: player,
        dual_player_pos: None,
        can_player_capture: true,
        player_capture_completed: false,
        capture_state: CaptureState::NoCapture,
        captured_fighter_index: None,
        is_rush: false,
        stage_no: 0,
    }
}

#[test]
fn queued_shots_fire_at_the_player_unless_held() {
    let mut s = EneShotSpawner::new();
    s.push(&Vec2I::new(100 * 256, 50 * 256));
    s.push(&Vec2I::new(50 * 256, 50 * 256));
    let shots = s.update(Some(Vec2I::new(100 * 256, 250 * 256)), 0);
    assert_eq!(2, shots.len());
    assert_eq!((Vec2I::new(100 * 256, 50 * 256), Vec2I::new(0, 640)), shots[0]);
    assert!(s.queue.is_empty());
    s.pause_enemy_shot(2);
    s.push(&Vec2I::new(100 * 256, 50 * 256));
    assert!(s.update(Some(Vec2I::new(0, 0)), 0).is_empty());
    assert_eq!(1, s.shot_paused_count);
    s.restart();
    assert_eq!(0, s.shot_paused_count);
}

#[test]
fn sounds_are_handed_over_in_order() {
    let mut q = SoundQueue::new();
    q.push_play_se(0, "a");
    q.push_play_se(1, "b");
    assert_eq!(vec![(0, "a"), (1, "b")], q.take_all());
    assert!(q.queue.is_empty());
}

#[test]
fn stable_formation_holds_forty_enemies_at_rest() {
    let mut em = EnemyManager::new();
    em.reset_stable();
    assert_eq!(40, em.alive_enemy_count);
    assert_eq!(40, em.get_enemies().iter().flatten().count());
    assert!(em.get_enemies().iter().flatten().all(|e| e.is_formation()));
    match em.get_enemy_at(&FormationIndex(4, 1)) {
        Some(Enemy::Owl(_)) => {}
        _ => panic!("a boss expected"),
    }
}

#[test]
fn sprites_follow_kind_frame_and_damage() {
    let bee = create_enemy(EnemyType::Bee, &Vec2I::new(0, 0), 0, 0, &FormationIndex(4, 4));
    assert_eq!(Some("gopher2"), enemy_sprite(&bee, 1));
    let mut owl = Owl::new(&Vec2I::new(0, 0), 0, 0, &FormationIndex(4, 1));
    assert_eq!(Some("cpp11"), enemy_sprite(&Enemy::Owl(owl), 0));
    owl.life = 1;
    assert_eq!(Some("cpp22"), enemy_sprite(&Enemy::Owl(owl), 1));
    owl.life = 0;
    assert_eq!(None, enemy_sprite(&Enemy::Owl(owl), 1));
}

#[test]
fn a_flying_boss_scores_double_per_escort() {
    let mut table = empty_table();
    let mut formation_enemy = |x: u8, y: u8, t: EnemyType| {
        let mut e = create_enemy(t, &Vec2I::new(0, 0), 0, 0, &FormationIndex(x, y));
        e.set_to_formation();
        table[x as usize + y as usize * 10] = Some(e);
    };
    formation_enemy(3, 2, EnemyType::Butterfly);
    formation_enemy(5, 2, EnemyType::Butterfly);
    let mut owl = Owl::new(&Vec2I::new(0, 0), 0, 0, &FormationIndex(4, 1));
    owl.set_to_formation();
    let mut events = Vec::new();
    owl.set_attack(false, &accessor(Vec2I::new(0, 0)), &mut table, &mut events);
    assert_eq!(Some(FormationIndex(3, 2)), owl.troops[0]);
    assert_eq!(Some(FormationIndex(5, 2)), owl.troops[1]);
    assert_eq!(None, owl.troops[2]);
    assert_eq!(EnemyState::Troop, table[23].unwrap().enemy_base().state);
    assert_eq!(1600, owl.calc_point());

    let mut pause = 0;
    owl.set_damage(1, &table, &mut events, &mut pause);
    let r = owl.set_damage(1, &table, &mut events, &mut pause);
    assert!(!r.killed);
    assert_eq!(1600, r.point);
}

#[test]
fn a_capture_attack_opens_the_beam_on_the_player() {
    let formation = Formation::new();
    let mut table = empty_table();
    let mut events = Vec::new();
    let mut owl = Owl::new(&formation.pos(&FormationIndex(4, 1)), 0, 0, &FormationIndex(4, 1));
    owl.set_to_formation();
    let player = Vec2I::new(formation.pos(&FormationIndex(4, 1)).x, 264 * 256);
    let acc = accessor(player);
    owl.set_attack(true, &acc, &mut table, &mut events);
    assert_eq!(CapturingState::Attacking, owl.capturing_state);
    let mut frames = 0;
    while !events.iter().any(|e| matches!(e, EventType::CapturePlayer(_))) {
        owl.update(&acc, &formation, &mut table, &mut events);
        frames += 1;
        assert!(frames < 2000);
    }
    assert_eq!(CapturingState::BeamTracting, owl.capturing_state);
    assert_eq!(176 * 256, owl.enemy_base.pos.y);
}

#[test]
fn a_selected_enemy_can_be_sent_attacking() {
    let mut em = EnemyManager::new();
    em.reset_stable();
    let mut events: Vec<EventType> = Vec::new();
    let acc = accessor(Vec2I::new(112 * 256, 240 * 256));
    assert!(em.set_attack_at(&FormationIndex(3, 4), false, &acc, &mut events));
    match em.get_enemy_at(&FormationIndex(3, 4)) {
        Some(e) => assert!(matches!(e.enemy_base().state, EnemyState::Attack(_))),
        None => panic!("the enemy should still be in its slot"),
    }
    assert_eq!(40, em.alive_enemy_count);
    // An empty slot gives nothing to do.
    let mut empty = EnemyManager::new();
    assert!(!empty.set_attack_at(&FormationIndex(3, 4), false, &acc, &mut events));

    let table = galangua::traj::command_table1();
    assert!(em.set_table_attack(&FormationIndex(2, 5), table, true, true));
    match em.get_enemy_at(&FormationIndex(2, 5)) {
        Some(e) => {
            assert!(matches!(e.enemy_base().state, EnemyState::Attack(_)));
            assert!(e.enemy_base().traj.is_some());
        }
        None => panic!("the enemy should still be in its slot"),
    }
    assert!(!empty.set_table_attack(&FormationIndex(2, 5), table, true, true));
}

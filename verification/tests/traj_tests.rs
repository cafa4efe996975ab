use galangua::ecs::{do_move_zako, zako_start_attack, Enemy, Posture, Speed, Zako, ZakoState};
use galangua::effect::{to_earned_point_type, EarnedPointType, Effect};
use galangua::enemy_types::{EnemyType, FormationIndex};
use galangua::formation::Formation;
use galangua::traj::{command_table1, Traj, TrajCommand};
use galangua::traj_file::{commands_of_lines, line_command, CommandWord, LineOutcome};
use galangua::types::Vec2I;

#[test]
fn a_path_runs_its_commands_up_to_a_delay_and_moves() {
    let f = Formation::new();
    let mut t = Traj::new(command_table1(), &Vec2I::new(0, 0), false, FormationIndex(4, 2));
    assert!(t.update(&f));
    assert_eq!(Vec2I::new(34816, -2048 + 768), t.pos());
    assert_eq!(32768, t.angle());
    assert_eq!(5, t.delay);
}

#[test]
fn a_mirrored_path_mirrors_x_and_the_heading() {
    let f = Formation::new();
    let mut t = Traj::new(command_table1(), &Vec2I::new(0, 0), true, FormationIndex(4, 2));
    assert!(t.update(&f));
    assert_eq!(Vec2I::new(224 * 256 - 34816, -2048 + 768), t.pos());
    assert_eq!(-32768, t.angle());
}

#[test]
fn points_have_their_marks() {
    assert_eq!(Some(EarnedPointType::Point1600), to_earned_point_type(1600));
    assert_eq!(Some(EarnedPointType::Point400), to_earned_point_type(400));
    assert_eq!(None, to_earned_point_type(150));
}

#[test]
fn an_explosion_runs_its_five_sprites() {
    let mut e = Effect::create_enemy_explosion(&Vec2I::new(100 * 256, 100 * 256));
    let mut frames = 1;
    while e.update() {
        frames += 1;
    }
    assert_eq!(20, frames);
}

#[test]
fn ecs_zako_follows_its_slot_and_starts_attacks() {
    let f = Formation::new();
    let enemy = Enemy { enemy_type: EnemyType::Bee, formation_index: FormationIndex(3, 4), is_formation: false };
    let mut zako = Zako { state: ZakoState::Formation, traj: None };
    let mut posture = Posture(Vec2I::new(0, 0), 600);
    let mut speed = Speed(0, 0);
    do_move_zako(&mut zako, &enemy, &mut posture, &mut speed, &f);
    assert_eq!(f.pos(&FormationIndex(3, 4)), posture.0);
    assert_eq!(88, posture.1);

    zako_start_attack(&mut zako, &enemy, &posture, false);
    assert_eq!(ZakoState::Attack, zako.state);
    let t = zako.traj.unwrap();
    assert_eq!(posture.0, t.pos);
    assert!(!t.flip_x);
}

#[test]
fn ecs_zako_arrives_at_its_slot() {
    let f = Formation::new();
    let enemy = Enemy { enemy_type: EnemyType::Bee, formation_index: FormationIndex(3, 4), is_formation: false };
    let mut zako = Zako { state: ZakoState::MoveToFormation, traj: None };
    let target = f.pos(&FormationIndex(3, 4));
    let mut posture = Posture(Vec2I::new(target.x, target.y + 100), 0);
    let mut speed = Speed(512, 0);
    do_move_zako(&mut zako, &enemy, &mut posture, &mut speed, &f);
    assert_eq!(ZakoState::Formation, zako.state);
    assert_eq!(target, posture.0);
    assert_eq!(0, speed.0);
}

#[test]
fn each_kind_of_small_enemy_dives_along_its_own_path() {
    let posture = Posture(Vec2I::new(0, 0), 0);
    let kinds = [
        (EnemyType::Bee, galangua::traj::bee_attack_table()),
        (EnemyType::Butterfly, galangua::traj::butterfly_attack_table()),
        (EnemyType::Owl, galangua::traj::owl_attack_table()),
        (EnemyType::CapturedFighter, galangua::traj::owl_attack_table()),
    ];
    for (kind, table) in kinds.iter() {
        let enemy = Enemy { enemy_type: *kind, formation_index: FormationIndex(6, 2), is_formation: true };
        let mut zako = Zako { state: ZakoState::Formation, traj: None };
        zako_start_attack(&mut zako, &enemy, &posture, false);
        let t = zako.traj.unwrap();
        assert_eq!(*table, t.command_table);
        assert!(t.flip_x);
    }
    assert_ne!(galangua::traj::bee_attack_table(), galangua::traj::butterfly_attack_table());
}

#[test]
fn path_file_lines_make_commands_or_errors() {
    let nums = vec![Some(256), Some(512)];
    assert_eq!(LineOutcome::Command(TrajCommand::Pos(256, 512)), line_command(CommandWord::Pos, 2, &nums, None));
    assert_eq!(LineOutcome::Unhandled, line_command(CommandWord::Pos, 1, &nums, None));
    assert_eq!(LineOutcome::NumberExpected, line_command(CommandWord::Delay, 1, &nums, None));
    assert_eq!(LineOutcome::Command(TrajCommand::Delay(7)), line_command(CommandWord::Delay, 1, &nums, Some(7)));
    assert_eq!(LineOutcome::Unhandled, line_command(CommandWord::Other, 3, &nums, None));
    let lines = vec![LineOutcome::Skip, LineOutcome::Command(TrajCommand::Speed(3)), LineOutcome::Command(TrajCommand::CopyFormationX)];
    assert_eq!(Some(vec![TrajCommand::Speed(3), TrajCommand::CopyFormationX]), commands_of_lines(&lines));
    let bad = vec![LineOutcome::Command(TrajCommand::Speed(3)), LineOutcome::NumberExpected];
    assert_eq!(None, commands_of_lines(&bad));
}

use galangua::consts::SoundEffect;
use galangua::edit_traj_manager::{EditCommand, EditTrajManager};
use galangua::enemy_types::{CaptureState, FormationIndex};
use galangua::events::EventType;
use galangua::game_info::{GameAction, GameInfo, GameState, StageState};
use galangua::game_manager::{calc_ene_shot_speed, GameManager, Params, StarManager};
use galangua::pad::{Pad, VKey};
use galangua::score_holder::ScoreHolder;

fn params() -> Params {
    Params { star_manager: StarManager::new(), pad: Pad::new(), score_holder: ScoreHolder::new(0) }
}

#[test]
fn enemy_shots_speed_up_with_the_stage() {
    assert_eq!(640, calc_ene_shot_speed(0));
    assert_eq!(832, calc_ene_shot_speed(32));
    assert_eq!(1024, calc_ene_shot_speed(64));
    assert_eq!(1024, calc_ene_shot_speed(200));
}

#[test]
fn a_ship_is_earned_at_20000_and_every_50000() {
    let mut gm = GameManager::new();
    gm.restart();
    let mut p = params();
    gm.handle_event(EventType::AddScore(19_000), &mut p);
    assert_eq!(3, gm.left_ship);
    gm.handle_event(EventType::AddScore(1_000), &mut p);
    assert_eq!(4, gm.left_ship);
    assert_eq!(20_000, p.score_holder.score);
    gm.handle_event(EventType::AddScore(20_000), &mut p);
    assert_eq!(4, gm.left_ship);
    gm.handle_event(EventType::AddScore(10_000), &mut p);
    assert_eq!(5, gm.left_ship);
    assert!(gm.sounds.contains(&(1, SoundEffect::ExtendShip)));
}

#[test]
fn capture_events_drive_the_capture_state() {
    let mut gm = GameManager::new();
    gm.restart();
    let mut p = params();
    gm.handle_event(EventType::StartCaptureAttack(FormationIndex(4, 1)), &mut p);
    assert_eq!(CaptureState::CaptureAttacking, gm.capture_state);
    assert_eq!(Some(FormationIndex(4, 0)), gm.captured_fighter_index());
    gm.handle_event(EventType::EndCaptureAttack, &mut p);
    assert_eq!(CaptureState::NoCapture, gm.capture_state);
    assert_eq!(None, gm.captured_fighter_index());
    gm.state = GameState::Playing;
    gm.handle_event(EventType::DeadPlayer, &mut p);
    assert_eq!(GameState::PlayerDead, gm.state);
    assert!(p.star_manager.stop);
    assert!(gm.enemy_manager.attack_manager.paused);
    gm.handle_event(EventType::RecaptureEnded(true), &mut p);
    assert_eq!(GameState::Playing, gm.state);
    assert_eq!(CaptureState::Dual, gm.capture_state);
    gm.handle_event(EventType::PlaySe(2, SoundEffect::AttackStart), &mut p);
    assert_eq!(Some(&(2, SoundEffect::AttackStart)), gm.sounds.last());
}

#[test]
fn game_starts_its_first_stage_after_the_stage_number() {
    let mut gm = GameManager::new();
    gm.restart();
    let mut p = params();
    for _ in 0..89 {
        gm.update(&mut p);
    }
    assert_eq!(GameState::StartStage, gm.state);
    gm.update(&mut p);
    assert_eq!(GameState::Playing, gm.state);
    assert!(!gm.enemy_manager.appearance_manager.done);
    for _ in 0..30 {
        gm.update(&mut p);
    }
    assert!(gm.enemy_manager.alive_enemy_count > 0);
}

#[test]
fn game_info_counts_down_the_ships() {
    let mut g = GameInfo::new(500);
    assert_eq!(GameState::StartStage, g.game_state);
    let a = g.update(false, true);
    assert_eq!(vec![GameAction::SetStageIndicator(1)], a);
    for _ in 1..89 {
        assert!(g.update(false, true).is_empty());
    }
    let a = g.update(false, true);
    assert_eq!(vec![GameAction::StartNextStage(0, None)], a);
    assert_eq!(GameState::Playing, g.game_state);

    let mut actions = Vec::new();
    g.next_player(&mut actions);
    assert_eq!(2, g.left_ship);
    assert_eq!(GameState::WaitReady2, g.game_state);
    assert_eq!(vec![GameAction::RestartPlayer, GameAction::EnablePlayerShot(false)], actions);
    g.next_player(&mut actions);
    let mut last = Vec::new();
    g.next_player(&mut last);
    assert_eq!(0, g.left_ship);
    assert_eq!(GameState::GameOver, g.game_state);
    assert_eq!(vec![GameAction::PauseAppearance(true), GameAction::PauseAttack(true)], last);
    for _ in 0..210 {
        g.update(true, true);
    }
    assert_eq!(GameState::Finished, g.game_state);
}

#[test]
fn stage_clears_when_no_enemy_is_left() {
    let mut g = GameInfo::new(0);
    g.game_state = GameState::Playing;
    g.stage_state = StageState::Normal;
    g.alive_enemy_count = 3;
    g.update(true, true);
    assert_eq!(StageState::Rush, g.stage_state);
    assert!(g.is_rush());
    g.decrement_alive_enemy();
    g.decrement_alive_enemy();
    g.decrement_alive_enemy();
    g.update(true, true);
    assert_eq!(StageState::Cleared, g.stage_state);
    assert_eq!(GameState::StageClear, g.game_state);
    for _ in 0..60 {
        g.update(true, true);
    }
    assert_eq!(1, g.stage);
    assert_eq!(GameState::StartStage, g.game_state);
}

#[test]
fn lost_dual_ship_ends_the_dual_state() {
    let mut g = GameInfo::new(0);
    g.capture_state = CaptureState::Dual;
    assert!(g.crash_player(false).is_empty());
    assert_eq!(CaptureState::NoCapture, g.capture_state);
    g.game_state = GameState::Playing;
    assert_eq!(vec![GameAction::PauseAttack(true)], g.crash_player(true));
    assert_eq!(GameState::PlayerDead, g.game_state);
}

#[test]
fn edit_mode_moves_the_selection_within_the_formation() {
    let mut m = EditTrajManager::new();
    assert_eq!(EditCommand::Nothing, m.update(Some(VKey::Left)));
    assert_eq!(FormationIndex(0, 5), m.fi);
    m.update(Some(VKey::Right));
    m.update(Some(VKey::Down));
    assert_eq!(FormationIndex(1, 5), m.fi);
    m.update(Some(VKey::Up));
    assert_eq!(FormationIndex(1, 4), m.fi);
    m.update(Some(VKey::Num0));
    m.update(Some(VKey::F));
    assert_eq!(EditCommand::TrajAttack(1, true, false), m.update(Some(VKey::Num1)));
    assert_eq!(EditCommand::Attack(true), m.update(Some(VKey::Num3)));
}

#[test]
fn the_trajectory_editor_starts_with_the_formation_at_rest() {
    let mut gm = GameManager::new();
    gm.restart();
    gm.start_edit_mode();
    assert_eq!(GameState::EditTraj, gm.state);
    assert_eq!(0, gm.stage);
    assert_eq!(40, gm.enemy_manager.alive_enemy_count);
    assert!(gm.myshots.iter().all(|s| s.is_none()));
    assert!(gm.event_queue.is_empty());
}

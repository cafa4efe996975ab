use galangua::consts::{CENTER_X, PLAYER_Y};
use galangua::events::EventType;
use galangua::myshot::MyShot;
use galangua::pad::{Pad, VKey};
use galangua::player::{Player, PlayerState};
use galangua::recaptured_fighter::{RecapturedFighter, RecapturedFighterState};
use galangua::types::Vec2I;

#[test]
fn ship_moves_and_stops_at_the_edges() {
    let mut p = Player::new();
    assert_eq!(Vec2I::new(CENTER_X, PLAYER_Y), p.pos);
    let mut pad = Pad::new();
    pad.on_key(VKey::Left, true);
    pad.update();
    let mut events = Vec::new();
    p.update(&pad, true, &mut events);
    assert_eq!(CENTER_X - 384, p.pos.x);
    for _ in 0..200 {
        p.update(&pad, true, &mut events);
    }
    assert_eq!(8 * 256, p.pos.x);
    assert!(events.is_empty());
}

#[test]
fn fire_button_fires_once_per_press() {
    let mut p = Player::new();
    let mut pad = Pad::new();
    pad.on_key(VKey::Space, true);
    pad.update();
    let mut events = Vec::new();
    p.update(&pad, true, &mut events);
    assert_eq!(vec![EventType::MyShot(Vec2I::new(CENTER_X, PLAYER_Y - 1024), false, 0)], events);
    pad.update();
    p.update(&pad, true, &mut events);
    assert_eq!(1, events.len());
    p.set_shot_enable(false);
    pad.on_key(VKey::Space, false);
    pad.update();
    pad.on_key(VKey::Space, true);
    pad.update();
    p.update(&pad, true, &mut events);
    assert_eq!(1, events.len());
}

#[test]
fn captured_ship_is_pulled_to_the_boss() {
    let mut p = Player::new();
    let target = Vec2I::new(CENTER_X + 2 * 256, PLAYER_Y - 3 * 256);
    p.start_capture(&target);
    let pad = Pad::new();
    let mut events = Vec::new();
    let mut frames = 0;
    while !p.is_captured() {
        p.update(&pad, true, &mut events);
        frames += 1;
        assert!(frames < 100);
    }
    assert_eq!(target, p.pos);
    assert_eq!(4, frames);
    assert_eq!(0, p.angle);
    p.complete_capture();
    assert_eq!(PlayerState::Dead, p.state);
}

#[test]
fn escaping_ship_drops_back_to_its_line() {
    let mut p = Player::new();
    p.start_capture(&Vec2I::new(CENTER_X, PLAYER_Y - 2 * 256));
    let pad = Pad::new();
    let mut events = Vec::new();
    p.update(&pad, true, &mut events);
    p.escape_capturing();
    while p.state == PlayerState::EscapeCapturing {
        p.update(&pad, true, &mut events);
    }
    assert_eq!(PLAYER_Y, p.pos.y);
    assert_eq!(Some(&EventType::EscapeEnded), events.last());
}

#[test]
fn dual_fighter_loses_one_ship_then_the_other() {
    let mut p = Player::new();
    p.dual = true;
    assert_eq!(Some(Vec2I::new(CENTER_X + 16 * 256, PLAYER_Y)), p.dual_pos());
    assert!(p.dual_collbox().is_some());
    assert!(!p.crash(false));
    assert_eq!(CENTER_X + 16 * 256, p.pos.x);
    assert!(!p.dual);
    assert!(p.dual_collbox().is_none());
    assert!(p.crash(false));
    assert_eq!(PlayerState::Dead, p.state);
    assert!(p.get_collbox().is_none());
}

#[test]
fn rescued_fighter_joins_the_ship() {
    let mut p = Player::new();
    p.start_recapture_effect(&Vec2I::new(50 * 256, 100 * 256), 0);
    let pad = Pad::new();
    let mut events = Vec::new();
    let mut frames = 0;
    while !p.dual {
        p.update(&pad, true, &mut events);
        if events.last() == Some(&EventType::MovePlayerHomePos) {
            p.start_move_home_pos();
            events.clear();
        }
        frames += 1;
        assert!(frames < 1000);
    }
    assert_eq!(Some(&EventType::RecaptureEnded(true)), events.last());
    assert_eq!(CENTER_X - 8 * 256, p.pos.x);
    assert_eq!(PlayerState::Normal, p.state);
}

#[test]
fn rescued_fighter_spins_four_turns_when_no_enemy_attacks() {
    let mut f = RecapturedFighter::new(&Vec2I::new(0, 0), -1);
    assert_eq!(65535, f.angle);
    let mut events = Vec::new();
    f.update(true, false, &mut events);
    assert_eq!(65535 + 2730, f.angle);
    let mut frames = 1;
    while f.state == RecapturedFighterState::Rotate {
        f.update(true, true, &mut events);
        frames += 1;
    }
    assert_eq!(73, frames);
    assert_eq!(vec![EventType::MovePlayerHomePos], events);
}

#[test]
fn shots_fly_up_until_they_leave_the_screen() {
    let mut s = MyShot::new(&Vec2I::new(1000, 1000), false, 0);
    assert!(s.update());
    assert_eq!(1000 - 1536, s.pos.y);
    assert!(!s.update());
    let d = MyShot::new(&Vec2I::new(1000, 5000), true, 0);
    let c = d.dual_collbox().unwrap();
    assert_eq!(Vec2I::new(4 - 1 + 16, 20 - 4), c.top_left);
    assert!(MyShot::new(&Vec2I::new(1000, 5000), false, 0).dual_collbox().is_none());
}

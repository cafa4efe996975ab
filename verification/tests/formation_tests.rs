use galangua::collision::CollBox;
use galangua::enemy_types::FormationIndex;
use galangua::formation::Formation;
use galangua::score_holder::ScoreHolder;
use galangua::tractor_beam::{TractorBeam, TractorBeamState};
use galangua::types::Vec2I;

#[test]
fn formation_starts_at_rest() {
    let f = Formation::new();
    assert_eq!(Vec2I::new(40 * 256, 24 * 256), f.pos(&FormationIndex(0, 0)));
    assert_eq!(Vec2I::new(184 * 256, 104 * 256), f.pos(&FormationIndex(9, 5)));
}

#[test]
fn sliding_formation_comes_back_after_512_frames() {
    let mut f = Formation::new();
    let start = f.pos(&FormationIndex(3, 2));
    f.update();
    assert_ne!(start, f.pos(&FormationIndex(3, 2)));
    for _ in 1..512 {
        f.update();
    }
    assert_eq!(start, f.pos(&FormationIndex(3, 2)));
}

#[test]
fn breathing_formation_returns_to_rest_every_256_frames() {
    let mut f = Formation::new();
    f.done_appearance();
    let mut frames = 0;
    while f.moving_pat == galangua::formation::MovingPat::Slide {
        f.update();
        frames += 1;
        assert!(frames < 1000);
    }
    let rest = f.pos(&FormationIndex(9, 5));
    for _ in 0..256 {
        f.update();
    }
    assert_eq!(rest, f.pos(&FormationIndex(9, 5)));
}

#[test]
fn high_score_follows_the_score() {
    let mut s = ScoreHolder::new(1000);
    s.add_score(500);
    assert_eq!(500, s.score);
    assert_eq!(1000, s.high_score);
    s.add_score(700);
    assert_eq!(1200, s.score);
    assert_eq!(1200, s.high_score);
    s.reset_score();
    assert_eq!(0, s.score);
    assert_eq!(1200, s.high_score);
    s.add_score(u32::MAX);
    assert_eq!(u32::MAX, s.score);
}

#[test]
fn boxes_overlap_symmetrically() {
    let a = CollBox { top_left: Vec2I::new(0, 0), size: Vec2I::new(10, 10) };
    let b = CollBox { top_left: Vec2I::new(9, 9), size: Vec2I::new(5, 5) };
    let c = CollBox { top_left: Vec2I::new(10, 0), size: Vec2I::new(5, 5) };
    assert!(a.check_collision(&b));
    assert!(b.check_collision(&a));
    assert!(!a.check_collision(&c));
    assert!(!c.check_collision(&a));
}

#[test]
fn tractor_beam_opens_holds_and_closes() {
    let mut beam = TractorBeam::new(&Vec2I::new(100 * 256, 150 * 256));
    assert_eq!(TractorBeamState::Opening, beam.state);
    let mut frames = 0;
    while beam.state == TractorBeamState::Opening {
        beam.update();
        frames += 1;
    }
    assert_eq!(37, frames);
    assert_eq!(TractorBeamState::Full, beam.state);
    assert!(beam.can_capture(&Vec2I::new(110 * 256, 250 * 256)));
    assert!(!beam.can_capture(&Vec2I::new(130 * 256, 250 * 256)));
    for _ in 0..180 {
        beam.update();
    }
    assert_eq!(TractorBeamState::Closing, beam.state);
    while beam.state == TractorBeamState::Closing {
        beam.update();
    }
    assert!(beam.closed());
}

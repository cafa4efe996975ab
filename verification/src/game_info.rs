use vstd::prelude::*;

use crate::enemy_manager::{shot_velocity, RUSH_THRESHOLD};
use crate::enemy_types::{CaptureState, FormationIndex};
use crate::game_manager::{calc_ene_shot_speed, ene_shot_speed};
use crate::math::{atan2_lut, calc_velocity, clamp, ANGLE, ONE};
use crate::score_holder::ScoreHolder;
use crate::types::{Vec2I, Vector2D};

verus! {

/// Ships at the start of a game.
pub const DEFAULT_LEFT_SHIP: u32 = 3;
/// Frames of the pauses between the steps of a game.
pub const WAIT1: u32 = 60;
/// Frames during which the stage number is shown.
pub const START_STAGE_FRAMES: u32 = 90;
/// Frames during which "GAME OVER" is shown.
pub const GAME_OVER_FRAMES: u32 = 210;

/// The steps of a game.
#[derive(Clone, Copy, Debug, PartialEq, Eq, Structural)]
pub enum GameState {
    StartStage,
    Playing,
    PlayerDead,
    WaitReady,
    WaitReady2,
    Capturing,
    Captured,
    Recapturing,
    StageClear,
    GameOver,
    Finished,
    /// The trajectory editor: the formation rests and chosen enemies fly chosen paths.
    EditTraj,
}

/// The phase of a stage, with the state of a stage whose enemies are all gone.
#[derive(Clone, Copy, Debug, PartialEq, Eq, Structural)]
pub enum StageState {
    Appearance,
    Normal,
    Rush,
    Cleared,
}

/// What the game asks the rest of the program to do during a frame.
#[derive(Clone, Copy, Debug, PartialEq, Eq, Structural)]
pub enum GameAction {
    /// Show the number of the stage that starts.
    SetStageIndicator(u16),
    /// Restart the formation, the appearance of the enemies of the stage (with the fighter
    /// that a boss still holds, if any), the attacks and the enemy shots.
    StartNextStage(u16, Option<FormationIndex>),
    EnablePlayerShot(bool),
    PauseAttack(bool),
    PauseAppearance(bool),
    StopStars(bool),
    /// Put a new ship at the start position.
    RestartPlayer,
}

/// The progress of a game: stage, ships left, and the capture of the player's ship.
pub struct GameInfo {
    pub stage: u16,
    pub left_ship: u32,
    pub game_state: GameState,
    pub count: u32,
    pub stage_state: StageState,
    pub capture_state: CaptureState,
    pub capture_enemy_fi: FormationIndex,
    pub alive_enemy_count: u32,
    pub score_holder: ScoreHolder,
    pub frame_count: u32,
}

/// The stage phase once the appearance is over: no enemy left clears the stage, few left
/// is rush.
pub open spec fn next_stage_progress(s: StageState, appearance_done: bool, alive: u32) -> StageState {
    if s == StageState::Appearance && !appearance_done {
        s
    } else if alive == 0 {
        StageState::Cleared
    } else if alive <= RUSH_THRESHOLD {
        StageState::Rush
    } else if s == StageState::Appearance {
        StageState::Normal
    } else {
        s
    }
}

impl GameInfo {
    /// The frame count of each timed step stays below its end; a captured ship's boss has a
    /// row above it.
    pub open spec fn wf(&self) -> bool {
        &&& self.game_state == GameState::StartStage ==> self.count < START_STAGE_FRAMES
        &&& (self.game_state == GameState::PlayerDead || self.game_state == GameState::WaitReady
            || self.game_state == GameState::WaitReady2 || self.game_state == GameState::StageClear) ==> self.count < WAIT1
        &&& self.game_state == GameState::GameOver ==> self.count < GAME_OVER_FRAMES
        &&& self.capture_state == CaptureState::Captured ==> self.capture_enemy_fi.1 >= 1
    }

    pub fn new(high_score: u32) -> (g: Self)
        ensures
            g.wf(),
            g.stage == 0,
            g.left_ship == DEFAULT_LEFT_SHIP,
            g.game_state == GameState::StartStage,
            g.count == 0,
            g.stage_state == StageState::Appearance,
            g.capture_state == CaptureState::NoCapture,
            g.alive_enemy_count == 0,
            g.score_holder.score == 0,
            g.score_holder.high_score == high_score,
    {
        GameInfo {
            stage: 0,
            left_ship: DEFAULT_LEFT_SHIP,
            game_state: GameState::StartStage,
            count: 0,
            stage_state: StageState::Appearance,
            capture_state: CaptureState::NoCapture,
            capture_enemy_fi: FormationIndex(0, 0),
            alive_enemy_count: 0,
            score_holder: ScoreHolder::new(high_score),
            frame_count: 0,
        }
    }

    /// Runs one frame of the game's steps; gives what the rest of the program has to do.
    pub fn update(&mut self, appearance_done: bool, no_attacker: bool) -> (actions: Vec<GameAction>)
        requires
            old(self).wf(),
            old(self).game_state == GameState::WaitReady ==> old(self).left_ship >= 1,
        ensures
            final(self).wf(),
            ({
                let sp = next_stage_progress(old(self).stage_state, appearance_done, old(self).alive_enemy_count);
                let c = old(self).count + 1;
                match old(self).game_state {
                    GameState::StartStage => {
                        let shown = if old(self).count == 0 {
                            seq![GameAction::SetStageIndicator(
                                (if old(self).stage < 255 { old(self).stage as int } else { 255 } + 1) as u16)]
                        } else {
                            seq![]
                        };
                        if c >= START_STAGE_FRAMES {
                            let cf = if old(self).capture_state == CaptureState::Captured {
                                Some(FormationIndex(old(self).capture_enemy_fi.0, (old(self).capture_enemy_fi.1 - 1) as u8))
                            } else {
                                None
                            };
                            &&& actions@ == shown.push(GameAction::StartNextStage(old(self).stage, cf))
                            &&& final(self).game_state == GameState::Playing
                            &&& final(self).stage_state == StageState::Appearance
                            &&& final(self).count == c
                        } else {
                            &&& actions@ == shown
                            &&& final(self).game_state == GameState::StartStage
                            &&& final(self).stage_state == sp
                            &&& final(self).count == c
                        }
                    },
                    GameState::Playing => {
                        &&& actions@ == Seq::<GameAction>::empty()
                        &&& final(self).stage_state == sp
                        &&& if sp == StageState::Cleared {
                            final(self).game_state == GameState::StageClear && final(self).count == 0
                        } else {
                            final(self).game_state == GameState::Playing && final(self).count == old(self).count
                        }
                    },
                    GameState::PlayerDead => {
                        &&& actions@ == Seq::<GameAction>::empty()
                        &&& if c >= WAIT1 {
                            final(self).game_state == GameState::WaitReady && final(self).count == 0
                        } else {
                            final(self).game_state == GameState::PlayerDead && final(self).count == c
                        }
                    },
                    GameState::WaitReady => {
                        if no_attacker && c >= WAIT1 {
                            &&& final(self).left_ship == old(self).left_ship - 1
                            &&& final(self).count == 0
                            &&& if final(self).left_ship == 0 {
                                &&& final(self).game_state == GameState::GameOver
                                &&& actions@ == seq![GameAction::PauseAppearance(true), GameAction::PauseAttack(true)]
                            } else {
                                &&& final(self).game_state == GameState::WaitReady2
                                &&& actions@ == seq![GameAction::RestartPlayer, GameAction::EnablePlayerShot(false)]
                            }
                        } else {
                            &&& actions@ == Seq::<GameAction>::empty()
                            &&& final(self).game_state == GameState::WaitReady
                            &&& final(self).count == if no_attacker { c } else { old(self).count as int }
                        }
                    },
                    GameState::WaitReady2 => {
                        if c >= WAIT1 {
                            &&& final(self).game_state == GameState::Playing
                            &&& final(self).count == 0
                            &&& actions@ == seq![GameAction::EnablePlayerShot(true), GameAction::PauseAttack(false),
                                GameAction::StopStars(false)]
                        } else {
                            &&& final(self).game_state == GameState::WaitReady2
                            &&& final(self).count == c
                            &&& actions@ == Seq::<GameAction>::empty()
                        }
                    },
                    GameState::Capturing | GameState::Recapturing | GameState::Finished | GameState::EditTraj => {
                        &&& actions@ == Seq::<GameAction>::empty()
                        &&& final(self).game_state == old(self).game_state
                        &&& final(self).count == old(self).count
                    },
                    GameState::Captured => {
                        &&& actions@ == Seq::<GameAction>::empty()
                        &&& final(self).game_state == GameState::Captured
                        &&& final(self).count == if c <= u32::MAX { c } else { 0 }
                    },
                    GameState::StageClear => {
                        &&& actions@ == Seq::<GameAction>::empty()
                        &&& if c >= WAIT1 {
                            &&& final(self).stage == if old(self).stage < u16::MAX { (old(self).stage + 1) as u16 } else { old(self).stage }
                            &&& final(self).game_state == GameState::StartStage
                            &&& final(self).count == 0
                        } else {
                            final(self).game_state == GameState::StageClear && final(self).count == c
                        }
                    },
                    GameState::GameOver => {
                        &&& actions@ == Seq::<GameAction>::empty()
                        &&& final(self).count == c
                        &&& final(self).game_state == if c >= GAME_OVER_FRAMES { GameState::Finished } else { GameState::GameOver }
                    },
                }
            }),
            old(self).game_state != GameState::StageClear ==> final(self).stage == old(self).stage,
            !(old(self).game_state == GameState::WaitReady) ==> final(self).left_ship == old(self).left_ship,
            final(self).capture_state == old(self).capture_state,
            final(self).alive_enemy_count == old(self).alive_enemy_count,
            final(self).score_holder == old(self).score_holder,
            final(self).frame_count == old(self).frame_count.wrapping_add(1),
    {
        self.frame_count = self.frame_count.wrapping_add(1);
        self.check_stage_state(appearance_done);

        let mut actions: Vec<GameAction> = Vec::new();
        match self.game_state {
            GameState::StartStage => {
                if self.count == 0 {
                    let shown: u16 = if self.stage < 255 { self.stage } else { 255 };
                    actions.push(GameAction::SetStageIndicator(shown + 1));
                }
                self.count += 1;
                if self.count >= START_STAGE_FRAMES {
                    let captured_fighter = if self.capture_state == CaptureState::Captured {
                        Some(FormationIndex(self.capture_enemy_fi.0, self.capture_enemy_fi.1 - 1))
                    } else {
                        None
                    };
                    actions.push(GameAction::StartNextStage(self.stage, captured_fighter));
                    self.stage_state = StageState::Appearance;
                    self.game_state = GameState::Playing;
                }
            },
            GameState::Playing => {
                if self.stage_state == StageState::Cleared {
                    self.game_state = GameState::StageClear;
                    self.count = 0;
                }
            },
            GameState::PlayerDead => {
                self.count += 1;
                if self.count >= WAIT1 {
                    self.game_state = GameState::WaitReady;
                    self.count = 0;
                }
            },
            GameState::WaitReady => {
                if no_attacker {
                    self.count += 1;
                    if self.count >= WAIT1 {
                        self.next_player(&mut actions);
                    }
                }
            },
            GameState::WaitReady2 => {
                self.count += 1;
                if self.count >= WAIT1 {
                    actions.push(GameAction::EnablePlayerShot(true));
                    actions.push(GameAction::PauseAttack(false));
                    actions.push(GameAction::StopStars(false));
                    self.game_state = GameState::Playing;
                    self.count = 0;
                }
            },
            GameState::Capturing | GameState::Recapturing => {},
            GameState::Captured => {
                self.count = self.count.wrapping_add(1);
            },
            GameState::StageClear => {
                self.count += 1;
                if self.count >= WAIT1 {
                    self.stage = self.stage.saturating_add(1);
                    self.game_state = GameState::StartStage;
                    self.count = 0;
                }
            },
            GameState::GameOver => {
                self.count += 1;
                if self.count >= GAME_OVER_FRAMES {
                    self.game_state = GameState::Finished;
                }
            },
            GameState::Finished | GameState::EditTraj => {},
        }
        actions
    }

    /// A boss may start a capture attack only while no capture is going on.
    pub fn can_capture_attack(&self) -> (b: bool)
        ensures
            b == (self.capture_state == CaptureState::NoCapture),
    {
        self.capture_state == CaptureState::NoCapture
    }

    /// The tractor beam can take the ship only during play.
    pub fn can_capture(&self) -> (b: bool)
        ensures
            b == (self.game_state == GameState::Playing),
    {
        self.game_state == GameState::Playing
    }

    /// A capture attack is over without a capture.
    pub fn end_capture_attack(&mut self)
        requires
            old(self).wf(),
            old(self).capture_state != CaptureState::Captured,
        ensures
            final(self).wf(),
            *final(self) == (GameInfo {
                capture_state: CaptureState::NoCapture,
                capture_enemy_fi: FormationIndex(0, 0),
                ..*old(self)
            }),
    {
        self.capture_state = CaptureState::NoCapture;
        self.capture_enemy_fi = FormationIndex(0, 0);
    }

    pub fn start_capturing(&mut self)
        requires
            old(self).wf(),
        ensures
            final(self).wf(),
            *final(self) == (GameInfo { capture_state: CaptureState::Capturing, ..*old(self) }),
    {
        self.capture_state = CaptureState::Capturing;
    }

    /// The beam has the ship.
    pub fn capture_player(&mut self)
        requires
            old(self).wf(),
        ensures
            final(self).wf(),
            *final(self) == (GameInfo {
                game_state: GameState::Capturing,
                capture_state: CaptureState::Capturing,
                ..*old(self)
            }),
    {
        self.game_state = GameState::Capturing;
        self.capture_state = CaptureState::Capturing;
    }

    /// The ship has become the boss's fighter.
    pub fn player_captured(&mut self)
        requires
            old(self).wf(),
            old(self).capture_enemy_fi.1 >= 1,
        ensures
            final(self).wf(),
            *final(self) == (GameInfo {
                capture_state: CaptureState::Captured,
                game_state: GameState::Captured,
                count: 0,
                ..*old(self)
            }),
    {
        self.capture_state = CaptureState::Captured;
        self.game_state = GameState::Captured;
        self.count = 0;
    }

    /// The capture scene is over: the next ship comes in the next frame.
    pub fn capture_completed(&mut self)
        requires
            old(self).wf(),
        ensures
            final(self).wf(),
            *final(self) == (GameInfo { game_state: GameState::WaitReady, count: (WAIT1 - 1) as u32, ..*old(self) }),
    {
        self.game_state = GameState::WaitReady;
        self.count = WAIT1 - 1;
    }

    /// A captured fighter is being rescued.
    pub fn start_recapturing(&mut self)
        requires
            old(self).wf(),
        ensures
            final(self).wf(),
            *final(self) == (GameInfo {
                game_state: GameState::Recapturing,
                capture_state: CaptureState::Recapturing,
                ..*old(self)
            }),
    {
        self.game_state = GameState::Recapturing;
        self.capture_state = CaptureState::Recapturing;
    }

    /// The rescue is over; with the fighter joined, the ship is dual.
    pub fn end_recapturing(&mut self, dual: bool)
        requires
            old(self).wf(),
        ensures
            final(self).wf(),
            *final(self) == (GameInfo {
                capture_state: if dual { CaptureState::Dual } else { CaptureState::NoCapture },
                capture_enemy_fi: FormationIndex(0, 0),
                game_state: GameState::Playing,
                ..*old(self)
            }),
    {
        self.capture_state = if dual { CaptureState::Dual } else { CaptureState::NoCapture };
        self.capture_enemy_fi = FormationIndex(0, 0);
        self.game_state = GameState::Playing;
    }

    /// The boss was destroyed while pulling the ship.
    pub fn escape_capturing(&mut self)
        requires
            old(self).wf(),
        ensures
            final(self).wf(),
            *final(self) == (GameInfo {
                capture_state: CaptureState::NoCapture,
                capture_enemy_fi: FormationIndex(0, 0),
                ..*old(self)
            }),
    {
        self.capture_state = CaptureState::NoCapture;
        self.capture_enemy_fi = FormationIndex(0, 0);
    }

    pub fn escape_ended(&mut self)
        requires
            old(self).wf(),
        ensures
            final(self).wf(),
            *final(self) == (GameInfo { game_state: GameState::Playing, ..*old(self) }),
    {
        self.game_state = GameState::Playing;
    }

    pub fn captured_fighter_destroyed(&mut self)
        requires
            old(self).wf(),
        ensures
            final(self).wf(),
            *final(self) == (GameInfo {
                capture_state: CaptureState::NoCapture,
                capture_enemy_fi: FormationIndex(0, 0),
                ..*old(self)
            }),
    {
        self.capture_state = CaptureState::NoCapture;
        self.capture_enemy_fi = FormationIndex(0, 0);
    }

    /// A hit on the player: a lost single ship stops the attacks and the play (but not a
    /// rescue in progress); a lost ship of a dual fighter ends the dual state.
    pub fn crash_player(&mut self, died: bool) -> (actions: Vec<GameAction>)
        requires
            old(self).wf(),
            !died ==> old(self).capture_state == CaptureState::Dual,
        ensures
            final(self).wf(),
            died && old(self).game_state != GameState::Recapturing ==> {
                &&& actions@ == seq![GameAction::PauseAttack(true)]
                &&& *final(self) == (GameInfo { game_state: GameState::PlayerDead, count: 0, ..*old(self) })
            },
            died && old(self).game_state == GameState::Recapturing ==> actions@.len() == 0 && *final(self) == *old(self),
            !died ==> actions@.len() == 0
                && *final(self) == (GameInfo { capture_state: CaptureState::NoCapture, ..*old(self) }),
    {
        let mut actions: Vec<GameAction> = Vec::new();
        if died {
            if self.game_state != GameState::Recapturing {
                actions.push(GameAction::PauseAttack(true));
                self.game_state = GameState::PlayerDead;
                self.count = 0;
            }
        } else {
            self.capture_state = CaptureState::NoCapture;
        }
        actions
    }

    /// The next ship comes in, or, with none left, the game is over.
    pub fn next_player(&mut self, actions: &mut Vec<GameAction>)
        requires
            old(self).capture_state == CaptureState::Captured ==> old(self).capture_enemy_fi.1 >= 1,
            old(self).left_ship >= 1,
        ensures
            final(self).wf(),
            final(self).left_ship == old(self).left_ship - 1,
            final(self).count == 0,
            final(self).left_ship == 0 ==> final(self).game_state == GameState::GameOver
                && final(actions)@ == old(actions)@.push(GameAction::PauseAppearance(true)).push(GameAction::PauseAttack(true)),
            final(self).left_ship > 0 ==> final(self).game_state == GameState::WaitReady2
                && final(actions)@ == old(actions)@.push(GameAction::RestartPlayer).push(GameAction::EnablePlayerShot(false)),
            (GameInfo { left_ship: old(self).left_ship, game_state: old(self).game_state, count: old(self).count,
                ..*final(self) }) == *old(self),
    {
        self.left_ship -= 1;
        if self.left_ship == 0 {
            actions.push(GameAction::PauseAppearance(true));
            actions.push(GameAction::PauseAttack(true));
            self.game_state = GameState::GameOver;
            self.count = 0;
        } else {
            actions.push(GameAction::RestartPlayer);
            actions.push(GameAction::EnablePlayerShot(false));
            self.game_state = GameState::WaitReady2;
            self.count = 0;
        }
    }

    /// Counts an enemy gone.
    pub fn decrement_alive_enemy(&mut self)
        requires
            old(self).alive_enemy_count > 0,
            old(self).wf(),
        ensures
            final(self).wf(),
            *final(self) == (GameInfo { alive_enemy_count: (old(self).alive_enemy_count - 1) as u32, ..*old(self) }),
    {
        self.alive_enemy_count -= 1;
    }

    /// The enemies attack without pause: few are left during play.
    pub open spec fn is_rush_spec(&self) -> bool {
        self.game_state == GameState::Playing && self.stage_state == StageState::Rush
    }

    /// Whether the enemies attack without pause.
    pub fn is_rush(&self) -> (b: bool)
        ensures
            b == (self.game_state == GameState::Playing && self.stage_state == StageState::Rush),
    {
        self.game_state == GameState::Playing && self.stage_state == StageState::Rush
    }

    /// Moves the stage phase on once the appearance is over.
    fn check_stage_state(&mut self, appearance_done: bool)
        ensures
            *final(self) == (GameInfo {
                stage_state: next_stage_progress(old(self).stage_state, appearance_done, old(self).alive_enemy_count),
                ..*old(self)
            }),
    {
        if self.stage_state == StageState::Appearance {
            if !appearance_done {
                return;
            }
            self.stage_state = StageState::Normal;
        }
        if self.alive_enemy_count == 0 {
            self.stage_state = StageState::Cleared;
        } else if self.alive_enemy_count <= RUSH_THRESHOLD {
            self.stage_state = StageState::Rush;
        }
    }
}

/// Bound of the positions from which enemy shots are fired and at which they aim.
pub open spec fn shot_pos_ok(p: Vec2I) -> bool {
    -0x10_0000 <= p.x <= 0x10_0000 && -0x10_0000 <= p.y <= 0x10_0000
}

/// The places from which enemies fire during a frame, fired together at its end.
pub struct EneShotSpawner {
    pub queue: Vec<Vec2I>,
    pub shot_paused_count: u32,
}

impl EneShotSpawner {
    /// Every queued place is within bounds.
    pub open spec fn wf(&self) -> bool {
        forall|i: int| 0 <= i < self.queue@.len() ==> shot_pos_ok(#[trigger] self.queue@[i])
    }

    pub fn new() -> (s: Self)
        ensures
            s.wf(),
            s.queue@.len() == 0,
            s.shot_paused_count == 0,
    {
        Self { queue: Vec::new(), shot_paused_count: 0 }
    }

    /// Queues a shot from `pos`.
    pub fn push(&mut self, pos: &Vec2I)
        requires
            old(self).wf(),
            shot_pos_ok(*pos),
        ensures
            final(self).wf(),
            final(self).queue@ == old(self).queue@.push(*pos),
            final(self).shot_paused_count == old(self).shot_paused_count,
    {
        self.queue.push(*pos);
    }

    /// Fires the queued shots at the player's ship, if there is one, unless the fire is
    /// held; the held count runs down instead. Gives each shot's place and velocity.
    pub fn update(&mut self, target_pos: Option<Vec2I>, stage: u16) -> (shots: Vec<(Vec2I, Vec2I)>)
        requires
            old(self).wf(),
            target_pos matches Some(t) ==> shot_pos_ok(t),
        ensures
            final(self).wf(),
            final(self).queue@.len() == 0,
            old(self).shot_paused_count > 0 ==> final(self).shot_paused_count == old(self).shot_paused_count - 1
                && shots@.len() == 0,
            old(self).shot_paused_count == 0 ==> final(self).shot_paused_count == 0 && match target_pos {
                Some(t) => {
                    &&& shots@.len() == old(self).queue@.len()
                    &&& forall|i: int| 0 <= i < shots@.len() ==> #[trigger] shots@[i] == (old(self).queue@[i],
                        shot_velocity(old(self).queue@[i], t, ene_shot_speed(stage)))
                },
                None => shots@.len() == 0,
            },
    {
        let mut shots: Vec<(Vec2I, Vec2I)> = Vec::new();
        if self.shot_paused_count > 0 {
            self.shot_paused_count -= 1;
        } else if let Some(target) = target_pos {
            let speed = calc_ene_shot_speed(stage);
            let mut i: usize = 0;
            while i < self.queue.len()
                invariant
                    i <= self.queue@.len(),
                    self.wf(),
                    shot_pos_ok(target),
                    *self == *old(self),
                    speed == ene_shot_speed(stage),
                    640 <= speed <= 1024,
                    shots@.len() == i,
                    forall|k: int| 0 <= k < i ==> #[trigger] shots@[k] == (self.queue@[k],
                        shot_velocity(self.queue@[k], target, speed as int)),
                decreases self.queue@.len() - i,
            {
                let pos = self.queue[i];
                let d = target.minus(&pos);
                let angle = atan2_lut(d.y, -d.x);
                let limit: i32 = ANGLE * ONE * 30 / 360;
                let angle = clamp(angle, -limit, limit);
                let vel = calc_velocity(angle + ANGLE * ONE / 2, speed);
                shots.push((pos, vel));
                i += 1;
            }
        }
        self.queue.clear();
        shots
    }

    /// Holds the fire for `wait` frames.
    pub fn pause_enemy_shot(&mut self, wait: u32)
        ensures
            final(self).shot_paused_count == wait,
            final(self).queue@ == old(self).queue@,
    {
        self.shot_paused_count = wait;
    }

    /// Forgets the queued shots and releases the fire.
    pub fn restart(&mut self)
        ensures
            final(self).wf(),
            final(self).queue@.len() == 0,
            final(self).shot_paused_count == 0,
    {
        self.shot_paused_count = 0;
        self.queue.clear();
    }
}

/// The sounds asked for during a frame, played together at its end.
pub struct SoundQueue {
    pub queue: Vec<(u32, &'static str)>,
}

impl SoundQueue {
    pub fn new() -> (q: Self)
        ensures
            q.queue@.len() == 0,
    {
        Self { queue: Vec::new() }
    }

    /// Asks for a sound file on a channel.
    pub fn push_play_se(&mut self, channel: u32, filename: &'static str)
        ensures
            final(self).queue@ == old(self).queue@.push((channel, filename)),
    {
        self.queue.push((channel, filename));
    }

    /// Hands over the sounds asked for, in order, and empties the queue.
    pub fn take_all(&mut self) -> (sounds: Vec<(u32, &'static str)>)
        ensures
            sounds@ == old(self).queue@,
            final(self).queue@.len() == 0,
    {
        let mut sounds: Vec<(u32, &'static str)> = Vec::new();
        std::mem::swap(&mut sounds, &mut self.queue);
        sounds
    }
}

} // verus!

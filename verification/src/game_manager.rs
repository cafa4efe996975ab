use vstd::prelude::*;

use crate::collision::{box_ok, CollBox};
use crate::consts::{
    SoundEffect, CENTER_X, PLAYER_Y, CH_BOMB, CH_JINGLE, CH_SHOT, ENE_SHOT_SPEED1, ENE_SHOT_SPEED2, EXTEND_AFTER_SCORE, EXTEND_FIRST_SCORE,
};
use crate::effect::{is_earned_point_effect, is_enemy_explosion, is_player_explosion, Effect};
use crate::ene_shot::on_screen;
use crate::enemy::{index_ok, index_ok_exec};
use crate::enemy_manager::{fired_at, EnemyManager, MAX_SHOT_COUNT};
use crate::enemy_types::{Accessor, CaptureState, FormationIndex};
use crate::events::EventType;
use crate::game_info::{GameState, DEFAULT_LEFT_SHIP, GAME_OVER_FRAMES, START_STAGE_FRAMES, WAIT1};
use crate::math::{roundable, ONE};
use crate::myshot::MyShot;
use crate::pad::Pad;
use crate::player::{capture_pos_limit, Player, PlayerState};
use crate::score_holder::{score_added, ScoreHolder};
use crate::types::{Vec2I, Vector2D};

verus! {

/// Number of player shots that can fly at the same time.
pub const MYSHOT_COUNT: usize = 2;
/// Number of effects that can run at the same time.
pub const MAX_EFFECT_COUNT: usize = 16;
/// Highest stage whose enemy shots get faster.
pub const MAX_STAGE: i32 = 64;

/// What the game tells the star field behind it.
#[derive(Clone, Copy, Debug, PartialEq, Eq, Structural)]
pub struct StarManager {
    pub stop: bool,
    pub capturing: bool,
}

impl StarManager {
    pub fn new() -> (s: Self)
        ensures
            !s.stop && !s.capturing,
    {
        StarManager { stop: false, capturing: false }
    }

    pub fn set_stop(&mut self, value: bool)
        ensures
            *final(self) == (StarManager { stop: value, ..*old(self) }),
    {
        self.stop = value;
    }

    pub fn set_capturing(&mut self, value: bool)
        ensures
            *final(self) == (StarManager { capturing: value, ..*old(self) }),
    {
        self.capturing = value;
    }
}

/// What a frame of the game reads and changes outside of it.
pub struct Params {
    pub star_manager: StarManager,
    pub pad: Pad,
    pub score_holder: ScoreHolder,
}

/// The speed of enemy shots: faster with each stage up to the sixty-fourth.
pub open spec fn ene_shot_speed(stage: u16) -> int {
    let s = if (stage as int) < MAX_STAGE { stage as int } else { MAX_STAGE as int };
    let per = s * ONE / MAX_STAGE as int;
    (ENE_SHOT_SPEED2 - ENE_SHOT_SPEED1) * per / ONE as int + ENE_SHOT_SPEED1
}

/// The speed of enemy shots in a stage.
pub fn calc_ene_shot_speed(stage: u16) -> (speed: i32)
    ensures
        speed == ene_shot_speed(stage),
        ENE_SHOT_SPEED1 <= speed <= ENE_SHOT_SPEED2,
{
    let s: i32 = if (stage as i32) < MAX_STAGE { stage as i32 } else { MAX_STAGE };
    let per = s * ONE / MAX_STAGE;
    assert(0 <= per <= ONE) by (nonlinear_arith)
        requires 0 <= s <= 64, per == s * 256 / 64;
    assert(0 <= 384 * (per as int) / 256 <= 384) by (nonlinear_arith)
        requires 0 <= per <= 256;
    (ENE_SHOT_SPEED2 - ENE_SHOT_SPEED1) * per / ONE + ENE_SHOT_SPEED1
}

/// The score at which the next ship is earned: the first at 20000, then every 50000.
pub open spec fn extend_score(before: int) -> int {
    if before < EXTEND_FIRST_SCORE {
        EXTEND_FIRST_SCORE as int
    } else {
        (before + EXTEND_AFTER_SCORE - 1) / (EXTEND_AFTER_SCORE as int) * EXTEND_AFTER_SCORE
    }
}

/// Whether adding `add` points to `before` earns a ship.
pub open spec fn earns_ship(before: int, add: int) -> bool {
    before + add >= extend_score(before)
}

/// Whether an effect is still running, with its counters far from overflow.
pub open spec fn effect_ok(e: Effect) -> bool {
    &&& (e.anime().frame as int) < e.anime().sprites@.len() <= 8
    &&& e.anime().count < e.anime().frame_wait
    &&& e.anime().frame_wait <= 64
}

/// The slot of the fighter held by the boss whose slot is `fi`: the one above it.
pub open spec fn captured_slot_of(state: CaptureState, fi: FormationIndex) -> Option<FormationIndex> {
    match state {
        CaptureState::NoCapture | CaptureState::Recapturing | CaptureState::Dual => None,
        _ => Some(FormationIndex(fi.0, (fi.1 - 1) as u8)),
    }
}

/// One frame of the steps of play, from `g0` to `g1`, with what the game reads and changes
/// outside of it going from `p0` to `p1`.
pub open spec fn state_advanced(g0: GameManager, g1: GameManager, p0: Params, p1: Params) -> bool {
    &&& p1.pad == p0.pad
    &&& p1.score_holder == p0.score_holder
    &&& ({
        let c = g0.count.saturating_add(1);
        match g0.state {
            GameState::StartStage => if c >= START_STAGE_FRAMES {
                &&& g1.state == GameState::Playing
                &&& g1.count == c
                &&& g1.enemy_manager.alive_enemy_count == 0
                &&& !g1.enemy_manager.appearance_manager.done
                &&& g1.enemy_manager.appearance_manager.stage == g0.stage
            } else {
                g1.state == GameState::StartStage && g1.count == c
            },
            GameState::Playing => if stage_over(g0.enemy_manager) {
                g1.state == GameState::StageClear && g1.count == 0
            } else {
                g1.state == GameState::Playing && g1.count == g0.count
            },
            GameState::Capturing | GameState::Recapturing | GameState::Finished | GameState::EditTraj =>
                g1.state == g0.state && g1.count == g0.count,
            GameState::Captured => g1.state == GameState::Captured && g1.count == c,
            GameState::PlayerDead => if c >= WAIT1 {
                g1.state == GameState::WaitReady && g1.count == 0
            } else {
                g1.state == GameState::PlayerDead && g1.count == c
            },
            GameState::WaitReady => if no_attacker(g0.enemy_manager) && c >= WAIT1 && g0.left_ship > 0 {
                &&& g1.left_ship == g0.left_ship - 1
                &&& g1.count == 0
                &&& g1.state == if g1.left_ship == 0 { GameState::GameOver } else { GameState::WaitReady2 }
            } else if no_attacker(g0.enemy_manager) {
                g1.state == GameState::WaitReady && g1.count == c
            } else {
                g1.state == GameState::WaitReady && g1.count == g0.count
            },
            GameState::WaitReady2 => if c >= WAIT1 {
                &&& g1.state == GameState::Playing
                &&& g1.count == 0
                &&& g1.player.shot_enable
                &&& !g1.enemy_manager.attack_manager.paused
                &&& !p1.star_manager.stop
            } else {
                g1.state == GameState::WaitReady2 && g1.count == c
            },
            GameState::StageClear => if c >= WAIT1 {
                &&& g1.stage == g0.stage.saturating_add(1)
                &&& g1.state == GameState::StartStage
                &&& g1.count == 0
            } else {
                g1.state == GameState::StageClear && g1.count == c
            },
            GameState::GameOver => {
                &&& g1.count == c
                &&& g1.state == if c >= GAME_OVER_FRAMES { GameState::Finished } else { GameState::GameOver }
            },
        }
    })
    &&& g0.state != GameState::StageClear ==> g1.stage == g0.stage
    &&& g0.state != GameState::WaitReady ==> g1.left_ship == g0.left_ship
    &&& g1.capture_state == g0.capture_state
}

/// Whether `i` is the first empty place of `s`.
pub open spec fn first_free_at<T>(s: Seq<Option<T>>, i: int) -> bool {
    &&& 0 <= i < s.len()
    &&& s[i].is_none()
    &&& forall|k: int| 0 <= k < i ==> (#[trigger] s[k]).is_some()
}

/// Whether `s` has an empty place.
pub open spec fn has_free<T>(s: Seq<Option<T>>) -> bool {
    exists|i: int| 0 <= i < s.len() && (#[trigger] s[i]).is_none()
}

/// `s1` is `s0` with `x` put in the first empty place of `s0`, or `s0` itself when it has none.
pub open spec fn placed_first<T>(s0: Seq<Option<T>>, s1: Seq<Option<T>>, x: T) -> bool {
    if has_free(s0) {
        exists|i: int| #[trigger] first_free_at(s0, i) && s1 == s0.update(i, Some(x))
    } else {
        s1 == s0
    }
}

/// A position and heading for which a shot of the player can be placed.
pub open spec fn myshot_in_bounds(pos: Vec2I, angle: i32) -> bool {
    -0x4_0000 <= pos.x <= 0x4_0000 && -0x4_0000 <= pos.y <= 0x4_0000 && -0x4000_0000 <= angle <= 0x4000_0000
}

/// One event handled: the game goes from `g0` to `g1`, and what it changes outside of it from
/// `p0` to `p1`.
pub open spec fn event_handled(g0: GameManager, p0: Params, event: EventType, g1: GameManager, p1: Params) -> bool {
    &&& p1.pad == p0.pad
    &&& p1.score_holder.score >= p0.score_holder.score
    &&& p1.score_holder.high_score >= p0.score_holder.high_score
    &&& p0.score_holder.high_score >= p0.score_holder.score
        ==> p1.score_holder.high_score >= p1.score_holder.score
    &&& event matches EventType::MyShot(pos, dual, angle) ==> {
        &&& (GameManager { myshots: g0.myshots, sounds: g0.sounds, ..g1 }) == g0
        &&& p1 == p0
        &&& if myshot_in_bounds(pos, angle) && has_free(g0.myshots@) {
            &&& g1.sounds@ == g0.sounds@.push((CH_SHOT, SoundEffect::MyShot))
            &&& placed_first(g0.myshots@, g1.myshots@, MyShot { pos, dual, angle })
        } else {
            g1.myshots == g0.myshots && g1.sounds@ == g0.sounds@
        }
    }
    &&& event matches EventType::EneShot(pos) ==> enemy_shot_spawned(g0, g1, pos)
        && p1 == p0
    &&& event matches EventType::EnemyExplosion(p, _a, _t) ==> p1 == p0
        && g1.sounds@ == g0.sounds@.push((CH_BOMB, SoundEffect::BombEnemy))
        && (GameManager { effects: g0.effects, sounds: g0.sounds, ..g1 }) == g0
        && if roundable(p) {
            exists|e: Effect| #[trigger] is_enemy_explosion(e, p) && placed_first(g0.effects@, g1.effects@, e)
        } else {
            g1.effects == g0.effects
        }
    &&& event matches EventType::PlayerExplosion(p) ==> p1 == p0
        && g1.sounds@ == g0.sounds@.push((CH_BOMB, SoundEffect::BombPlayer))
        && (GameManager { effects: g0.effects, sounds: g0.sounds, ..g1 }) == g0
        && if roundable(p) {
            exists|e: Effect| #[trigger] is_player_explosion(e, p) && placed_first(g0.effects@, g1.effects@, e)
        } else {
            g1.effects == g0.effects
        }
    &&& event matches EventType::EarnPointEffect(k, p) ==> p1 == p0
        && (GameManager { effects: g0.effects, ..g1 }) == g0
        && if roundable(p) {
            exists|e: Effect| #[trigger] is_earned_point_effect(e, k, p) && placed_first(g0.effects@, g1.effects@, e)
        } else {
            g1.effects == g0.effects
        }
    &&& event matches EventType::DeadPlayer ==> p1.star_manager.stop && if g0.state != GameState::Recapturing {
        g1.state == GameState::PlayerDead && g1.count == 0
            && g1.enemy_manager.attack_manager.paused
    } else {
        g1.state == g0.state
    }
    &&& event matches EventType::EndCaptureAttack ==> g1.capture_state == CaptureState::NoCapture
    &&& event matches EventType::CapturePlayerCompleted ==> g1.state == GameState::Captured && g1.count == 0
        && g1.player.state == PlayerState::Dead
    &&& event matches EventType::RecaptureEnded(dual) ==> g1.state == GameState::Playing
        && g1.capture_state == if dual { CaptureState::Dual } else { CaptureState::NoCapture }
        && !g1.enemy_manager.attack_manager.paused
    &&& event matches EventType::EscapeCapturing ==> g1.capture_state == CaptureState::NoCapture
        && g1.player.state == PlayerState::EscapeCapturing
    &&& event matches EventType::EscapeEnded ==> g1.state == GameState::Playing
        && !g1.enemy_manager.attack_manager.paused
    &&& event matches EventType::CapturedFighterDestroyed ==> g1.capture_state == CaptureState::NoCapture
    &&& event matches EventType::AddScore(add) ==> p1.score_holder.score
        == crate::score_holder::saturated_sum(p0.score_holder.score as int, add as int)
        && g1.left_ship == if earns_ship(p0.score_holder.score as int, add as int) {
            g0.left_ship.saturating_add(1) as int
        } else {
            g0.left_ship as int
        }
    &&& event matches EventType::PlaySe(ch, se) ==> g1.sounds@ == g0.sounds@.push((ch, se))
    &&& event matches EventType::StartCaptureAttack(fi) ==> if (fi.0 as int) < 10 && 1 <= fi.1 <= 6 {
        g1.capture_state == CaptureState::CaptureAttacking && g1.capture_enemy_fi == fi
    } else {
        g1.capture_state == g0.capture_state
    }
    &&& event matches EventType::CapturePlayer(p) ==> (capture_pos_ok(p) && (g0.capture_enemy_fi.0 as int) < 10
        && 1 <= g0.capture_enemy_fi.1 <= 6 ==> {
        &&& g1.state == GameState::Capturing
        &&& g1.capture_state == CaptureState::Capturing
        &&& g1.player.state == PlayerState::Capturing
        &&& g1.player.capture_pos == p
        &&& g1.enemy_manager.attack_manager.paused
        &&& p1.star_manager.capturing
    })
    &&& (event is CaptureSequenceEnded && g0.left_ship > 0) ==> {
        &&& g1.left_ship == g0.left_ship - 1
        &&& g1.state == if g1.left_ship == 0 { GameState::GameOver } else { GameState::WaitReady2 }
    }
    &&& event matches EventType::SpawnCapturedFighter(p, fi) ==> (index_ok(fi)
        && crate::enemy::enemy_at(g0.enemy_manager.enemies@, fi).is_none()
        && -0x3_0000 <= p.x <= 0x3_0000 && -0x3_0000 <= p.y <= 0x3_0000 ==>
        g1.enemy_manager.alive_enemy_count == g0.enemy_manager.alive_enemy_count + 1
        && (crate::enemy::enemy_at(g1.enemy_manager.enemies@, fi) matches Some(e)
        && e.base().enemy_type == crate::enemy_types::EnemyType::CapturedFighter && e.base().pos == p))
    &&& event matches EventType::RecapturePlayer(fi) ==> (index_ok(fi) ==>
        match crate::enemy::enemy_at(g0.enemy_manager.enemies@, fi) {
            Some(e) => (-0x2_0000 <= e.base().pos.x <= 0x2_0000 && -0x2_0000 <= e.base().pos.y <= 0x2_0000 ==> {
                &&& g1.state == GameState::Recapturing
                &&& g1.capture_state == CaptureState::Recapturing
                &&& crate::enemy::enemy_at(g1.enemy_manager.enemies@, fi).is_none()
                &&& g1.player.recaptured_fighter matches Some(f) && f.pos == e.base().pos
            }),
            None => g1.state == g0.state,
        })
    &&& event matches EventType::MovePlayerHomePos ==> g1.player.state == if g0.player.state != PlayerState::Dead
        && g0.player.recaptured_fighter.is_some() { PlayerState::MoveHomePos } else { g0.player.state }
    &&& p1.score_holder == match event {
        EventType::AddScore(add) => score_added(p0.score_holder, add),
        _ => p0.score_holder,
    }
    &&& g1.event_queue == g0.event_queue
    &&& g1.stage == g0.stage
    &&& g1.enemy_manager.frame_count == g0.enemy_manager.frame_count
    &&& !state_event(event) ==> g1.state == g0.state && g1.count == g0.count
}

/// The events `evs` handled in order through the games `gs` and the outer states `ps`: the
/// `k`th event takes `gs[k]` and `ps[k]` to `gs[k + 1]` and `ps[k + 1]`.
pub open spec fn events_chain(gs: Seq<GameManager>, ps: Seq<Params>, evs: Seq<EventType>) -> bool {
    &&& gs.len() == evs.len() + 1
    &&& ps.len() == evs.len() + 1
    &&& forall|k: int| 0 <= k < evs.len() ==> #[trigger] event_handled(gs[k], ps[k], evs[k], gs[k + 1], ps[k + 1])
}

/// The events `evs` handled in order, from the game `g0` to `g1` and from `p0` to `p1`; the
/// queue of the game is left aside.
pub open spec fn events_handled(g0: GameManager, p0: Params, evs: Seq<EventType>, g1: GameManager, p1: Params) -> bool {
    exists|gs: Seq<GameManager>, ps: Seq<Params>| #[trigger] events_chain(gs, ps, evs)
        && (GameManager { event_queue: g0.event_queue, ..gs[0] }) == g0 && ps[0] == p0
        && (GameManager { event_queue: g1.event_queue, ..gs.last() }) == g1 && ps.last() == p1
}

/// Handling events none of which changes the step of play keeps the step of play, its count
/// and the stage: through the first `m` of the events, each game of the chain is at the same
/// step as the first.
pub proof fn lemma_quiet_events_keep_play(gs: Seq<GameManager>, ps: Seq<Params>, evs: Seq<EventType>, m: int)
    requires
        events_chain(gs, ps, evs),
        forall|k: int| 0 <= k < evs.len() ==> !state_event(#[trigger] evs[k]),
        0 <= m <= evs.len(),
    ensures
        gs[m].state == gs[0].state,
        gs[m].count == gs[0].count,
        gs[m].stage == gs[0].stage,
    decreases m,
{
    if m > 0 {
        lemma_quiet_events_keep_play(gs, ps, evs, m - 1);
        assert(event_handled(gs[m - 1], ps[m - 1], evs[m - 1], gs[m - 1 + 1], ps[m - 1 + 1]));
        assert(!state_event(evs[m - 1]));
    }
}

/// The scores after the events `evs`: each added score in turn.
pub open spec fn scores_after(sh: ScoreHolder, evs: Seq<EventType>) -> ScoreHolder
    decreases evs.len(),
{
    if evs.len() == 0 {
        sh
    } else {
        let s = scores_after(sh, evs.drop_last());
        match evs.last() {
            EventType::AddScore(add) => score_added(s, add),
            _ => s,
        }
    }
}

/// The events whose handling can change the step of play or its count.
pub open spec fn state_event(event: EventType) -> bool {
    ||| event is DeadPlayer
    ||| event is CapturePlayer
    ||| event is CapturePlayerCompleted
    ||| event is CaptureSequenceEnded
    ||| event is RecapturePlayer
    ||| event is RecaptureEnded
    ||| event is EscapeEnded
}

/// The ship, its shots and the enemies have moved a frame; the step of play is as it was.
pub open spec fn actors_moved(g0: GameManager, g1: GameManager) -> bool {
    &&& g1.state == g0.state
    &&& g1.count == g0.count
    &&& g1.stage == g0.stage
    &&& g1.left_ship == g0.left_ship
    &&& g1.capture_state == g0.capture_state
    &&& g1.effects == g0.effects
    &&& g1.enemy_manager.frame_count == g0.enemy_manager.frame_count.wrapping_add(1)
}

/// The hits of the frame are checked; the step of play is as it was.
pub open spec fn collisions_checked(g0: GameManager, g1: GameManager) -> bool {
    &&& g1.state == g0.state
    &&& g1.count == g0.count
    &&& g1.stage == g0.stage
    &&& g1.left_ship == g0.left_ship
    &&& g1.effects == g0.effects
    &&& g1.enemy_manager.frame_count == g0.enemy_manager.frame_count
}

/// The common part of a frame, from `g0` and `p0` to `g1` and `p1`: the actors move and raise
/// events (`ga`), which are handled (`gb`, `pb`); the hits are checked (`gc`), and the events
/// they raise are handled (`gd`); then the effects run.
pub open spec fn frame_common(g0: GameManager, p0: Params, ga: GameManager, gb: GameManager, pb: Params,
    gc: GameManager, gd: GameManager, g1: GameManager, p1: Params) -> bool {
    &&& actors_moved(g0, ga)
    &&& events_handled(ga, p0, ga.event_queue@, gb, pb)
    &&& gb.event_queue@.len() == 0
    &&& collisions_checked(gb, gc)
    &&& events_handled(gc, pb, gc.event_queue@, gd, p1)
    &&& (GameManager { effects: gd.effects, event_queue: gd.event_queue, ..g1 }) == gd
    &&& g1.event_queue@.len() == 0
}

/// A frame of the game, from `g0` and `p0` to `g1` and `p1`: its common part (actors, events,
/// hits and effects) and then a step of play.
pub open spec fn game_frame(g0: GameManager, p0: Params, g1: GameManager, p1: Params) -> bool {
    exists|ga: GameManager, gb: GameManager, pb: Params, gc: GameManager, gd: GameManager, mid: GameManager,
        mp: Params| #[trigger] frame_common(g0, p0, ga, gb, pb, gc, gd, mid, mp)
        && #[trigger] state_advanced(mid, g1, mp, p1)
}

/// The game: the player's ship and shots, the enemies, the effects, and the steps of play.
pub struct GameManager {
    pub state: GameState,
    pub count: u32,
    pub stage_indicator: u16,
    pub player: Player,
    pub myshots: Vec<Option<MyShot>>,
    pub enemy_manager: EnemyManager,
    pub effects: Vec<Option<Effect>>,
    pub event_queue: Vec<EventType>,
    pub stage: u16,
    pub left_ship: u32,
    pub capture_state: CaptureState,
    pub capture_enemy_fi: FormationIndex,
    /// Sounds to play, by channel, drained by the platform.
    pub sounds: Vec<(u32, SoundEffect)>,
}

impl GameManager {
    /// The parts are in order, and a capture in progress names a boss with a row above it.
    pub open spec fn wf(&self) -> bool {
        &&& self.player.wf()
        &&& self.enemy_manager.wf()
        &&& self.myshots@.len() == MYSHOT_COUNT
        &&& forall|i: int| 0 <= i < MYSHOT_COUNT ==> (#[trigger] self.myshots@[i] matches Some(s) ==> s.wf())
        &&& self.effects@.len() == MAX_EFFECT_COUNT
        &&& forall|i: int| 0 <= i < MAX_EFFECT_COUNT ==> (#[trigger] self.effects@[i] matches Some(e) ==> effect_ok(e))
        &&& captured_slot_of(self.capture_state, self.capture_enemy_fi) matches Some(fi)
            ==> self.capture_enemy_fi.1 >= 1 && (fi.0 as int) < 10 && (fi.1 as int) < 6
    }

    pub fn new() -> (g: Self)
        ensures
            g.wf(),
            g.state == GameState::Playing,
            g.stage == 0,
            g.left_ship == 0,
            g.capture_state == CaptureState::NoCapture,
    {
        Self {
            state: GameState::Playing,
            count: 0,
            stage_indicator: 0,
            player: Player::new(),
            myshots: empty_myshots(),
            enemy_manager: EnemyManager::new(),
            effects: empty_effects(),
            event_queue: Vec::new(),
            stage: 0,
            left_ship: 0,
            capture_state: CaptureState::NoCapture,
            capture_enemy_fi: FormationIndex(0, 0),
            sounds: Vec::new(),
        }
    }

    /// Starts a new game from the first stage with the default number of ships.
    pub fn restart(&mut self)
        requires
            old(self).wf(),
        ensures
            final(self).wf(),
            final(self).stage == 0,
            final(self).stage_indicator == 1,
            final(self).left_ship == DEFAULT_LEFT_SHIP,
            final(self).capture_state == CaptureState::NoCapture,
            final(self).state == GameState::StartStage,
            final(self).count == 0,
            final(self).event_queue@.len() == 0,
    {
        self.stage = 0;
        self.stage_indicator = 1;
        self.left_ship = DEFAULT_LEFT_SHIP;
        self.capture_state = CaptureState::NoCapture;

        self.event_queue.clear();
        self.player = Player::new();

        self.myshots = empty_myshots();
        self.effects = empty_effects();

        self.state = GameState::StartStage;
        self.count = 0;
    }

    /// Starts the trajectory editor: the first stage's enemies all rest in the formation,
    /// with a fresh ship and no shots, effects or pending events.
    pub fn start_edit_mode(&mut self)
        requires
            old(self).wf(),
        ensures
            final(self).wf(),
            final(self).stage == 0,
            final(self).stage_indicator == 1,
            final(self).state == GameState::EditTraj,
            final(self).event_queue@.len() == 0,
            final(self).player.pos == (Vector2D { x: CENTER_X, y: PLAYER_Y }),
            final(self).player.state == PlayerState::Normal,
            !final(self).player.dual,
            final(self).player.recaptured_fighter.is_none(),
            forall|i: int| 0 <= i < MYSHOT_COUNT ==> (#[trigger] final(self).myshots@[i]).is_none(),
            forall|i: int| 0 <= i < MAX_EFFECT_COUNT ==> (#[trigger] final(self).effects@[i]).is_none(),
            final(self).enemy_manager.alive_enemy_count == 40,
            final(self).enemy_manager.appearance_manager.done,
            !final(self).enemy_manager.attack_manager.enable,
            final(self).left_ship == old(self).left_ship,
            final(self).capture_state == old(self).capture_state,
    {
        self.stage = 0;
        self.stage_indicator = 1;
        self.enemy_manager.reset_stable();
        self.event_queue.clear();
        self.player = Player::new();
        self.myshots = empty_myshots();
        self.effects = empty_effects();
        self.state = GameState::EditTraj;
    }

    /// Whether the game is over and its last scene has been shown.
    pub fn is_finished(&self) -> (b: bool)
        ensures
            b == (self.state == GameState::Finished),
    {
        self.state == GameState::Finished
    }

    /// The slot of the fighter held by the boss of the capture in progress.
    pub fn captured_fighter_index(&self) -> (r: Option<FormationIndex>)
        requires
            self.wf(),
        ensures
            r == captured_slot_of(self.capture_state, self.capture_enemy_fi),
    {
        match self.capture_state {
            CaptureState::NoCapture | CaptureState::Recapturing | CaptureState::Dual => None,
            _ => Some(FormationIndex(self.capture_enemy_fi.0, self.capture_enemy_fi.1 - 1)),
        }
    }

    /// What the enemies learn of the game in this frame.
    pub fn accessor(&self) -> (a: Accessor)
        requires
            self.wf(),
        ensures
            a.wf(),
            a.player_pos == self.player.pos,
            a.can_player_capture == (self.state == GameState::Playing),
            a.player_capture_completed == (self.player.state == PlayerState::Captured),
            a.capture_state == self.capture_state,
            a.captured_fighter_index == captured_slot_of(self.capture_state, self.capture_enemy_fi),
            a.is_rush == (self.state == GameState::Playing && self.enemy_manager.stage_state
                == crate::enemy_manager::StageState::Rush),
            a.stage_no == self.stage,
    {
        Accessor {
            player_pos: self.player.pos,
            dual_player_pos: self.player.dual_pos(),
            can_player_capture: self.state == GameState::Playing,
            player_capture_completed: self.player.is_captured(),
            capture_state: self.capture_state,
            captured_fighter_index: self.captured_fighter_index(),
            is_rush: self.state == GameState::Playing && self.enemy_manager.is_rush(),
            stage_no: self.stage,
        }
    }

    /// Runs one frame: the actors, the events they raise, the hits, and the step of play.
    pub fn update(&mut self, params: &mut Params)
        requires
            old(self).wf(),
        ensures
            final(self).wf(),
            final(params).pad == old(params).pad,
            final(params).score_holder.score >= old(params).score_holder.score,
            final(params).score_holder.high_score >= old(params).score_holder.high_score,
            old(params).score_holder.high_score >= old(params).score_holder.score
                ==> final(params).score_holder.high_score >= final(params).score_holder.score,
            game_frame(*old(self), *old(params), *final(self), *final(params)),
    {
        self.update_common(params);
        let ghost mid = *self;
        let ghost mp = *params;
        self.advance_state(params);
        assert(state_advanced(mid, *self, mp, *params));
        assert(exists|ga: GameManager, gb: GameManager, pb: Params, gc: GameManager, gd: GameManager,
            mid2: GameManager, mp2: Params| #[trigger] frame_common(*old(self), *old(params), ga, gb, pb, gc, gd, mid2, mp2)
            && #[trigger] state_advanced(mid2, *self, mp2, *params));
    }

    /// Moves the steps of play on by one frame: the stage number is shown, then the stage
    /// starts; a cleared stage leads to the next; a lost ship waits for the attacks to end
    /// before the next one comes, or the game ends.
    pub fn advance_state(&mut self, params: &mut Params)
        requires
            old(self).wf(),
        ensures
            final(self).wf(),
            state_advanced(*old(self), *final(self), *old(params), *final(params)),
    {
        match self.state {
            GameState::StartStage => {
                self.count = self.count.saturating_add(1);
                if self.count >= START_STAGE_FRAMES {
                    self.enemy_manager.start_next_stage(self.stage as u32);
                    self.state = GameState::Playing;
                }
            },
            GameState::Playing => {
                if self.enemy_manager.all_destroyed() {
                    self.state = GameState::StageClear;
                    self.count = 0;
                }
            },
            GameState::Capturing | GameState::Recapturing => {},
            GameState::Captured => {
                self.count = self.count.saturating_add(1);
            },
            GameState::PlayerDead => {
                self.count = self.count.saturating_add(1);
                if self.count >= WAIT1 {
                    self.state = GameState::WaitReady;
                    self.count = 0;
                }
            },
            GameState::WaitReady => {
                if self.enemy_manager.is_no_attacker() {
                    self.count = self.count.saturating_add(1);
                    if self.count >= WAIT1 {
                        self.next_player();
                    }
                }
            },
            GameState::WaitReady2 => {
                self.count = self.count.saturating_add(1);
                if self.count >= WAIT1 {
                    self.player.set_shot_enable(true);
                    self.enemy_manager.pause_attack(false);
                    params.star_manager.set_stop(false);
                    self.state = GameState::Playing;
                    self.count = 0;
                }
            },
            GameState::StageClear => {
                self.count = self.count.saturating_add(1);
                if self.count >= WAIT1 {
                    self.stage = self.stage.saturating_add(1);
                    self.stage_indicator = (if self.stage < 255 { self.stage } else { 255 }) + 1;
                    self.state = GameState::StartStage;
                    self.count = 0;
                }
            },
            GameState::GameOver => {
                self.count = self.count.saturating_add(1);
                if self.count >= GAME_OVER_FRAMES {
                    self.state = GameState::Finished;
                }
            },
            GameState::Finished | GameState::EditTraj => {},
        }
    }

    /// The next ship comes in; with none left, the game is over.
    fn next_player(&mut self)
        requires
            old(self).wf(),
        ensures
            final(self).enemy_manager.frame_count == old(self).enemy_manager.frame_count,
            final(self).event_queue == old(self).event_queue,
            final(self).wf(),
            old(self).left_ship > 0 ==> {
                &&& final(self).left_ship == old(self).left_ship - 1
                &&& final(self).count == 0
                &&& final(self).state == if final(self).left_ship == 0 { GameState::GameOver } else { GameState::WaitReady2 }
                &&& final(self).enemy_manager.attack_manager.paused == (final(self).left_ship == 0)
                    || final(self).left_ship > 0
                &&& final(self).left_ship > 0 ==> final(self).player.state == PlayerState::Normal
                    && !final(self).player.shot_enable
            },
            old(self).left_ship == 0 ==> *final(self) == *old(self),
            final(self).stage == old(self).stage,
            final(self).capture_state == old(self).capture_state,
            final(self).capture_enemy_fi == old(self).capture_enemy_fi,
    {
        if self.left_ship == 0 {
            return;
        }
        self.left_ship -= 1;
        if self.left_ship == 0 {
            self.enemy_manager.pause_attack(true);
            self.state = GameState::GameOver;
            self.count = 0;
        } else {
            self.player.restart();
            self.player.set_shot_enable(false);
            self.state = GameState::WaitReady2;
            self.count = 0;
        }
    }

    fn update_common(&mut self, params: &mut Params)
        requires
            old(self).wf(),
        ensures
            final(self).wf(),
            final(params).pad == old(params).pad,
            final(params).score_holder.score >= old(params).score_holder.score,
            final(params).score_holder.high_score >= old(params).score_holder.high_score,
            old(params).score_holder.high_score >= old(params).score_holder.score
                ==> final(params).score_holder.high_score >= final(params).score_holder.score,
            exists|ga: GameManager, gb: GameManager, pb: Params, gc: GameManager, gd: GameManager|
                #[trigger] frame_common(*old(self), *old(params), ga, gb, pb, gc, gd, *final(self), *final(params)),
    {
        let no_attacker = self.enemy_manager.is_no_attacker();
        self.player.update(&params.pad, no_attacker, &mut self.event_queue);
        self.update_myshots();

        let accessor = self.accessor();
        self.enemy_manager.update(&accessor, &mut self.event_queue);
        let ghost ga = *self;

        self.handle_event_queue(params);
        let ghost gb = *self;
        let ghost pb = *params;

        self.check_collision();
        let ghost gc = *self;

        self.handle_event_queue(params);
        let ghost gd = *self;

        self.update_effects();
        assert(frame_common(*old(self), *old(params), ga, gb, pb, gc, gd, *self, *params));
    }

    /// Moves the player's shots; the ones that leave the field are gone.
    fn update_myshots(&mut self)
        requires
            old(self).wf(),
        ensures
            final(self).wf(),
            (GameManager { myshots: old(self).myshots, ..*final(self) }) == *old(self),
    {
        let mut i: usize = 0;
        while i < MYSHOT_COUNT
            invariant
                i <= MYSHOT_COUNT,
                self.wf(),
                (GameManager { myshots: old(self).myshots, ..*self }) == *old(self),
            decreases MYSHOT_COUNT - i,
        {
            if let Some(shot) = self.myshots[i] {
                let mut s = shot;
                if s.update() {
                    self.myshots.set(i, Some(s));
                } else {
                    self.myshots.set(i, None);
                }
            }
            i += 1;
        }
    }

    /// Runs the effects; the finished ones are gone.
    fn update_effects(&mut self)
        requires
            old(self).wf(),
        ensures
            final(self).wf(),
            (GameManager { effects: old(self).effects, ..*final(self) }) == *old(self),
    {
        let mut i: usize = 0;
        while i < MAX_EFFECT_COUNT
            invariant
                i <= MAX_EFFECT_COUNT,
                self.wf(),
                (GameManager { effects: old(self).effects, ..*self }) == *old(self),
            decreases MAX_EFFECT_COUNT - i,
        {
            if let Some(effect) = self.effects[i] {
                let mut e = effect;
                if e.update() {
                    self.effects.set(i, Some(e));
                } else {
                    self.effects.set(i, None);
                }
            }
            i += 1;
        }
    }

    /// Handles the events raised so far, in order, then forgets them.
    fn handle_event_queue(&mut self, params: &mut Params)
        requires
            old(self).wf(),
        ensures
            final(self).wf(),
            final(params).pad == old(params).pad,
            final(params).score_holder.score >= old(params).score_holder.score,
            final(params).score_holder.high_score >= old(params).score_holder.high_score,
            old(params).score_holder.high_score >= old(params).score_holder.score
                ==> final(params).score_holder.high_score >= final(params).score_holder.score,
            final(self).event_queue@.len() == 0,
            final(params).score_holder == scores_after(old(params).score_holder, old(self).event_queue@),
            events_handled(*old(self), *old(params), old(self).event_queue@, *final(self), *final(params)),
    {
        let mut queue: Vec<EventType> = Vec::new();
        std::mem::swap(&mut queue, &mut self.event_queue);
        let ghost q = queue@;
        let ghost mut gs: Seq<GameManager> = seq![*self];
        let ghost mut ps: Seq<Params> = seq![*params];
        assert(queue@.take(0) =~= Seq::<EventType>::empty());
        let mut i: usize = 0;
        while i < queue.len()
            invariant
                i <= queue@.len(),
                queue@ == q,
                q == old(self).event_queue@,
                self.wf(),
                params.pad == old(params).pad,
                params.score_holder.score >= old(params).score_holder.score,
                params.score_holder.high_score >= old(params).score_holder.high_score,
                old(params).score_holder.high_score >= old(params).score_holder.score
                    ==> params.score_holder.high_score >= params.score_holder.score,
                params.score_holder == scores_after(old(params).score_holder, q.take(i as int)),
                events_chain(gs, ps, q.take(i as int)),
                (GameManager { event_queue: old(self).event_queue, ..gs[0] }) == *old(self),
                ps[0] == *old(params),
                gs.last() == *self,
                ps.last() == *params,
            decreases queue@.len() - i,
        {
            let event = queue[i];
            let ghost g = *self;
            let ghost p = *params;
            self.handle_event(event, params);
            proof {
                assert(q.take(i + 1).drop_last() =~= q.take(i as int));
                let gs2 = gs.push(*self);
                let ps2 = ps.push(*params);
                assert forall|k: int| 0 <= k < i + 1 implies #[trigger] event_handled(gs2[k], ps2[k],
                    q.take(i + 1)[k], gs2[k + 1], ps2[k + 1]) by {
                    if k < i {
                        assert(event_handled(gs[k], ps[k], q.take(i as int)[k], gs[k + 1], ps[k + 1]));
                    }
                }
                gs = gs2;
                ps = ps2;
            }
            i += 1;
        }
        assert(q.take(q.len() as int) =~= q);
        self.event_queue.clear();
        assert(events_chain(gs, ps, old(self).event_queue@));
        assert(events_handled(*old(self), *old(params), old(self).event_queue@, gs.last(), *params));
    }

    /// Handles one event.
    pub fn handle_event(&mut self, event: EventType, params: &mut Params)
        requires
            old(self).wf(),
        ensures
            final(self).wf(),
            event_handled(*old(self), *old(params), event, *final(self), *final(params)),
    {
        match event {
            EventType::MyShot(pos, dual, angle) => {
                if self.spawn_myshot(&pos, dual, angle) {
                    self.sounds.push((CH_SHOT, SoundEffect::MyShot));
                }
            },
            EventType::EneShot(pos) => {
                self.spawn_ene_shot(&pos);
            },
            EventType::AddScore(add) => {
                self.add_score(params.score_holder.score, add);
                params.score_holder.add_score(add);
            },
            EventType::EarnPointEffect(point_type, pos) => {
                if roundable_exec(&pos) {
                    self.spawn_effect(Effect::create_earned_point(point_type, &pos));
                }
            },
            EventType::EnemyExplosion(pos, _angle, _enemy_type) => {
                if roundable_exec(&pos) {
                    self.spawn_effect(Effect::create_enemy_explosion(&pos));
                }
                self.sounds.push((CH_BOMB, SoundEffect::BombEnemy));
            },
            EventType::PlayerExplosion(pos) => {
                if roundable_exec(&pos) {
                    self.spawn_effect(Effect::create_player_explosion(&pos));
                }
                self.sounds.push((CH_BOMB, SoundEffect::BombPlayer));
            },
            EventType::DeadPlayer => {
                params.star_manager.set_stop(true);
                if self.state != GameState::Recapturing {
                    self.enemy_manager.pause_attack(true);
                    self.state = GameState::PlayerDead;
                    self.count = 0;
                }
            },
            EventType::StartCaptureAttack(formation_index) => {
                if (formation_index.0 as usize) < 10 && 1 <= formation_index.1 && formation_index.1 <= 6 {
                    self.capture_state = CaptureState::CaptureAttacking;
                    self.capture_enemy_fi = formation_index;
                }
            },
            EventType::EndCaptureAttack => {
                self.capture_state = CaptureState::NoCapture;
                self.capture_enemy_fi = FormationIndex(0, 0);
            },
            EventType::CapturePlayer(capture_pos) => {
                if -0x1_F000 <= capture_pos.x && capture_pos.x <= 0x1_F000 && -0x1_F000 <= capture_pos.y
                    && capture_pos.y <= 0x1_F000 && self.capture_enemy_fi.1 >= 1
                    && (self.capture_enemy_fi.0 as usize) < 10 && self.capture_enemy_fi.1 <= 6 {
                    params.star_manager.set_capturing(true);
                    self.enemy_manager.pause_attack(true);
                    self.player.start_capture(&capture_pos);
                    self.state = GameState::Capturing;
                    self.capture_state = CaptureState::Capturing;
                }
            },
            EventType::CapturePlayerCompleted => {
                params.star_manager.set_capturing(false);
                self.player.complete_capture();
                if self.capture_enemy_fi.1 >= 1 && (self.capture_enemy_fi.0 as usize) < 10
                    && self.capture_enemy_fi.1 <= 6 {
                    self.capture_state = CaptureState::Captured;
                }
                self.state = GameState::Captured;
                self.count = 0;
            },
            EventType::CaptureSequenceEnded => {
                self.next_player();
            },
            EventType::SpawnCapturedFighter(pos, formation_index) => {
                self.enemy_manager.spawn_captured_fighter(&pos, &formation_index);
            },
            EventType::RecapturePlayer(captured_fighter_index) => {
                if index_ok_exec(&captured_fighter_index) {
                    if let Some(captured_fighter) = self.enemy_manager.get_enemy_at(&captured_fighter_index) {
                        let pos = captured_fighter.pos();
                        let angle = captured_fighter.angle();
                        if -0x2_0000 <= pos.x && pos.x <= 0x2_0000 && -0x2_0000 <= pos.y && pos.y <= 0x2_0000 {
                            self.player.start_recapture_effect(&pos, angle);
                            self.enemy_manager.remove_enemy(&captured_fighter_index);
                            self.enemy_manager.pause_attack(true);
                            self.state = GameState::Recapturing;
                            self.capture_state = CaptureState::Recapturing;
                        }
                    }
                }
            },
            EventType::MovePlayerHomePos => {
                self.player.start_move_home_pos();
            },
            EventType::RecaptureEnded(dual) => {
                self.enemy_manager.pause_attack(false);
                self.capture_state = if dual { CaptureState::Dual } else { CaptureState::NoCapture };
                self.capture_enemy_fi = FormationIndex(0, 0);
                params.star_manager.set_stop(false);
                self.state = GameState::Playing;
            },
            EventType::EscapeCapturing => {
                self.capture_state = CaptureState::NoCapture;
                self.capture_enemy_fi = FormationIndex(0, 0);
                params.star_manager.set_capturing(false);
                self.player.escape_capturing();
            },
            EventType::EscapeEnded => {
                self.enemy_manager.pause_attack(false);
                self.state = GameState::Playing;
            },
            EventType::CapturedFighterDestroyed => {
                self.capture_state = CaptureState::NoCapture;
                self.capture_enemy_fi = FormationIndex(0, 0);
            },
            EventType::PlaySe(channel, se) => {
                self.sounds.push((channel, se));
            },
        }
    }

    /// Earns a ship when the points pass the next extend score.
    fn add_score(&mut self, before: u32, add: u32)
        ensures
            earns_ship(before as int, add as int) ==> {
                &&& final(self).left_ship == old(self).left_ship.saturating_add(1)
                &&& final(self).sounds@ == old(self).sounds@.push((CH_JINGLE, SoundEffect::ExtendShip))
                &&& (GameManager { left_ship: old(self).left_ship, sounds: old(self).sounds, ..*final(self) }) == *old(self)
            },
            !earns_ship(before as int, add as int) ==> *final(self) == *old(self),
    {
        let before64 = before as u64;
        let ext: u64 = if before64 < EXTEND_FIRST_SCORE as u64 {
            EXTEND_FIRST_SCORE as u64
        } else {
            (before64 + EXTEND_AFTER_SCORE as u64 - 1) / EXTEND_AFTER_SCORE as u64 * EXTEND_AFTER_SCORE as u64
        };
        if before64 + add as u64 >= ext {
            self.extend_ship();
        }
    }

    fn extend_ship(&mut self)
        ensures
            final(self).left_ship == old(self).left_ship.saturating_add(1),
            final(self).sounds@ == old(self).sounds@.push((CH_JINGLE, SoundEffect::ExtendShip)),
            (GameManager { left_ship: old(self).left_ship, sounds: old(self).sounds, ..*final(self) }) == *old(self),
    {
        self.left_ship = self.left_ship.saturating_add(1);
        self.sounds.push((CH_JINGLE, SoundEffect::ExtendShip));
    }

    /// Fires a player's shot into a free place; tells whether there was one.
    fn spawn_myshot(&mut self, pos: &Vec2I, dual: bool, angle: i32) -> (ok: bool)
        requires
            old(self).wf(),
        ensures
            final(self).wf(),
            (GameManager { myshots: old(self).myshots, ..*final(self) }) == *old(self),
            ok == (myshot_in_bounds(*pos, angle) && has_free(old(self).myshots@)),
            ok ==> placed_first(old(self).myshots@, final(self).myshots@, MyShot { pos: *pos, dual, angle }),
            !ok ==> final(self).myshots == old(self).myshots,
    {
        let shot = MyShot::new(pos, dual, angle);
        if !(-0x4_0000 <= pos.x && pos.x <= 0x4_0000 && -0x4_0000 <= pos.y && pos.y <= 0x4_0000
            && -0x4000_0000 <= angle && angle <= 0x4000_0000) {
            return false;
        }
        let mut i: usize = 0;
        while i < MYSHOT_COUNT
            invariant
                i <= MYSHOT_COUNT,
                *self == *old(self),
                self.wf(),
                shot.wf(),
                shot == (MyShot { pos: *pos, dual, angle }),
                myshot_in_bounds(*pos, angle),
                forall|k: int| 0 <= k < i ==> (#[trigger] self.myshots@[k]).is_some(),
            decreases MYSHOT_COUNT - i,
        {
            if self.myshots[i].is_none() {
                proof {
                    assert(first_free_at(old(self).myshots@, i as int));
                }
                self.myshots.set(i, Some(shot));
                return true;
            }
            i += 1;
        }
        proof {
            assert forall|k: int| 0 <= k < old(self).myshots@.len() implies (#[trigger] old(self).myshots@[k]).is_some() by {}
        }
        false
    }

    /// Fires an enemy shot from `pos` at the player's ship or ships.
    fn spawn_ene_shot(&mut self, pos: &Vec2I)
        requires
            old(self).wf(),
        ensures
            final(self).enemy_manager.frame_count == old(self).enemy_manager.frame_count,
            final(self).event_queue == old(self).event_queue,
            final(self).wf(),
            enemy_shot_spawned(*old(self), *final(self), *pos),
    {
        let mut targets: Vec<Option<Vec2I>> = Vec::new();
        targets.push(Some(self.player.pos));
        targets.push(self.player.dual_pos());
        assert(targets@[0].is_some());
        let speed = calc_ene_shot_speed(self.stage);
        self.enemy_manager.spawn_shot(pos, &targets, speed);
    }

    /// Checks the player's shots against the enemies, and the ship against enemies and shots.
    fn check_collision(&mut self)
        requires
            old(self).wf(),
        ensures
            final(self).wf(),
            old(self).state == GameState::EditTraj ==> *final(self) == *old(self),
            collisions_checked(*old(self), *final(self)),
            forall|i: int| 0 <= i < MYSHOT_COUNT ==> #[trigger] final(self).myshots@[i] == old(self).myshots@[i]
                || final(self).myshots@[i].is_none(),
    {
        if self.state == GameState::EditTraj {
            return;
        }
        self.check_collision_myshot_enemy();
        self.check_collision_player_enemy();
    }

    /// A shot that hits an enemy damages it and is gone.
    fn check_collision_myshot_enemy(&mut self)
        requires
            old(self).wf(),
        ensures
            final(self).wf(),
            collisions_checked(*old(self), *final(self)),
            forall|i: int| 0 <= i < MYSHOT_COUNT ==> #[trigger] final(self).myshots@[i] == old(self).myshots@[i]
                || final(self).myshots@[i].is_none(),
            final(self).player == old(self).player,
    {
        let power: u32 = 1;
        let mut i: usize = 0;
        while i < MYSHOT_COUNT
            invariant
                i <= MYSHOT_COUNT,
                self.wf(),
                collisions_checked(*old(self), *self),
                self.player == old(self).player,
                forall|j: int| 0 <= j < MYSHOT_COUNT ==> #[trigger] self.myshots@[j] == old(self).myshots@[j]
                    || self.myshots@[j].is_none(),
                forall|j: int| i <= j < MYSHOT_COUNT ==> #[trigger] self.myshots@[j] == old(self).myshots@[j],
            decreases MYSHOT_COUNT - i,
        {
            if let Some(myshot) = self.myshots[i] {
                let colls = [myshot.get_collbox(), myshot.dual_collbox()];
                let mut hit = false;
                let mut k: usize = 0;
                while k < 2
                    invariant
                        k <= 2,
                        self.wf(),
                        collisions_checked(*old(self), *self),
                        self.player == old(self).player,
                        i < MYSHOT_COUNT,
                        forall|j: int| 0 <= j < MYSHOT_COUNT ==> #[trigger] self.myshots@[j] == old(self).myshots@[j]
                            || self.myshots@[j].is_none(),
                        forall|j: int| i <= j < MYSHOT_COUNT ==> #[trigger] self.myshots@[j] == old(self).myshots@[j],
                collisions_checked(*old(self), *self),
                        myshot.wf(),
                        colls@[0] == myshot_collbox_of(myshot),
                        colls@[1] == myshot_dual_collbox_of(myshot),
                    decreases 2 - k,
                {
                    if let Some(collbox) = colls[k] {
                        proof { lemma_myshot_box_ok(myshot); }
                        if let Some(fi) = self.enemy_manager.check_collision(&collbox) {
                            self.enemy_manager.set_damage_to_enemy(&fi, power, &mut self.event_queue);
                            hit = true;
                        }
                    }
                    k += 1;
                }
                if hit {
                    self.myshots.set(i, None);
                }
            }
            i += 1;
        }
    }

    /// A ship hit by an enemy or a shot explodes; a single ship is lost, a dual fighter
    /// loses the ship that was hit.
    fn check_collision_player_enemy(&mut self)
        requires
            old(self).wf(),
        ensures
            final(self).wf(),
            collisions_checked(*old(self), *final(self)),
            final(self).myshots == old(self).myshots,
    {
        let dual_box = self.player.dual_collbox();
        let main_box = self.player.get_collbox();
        let dual_pos = self.player.dual_pos();
        let main_pos = self.player.pos;
        proof { lemma_player_boxes_ok(self.player); }
        let mut k: usize = 0;
        while k < 2
            invariant
                k <= 2,
                self.wf(),
                collisions_checked(*old(self), *self),
                self.myshots == old(self).myshots,
                dual_box.is_some() ==> dual_pos.is_some(),
                k == 0 ==> (dual_box.is_some() ==> self.player.dual),
                dual_box matches Some(c) ==> box_ok(c),
                main_box matches Some(c) ==> box_ok(c),
            decreases 2 - k,
        {
            let is_dual = k == 0;
            let entry = if is_dual { dual_box } else { main_box };
            if let Some(collbox) = entry {
                let player_pos = if is_dual {
                    match dual_pos { Some(p) => p, None => main_pos }
                } else {
                    main_pos
                };
                let power: u32 = 100;
                let hit = match self.enemy_manager.check_collision(&collbox) {
                    Some(fi) => {
                        let pos = match self.enemy_manager.get_enemy_at(&fi) {
                            Some(e) => e.pos(),
                            None => player_pos,
                        };
                        self.enemy_manager.set_damage_to_enemy(&fi, power, &mut self.event_queue);
                        Some(pos)
                    },
                    None => self.enemy_manager.check_shot_collision(&collbox),
                };

                if hit.is_some() {
                    self.event_queue.push(EventType::PlayerExplosion(player_pos));
                    if self.player.crash(is_dual) {
                        self.event_queue.push(EventType::DeadPlayer);
                    } else {
                        self.capture_state = CaptureState::NoCapture;
                    }
                }
            }
            k += 1;
        }
    }

    /// Starts an effect in a free place, if there is one.
    fn spawn_effect(&mut self, effect: Effect)
        requires
            old(self).wf(),
            effect_ok(effect),
        ensures
            final(self).event_queue == old(self).event_queue,
            final(self).wf(),
            (GameManager { effects: old(self).effects, ..*final(self) }) == *old(self),
            placed_first(old(self).effects@, final(self).effects@, effect),
    {
        let mut i: usize = 0;
        while i < MAX_EFFECT_COUNT
            invariant
                i <= MAX_EFFECT_COUNT,
                *self == *old(self),
                self.wf(),
                effect_ok(effect),
                forall|k: int| 0 <= k < i ==> (#[trigger] self.effects@[k]).is_some(),
            decreases MAX_EFFECT_COUNT - i,
        {
            if self.effects[i].is_none() {
                proof {
                    assert(first_free_at(old(self).effects@, i as int));
                }
                self.effects.set(i, Some(effect));
                assert forall|k: int| 0 <= k < MAX_EFFECT_COUNT implies
                    (#[trigger] self.effects@[k] matches Some(e) ==> effect_ok(e)) by {
                    if k != i as int {
                        assert(self.effects@[k] == old(self).effects@[k]);
                        assert(old(self).wf());
                    } else {
                        assert(self.effects@[k] == Some(effect));
                    }
                }
                return;
            }
            i += 1;
        }
    }
}

/// The hit box of a player's shot.
pub open spec fn myshot_collbox_of(s: MyShot) -> Option<CollBox> {
    Some(CollBox {
        top_left: Vector2D {
            x: (crate::math::round_fixed(s.pos.x as int) - 1) as i32,
            y: (crate::math::round_fixed(s.pos.y as int) - 4) as i32,
        },
        size: Vector2D { x: 1, y: 8 },
    })
}

/// The hit box of the second shot of a dual fighter.
pub open spec fn myshot_dual_collbox_of(s: MyShot) -> Option<CollBox> {
    if s.dual {
        Some(CollBox {
            top_left: Vector2D {
                x: (crate::math::round_fixed(s.pos.x as int) - 1 + 16) as i32,
                y: (crate::math::round_fixed(s.pos.y as int) - 4) as i32,
            },
            size: Vector2D { x: 1, y: 8 },
        })
    } else {
        None
    }
}

/// The hit boxes of a shot within bounds have corners that fit in an `i32`.
pub proof fn lemma_myshot_box_ok(s: MyShot)
    requires
        s.wf(),
    ensures
        myshot_collbox_of(s) matches Some(c) && box_ok(c),
        myshot_dual_collbox_of(s) matches Some(c) ==> box_ok(c),
{
}

/// The hit boxes of a ship within bounds have corners that fit in an `i32`.
pub proof fn lemma_player_boxes_ok(p: Player)
    requires
        p.wf(),
    ensures
        box_ok(CollBox {
            top_left: Vector2D {
                x: (crate::math::round_fixed(p.pos.x as int) - 4) as i32,
                y: (crate::math::round_fixed(p.pos.y as int) - 4) as i32,
            },
            size: Vector2D { x: 8, y: 8 },
        }),
        box_ok(CollBox {
            top_left: Vector2D {
                x: (crate::math::round_fixed(p.pos.x as int) - 4 + 16) as i32,
                y: (crate::math::round_fixed(p.pos.y as int) - 4) as i32,
            },
            size: Vector2D { x: 8, y: 8 },
        }),
{
}

/// Tells whether a position can be rounded to whole dots.
pub fn roundable_exec(pos: &Vec2I) -> (b: bool)
    ensures
        b == roundable(*pos),
{
    pos.x <= i32::MAX - ONE && pos.y <= i32::MAX - ONE
}

/// Two empty places for the player's shots.
pub fn empty_myshots() -> (s: Vec<Option<MyShot>>)
    ensures
        s@.len() == MYSHOT_COUNT,
        forall|i: int| 0 <= i < MYSHOT_COUNT ==> (#[trigger] s@[i]).is_none(),
{
    let mut s: Vec<Option<MyShot>> = Vec::new();
    s.push(None);
    s.push(None);
    s
}

/// Empty places for the effects.
pub fn empty_effects() -> (s: Vec<Option<Effect>>)
    ensures
        s@.len() == MAX_EFFECT_COUNT,
        forall|i: int| 0 <= i < MAX_EFFECT_COUNT ==> (#[trigger] s@[i]).is_none(),
{
    let mut s: Vec<Option<Effect>> = Vec::new();
    let mut i: usize = 0;
    while i < MAX_EFFECT_COUNT
        invariant
            i <= MAX_EFFECT_COUNT,
            s@.len() == i,
            forall|k: int| 0 <= k < i ==> (#[trigger] s@[k]).is_none(),
        decreases MAX_EFFECT_COUNT - i,
    {
        s.push(None);
        i += 1;
    }
    s
}

/// Whether every enemy of the stage has appeared and is gone, with its shots.
pub open spec fn stage_over(em: EnemyManager) -> bool {
    &&& em.appearance_manager.done
    &&& crate::enemy_manager::enemy_count(em.enemies@) == 0
    &&& forall|i: int| 0 <= i < crate::enemy_manager::MAX_SHOT_COUNT ==> (#[trigger] em.shots@[i]).is_none()
}

/// Whether no enemy is attacking.
pub open spec fn no_attacker(em: EnemyManager) -> bool {
    forall|i: int| 0 <= i < crate::attack_manager::MAX_ATTACKER_COUNT ==> (#[trigger] em.attack_manager.attackers@[i]).is_none()
}

/// Places to which a boss can pull the ship.
pub open spec fn capture_pos_ok(p: Vec2I) -> bool {
    -capture_pos_limit() <= p.x <= capture_pos_limit() && -capture_pos_limit() <= p.y <= capture_pos_limit()
}

/// An enemy shot is fired from a place at the ship, or at either ship of a dual fighter, at
/// the stage's speed, if shots are not held, the place is on the screen and a shot place is
/// free; nothing else changes.
pub open spec fn enemy_shot_spawned(g0: GameManager, g1: GameManager, pos: Vec2I) -> bool {
    let em0 = g0.enemy_manager;
    let em1 = g1.enemy_manager;
    let targets = seq![Some(g0.player.pos), if g0.player.dual {
        Some(Vector2D { x: (g0.player.pos.x + 16 * ONE) as i32, y: g0.player.pos.y })
    } else {
        None
    }];
    &&& (GameManager { enemy_manager: em0, ..g1 }) == g0
    &&& (EnemyManager { shots: em0.shots, ..em1 }) == em0
    &&& em0.shot_paused_count > 0 || !on_screen(pos) ==> em1 == em0
    &&& forall|i: int| 0 <= i < MAX_SHOT_COUNT ==> (em0.shots@[i] matches Some(s) ==> #[trigger] em1.shots@[i] == Some(s))
    &&& em0.shot_paused_count == 0 && on_screen(pos)
        && (exists|i: int| 0 <= i < MAX_SHOT_COUNT && (#[trigger] em0.shots@[i]).is_none())
        ==> exists|i: int| 0 <= i < MAX_SHOT_COUNT && (#[trigger] em0.shots@[i]).is_none()
            && em1.shots@ == em0.shots@.update(i, em1.shots@[i])
            && fired_at(em1.shots@[i], pos, targets, ene_shot_speed(g0.stage) as int)
}

} // verus!

use vstd::prelude::*;

use crate::collision::CollBox;
use crate::consts::HEIGHT;
use crate::enemy_types::{Accessor, EnemyType, FormationIndex};
use crate::events::EventType;
use crate::formation::{Formation, X_COUNT, Y_COUNT};
use crate::math::{
    angle_diff, atan2_lut, atan2_spec, clamp, clamp_spec, diff_angle, normalize_angle, normalized,
    round_fixed, round_vec, square, ANGLE, ONE,
};
use crate::rng::{gen_index, seeded_rng};
use crate::traj::{formation_x_of, stepped, Traj, TrajCommand};
use crate::types::{trunc_div, Vec2I, Vector2D};

verus! {

/// Phases of an attack flight.
#[derive(Clone, Copy, Debug, PartialEq, Eq, Structural)]
pub enum AttackPhase {
    BeeAttack,
    Traj,
    Capture,
    CaptureBeam,
    NoCaptureGoOut,
    CaptureStart,
    CaptureCloseBeam,
    CaptureDoneWait,
    CaptureDoneBack,
    CaptureDonePushUp,
}

/// What an enemy is doing.
#[derive(Clone, Copy, Debug, PartialEq, Eq, Structural)]
pub enum EnemyState {
    Idle,
    Appearance,
    MoveToFormation,
    Assault(u32),
    Formation,
    Attack(AttackPhase),
    Troop,
}

/// Bound of enemy coordinates.
pub open spec fn enemy_pos_limit() -> int { 0x3_0000 }

/// The number of shots an attacker fires in a stage.
pub open spec fn shot_count(stage_no: int) -> int {
    if 2 + stage_no / 8 < 5 { 2 + stage_no / 8 } else { 5 }
}

/// Frames between an attacker's shots.
pub open spec fn shot_interval(stage_no: int) -> int {
    20 - shot_count(stage_no) * 2
}

/// Whether an attacker fires in the given frame of its attack.
pub open spec fn fires_at(frame: int, stage_no: int) -> bool {
    frame <= shot_interval(stage_no) * shot_count(stage_no) && frame % shot_interval(stage_no) == 0
}

/// `v` shifted right by half the fraction bits: `v / 16` rounded down.
pub open spec fn half_shift(v: int) -> int {
    v / 16
}

/// The state shared by every kind of enemy.
#[derive(Clone, Copy, Debug)]
pub struct EnemyBase {
    pub enemy_type: EnemyType,
    pub state: EnemyState,
    pub pos: Vec2I,
    pub angle: i32,
    pub speed: i32,
    pub vangle: i32,
    pub formation_index: FormationIndex,
    pub traj: Option<Traj>,
    pub shot_wait: Option<u32>,
    pub count: u32,
    pub attack_frame_count: u32,
    pub target_pos: Vec2I,
    pub disappeared: bool,
}

/// Whether a formation index names a slot of the formation.
pub open spec fn slot_ok(fi: FormationIndex) -> bool {
    (fi.0 as int) < X_COUNT && (fi.1 as int) < Y_COUNT
}

impl EnemyBase {
    /// Bounds under which a frame of the enemy runs without overflow.
    pub open spec fn limits_ok(&self) -> bool {
        &&& -enemy_pos_limit() <= self.pos.x <= enemy_pos_limit()
        &&& -enemy_pos_limit() <= self.pos.y <= enemy_pos_limit()
        &&& -enemy_pos_limit() <= self.target_pos.x <= enemy_pos_limit()
        &&& -enemy_pos_limit() <= self.target_pos.y <= enemy_pos_limit()
        &&& -0x100_0000 <= self.angle <= 0x100_0000
        &&& -0x1_0000 <= self.speed <= 0x1_0000
        &&& -0x1_0000 <= self.vangle <= 0x1_0000
        &&& self.count < 0x1000_0000
        &&& self.attack_frame_count < 0x1000_0000
        &&& (self.formation_index.0 as int) < X_COUNT
        &&& (self.formation_index.1 as int) <= Y_COUNT
        &&& self.traj matches Some(t) ==> t.limits_ok()
    }

    /// Tells whether the enemy is within `limits_ok`.
    pub fn check_limits(&self) -> (b: bool)
        ensures
            b == self.limits_ok(),
    {
        let lim: i32 = 0x3_0000;
        let sl: i32 = 0x1_0000;
        let al: i32 = 0x100_0000;
        if !(-lim <= self.pos.x && self.pos.x <= lim && -lim <= self.pos.y && self.pos.y <= lim
            && -lim <= self.target_pos.x && self.target_pos.x <= lim
            && -lim <= self.target_pos.y && self.target_pos.y <= lim
            && -al <= self.angle && self.angle <= al && -sl <= self.speed && self.speed <= sl
            && -sl <= self.vangle && self.vangle <= sl && self.count < 0x1000_0000
            && self.attack_frame_count < 0x1000_0000
            && (self.formation_index.0 as usize) < X_COUNT && (self.formation_index.1 as usize) <= Y_COUNT) {
            return false;
        }
        match &self.traj {
            Some(t) => t.check_limits(),
            None => true,
        }
    }

    /// Bounds that hold after any frame's steering, before the move.
    pub open spec fn after_move_ok(&self) -> bool {
        &&& -0x400_0000 <= self.pos.x <= 0x400_0000
        &&& -0x400_0000 <= self.pos.y <= 0x400_0000
        &&& -0x400_0000 <= self.angle <= 0x400_0000
        &&& -0x40_0000 <= self.vangle <= 0x40_0000
        &&& -0x1_0000 <= self.speed <= 0x1_0000
    }

    /// A new enemy at rest.
    pub open spec fn new_spec(enemy_type: EnemyType, pos: Vec2I, angle: i32, speed: i32, fi: FormationIndex) -> EnemyBase {
        EnemyBase {
            enemy_type,
            state: EnemyState::Idle,
            pos,
            angle,
            speed,
            vangle: 0,
            formation_index: fi,
            traj: None,
            shot_wait: None,
            count: 0,
            attack_frame_count: 0,
            target_pos: Vector2D { x: 0, y: 0 },
            disappeared: false,
        }
    }

    /// The hit box of the enemy.
    pub open spec fn collbox_spec(&self) -> CollBox {
        CollBox {
            top_left: Vector2D {
                x: (round_fixed(self.pos.x as int) - 6) as i32,
                y: (round_fixed(self.pos.y as int) - 6) as i32,
            },
            size: Vector2D { x: 12i32, y: 12i32 },
        }
    }

    pub fn new(enemy_type: EnemyType, pos: &Vec2I, angle: i32, speed: i32, fi: &FormationIndex) -> (b: Self)
        ensures
            b == Self::new_spec(enemy_type, *pos, angle, speed, *fi),
            b.enemy_type == enemy_type,
            b.state == EnemyState::Idle,
            b.pos == *pos,
            b.angle == angle,
            b.speed == speed,
            b.vangle == 0,
            b.formation_index == *fi,
            b.traj.is_none(),
            b.shot_wait.is_none(),
            b.count == 0,
            b.attack_frame_count == 0,
            b.target_pos == (Vector2D { x: 0i32, y: 0i32 }),
            !b.disappeared,
    {
        EnemyBase {
            enemy_type,
            state: EnemyState::Idle,
            pos: *pos,
            angle,
            speed,
            vangle: 0,
            formation_index: *fi,
            traj: None,
            shot_wait: None,
            count: 0,
            attack_frame_count: 0,
            target_pos: Vector2D::new(0, 0),
            disappeared: false,
        }
    }

    /// Counts a frame of an attack and fires on the frames that the stage allows.
    pub fn update_attack(&mut self, accessor: &Accessor, events: &mut Vec<EventType>) -> (fired: bool)
        requires
            old(self).attack_frame_count < u32::MAX,
        ensures
            final(self).attack_frame_count == old(self).attack_frame_count + 1,
            fired == fires_at(final(self).attack_frame_count as int, accessor.stage_no as int),
            final(self).state == old(self).state,
            final(self).pos == old(self).pos,
            final(self).traj == old(self).traj,
            final(self).count == old(self).count,
            (Self { attack_frame_count: old(self).attack_frame_count, ..*final(self) }) == *old(self),
            final(events)@ == if fired { old(events)@.push(EventType::EneShot(old(self).pos)) } else { old(events)@ },
    {
        self.attack_frame_count += 1;

        let stage_no = accessor.stage_no;
        let c: u16 = 2 + stage_no / 8;
        let shot_count: u32 = if c < 5 { c as u32 } else { 5 };
        let shot_interval: u32 = 20 - shot_count * 2;

        assert(shot_interval * shot_count <= 100) by (nonlinear_arith)
            requires shot_interval <= 20, shot_count <= 5;
        if self.attack_frame_count <= shot_interval * shot_count && self.attack_frame_count % shot_interval == 0 {
            events.push(EventType::EneShot(self.pos));
            true
        } else {
            false
        }
    }

    pub fn set_state(&mut self, state: EnemyState)
        ensures
            *final(self) == (EnemyBase { state, ..*old(self) }),
    {
        self.state = state;
    }

    /// Heads for the enemy's formation slot; tells whether it is still on its way.
    pub fn move_to_formation(&mut self, formation: &Formation) -> (moving: bool)
        requires
            old(self).limits_ok(),
            formation.wf(),
            slot_ok(old(self).formation_index),
        ensures
            ({
                let target = formation.pos_spec(old(self).formation_index);
                let dx = target.x - old(self).pos.x;
                let dy = target.y - old(self).pos.y;
                let sq = half_shift(dx) * half_shift(dx) + half_shift(dy) * half_shift(dy);
                let sp = half_shift(old(self).speed as int);
                if sq > sp * sp {
                    let dlimit = trunc_div(old(self).speed * 5, 3);
                    let d = angle_diff(atan2_spec(-dy, dx), old(self).angle as int);
                    &&& moving
                    &&& *final(self) == (EnemyBase {
                        angle: (old(self).angle + clamp_spec(d, -dlimit, dlimit)) as i32,
                        vangle: 0,
                        ..*old(self)
                    })
                } else {
                    &&& !moving
                    &&& *final(self) == (EnemyBase { pos: target, speed: 0, ..*old(self) })
                }
            }),
            (*final(self), moving) == formation_step(*old(self), formation),
    {
        proof {
            formation.lemma_wf_bounds();
        }
        let target = formation.pos(&self.formation_index);
        let diff = target.minus(&self.pos);
        let hx = half_shift_exec(diff.x);
        let hy = half_shift_exec(diff.y);
        let hs = half_shift_exec(self.speed);
        assert(0 <= hx * hx <= 0x1000_0000 && 0 <= hy * hy <= 0x1000_0000) by {
            assert(-0x4000 <= hx <= 0x4000 && -0x4000 <= hy <= 0x4000);
            assert(0 <= hx * hx <= 0x1000_0000) by (nonlinear_arith) requires -0x4000 <= hx <= 0x4000;
            assert(0 <= hy * hy <= 0x1000_0000) by (nonlinear_arith) requires -0x4000 <= hy <= 0x4000;
        }
        let sq_distance = square(hx) + square(hy);
        if sq_distance > square(hs) {
            let dlimit: i32 = self.speed * 5 / 3;
            let target_angle = atan2_lut(-diff.y, diff.x);
            let d = diff_angle(target_angle, self.angle);
            self.angle = self.angle + clamp(d, -dlimit, dlimit);
            self.vangle = 0;
            true
        } else {
            self.pos = target;
            self.speed = 0;
            false
        }
    }

    /// Moves the enemy by an offset.
    pub fn warp(&mut self, offset: Vec2I)
        requires
            crate::types::fits_i32(old(self).pos.x + offset.x),
            crate::types::fits_i32(old(self).pos.y + offset.y),
        ensures
            *final(self) == (EnemyBase {
                pos: Vector2D { x: (old(self).pos.x + offset.x) as i32, y: (old(self).pos.y + offset.y) as i32 },
                ..*old(self)
            }),
    {
        self.pos = self.pos.plus(&offset);
    }

    /// Starts another attack flight along `table` from the current position.
    pub fn rush_attack(&mut self, table: &'static [TrajCommand])
        ensures
            final(self).count == 0,
            final(self).attack_frame_count == 0,
            final(self).traj matches Some(t) && t.command_table == table && t.pos == old(self).pos
                && t.flip_x == (old(self).formation_index.0 >= 5) && t.fi == old(self).formation_index
                && t.index == 0 && t.delay == 0 && t.angle == 0 && t.speed == 0 && t.vangle == 0,
            final(self).state == old(self).state,
            final(self).pos == old(self).pos,
            final(self).angle == old(self).angle,
            final(self).speed == old(self).speed,
            final(self).vangle == old(self).vangle,
            final(self).shot_wait == old(self).shot_wait,
            final(self).target_pos == old(self).target_pos,
            final(self).formation_index == old(self).formation_index,
            final(self).enemy_type == old(self).enemy_type,
            final(self).disappeared == old(self).disappeared,
    {
        let flip_x = self.formation_index.0 >= 5;
        let mut traj = Traj::new(table, &Vector2D::new(0, 0), flip_x, self.formation_index);
        traj.set_pos(&self.pos);

        self.count = 0;
        self.attack_frame_count = 0;
        self.traj = Some(traj);
    }

    /// Starts an attack along a given path table, mirrored or not, from the current position.
    pub fn set_table_attack(&mut self, table: &'static [TrajCommand], flip_x: bool)
        ensures
            final(self).traj matches Some(t) && t.command_table == table && t.pos == old(self).pos
                && t.flip_x == flip_x && t.fi == old(self).formation_index && t.index == 0,
            *final(self) == (EnemyBase {
                count: 0,
                attack_frame_count: 0,
                traj: final(self).traj,
                state: EnemyState::Attack(AttackPhase::Traj),
                ..*old(self)
            }),
    {
        let mut traj = Traj::new(table, &Vector2D::new(0, 0), flip_x, self.formation_index);
        traj.set_pos(&self.pos);

        self.count = 0;
        self.attack_frame_count = 0;
        self.traj = Some(traj);
        self.set_state(EnemyState::Attack(AttackPhase::Traj));
    }

    /// Picks the player's ship, or either ship of a dual fighter, as the target of an assault.
    pub fn set_assault(&mut self, accessor: &Accessor)
        ensures
            final(self).target_pos == accessor.player_pos
                || accessor.dual_player_pos == Some(final(self).target_pos),
            *final(self) == (EnemyBase { target_pos: final(self).target_pos, vangle: 0, ..*old(self) }),
    {
        let mut rng = seeded_rng();
        let count: usize = if accessor.dual_player_pos.is_some() { 2 } else { 1 };
        let i = gen_index(&mut rng, count);
        let target = if i == 0 {
            accessor.player_pos
        } else {
            match accessor.dual_player_pos {
                Some(p) => p,
                None => accessor.player_pos,
            }
        };
        self.target_pos = target;
        self.vangle = 0;
    }

    /// Follows the flight path one frame; tells whether the path goes on. A shot that the
    /// path requested is fired once its wait has run out.
    pub fn update_trajectory(&mut self, formation: &Formation, events: &mut Vec<EventType>) -> (cont: bool)
        requires
            old(self).limits_ok(),
            formation.wf(),
        ensures
            match old(self).traj {
                Some(t) => {
                    let t2 = stepped(t, formation_x_of(formation, t.fi));
                    let p = t2.pos_spec();
                    let sw = if t2.shot_wait.is_some() { t2.shot_wait } else { old(self).shot_wait };
                    let fires = sw matches Some(w) && w == 0;
                    &&& cont == (t2.index < t2.command_table@.len() || t2.delay > 0)
                    &&& final(self).pos == p
                    &&& final(self).angle == t2.angle
                    &&& final(self).speed == t2.speed
                    &&& final(self).vangle == t2.vangle
                    &&& final(self).shot_wait == (match sw {
                        Some(w) => if w > 0 { Some((w - 1) as u32) } else { None },
                        None => None,
                    })
                    &&& final(self).traj == (if cont { Some(Traj { shot_wait: None, ..t2 }) } else { None })
                    &&& final(events)@ == (if fires { old(events)@.push(EventType::EneShot(p)) } else { old(events)@ })
                },
                None => {
                    &&& !cont
                    &&& *final(self) == *old(self)
                    &&& final(events)@ == old(events)@
                },
            },
            final(self).state == old(self).state,
            final(self).formation_index == old(self).formation_index,
            final(self).enemy_type == old(self).enemy_type,
            final(self).after_move_ok(),
            final(self).count == old(self).count,
            final(self).attack_frame_count == old(self).attack_frame_count,
            final(self).target_pos == old(self).target_pos,
            final(self).disappeared == old(self).disappeared,
            (*final(self), cont, final(events)@) == traj_step(*old(self), formation, old(events)@),
    {
        match self.traj {
            Some(t) => {
                let mut traj = t;
                let cont = traj.update(formation);
                self.pos = traj.pos();
                self.angle = traj.angle;
                self.speed = traj.speed;
                self.vangle = traj.vangle;
                if let Some(wait) = traj.is_shot() {
                    self.shot_wait = Some(wait);
                }
                if let Some(wait) = self.shot_wait {
                    if wait > 0 {
                        self.shot_wait = Some(wait - 1);
                    } else {
                        events.push(EventType::EneShot(self.pos));
                        self.shot_wait = None;
                    }
                }
                if cont {
                    self.traj = Some(traj);
                    return true;
                }
                self.traj = None;
                false
            },
            None => false,
        }
    }

    /// Steers toward the assault target, then dives until off the bottom of the screen.
    pub fn update_assault(&mut self, phase: u32) -> (next: u32)
        requires
            old(self).limits_ok(),
        ensures
            phase == 0 ==> {
                let diff_x = old(self).target_pos.x - old(self).pos.x;
                let diff_y = old(self).target_pos.y - old(self).pos.y;
                let d = angle_diff(atan2_spec(-diff_y, diff_x), old(self).angle as int);
                let dl = 5 * ONE;
                &&& d < -dl ==> next == 0 && *final(self) == (EnemyBase { angle: (old(self).angle - dl) as i32, ..*old(self) })
                &&& d > dl ==> next == 0 && *final(self) == (EnemyBase { angle: (old(self).angle + dl) as i32, ..*old(self) })
                &&& -dl <= d <= dl ==> next == 1 && *final(self) == (EnemyBase { angle: (old(self).angle + d) as i32, ..*old(self) })
            },
            phase != 0 ==> if old(self).pos.y >= (HEIGHT + 8) * ONE {
                next == 2 && *final(self) == (EnemyBase { disappeared: true, ..*old(self) })
            } else {
                next == phase && *final(self) == *old(self)
            },
            (*final(self), next) == assault_step(*old(self), phase),
    {
        let mut phase = phase;
        if phase == 0 {
            let diff = self.target_pos.minus(&self.pos);
            let dlimit: i32 = 5 * ONE;
            let target_angle = atan2_lut(-diff.y, diff.x);
            let d = diff_angle(target_angle, self.angle);
            if d < -dlimit {
                self.angle = self.angle - dlimit;
            } else if d > dlimit {
                self.angle = self.angle + dlimit;
            } else {
                self.angle = self.angle + d;
                phase = 1;
            }
        } else {
            if self.pos.y >= (HEIGHT + 8) * ONE {
                self.disappeared = true;
                phase = 2;
            }
        }
        phase
    }

    /// Follows the formation slot and turns the heading back to up.
    pub fn update_formation(&mut self, formation: &Formation)
        requires
            old(self).limits_ok(),
            slot_ok(old(self).formation_index),
        ensures
            *final(self) == (EnemyBase {
                pos: formation.pos_spec(old(self).formation_index),
                angle: (old(self).angle - clamp_spec(old(self).angle as int, -(ANGLE * ONE / 128), ANGLE * ONE / 128)) as i32,
                ..*old(self)
            }),
    {
        self.pos = formation.pos(&self.formation_index);
        let ang = ANGLE * ONE / 128;
        self.angle = self.angle - clamp(self.angle, -ang, ang);
    }

    /// The hit box of the enemy: 12 dots square around its position.
    pub fn get_collbox(&self) -> (c: CollBox)
        requires
            self.limits_ok(),
        ensures
            c == self.collbox_spec(),
    {
        let p = round_vec(&self.pos);
        CollBox { top_left: p.minus(&Vector2D::new(6, 6)), size: Vector2D::new(12, 12) }
    }

    pub fn is_formation(&self) -> (b: bool)
        ensures
            b == (self.state == EnemyState::Formation),
    {
        self.state == EnemyState::Formation
    }

    pub fn is_captured_fighter(&self) -> (b: bool)
        ensures
            b == (self.enemy_type == EnemyType::CapturedFighter),
    {
        self.enemy_type == EnemyType::CapturedFighter
    }

    /// Moves a troop member along with its leader.
    pub fn update_troop(&mut self, add: &Vec2I, angle_opt: Option<i32>)
        requires
            crate::types::fits_i32(old(self).pos.x + add.x),
            crate::types::fits_i32(old(self).pos.y + add.y),
        ensures
            final(self).pos.x == old(self).pos.x + add.x,
            final(self).pos.y == old(self).pos.y + add.y,
            final(self).angle == match angle_opt { Some(a) => a, None => old(self).angle },
            (EnemyBase { pos: old(self).pos, angle: old(self).angle, ..*final(self) }) == *old(self),
    {
        self.pos = self.pos.plus(add);
        if let Some(angle) = angle_opt {
            self.angle = angle;
        }
    }

    /// Stops and points the enemy within one turn.
    pub fn set_to_formation(&mut self)
        ensures
            *final(self) == (EnemyBase {
                speed: 0,
                angle: normalized(old(self).angle as int) as i32,
                vangle: 0,
                ..*old(self)
            }),
    {
        self.speed = 0;
        self.angle = normalize_angle(self.angle);
        self.vangle = 0;
    }
}

impl EnemyBase {
    /// Moves one frame along the heading, turning by half the turn rate before and after.
    pub fn forward(&mut self)
        requires
            old(self).after_move_ok(),
        ensures
            ({
                let v = crate::math::velocity(old(self).angle + trunc_div(old(self).vangle as int, 2), old(self).speed as int);
                *final(self) == (EnemyBase {
                    pos: Vector2D { x: (old(self).pos.x + v.x) as i32, y: (old(self).pos.y + v.y) as i32 },
                    angle: (old(self).angle + old(self).vangle) as i32,
                    ..*old(self)
                })
            }),
            old(self).pos.x - 0x40_0000 <= final(self).pos.x <= old(self).pos.x + 0x40_0000,
            old(self).pos.y - 0x40_0000 <= final(self).pos.y <= old(self).pos.y + 0x40_0000,
    {
        let v = crate::math::calc_velocity(self.angle + self.vangle / 2, self.speed);
        self.pos = self.pos.plus(&v);
        self.angle = self.angle + self.vangle;
    }

    /// Bounds under which a whole frame of the enemy runs without overflow.
    pub open spec fn frame_ok(&self) -> bool {
        &&& self.limits_ok()
        &&& self.attack_frame_count + 1 < 0x1000_0000
    }

    pub proof fn lemma_limits_after_move(&self)
        requires
            self.limits_ok(),
        ensures
            self.after_move_ok(),
    {
    }
}

/// The motion of an enemy: where it is, where it heads, and its slot.
#[derive(Clone, Copy, Debug)]
pub struct EnemyInfo {
    pub pos: Vec2I,
    pub angle: i32,
    pub speed: i32,
    pub vangle: i32,
    pub formation_index: FormationIndex,
}

impl EnemyInfo {
    pub fn new(pos: Vec2I, angle: i32, speed: i32, fi: &FormationIndex) -> (e: Self)
        ensures
            e == (EnemyInfo { pos, angle, speed, vangle: 0, formation_index: *fi }),
    {
        Self { pos, angle, speed, vangle: 0, formation_index: *fi }
    }

    /// Moves one frame along the heading, turning by half the turn rate before and after.
    pub fn forward(&mut self)
        requires
            -0x400_0000 <= old(self).pos.x <= 0x400_0000,
            -0x400_0000 <= old(self).pos.y <= 0x400_0000,
            -0x400_0000 <= old(self).angle <= 0x400_0000,
            -0x40_0000 <= old(self).vangle <= 0x40_0000,
            -0x1_0000 <= old(self).speed <= 0x1_0000,
        ensures
            ({
                let v = crate::math::velocity(old(self).angle + trunc_div(old(self).vangle as int, 2), old(self).speed as int);
                *final(self) == (EnemyInfo {
                    pos: Vector2D { x: (old(self).pos.x + v.x) as i32, y: (old(self).pos.y + v.y) as i32 },
                    angle: (old(self).angle + old(self).vangle) as i32,
                    ..*old(self)
                })
            }),
    {
        let v = crate::math::calc_velocity(self.angle + self.vangle / 2, self.speed);
        self.pos = self.pos.plus(&v);
        self.angle = self.angle + self.vangle;
    }

    /// Follows the formation slot and turns the heading back to up.
    pub fn update_formation(&mut self, formation: &Formation)
        requires
            slot_ok(old(self).formation_index),
        ensures
            *final(self) == (EnemyInfo {
                pos: formation.pos_spec(old(self).formation_index),
                angle: (old(self).angle - clamp_spec(old(self).angle as int, -(ANGLE * ONE / 128), ANGLE * ONE / 128)) as i32,
                ..*old(self)
            }),
    {
        self.pos = formation.pos(&self.formation_index);
        let ang = ANGLE * ONE / 128;
        self.angle = self.angle - clamp(self.angle, -ang, ang);
    }

    /// The hit box of the enemy: 12 dots square around its position.
    pub fn get_collbox(&self) -> (c: CollBox)
        requires
            crate::math::roundable(self.pos),
            -0x7000_0000 <= self.pos.x,
            -0x7000_0000 <= self.pos.y,
        ensures
            c == (CollBox {
                top_left: Vector2D {
                    x: (round_fixed(self.pos.x as int) - 6) as i32,
                    y: (round_fixed(self.pos.y as int) - 6) as i32,
                },
                size: Vector2D { x: 12i32, y: 12i32 },
            }),
    {
        let p = round_vec(&self.pos);
        CollBox { top_left: p.minus(&Vector2D::new(6, 6)), size: Vector2D::new(12, 12) }
    }
}

/// The hit box of an enemy within bounds has corners that fit in an `i32`.
pub proof fn lemma_collbox_ok(b: EnemyBase)
    requires
        b.limits_ok(),
    ensures
        crate::collision::box_ok(b.collbox_spec()),
{
}

/// `v >> 4` on `i32`.
pub fn half_shift_exec(v: i32) -> (r: i32)
    ensures
        r == half_shift(v as int),
{
    assert((v >> 4i32) as int == (v as int) / 16) by (bit_vector);
    v >> 4
}

/// An enemy after a frame along its flight path: itself, whether the path goes on, and the
/// events. A shot that the path requested is fired once its wait has run out.
pub open spec fn traj_step(b: EnemyBase, formation: &Formation, events: Seq<EventType>) -> (EnemyBase, bool, Seq<EventType>) {
    match b.traj {
        Some(t) => {
            let t2 = stepped(t, formation_x_of(formation, t.fi));
            let p = t2.pos_spec();
            let sw = if t2.shot_wait.is_some() { t2.shot_wait } else { b.shot_wait };
            let fires = sw matches Some(w) && w == 0;
            let cont = t2.index < t2.command_table@.len() || t2.delay > 0;
            (EnemyBase {
                pos: p,
                angle: t2.angle,
                speed: t2.speed,
                vangle: t2.vangle,
                shot_wait: match sw {
                    Some(w) => if w > 0 { Some((w - 1) as u32) } else { None },
                    None => None,
                },
                traj: if cont { Some(Traj { shot_wait: None, ..t2 }) } else { None },
                ..b
            }, cont, if fires { events.push(EventType::EneShot(p)) } else { events })
        },
        None => (b, false, events),
    }
}

/// An enemy heading for its slot a frame: itself, and whether it is still on its way.
pub open spec fn formation_step(b: EnemyBase, formation: &Formation) -> (EnemyBase, bool) {
    let target = formation.pos_spec(b.formation_index);
    let dx = target.x - b.pos.x;
    let dy = target.y - b.pos.y;
    let sq = half_shift(dx) * half_shift(dx) + half_shift(dy) * half_shift(dy);
    let sp = half_shift(b.speed as int);
    if sq > sp * sp {
        let dlimit = trunc_div(b.speed * 5, 3);
        let d = angle_diff(atan2_spec(-dy, dx), b.angle as int);
        (EnemyBase { angle: (b.angle + clamp_spec(d, -dlimit, dlimit)) as i32, vangle: 0, ..b }, true)
    } else {
        (EnemyBase { pos: target, speed: 0, ..b }, false)
    }
}

/// An enemy resting in its slot: stopped, upright within a turn.
pub open spec fn rested(b: EnemyBase) -> EnemyBase {
    EnemyBase { speed: 0, angle: normalized(b.angle as int) as i32, vangle: 0, ..b }
}

/// An enemy following its slot a frame, turning back to up.
pub open spec fn slot_followed(b: EnemyBase, formation: &Formation) -> EnemyBase {
    EnemyBase {
        pos: formation.pos_spec(b.formation_index),
        angle: (b.angle - clamp_spec(b.angle as int, -(ANGLE * ONE / 128), ANGLE * ONE / 128)) as i32,
        ..b
    }
}

/// An enemy's assault a frame: it steers toward its target, then dives until it is off the
/// bottom of the screen; itself and the next step.
pub open spec fn assault_step(b: EnemyBase, phase: u32) -> (EnemyBase, u32) {
    if phase == 0 {
        let diff_x = b.target_pos.x - b.pos.x;
        let diff_y = b.target_pos.y - b.pos.y;
        let d = angle_diff(atan2_spec(-diff_y, diff_x), b.angle as int);
        let dl = 5 * ONE;
        if d < -dl {
            (EnemyBase { angle: (b.angle - dl) as i32, ..b }, 0)
        } else if d > dl {
            (EnemyBase { angle: (b.angle + dl) as i32, ..b }, 0)
        } else {
            (EnemyBase { angle: (b.angle + d) as i32, ..b }, 1)
        }
    } else if b.pos.y >= (HEIGHT + 8) * ONE {
        (EnemyBase { disappeared: true, ..b }, 2)
    } else {
        (b, phase)
    }
}

/// An enemy moved a frame along its heading, turning by half its turn rate before and after.
pub open spec fn base_forwarded(b: EnemyBase) -> EnemyBase {
    let v = crate::math::velocity(b.angle + trunc_div(b.vangle as int, 2), b.speed as int);
    EnemyBase {
        pos: Vector2D { x: (b.pos.x + v.x) as i32, y: (b.pos.y + v.y) as i32 },
        angle: (b.angle + b.vangle) as i32,
        ..b
    }
}

} // verus!

use vstd::prelude::*;

use crate::enemy_base::{half_shift, half_shift_exec, slot_ok};
use crate::enemy_types::{EnemyType, FormationIndex};
use crate::formation::{Formation, X_COUNT};
use crate::math::{
    angle_diff, atan2_lut, atan2_spec, calc_velocity, clamp, clamp_spec, diff_angle, normalize_angle, normalized,
    square, velocity, ANGLE, ONE,
};
use crate::traj::{
    bee_attack_table, butterfly_attack_table, formation_x_of, owl_attack_table, stepped, Traj, TrajCommand,
};
use crate::types::{trunc_div, Vec2I, Vector2D};

verus! {

/// A position in the world.
#[derive(Clone, Copy, Debug)]
pub struct Pos(pub Vec2I);

/// A hit box relative to a position.
#[derive(Clone, Copy, Debug)]
pub struct CollRect {
    pub offset: Vec2I,
    pub size: Vec2I,
}

/// Marks the player's ship.
#[derive(Clone, Copy, Debug)]
pub struct Player;

/// Marks a player's shot.
#[derive(Clone, Copy, Debug)]
pub struct MyShot;

/// An enemy's kind and slot, and whether it rests in its slot.
#[derive(Clone, Copy, Debug)]
pub struct Enemy {
    pub enemy_type: EnemyType,
    pub formation_index: FormationIndex,
    pub is_formation: bool,
}

/// A sprite drawn at an offset from a position.
#[derive(Clone, Copy, Debug)]
pub struct SpriteDrawable {
    pub sprite_name: &'static str,
    pub offset: Vec2I,
}

/// A position and a heading.
#[derive(Clone, Copy, Debug)]
pub struct Posture(pub Vec2I, pub i32);

/// A speed and a turn rate.
#[derive(Clone, Copy, Debug)]
pub struct Speed(pub i32, pub i32);

/// What a small enemy is doing.
#[derive(Clone, Copy, Debug, PartialEq, Eq, Structural)]
pub enum ZakoState {
    Appearance,
    Formation,
    Attack,
    MoveToFormation,
    /// Flies with a boss, which moves it.
    Troop,
}

/// A small enemy's state and flight path.
#[derive(Clone, Copy, Debug)]
pub struct Zako {
    pub state: ZakoState,
    pub traj: Option<Traj>,
}

/// Bounds under which a frame of a small enemy runs without overflow.
pub open spec fn zako_frame_ok(zako: &Zako, posture: &Posture, speed: &Speed) -> bool {
    &&& -0x3_0000 <= posture.0.x <= 0x3_0000
    &&& -0x3_0000 <= posture.0.y <= 0x3_0000
    &&& -0x100_0000 <= posture.1 <= 0x100_0000
    &&& -0x1_0000 <= speed.0 <= 0x1_0000
    &&& -0x1_0000 <= speed.1 <= 0x1_0000
    &&& zako.traj matches Some(t) ==> t.limits_ok()
}

/// One frame of a small enemy that was `z0`, at `p0` with speed `s0`, whose slot is `fi`: it
/// becomes `z1`, at `p1` with speed `s1`.
pub open spec fn zako_moved(z0: Zako, p0: Posture, s0: Speed, fi: FormationIndex, formation: Formation, z1: Zako,
    p1: Posture, s1: Speed) -> bool {
    match z0.state {
        ZakoState::Appearance | ZakoState::Attack => match z0.traj {
            Some(t) => {
                let t2 = stepped(t, formation_x_of(&formation, t.fi));
                let cont = t2.index < t2.command_table@.len() || t2.delay > 0;
                &&& p1.0 == t2.pos_spec()
                &&& p1.1 == t2.angle
                &&& s1.0 == t2.speed
                &&& s1.1 == t2.vangle
                &&& z1.traj == if cont { Some(t2) } else { None }
                &&& z1.state == if cont { z0.state } else { ZakoState::MoveToFormation }
            },
            None => {
                &&& z1.traj.is_none()
                &&& z1.state == ZakoState::MoveToFormation
                &&& p1 == p0
                &&& s1 == s0
            },
        },
        ZakoState::Formation => {
            let a = p0.1;
            &&& z1 == z0
            &&& p1.0 == formation.pos_spec(fi)
            &&& p1.1 == a - clamp_spec(a as int, -(ANGLE * ONE / 128), ANGLE * ONE / 128)
            &&& s1 == s0
        },
        ZakoState::MoveToFormation => {
            let target = formation.pos_spec(fi);
            let p = p0.0;
            let a = p0.1;
            let spd = s0.0;
            let dx = target.x - p.x;
            let dy = target.y - p.y;
            let sq = half_shift(dx) * half_shift(dx) + half_shift(dy) * half_shift(dy);
            let sp = half_shift(spd as int);
            &&& z1.traj == z0.traj
            &&& if sq > sp * sp {
                let dlimit = trunc_div(spd * 5, 3);
                let a2 = a + clamp_spec(angle_diff(atan2_spec(-dy, dx), a as int), -dlimit, dlimit);
                let v = velocity(a2, spd as int);
                &&& p1.1 == a2
                &&& p1.0 == (Vector2D { x: (p.x + v.x) as i32, y: (p.y + v.y) as i32 })
                &&& s1 == Speed(spd, 0)
                &&& z1.state == ZakoState::MoveToFormation
            } else {
                &&& p1.0 == target
                &&& p1.1 == normalized(a as int)
                &&& s1 == Speed(0, 0)
                &&& z1.state == ZakoState::Formation
            }
        },
        ZakoState::Troop => {
            &&& z1 == z0
            &&& p1 == p0
            &&& s1 == s0
        },
    }
}

/// Runs one frame of a small enemy: it flies along its path while appearing or attacking
/// and then heads for its slot, follows the slot in the formation, and turns to its slot
/// until it arrives.
pub fn do_move_zako(zako: &mut Zako, enemy: &Enemy, posture: &mut Posture, speed: &mut Speed, formation: &Formation)
    requires
        zako_frame_ok(&*old(zako), &*old(posture), &*old(speed)),
        formation.wf(),
        slot_ok(enemy.formation_index),
    ensures
        zako_moved(*old(zako), *old(posture), *old(speed), enemy.formation_index, *formation, *final(zako),
            *final(posture), *final(speed)),
{
    proof {
        formation.lemma_wf_bounds();
    }
    match zako.state {
        ZakoState::Appearance | ZakoState::Attack => {
            if !update_traj(zako, posture, speed, formation) {
                zako.traj = None;
                zako.state = ZakoState::MoveToFormation;
            }
        },
        ZakoState::Formation => {
            posture.0 = formation.pos(&enemy.formation_index);
            let ang = ANGLE * ONE / 128;
            posture.1 = posture.1 - clamp(posture.1, -ang, ang);
        },
        ZakoState::MoveToFormation => {
            let target = formation.pos(&enemy.formation_index);
            let diff = target.minus(&posture.0);
            let hx = half_shift_exec(diff.x);
            let hy = half_shift_exec(diff.y);
            let hs = half_shift_exec(speed.0);
            assert(0 <= hx * hx <= 0x1000_0000 && 0 <= hy * hy <= 0x1000_0000) by {
                assert(0 <= hx * hx <= 0x1000_0000) by (nonlinear_arith) requires -0x4000 <= hx <= 0x4000;
                assert(0 <= hy * hy <= 0x1000_0000) by (nonlinear_arith) requires -0x4000 <= hy <= 0x4000;
            }
            let sq_distance = square(hx) + square(hy);
            if sq_distance > square(hs) {
                let dlimit: i32 = speed.0 * 5 / 3;
                let target_angle = atan2_lut(-diff.y, diff.x);
                let d = diff_angle(target_angle, posture.1);
                posture.1 = posture.1 + clamp(d, -dlimit, dlimit);
                speed.1 = 0;
                let v = calc_velocity(posture.1, speed.0);
                posture.0 = posture.0.plus(&v);
            } else {
                posture.0 = target;
                speed.0 = 0;
                posture.1 = normalize_angle(posture.1);
                speed.1 = 0;
                zako.state = ZakoState::Formation;
            }
        },
        ZakoState::Troop => {},
    }
}

/// Starts a small enemy's attack along the path of its kind, mirrored on the right half.
pub fn zako_start_attack(zako: &mut Zako, enemy: &Enemy, posture: &Posture, _capture_attack: bool)
    ensures
        final(zako).state == ZakoState::Attack,
        final(zako).traj matches Some(t) && t.pos == posture.0 && t.flip_x == (enemy.formation_index.0 >= 5)
            && t.fi == enemy.formation_index && t.index == 0 && t.delay == 0 && crate::traj::table_ok(t.command_table@)
            && t.offset == (Vector2D { x: 0i32, y: 0i32 }) && t.angle == 0 && t.speed == 0 && t.vangle == 0
            && t.shot_wait.is_none()
            && t.command_table@ == match enemy.enemy_type {
                EnemyType::Bee => crate::traj::bee_attack_path(),
                EnemyType::Butterfly => crate::traj::butterfly_attack_path(),
                EnemyType::Owl | EnemyType::CapturedFighter => crate::traj::owl_attack_path(),
            },
{
    let flip_x = enemy.formation_index.0 >= (X_COUNT as u8) / 2;
    let table: &'static [TrajCommand] = match enemy.enemy_type {
        EnemyType::Bee => bee_attack_table(),
        EnemyType::Butterfly => butterfly_attack_table(),
        EnemyType::Owl => owl_attack_table(),
        EnemyType::CapturedFighter => owl_attack_table(),
    };
    let mut traj = Traj::new(table, &Vector2D::new(0, 0), flip_x, enemy.formation_index);
    traj.set_pos(&posture.0);
    zako.traj = Some(traj);
    zako.state = ZakoState::Attack;
}

/// Runs the path one frame and places the enemy on it; tells whether the path goes on.
fn update_traj(zako: &mut Zako, posture: &mut Posture, speed: &mut Speed, formation: &Formation) -> (cont: bool)
    requires
        zako_frame_ok(&*old(zako), &*old(posture), &*old(speed)),
        formation.wf(),
    ensures
        match old(zako).traj {
            Some(t) => {
                let t2 = stepped(t, formation_x_of(formation, t.fi));
                &&& cont == (t2.index < t2.command_table@.len() || t2.delay > 0)
                &&& final(posture).0 == t2.pos_spec()
                &&& final(posture).1 == t2.angle
                &&& final(speed).0 == t2.speed
                &&& final(speed).1 == t2.vangle
                &&& final(zako).traj == Some(t2)
            },
            None => !cont && *final(zako) == *old(zako) && *final(posture) == *old(posture) && *final(speed) == *old(speed),
        },
        final(zako).state == old(zako).state,
{
    match zako.traj {
        Some(t) => {
            let mut traj = t;
            let cont = traj.update(formation);
            posture.0 = traj.pos();
            posture.1 = traj.angle;
            speed.0 = traj.speed;
            speed.1 = traj.vangle;
            zako.traj = Some(traj);
            cont
        },
        None => false,
    }
}

/// Bounds of a posture and a speed under which a frame of an enemy runs without overflow.
pub open spec fn motion_ok(posture: Posture, speed: Speed) -> bool {
    &&& -0x3_0000 <= posture.0.x <= 0x3_0000
    &&& -0x3_0000 <= posture.0.y <= 0x3_0000
    &&& -0x100_0000 <= posture.1 <= 0x100_0000
    &&& -0x1_0000 <= speed.0 <= 0x1_0000
    &&& -0x1_0000 <= speed.1 <= 0x1_0000
}

/// Bounds of a posture and a speed under which an enemy can move a frame without overflow.
pub open spec fn forward_ok(posture: Posture, speed: Speed) -> bool {
    &&& -0x3_0000 <= posture.0.x <= 0x3_0000
    &&& -0x3_0000 <= posture.0.y <= 0x3_0000
    &&& -0x200_0000 <= posture.1 <= 0x200_0000
    &&& -0x1_0000 <= speed.0 <= 0x1_0000
    &&& -0x1_0000 <= speed.1 <= 0x1_0000
}

/// A posture moved one frame along the heading, turned by half the turn rate before and after.
pub open spec fn forwarded(p: Posture, s: Speed) -> Posture {
    let v = velocity(p.1 + trunc_div(s.1 as int, 2), s.0 as int);
    Posture(Vector2D { x: (p.0.x + v.x) as i32, y: (p.0.y + v.y) as i32 }, (p.1 + s.1) as i32)
}

/// Moves one frame along the heading, turning by half the turn rate before and after.
pub fn forward(posture: &mut Posture, speed: &Speed)
    requires
        forward_ok(*old(posture), *speed),
    ensures
        *final(posture) == forwarded(*old(posture), *speed),
{
    let v = calc_velocity(posture.1 + speed.1 / 2, speed.0);
    posture.0 = posture.0.plus(&v);
    posture.1 = posture.1 + speed.1;
}

/// Turns toward the enemy's slot, or, when the slot is within a frame's reach, puts the
/// enemy there, stopped and upright; tells whether it arrived.
pub fn move_to_formation(posture: &mut Posture, speed: &mut Speed, fi: &FormationIndex, formation: &Formation) -> (arrived: bool)
    requires
        motion_ok(*old(posture), *old(speed)),
        formation.wf(),
        slot_ok(*fi),
    ensures
        forward_ok(*final(posture), *final(speed)),
        ({
            let target = formation.pos_spec(*fi);
            let p = old(posture).0;
            let a = old(posture).1;
            let spd = old(speed).0;
            let dx = target.x - p.x;
            let dy = target.y - p.y;
            let sq = half_shift(dx) * half_shift(dx) + half_shift(dy) * half_shift(dy);
            let sp = half_shift(spd as int);
            if sq > sp * sp {
                let dlimit = trunc_div(spd * 5, 3);
                &&& !arrived
                &&& *final(posture) == Posture(p, (a + clamp_spec(angle_diff(atan2_spec(-dy, dx), a as int), -dlimit, dlimit)) as i32)
                &&& *final(speed) == Speed(spd, 0)
            } else {
                &&& arrived
                &&& *final(posture) == Posture(target, normalized(a as int) as i32)
                &&& *final(speed) == Speed(0, 0)
            }
        }),
{
    proof {
        formation.lemma_wf_bounds();
    }
    let target = formation.pos(fi);
    let diff = target.minus(&posture.0);
    let hx = half_shift_exec(diff.x);
    let hy = half_shift_exec(diff.y);
    let hs = half_shift_exec(speed.0);
    assert(0 <= hx * hx <= 0x1000_0000 && 0 <= hy * hy <= 0x1000_0000) by {
        assert(0 <= hx * hx <= 0x1000_0000) by (nonlinear_arith) requires -0x4000 <= hx <= 0x4000;
        assert(0 <= hy * hy <= 0x1000_0000) by (nonlinear_arith) requires -0x4000 <= hy <= 0x4000;
    }
    let sq_distance = square(hx) + square(hy);
    if sq_distance > square(hs) {
        let dlimit: i32 = speed.0 * 5 / 3;
        let target_angle = atan2_lut(-diff.y, diff.x);
        let d = diff_angle(target_angle, posture.1);
        posture.1 = posture.1 + clamp(d, -dlimit, dlimit);
        speed.1 = 0;
        false
    } else {
        posture.0 = target;
        posture.1 = normalize_angle(posture.1);
        speed.0 = 0;
        speed.1 = 0;
        true
    }
}

/// A small enemy joins a boss's escort: it leaves its slot and flies with the boss.
pub fn set_zako_to_troop(zako: &mut Zako, enemy: &mut Enemy)
    ensures
        *final(zako) == (Zako { state: ZakoState::Troop, ..*old(zako) }),
        *final(enemy) == (Enemy { is_formation: false, ..*old(enemy) }),
{
    zako.state = ZakoState::Troop;
    enemy.is_formation = false;
}

/// An animation through a list of sprites, each shown for some frames: the sprites left to
/// show, the frames per sprite, and the frames that the current one has been shown.
#[derive(Clone, Copy, Debug)]
pub struct SequentialSpriteAnime(pub &'static [&'static str], pub u32, pub u32);

pub fn new_seqanime(sprites: &'static [&'static str], frame_wait: u32) -> (a: SequentialSpriteAnime)
    ensures
        a.0 == sprites,
        a.1 == frame_wait,
        a.2 == 0,
{
    SequentialSpriteAnime(sprites, frame_wait, 0)
}

/// Runs the animation a frame: once the current sprite has been shown its frames, the next
/// one comes. Gives the sprite to show, or none once all have been shown.
pub fn update_seqanime(anime: &mut SequentialSpriteAnime) -> (r: Option<&'static str>)
    requires
        old(anime).2 < u32::MAX,
    ensures
        final(anime).1 == old(anime).1,
        old(anime).0@.len() == 0 ==> r.is_none() && *final(anime) == *old(anime),
        old(anime).0@.len() > 0 ==> {
            let next = old(anime).2 + 1 >= old(anime).1;
            &&& final(anime).2 == if next { 0 } else { old(anime).2 + 1 }
            &&& final(anime).0@ == if next { old(anime).0@.subrange(1, old(anime).0@.len() as int) } else { old(anime).0@ }
            &&& r == if final(anime).0@.len() == 0 { None } else { Some(final(anime).0@[0]) }
        },
{
    if anime.0.len() == 0 {
        return None;
    }
    anime.2 = anime.2 + 1;
    if anime.2 >= anime.1 {
        anime.2 = 0;
        anime.0 = vstd::slice::slice_subrange(anime.0, 1, anime.0.len());
        if anime.0.len() == 0 {
            return None;
        }
    }
    Some(anime.0[0])
}

} // verus!

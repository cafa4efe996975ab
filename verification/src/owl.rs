use vstd::prelude::*;

use crate::collision::CollBox;
use crate::consts::{SoundEffect, CH_JINGLE, HEIGHT};
use crate::enemy::{
    same_slots, lemma_change_troops_same_slots,
    array_index, calc_array_index, change_at, change_troops, enemy_at, enlist_enemy_at, form_enemy_at, index_ok,
    move_enemy_at, move_fn, table_wf, to_formation_fn, to_troop_fn, Enemy, MAX_ENEMY_COUNT,
};
use crate::enemy_base::{assault_step, base_forwarded, fires_at, formation_step, slot_followed, slot_ok, traj_step, AttackPhase, EnemyBase, EnemyState};
use crate::enemy_types::{Accessor, DamageResult, EnemyType, FormationIndex};
use crate::events::EventType;
use crate::formation::{Formation, Y_COUNT};
use crate::math::{angle_diff, atan2_lut, atan2_spec, clamp, clamp_spec, diff_angle, normalize_angle, normalized, ANGLE, ONE};
use crate::tractor_beam::{TractorBeam, TractorBeamState, BEAM_RANGE};
use crate::traj::{owl_attack_table, owl_rush_attack_table, Traj};
use crate::types::{Vec2I, Vector2D};

verus! {

pub const MAX_TROOPS: usize = 3;
/// Frames during which enemies hold fire after a boss is destroyed.
pub const OWL_DESTROY_SHOT_WAIT: u32 = 180;

/// How far a boss is in capturing the player's ship.
#[derive(Clone, Copy, Debug, PartialEq, Eq, Structural)]
pub enum CapturingState {
    Idle,
    Attacking,
    BeamTracting
}

/// The boss: it takes two hits, leads a troop, and can capture the player's ship.
#[derive(Clone, Copy)]
pub struct Owl {
    pub enemy_base: EnemyBase,
    pub life: u32,
    pub tractor_beam: Option<TractorBeam>,
    pub capturing_state: CapturingState,
    pub troops: [Option<FormationIndex>; MAX_TROOPS],
    pub copy_angle_to_troops: bool
}

/// The slot just above a boss, where the fighter it captured flies.
pub open spec fn captured_slot(fi: FormationIndex) -> FormationIndex {
    FormationIndex(fi.0, (fi.1 - 1) as u8)
}

/// Number of troop members other than the captured fighter.
pub open spec fn escort_count(troops: Seq<Option<FormationIndex>>, cap_fi: FormationIndex) -> nat
    decreases troops.len(),
{
    if troops.len() == 0 {
        0
    } else {
        escort_count(troops.drop_last(), cap_fi) + if troops.last() matches Some(fi) && fi != cap_fi { 1nat } else { 0nat }
    }
}

/// The points a boss is worth: 150 in formation, else 400 doubled for each escort.
pub open spec fn owl_point(in_formation: bool, escorts: nat) -> int {
    if in_formation {
        150
    } else if escorts == 0 {
        400
    } else if escorts == 1 {
        800
    } else if escorts == 2 {
        1600
    } else {
        3200
    }
}

/// Whether a troop member is still in the table and is not the captured fighter.
pub open spec fn live_troop(t: Seq<Option<Enemy>>, troop: Option<FormationIndex>) -> bool {
    troop matches Some(fi) && enemy_at(t, fi) matches Some(e) && e.base().enemy_type != EnemyType::CapturedFighter
}

/// The slots a boss takes its troop from: below left, below right, and above.
pub open spec fn troop_candidates(fi: FormationIndex) -> Seq<FormationIndex> {
    seq![
        FormationIndex((fi.0 - 1) as u8, (fi.1 + 1) as u8),
        FormationIndex((fi.0 + 1) as u8, (fi.1 + 1) as u8),
        FormationIndex(fi.0, (fi.1 - 1) as u8),
    ]
}

/// Whether the enemy in a slot joins a boss's troop: a small enemy resting in the formation.
pub open spec fn joins(t: Seq<Option<Enemy>>, c: FormationIndex) -> bool {
    t[array_index(c)] matches Some(e) && e.is_zako() && e.base().state == EnemyState::Formation
}

/// The troop a boss picks: the candidates that join, in order, then empty places.
pub open spec fn chosen_troops(t: Seq<Option<Enemy>>, fi: FormationIndex) -> Seq<Option<FormationIndex>> {
    let c = troop_candidates(fi);
    let s0: Seq<FormationIndex> = seq![];
    let s1 = if joins(t, c[0]) { s0.push(c[0]) } else { s0 };
    let s2 = if joins(t, c[1]) { s1.push(c[1]) } else { s1 };
    let s3 = if joins(t, c[2]) { s2.push(c[2]) } else { s2 };
    Seq::new(3, |i: int| if i < s3.len() { Some(s3[i]) } else { None })
}

/// The troop with the members whose slots have emptied taken out.
pub open spec fn without_destroyed(t: Seq<Option<Enemy>>, troops: Seq<Option<FormationIndex>>) -> Seq<Option<FormationIndex>> {
    troops.map_values(|x: Option<FormationIndex>| if x matches Some(fi) && enemy_at(t, fi).is_none() { None } else { x })
}

/// How far off straight down a boss may head while it dives at the player's ship: 30 degrees.
pub open spec fn capture_angle_limit() -> int {
    ANGLE * ONE / 2 - ANGLE * ONE * 30 / 360
}

/// The heading of a capture dive, kept at least the limit off straight up.
pub open spec fn capture_target_angle(a: int) -> int {
    let lim = capture_angle_limit();
    if a >= 0 {
        if a > lim { a } else { lim }
    } else {
        if a < -lim { a } else { -lim }
    }
}

/// The turn left to the target heading, measured in the direction the boss is turning.
pub open spec fn steer_diff(d: int, vangle: int) -> int {
    if vangle > 0 && d < 0 {
        d + ANGLE * ONE
    } else if vangle < 0 && d > 0 {
        d - ANGLE * ONE
    } else {
        d
    }
}

/// The shots of the troop members still in the table, in troop order.
pub open spec fn troop_shots(t: Seq<Option<Enemy>>, troops: Seq<Option<FormationIndex>>) -> Seq<EventType>
    decreases troops.len(),
{
    if troops.len() == 0 {
        seq![]
    } else {
        let s = troop_shots(t, troops.drop_last());
        match troops.last() {
            Some(fi) => match enemy_at(t, fi) {
                Some(e) => s.push(EventType::EneShot(e.base().pos)),
                None => s,
            },
            None => s,
        }
    }
}

/// The captured fighter raised one dot toward its place above the boss, at `top_y`:
/// the table after the move, and whether the fighter has arrived.
pub open spec fn pushed_up(t: Seq<Option<Enemy>>, fi: FormationIndex, top_y: int) -> (Seq<Option<Enemy>>, bool) {
    match enemy_at(t, fi) {
        Some(cf) => {
            let y = cf.base().pos.y - ONE;
            let done = y <= top_y;
            let m = cf.with_base(EnemyBase {
                pos: Vector2D { x: cf.base().pos.x, y: (if done { top_y } else { y }) as i32 },
                ..cf.base()
            });
            (if m.base().limits_ok() { t.update(array_index(fi), Some(m)) } else { t }, done)
        },
        None => (t, false),
    }
}

/// A frame of a capture dive.
pub open spec fn capture_dive_step(o0: Owl, o1: Owl) -> bool {
    &&& ({
        let b = o0.enemy_base;
        let ta = capture_target_angle(atan2_spec(-(b.target_pos.y - b.pos.y), b.target_pos.x - b.pos.x));
        let d = steer_diff(angle_diff(ta, b.angle as int), b.vangle as int);
        let locked = -4 * ONE <= d < 4 * ONE;
        if b.pos.y >= b.target_pos.y {
            &&& o1.enemy_base == (EnemyBase {
                pos: Vector2D { x: b.pos.x, y: b.target_pos.y },
                speed: 0,
                angle: (ANGLE / 2 * ONE) as i32,
                vangle: 0,
                state: EnemyState::Attack(AttackPhase::CaptureBeam),
                count: 0,
                ..b
            })
            &&& o1.tractor_beam matches Some(tb) && tb.state == TractorBeamState::Opening
                && tb.size_count == 0 && tb.pos == (Vector2D { x: b.pos.x, y: (b.target_pos.y + 8 * ONE) as i32 })
        } else {
            &&& o1.enemy_base == (EnemyBase {
                angle: if locked { ta as i32 } else { b.angle },
                vangle: if locked { 0 } else { b.vangle },
                ..b
            })
            &&& o1.tractor_beam == o0.tractor_beam
        }
    })
    &&& (Owl { enemy_base: o0.enemy_base, tractor_beam: o0.tractor_beam, ..o1 }) == o0
}

/// A frame of an open beam: it closes, or it takes the ship.
pub open spec fn capture_beam_step(o0: Owl, accessor: &Accessor, ev0: Seq<EventType>, o1: Owl, ev1: Seq<EventType>) -> bool {
    &&& match o0.tractor_beam {
        Some(tb) => if tb.state == TractorBeamState::Closed {
            &&& o1 == (Owl {
                tractor_beam: None,
                enemy_base: EnemyBase {
                    speed: (5 * ONE / 2) as i32,
                    state: EnemyState::Attack(AttackPhase::NoCaptureGoOut),
                    ..o0.enemy_base
                },
                ..o0
            })
            &&& ev1 == ev0
        } else if accessor.can_player_capture && tb.state == TractorBeamState::Full
            && -BEAM_RANGE <= accessor.player_pos.x - tb.pos.x <= BEAM_RANGE {
            &&& o1 == (Owl {
                tractor_beam: Some(TractorBeam { state: TractorBeamState::Capturing, count: 0, ..tb }),
                capturing_state: CapturingState::BeamTracting,
                enemy_base: EnemyBase {
                    state: EnemyState::Attack(AttackPhase::CaptureStart),
                    count: 0,
                    ..o0.enemy_base
                },
                ..o0
            })
            &&& ev1 == ev0.push(EventType::CapturePlayer(Vector2D {
                x: o0.enemy_base.pos.x,
                y: (o0.enemy_base.pos.y + 16 * ONE) as i32,
            }))
        } else {
            o1 == o0 && ev1 == ev0
        },
        None => o1 == o0 && ev1 == ev0,
    }
}

/// A frame of a boss leaving downward after a failed capture.
pub open spec fn capture_go_out_step(o0: Owl, accessor: &Accessor, formation: &Formation, ev0: Seq<EventType>, o1: Owl, ev1: Seq<EventType>) -> bool {
    &&& if o0.enemy_base.pos.y >= (HEIGHT + 8) * ONE {
        let target = formation.pos_spec(o0.enemy_base.formation_index);
        let p = Vector2D { x: target.x, y: (o0.enemy_base.pos.y + (-32 - (HEIGHT + 8)) * ONE) as i32 };
        &&& o1.enemy_base.pos == p
        &&& o1.enemy_base.formation_index == o0.enemy_base.formation_index
        &&& o1.enemy_base.disappeared == o0.enemy_base.disappeared
        &&& o1.life == o0.life
        &&& o1.troops == o0.troops
        &&& if accessor.is_rush {
            &&& o1.enemy_base.state == EnemyState::Attack(AttackPhase::Traj)
            &&& o1.enemy_base.traj matches Some(t) && t.pos == p && t.index == 0
            &&& o1.capturing_state == o0.capturing_state
            &&& ev1 == ev0.push(EventType::PlaySe(CH_JINGLE, SoundEffect::AttackStart))
        } else {
            &&& o1.enemy_base == (EnemyBase { pos: p, state: EnemyState::MoveToFormation, ..o0.enemy_base })
            &&& o1.capturing_state == CapturingState::Idle
            &&& ev1 == ev0.push(EventType::EndCaptureAttack)
        }
    } else {
        o1 == o0 && ev1 == ev0
    }
}

/// A frame of a boss pulling the ship in.
pub open spec fn capture_start_step(o0: Owl, accessor: &Accessor, o1: Owl) -> bool {
    &&& if accessor.player_capture_completed {
        &&& o0.tractor_beam matches Some(tb)
            && o1.tractor_beam == Some(TractorBeam { state: TractorBeamState::Closing, ..tb })
        &&& o1.enemy_base == (EnemyBase {
            state: EnemyState::Attack(AttackPhase::CaptureCloseBeam),
            count: 0,
            ..o0.enemy_base
        })
        &&& (Owl { enemy_base: o0.enemy_base, tractor_beam: o0.tractor_beam, ..o1 }) == o0
    } else {
        o1 == o0
    }
}

/// A frame of a beam closing on the captured ship.
pub open spec fn capture_close_step(o0: Owl, ev0: Seq<EventType>, o1: Owl, ev1: Seq<EventType>) -> bool {
    &&& if o0.tractor_beam matches Some(tb) && tb.state == TractorBeamState::Closed {
        let fi = captured_slot(o0.enemy_base.formation_index);
        let p = Vector2D { x: o0.enemy_base.pos.x, y: (o0.enemy_base.pos.y + 16 * ONE) as i32 };
        &&& ev1 == ev0.push(EventType::SpawnCapturedFighter(p, fi)).push(EventType::CapturePlayerCompleted)
        &&& o1.tractor_beam.is_none()
        &&& o1.capturing_state == CapturingState::Idle
        &&& !o1.copy_angle_to_troops
        &&& o1.enemy_base == (EnemyBase {
            state: EnemyState::Attack(AttackPhase::CaptureDoneWait),
            count: 0,
            ..o0.enemy_base
        })
        &&& o1.life == o0.life
        &&& (exists|i: int| 0 <= i < MAX_TROOPS && (#[trigger] o0.troops@[i]).is_none()) ==>
            exists|i: int| 0 <= i < MAX_TROOPS && #[trigger] o1.troops@[i] == Some(fi)
    } else {
        o1 == o0 && ev1 == ev0
    }
}

/// A frame of the wait after a capture.
pub open spec fn capture_wait_step(o0: Owl, o1: Owl) -> bool {
    &&& o1 == (Owl {
        enemy_base: if o0.enemy_base.count + 1 >= 120 {
            EnemyBase {
                count: (o0.enemy_base.count + 1) as u32,
                speed: (5 * ONE / 2) as i32,
                state: EnemyState::Attack(AttackPhase::CaptureDoneBack),
                ..o0.enemy_base
            }
        } else {
            EnemyBase { count: (o0.enemy_base.count + 1) as u32, ..o0.enemy_base }
        },
        ..o0
    })
}

/// A frame of a boss flying back with the captured ship.
pub open spec fn capture_back_step(o0: Owl, formation: &Formation, o1: Owl) -> bool {
    let bm = formation_step(o0.enemy_base, formation).0;
    o1 == Owl {
        enemy_base: if formation_step(o0.enemy_base, formation).1 {
            bm
        } else {
            EnemyBase {
                speed: 0,
                angle: normalized(bm.angle as int) as i32,
                state: EnemyState::Attack(AttackPhase::CaptureDonePushUp),
                ..bm
            }
        },
        ..o0
    }
}

/// A frame of a boss pushing the captured fighter up to its slot.
pub open spec fn capture_push_up_step(o0: Owl, t0: Seq<Option<Enemy>>, ev0: Seq<EventType>, o1: Owl, t1: Seq<Option<Enemy>>, ev1: Seq<EventType>) -> bool {
    let b = o0.enemy_base;
    let ang = ANGLE * ONE / 128;
    let a1 = (b.angle - clamp_spec(b.angle as int, -ang, ang)) as i32;
    let tp = pushed_up(t0, captured_slot(b.formation_index), b.pos.y - 16 * ONE).0;
    let done = pushed_up(t0, captured_slot(b.formation_index), b.pos.y - 16 * ONE).1;
    &&& if done {
        &&& ev1 == ev0.push(EventType::CaptureSequenceEnded)
        &&& t1 == change_troops(tp, o0.troops@, to_formation_fn())
        &&& forall|i: int| 0 <= i < MAX_TROOPS ==> (#[trigger] o1.troops@[i]).is_none()
        &&& o1.enemy_base == (EnemyBase {
            speed: 0,
            angle: normalized(a1 as int) as i32,
            vangle: 0,
            state: EnemyState::Formation,
            disappeared: b.disappeared || o0.life == 0,
            ..b
        })
    } else {
        &&& ev1 == ev0
        &&& t1 == tp
        &&& o1.troops == o0.troops
        &&& o1.enemy_base == (EnemyBase { angle: a1, ..b })
    }
    &&& o1.life == o0.life
    &&& o1.capturing_state == o0.capturing_state
    &&& o1.tractor_beam == o0.tractor_beam
}

/// A frame of a boss along its attack path.
pub open spec fn owl_traj_step(o0: Owl, accessor: &Accessor, formation: &Formation, t: Seq<Option<Enemy>>,
    ev0: Seq<EventType>, o1: Owl, ev1: Seq<EventType>) -> bool {
    let b = o0.enemy_base;
    let b1 = EnemyBase { attack_frame_count: (b.attack_frame_count + 1) as u32, ..b };
    let ev_shot = if fires_at(b.attack_frame_count + 1, accessor.stage_no as int) {
        ev0.push(EventType::EneShot(b.pos)) + troop_shots(t, o0.troops@)
    } else {
        ev0
    };
    let (bt, cont, ev_traj) = traj_step(b1, formation, ev_shot);
    if cont {
        o1 == Owl { enemy_base: bt, ..o0 } && ev1 == ev_traj
    } else if accessor.is_rush {
        &&& ev1 == ev_traj.push(EventType::PlaySe(CH_JINGLE, SoundEffect::AttackStart))
        &&& o1.enemy_base.state == EnemyState::Attack(AttackPhase::Traj)
        &&& o1.enemy_base.pos == bt.pos
        &&& o1.enemy_base.formation_index == b.formation_index
        &&& o1.enemy_base.disappeared == b.disappeared
        &&& o1.troops@ == without_destroyed(t, o0.troops@)
        &&& o1.life == o0.life
        &&& o1.capturing_state == o0.capturing_state
        &&& o1.tractor_beam == o0.tractor_beam
    } else {
        o1 == Owl { enemy_base: EnemyBase { state: EnemyState::MoveToFormation, ..bt }, ..o0 } && ev1 == ev_traj
    }
}

/// A frame of a boss's behaviour, before it moves along its heading, from the boss, the
/// table of enemies and the events before to those after, by its state: as a small enemy
/// on its entry path, to its slot (where it comes to rest and its escort goes back to
/// theirs), in an assault and in its slot; and by the step of its attack.
pub open spec fn owl_behaviour(o0: Owl, accessor: &Accessor, formation: &Formation, t0: Seq<Option<Enemy>>,
    ev0: Seq<EventType>, o1: Owl, t1: Seq<Option<Enemy>>, ev1: Seq<EventType>) -> bool {
    let b = o0.enemy_base;
    match b.state {
        EnemyState::Idle | EnemyState::Troop => o1 == o0 && t1 == t0 && ev1 == ev0,
        EnemyState::Appearance => {
            let bt = traj_step(b, formation, ev0).0;
            &&& t1 == t0
            &&& ev1 == traj_step(b, formation, ev0).2
            &&& o1 == (Owl { enemy_base: o1.enemy_base, ..o0 })
            &&& if traj_step(b, formation, ev0).1 {
                o1.enemy_base == bt
            } else if b.formation_index.1 >= Y_COUNT {
                &&& o1.enemy_base == (EnemyBase { target_pos: o1.enemy_base.target_pos, vangle: 0,
                    state: EnemyState::Assault(0), ..bt })
                &&& (o1.enemy_base.target_pos == accessor.player_pos
                    || accessor.dual_player_pos == Some(o1.enemy_base.target_pos))
            } else {
                o1.enemy_base == (EnemyBase { state: EnemyState::MoveToFormation, ..bt })
            }
        },
        EnemyState::MoveToFormation => {
            let bm = formation_step(b, formation).0;
            &&& ev1 == ev0
            &&& if formation_step(b, formation).1 {
                o1 == Owl { enemy_base: bm, ..o0 } && t1 == t0
            } else {
                &&& t1 == change_troops(t0, o0.troops@, to_formation_fn())
                &&& forall|i: int| 0 <= i < MAX_TROOPS ==> (#[trigger] o1.troops@[i]).is_none()
                &&& o1 == (Owl {
                    troops: o1.troops,
                    capturing_state: CapturingState::Idle,
                    enemy_base: EnemyBase {
                        speed: 0,
                        angle: normalized(bm.angle as int) as i32,
                        vangle: 0,
                        state: EnemyState::Formation,
                        disappeared: bm.disappeared || o0.life == 0,
                        ..bm
                    },
                    ..o0
                })
            }
        },
        EnemyState::Assault(phase) => {
            &&& t1 == t0 && ev1 == ev0
            &&& o1 == (Owl {
                enemy_base: EnemyBase { state: EnemyState::Assault(assault_step(b, phase).1), ..assault_step(b, phase).0 },
                ..o0
            })
        },
        EnemyState::Formation => t1 == t0 && ev1 == ev0 && o1 == (Owl { enemy_base: slot_followed(b, formation), ..o0 }),
        EnemyState::Attack(phase) => match phase {
            AttackPhase::Traj => t1 == t0 && owl_traj_step(o0, accessor, formation, t0, ev0, o1, ev1),
            AttackPhase::Capture => t1 == t0 && ev1 == ev0 && capture_dive_step(o0, o1),
            AttackPhase::CaptureBeam => t1 == t0 && capture_beam_step(o0, accessor, ev0, o1, ev1),
            AttackPhase::NoCaptureGoOut => t1 == t0 && capture_go_out_step(o0, accessor, formation, ev0, o1, ev1),
            AttackPhase::CaptureStart => t1 == t0 && ev1 == ev0 && capture_start_step(o0, accessor, o1),
            AttackPhase::CaptureCloseBeam => t1 == t0 && capture_close_step(o0, ev0, o1, ev1),
            AttackPhase::CaptureDoneWait => t1 == t0 && ev1 == ev0 && capture_wait_step(o0, o1),
            AttackPhase::CaptureDoneBack => t1 == t0 && ev1 == ev0 && capture_back_step(o0, formation, o1),
            AttackPhase::CaptureDonePushUp => capture_push_up_step(o0, t0, ev0, o1, t1, ev1),
            AttackPhase::BeeAttack => o1 == o0 && t1 == t0 && ev1 == ev0,
        },
    }
}

/// The second part of a boss's frame, from the boss and table after its behaviour: it moves
/// along its heading, its escort moves by as much (turning with it when it says so), its
/// beam runs, and a boss without life and without a live escort member is gone.
pub open spec fn owl_moved(o0: Owl, mid: Owl, tm: Seq<Option<Enemy>>, o1: Owl, t1: Seq<Option<Enemy>>) -> bool {
    let b2 = base_forwarded(mid.enemy_base);
    let add = Vector2D { x: (b2.pos.x - o0.enemy_base.pos.x) as i32, y: (b2.pos.y - o0.enemy_base.pos.y) as i32 };
    &&& t1 == change_troops(tm, mid.troops@, move_fn(add, if mid.copy_angle_to_troops { Some(b2.angle) } else { None }))
    &&& o1.enemy_base == (EnemyBase { disappeared: o1.enemy_base.disappeared, ..b2 })
    &&& o1.enemy_base.disappeared == (b2.disappeared || (mid.life == 0
        && !(exists|i: int| 0 <= i < MAX_TROOPS && live_troop(t1, #[trigger] mid.troops@[i]))))
    &&& (Owl { enemy_base: mid.enemy_base, tractor_beam: mid.tractor_beam, ..o1 }) == mid
    &&& o1.tractor_beam.is_some() == mid.tractor_beam.is_some()
    &&& (mid.tractor_beam matches Some(tb) ==> o1.tractor_beam.unwrap().pos == tb.pos)
}

/// A shot of power `power` hits the boss `o0`, which becomes `o1`: it loses life, and when none
/// is left it ends what it was doing with its beam, explodes, and gives its points.
pub open spec fn owl_damaged(o0: Owl, o1: Owl, power: u32, table: Seq<Option<Enemy>>, ev0: Seq<EventType>,
    ev1: Seq<EventType>, sp0: u32, sp1: u32, r: DamageResult) -> bool {
    &&& o0.life > power ==> {
        &&& r == (DamageResult { killed: false, point: 0 })
        &&& o1 == (Owl { life: (o0.life - power) as u32, ..o0 })
        &&& ev1 == ev0
        &&& sp1 == sp0
    }
    &&& o0.life <= power ==> {
        let cap_fi = captured_slot(o0.enemy_base.formation_index);
        let release = match o0.capturing_state {
            CapturingState::Idle => if exists|i: int| 0 <= i < MAX_TROOPS && #[trigger] o0.troops@[i] == Some(cap_fi) {
                seq![EventType::RecapturePlayer(cap_fi)]
            } else {
                seq![]
            },
            CapturingState::Attacking => seq![EventType::EndCaptureAttack],
            CapturingState::BeamTracting => seq![EventType::EscapeCapturing],
        };
        &&& r.killed == !(exists|i: int| 0 <= i < MAX_TROOPS && live_troop(table, #[trigger] o0.troops@[i]))
        &&& r.point == owl_point(o0.enemy_base.state == EnemyState::Formation,
            escort_count(o0.troops@, cap_fi))
        &&& o1 == (Owl { life: 0, capturing_state: CapturingState::Idle, ..o0 })
        &&& sp1 == OWL_DESTROY_SHOT_WAIT
        &&& ev1 =~= ev0 + release + seq![EventType::EnemyExplosion(
            o0.enemy_base.pos, o0.enemy_base.angle, EnemyType::Owl)]
    }
}

impl Owl {
    pub open spec fn wf(&self) -> bool {
        &&& self.enemy_base.enemy_type == EnemyType::Owl
        &&& self.life <= 2
        &&& 1 <= self.enemy_base.formation_index.0 <= 8
        &&& 1 <= self.enemy_base.formation_index.1 <= 4
        &&& forall|i: int| 0 <= i < MAX_TROOPS ==> (#[trigger] self.troops@[i] matches Some(fi) ==> index_ok(fi))
        &&& self.tractor_beam matches Some(b) ==> b.wf() && -0x10_0000 <= b.pos.x <= 0x10_0000 && -0x10_0000 <= b.pos.y <= 0x10_0000
        &&& self.enemy_base.state != EnemyState::Attack(AttackPhase::BeeAttack)
        &&& self.enemy_base.state == EnemyState::Attack(AttackPhase::CaptureStart) ==> self.tractor_beam.is_some()
    }

    pub fn new(pos: &Vec2I, angle: i32, speed: i32, fi: &FormationIndex) -> (o: Self)
        ensures
            1 <= fi.0 <= 8 && 1 <= fi.1 <= 4 ==> o.wf(),
            o.enemy_base == EnemyBase::new_spec(EnemyType::Owl, *pos, angle, speed, *fi),
            o.life == 2,
            o.tractor_beam.is_none(),
            o.capturing_state == CapturingState::Idle,
            forall|i: int| 0 <= i < MAX_TROOPS ==> (#[trigger] o.troops@[i]).is_none(),
            o.copy_angle_to_troops,
    {
        Owl {
            enemy_base: EnemyBase::new(EnemyType::Owl, pos, angle, speed, fi),
            life: 2,
            tractor_beam: None,
            capturing_state: CapturingState::Idle,
            troops: [None, None, None],
            copy_angle_to_troops: true,
        }
    }

    /// The points the boss is worth now.
    pub fn calc_point(&self) -> (p: u32)
        requires
            self.wf(),
        ensures
            p == owl_point(self.enemy_base.state == EnemyState::Formation,
                escort_count(self.troops@, captured_slot(self.enemy_base.formation_index))),
    {
        if self.enemy_base.state == EnemyState::Formation {
            150
        } else {
            let cap_fi = FormationIndex(self.enemy_base.formation_index.0, self.enemy_base.formation_index.1 - 1);
            let mut count: u32 = 0;
            let mut i: usize = 0;
            while i < MAX_TROOPS
                invariant
                    i <= MAX_TROOPS,
                    cap_fi == captured_slot(self.enemy_base.formation_index),
                    count == escort_count(self.troops@.take(i as int), cap_fi),
                    count <= i,
                decreases MAX_TROOPS - i,
            {
                assert(self.troops@.take(i as int + 1).drop_last() == self.troops@.take(i as int));
                if let Some(fi) = self.troops[i] {
                    if fi != cap_fi {
                        count += 1;
                    }
                }
                i += 1;
            }
            assert(self.troops@.take(3) == self.troops@);
            if count == 0 {
                400
            } else if count == 1 {
                800
            } else if count == 2 {
                1600
            } else {
                3200
            }
        }
    }

    /// Whether any troop member other than a captured fighter is still alive.
    pub fn live_troops(&self, table: &Vec<Option<Enemy>>) -> (b: bool)
        requires
            self.wf(),
            table@.len() == MAX_ENEMY_COUNT,
        ensures
            b == exists|i: int| 0 <= i < MAX_TROOPS && live_troop(table@, #[trigger] self.troops@[i]),
    {
        let mut i: usize = 0;
        while i < MAX_TROOPS
            invariant
                i <= MAX_TROOPS,
                self.wf(),
                table@.len() == MAX_ENEMY_COUNT,
                forall|k: int| 0 <= k < i ==> !live_troop(table@, #[trigger] self.troops@[k]),
            decreases MAX_TROOPS - i,
        {
            if let Some(fi) = self.troops[i] {
                assert(index_ok(fi));
                if let Some(enemy) = crate::enemy::get_enemy_at(table, &fi) {
                    if !enemy.is_captured_fighter() {
                        assert(live_troop(table@, self.troops@[i as int]));
                        return true;
                    }
                }
            }
            i += 1;
        }
        false
    }

    /// Puts a member into the first free place of the troop; tells whether there was one.
    pub fn add_troop(&mut self, formation_index: FormationIndex) -> (added: bool)
        requires
            old(self).wf(),
            index_ok(formation_index),
        ensures
            final(self).wf(),
            added == exists|i: int| 0 <= i < MAX_TROOPS && (#[trigger] old(self).troops@[i]).is_none(),
            added ==> exists|i: int| 0 <= i < MAX_TROOPS && (#[trigger] old(self).troops@[i]).is_none()
                && final(self).troops@ == old(self).troops@.update(i, Some(formation_index))
                && forall|k: int| 0 <= k < i ==> (#[trigger] old(self).troops@[k]).is_some(),
            !added ==> final(self).troops == old(self).troops,
            (Owl { troops: old(self).troops, ..*final(self) }) == *old(self),
    {
        let mut i: usize = 0;
        while i < MAX_TROOPS
            invariant
                i <= MAX_TROOPS,
                *self == *old(self),
                old(self).wf(),
                index_ok(formation_index),
                forall|k: int| 0 <= k < i ==> (#[trigger] old(self).troops@[k]).is_some(),
            decreases MAX_TROOPS - i,
        {
            if self.troops[i].is_none() {
                self.troops[i] = Some(formation_index);
                assert(self.troops@ == old(self).troops@.update(i as int, Some(formation_index)));
                assert forall|k: int| 0 <= k < MAX_TROOPS implies (#[trigger] self.troops@[k] matches Some(fi) ==> index_ok(fi)) by {
                    if k != i as int {
                        assert(self.troops@[k] == old(self).troops@[k]);
                    }
                }
                return true;
            }
            i += 1;
        }
        false
    }

    pub fn get_collbox(&self) -> (c: Option<CollBox>)
        requires
            self.enemy_base.limits_ok(),
        ensures
            c == if self.life > 0 { Some(self.enemy_base.collbox_spec()) } else { None },
    {
        if self.life > 0 {
            Some(self.enemy_base.get_collbox())
        } else {
            None
        }
    }

    /// Returns to the formation; a boss whose life is gone disappears instead.
    pub fn set_to_formation(&mut self)
        requires
            old(self).wf(),
        ensures
            final(self).wf(),
            final(self).enemy_base == (EnemyBase {
                speed: 0,
                angle: crate::math::normalized(old(self).enemy_base.angle as int) as i32,
                vangle: 0,
                state: EnemyState::Formation,
                disappeared: old(self).enemy_base.disappeared || old(self).life == 0,
                ..old(self).enemy_base
            }),
            (Owl { enemy_base: old(self).enemy_base, ..*final(self) }) == *old(self),
    {
        self.enemy_base.set_to_formation();
        self.enemy_base.set_state(EnemyState::Formation);
        if self.life == 0 {
            self.enemy_base.disappeared = true;
        }
    }

    fn rush_attack(&mut self)
        requires
            old(self).wf(),
        ensures
            final(self).wf(),
            final(self).enemy_base.state == EnemyState::Attack(AttackPhase::Traj),
            final(self).enemy_base.pos == old(self).enemy_base.pos,
            final(self).enemy_base.angle == old(self).enemy_base.angle,
            final(self).enemy_base.speed == old(self).enemy_base.speed,
            final(self).enemy_base.vangle == old(self).enemy_base.vangle,
            final(self).enemy_base.formation_index == old(self).enemy_base.formation_index,
            final(self).enemy_base.disappeared == old(self).enemy_base.disappeared,
            final(self).life == old(self).life,
            final(self).troops == old(self).troops,
            final(self).tractor_beam == old(self).tractor_beam,
            final(self).capturing_state == old(self).capturing_state,
            final(self).copy_angle_to_troops == old(self).copy_angle_to_troops,
            final(self).enemy_base.enemy_type == old(self).enemy_base.enemy_type,
            final(self).enemy_base.traj matches Some(t) && t.pos == old(self).enemy_base.pos && t.index == 0,
    {
        self.enemy_base.rush_attack(owl_rush_attack_table());
        self.enemy_base.set_state(EnemyState::Attack(AttackPhase::Traj));
    }

    /// Picks the troop for an attack and makes its members leave the formation with the boss.
    fn choose_troops(&mut self, table: &mut Vec<Option<Enemy>>)
        requires
            old(self).wf(),
            table_wf(old(table)@),
            forall|i: int| 0 <= i < MAX_TROOPS ==> (#[trigger] old(self).troops@[i]).is_none(),
        ensures
            final(self).wf(),
            final(self).troops@ == chosen_troops(old(table)@, old(self).enemy_base.formation_index),
            (Owl { troops: old(self).troops, ..*final(self) }) == *old(self),
            final(table)@ == change_troops(old(table)@, final(self).troops@, to_troop_fn()),
            table_wf(final(table)@),
            same_slots(old(table)@, final(table)@),
    {
        let base = self.enemy_base.formation_index;
        let c0 = FormationIndex(base.0 - 1, base.1 + 1);
        let c1 = FormationIndex(base.0 + 1, base.1 + 1);
        let c2 = FormationIndex(base.0, base.1 - 1);
        let ghost cands = troop_candidates(base);
        assert(cands[0] == c0 && cands[1] == c1 && cands[2] == c2);
        let ghost t0 = table@;
        let j0 = self.joins_at(table, &c0);
        let j1 = self.joins_at(table, &c1);
        let j2 = self.joins_at(table, &c2);
        let mut troops: [Option<FormationIndex>; MAX_TROOPS] = [None, None, None];
        let mut n: usize = 0;
        if j0 {
            troops[n] = Some(c0);
            n += 1;
        }
        if j1 {
            troops[n] = Some(c1);
            n += 1;
        }
        if j2 {
            troops[n] = Some(c2);
            n += 1;
        }
        self.troops = troops;
        assert(self.troops@ =~= chosen_troops(t0, base));
        let mut i: usize = 0;
        while i < MAX_TROOPS
            invariant
                i <= MAX_TROOPS,
                self.wf(),
                self.troops@ == chosen_troops(t0, base),
                table_wf(table@),
                table@ == change_troops(t0, self.troops@.take(i as int), to_troop_fn()),
                same_slots(t0, table@),
            decreases MAX_TROOPS - i,
        {
            assert(self.troops@.take(i as int + 1).drop_last() == self.troops@.take(i as int));
            if let Some(fi) = self.troops[i] {
                enlist_enemy_at(table, &fi);
            }
            i += 1;
        }
        assert(self.troops@.take(3) == self.troops@);
    }

    /// Whether the enemy in a slot would join the troop.
    fn joins_at(&self, table: &Vec<Option<Enemy>>, c: &FormationIndex) -> (b: bool)
        requires
            table_wf(table@),
            index_ok(*c),
        ensures
            b == joins(table@, *c),
    {
        match crate::enemy::get_enemy_at(table, c) {
            Some(e) => {
                if let Enemy::Zako(_) = e { e.is_formation() } else { false }
            },
            None => false,
        }
    }

    /// Moves the troop members along with the boss.
    fn update_troops(&self, add: &Vec2I, angle_opt: Option<i32>, table: &mut Vec<Option<Enemy>>)
        requires
            self.wf(),
            table_wf(old(table)@),
            -0x1000_0000 <= add.x <= 0x1000_0000,
            -0x1000_0000 <= add.y <= 0x1000_0000,
        ensures
            final(table)@ == change_troops(old(table)@, self.troops@, move_fn(*add, angle_opt)),
            table_wf(final(table)@),
            same_slots(old(table)@, final(table)@),
    {
        let mut i: usize = 0;
        while i < MAX_TROOPS
            invariant
                i <= MAX_TROOPS,
                self.wf(),
                -0x1000_0000 <= add.x <= 0x1000_0000,
                -0x1000_0000 <= add.y <= 0x1000_0000,
                table_wf(table@),
                table@ == change_troops(old(table)@, self.troops@.take(i as int), move_fn(*add, angle_opt)),
                same_slots(old(table)@, table@),
            decreases MAX_TROOPS - i,
        {
            assert(self.troops@.take(i as int + 1).drop_last() == self.troops@.take(i as int));
            if let Some(fi) = self.troops[i] {
                move_enemy_at(table, &fi, add, angle_opt);
            }
            i += 1;
        }
        assert(self.troops@.take(3) == self.troops@);
    }

    /// Sends the troop members back to their slots and empties the troop.
    fn release_troops(&mut self, table: &mut Vec<Option<Enemy>>)
        requires
            old(self).wf(),
            table_wf(old(table)@),
        ensures
            final(self).wf(),
            forall|i: int| 0 <= i < MAX_TROOPS ==> (#[trigger] final(self).troops@[i]).is_none(),
            (Owl { troops: old(self).troops, ..*final(self) }) == *old(self),
            final(table)@ == change_troops(old(table)@, old(self).troops@, to_formation_fn()),
            table_wf(final(table)@),
            same_slots(old(table)@, final(table)@),
    {
        let mut i: usize = 0;
        while i < MAX_TROOPS
            invariant
                i <= MAX_TROOPS,
                table_wf(table@),
                old(self).wf(),
                forall|k: int| i <= k < MAX_TROOPS ==> #[trigger] self.troops@[k] == old(self).troops@[k],
                forall|k: int| 0 <= k < i ==> (#[trigger] self.troops@[k]).is_none(),
                (Owl { troops: old(self).troops, ..*self }) == *old(self),
                table@ == change_troops(old(table)@, old(self).troops@.take(i as int), to_formation_fn()),
                same_slots(old(table)@, table@),
            decreases MAX_TROOPS - i,
        {
            assert(old(self).troops@.take(i as int + 1).drop_last() == old(self).troops@.take(i as int));
            if let Some(fi) = self.troops[i] {
                assert(index_ok(fi));
                form_enemy_at(table, &fi);
            }
            self.troops[i] = None;
            i += 1;
        }
        assert(old(self).troops@.take(3) == old(self).troops@);
    }

    /// Takes the members whose slots have emptied out of the troop.
    fn remove_destroyed_troops(&mut self, table: &Vec<Option<Enemy>>)
        requires
            old(self).wf(),
            table_wf(table@),
        ensures
            final(self).wf(),
            final(self).troops@ == without_destroyed(table@, old(self).troops@),
            (Owl { troops: old(self).troops, ..*final(self) }) == *old(self),
    {
        let mut i: usize = 0;
        while i < MAX_TROOPS
            invariant
                i <= MAX_TROOPS,
                table_wf(table@),
                old(self).wf(),
                forall|k: int| i <= k < MAX_TROOPS ==> #[trigger] self.troops@[k] == old(self).troops@[k],
                forall|k: int| 0 <= k < i ==> #[trigger] self.troops@[k] == without_destroyed(table@, old(self).troops@)[k],
                (Owl { troops: old(self).troops, ..*self }) == *old(self),
            decreases MAX_TROOPS - i,
        {
            if let Some(fi) = self.troops[i] {
                assert(index_ok(fi));
                if crate::enemy::get_enemy_at(table, &fi).is_none() {
                    self.troops[i] = None;
                }
            }
            i += 1;
        }
        assert(self.troops@ =~= without_destroyed(table@, old(self).troops@));
    }

    /// The dive toward the player's ship: steers at it until level with the target height,
    /// then stops there, faces down and opens the tractor beam.
    fn update_attack_capture(&mut self)
        requires
            old(self).wf(),
            old(self).enemy_base.limits_ok(),
            old(self).enemy_base.state == EnemyState::Attack(AttackPhase::Capture),
        ensures
            final(self).wf(),
            final(self).enemy_base.after_move_ok(),
            capture_dive_step(*old(self), *final(self)),
    {
        let dlimit: i32 = 4 * ONE;
        let dpos = self.enemy_base.target_pos.minus(&self.enemy_base.pos);
        let target_angle = atan2_lut(-dpos.y, dpos.x);
        let ang_limit: i32 = ANGLE * ONE / 2 - ANGLE * ONE * 30 / 360;
        let target_angle = if target_angle >= 0 {
            if target_angle > ang_limit { target_angle } else { ang_limit }
        } else {
            if target_angle < -ang_limit { target_angle } else { -ang_limit }
        };
        let mut d = diff_angle(target_angle, self.enemy_base.angle);
        if self.enemy_base.vangle > 0 && d < 0 {
            d += ANGLE * ONE;
        } else if self.enemy_base.vangle < 0 && d > 0 {
            d -= ANGLE * ONE;
        }
        if d >= -dlimit && d < dlimit {
            self.enemy_base.angle = target_angle;
            self.enemy_base.vangle = 0;
        }

        if self.enemy_base.pos.y >= self.enemy_base.target_pos.y {
            self.enemy_base.pos.y = self.enemy_base.target_pos.y;
            self.enemy_base.speed = 0;
            self.enemy_base.angle = ANGLE / 2 * ONE;
            self.enemy_base.vangle = 0;

            self.tractor_beam = Some(TractorBeam::new(&self.enemy_base.pos.plus(&Vector2D::new(0, 8 * ONE))));

            self.enemy_base.set_state(EnemyState::Attack(AttackPhase::CaptureBeam));
            self.enemy_base.count = 0;
        }
    }

    /// The open beam: once it closes the boss leaves downward; if it reaches a ship that can
    /// be captured, the capture starts.
    fn update_attack_capture_beam(&mut self, accessor: &Accessor, events: &mut Vec<EventType>)
        requires
            old(self).wf(),
            old(self).enemy_base.limits_ok(),
            accessor.wf(),
            old(self).enemy_base.state == EnemyState::Attack(AttackPhase::CaptureBeam),
        ensures
            final(self).wf(),
            final(self).enemy_base.after_move_ok(),
            capture_beam_step(*old(self), accessor, old(events)@, *final(self), final(events)@),
    {
        proof { self.enemy_base.lemma_limits_after_move(); }
        if let Some(tractor_beam) = self.tractor_beam {
            let mut tb = tractor_beam;
            if tb.closed() {
                self.tractor_beam = None;
                self.enemy_base.speed = 5 * ONE / 2;
                self.enemy_base.set_state(EnemyState::Attack(AttackPhase::NoCaptureGoOut));
            } else if accessor.can_player_capture && tb.can_capture(&accessor.player_pos) {
                events.push(EventType::CapturePlayer(self.enemy_base.pos.plus(&Vector2D::new(0, 16 * ONE))));
                tb.start_capture();
                self.tractor_beam = Some(tb);
                self.capturing_state = CapturingState::BeamTracting;
                self.enemy_base.set_state(EnemyState::Attack(AttackPhase::CaptureStart));
                self.enemy_base.count = 0;
            }
        }
    }

    /// Leaving downward after a missed capture: once off the bottom, the boss reappears above
    /// its column and either attacks again in rush mode or returns to its slot.
    fn update_attack_capture_go_out(&mut self, accessor: &Accessor, formation: &Formation, events: &mut Vec<EventType>)
        requires
            old(self).wf(),
            old(self).enemy_base.limits_ok(),
            formation.wf(),
            old(self).enemy_base.state == EnemyState::Attack(AttackPhase::NoCaptureGoOut),
        ensures
            final(self).wf(),
            final(self).enemy_base.after_move_ok(),
            capture_go_out_step(*old(self), accessor, formation, old(events)@, *final(self), final(events)@),
    {
        proof {
            self.enemy_base.lemma_limits_after_move();
            formation.lemma_wf_bounds();
        }
        if self.enemy_base.pos.y >= (HEIGHT + 8) * ONE {
            let target_pos = formation.pos(&self.enemy_base.formation_index);
            let offset = Vector2D::new(target_pos.x - self.enemy_base.pos.x, (-32 - (HEIGHT + 8)) * ONE);
            self.enemy_base.warp(offset);

            if accessor.is_rush {
                self.rush_attack();
                events.push(EventType::PlaySe(CH_JINGLE, SoundEffect::AttackStart));
            } else {
                self.enemy_base.set_state(EnemyState::MoveToFormation);
                self.capturing_state = CapturingState::Idle;
                events.push(EventType::EndCaptureAttack);
            }
        }
    }

    /// Holding the ship in the beam until it has been pulled in, then closing the beam.
    fn update_attack_capture_start(&mut self, accessor: &Accessor)
        requires
            old(self).wf(),
            old(self).enemy_base.limits_ok(),
            old(self).enemy_base.state == EnemyState::Attack(AttackPhase::CaptureStart),
        ensures
            final(self).wf(),
            final(self).enemy_base.after_move_ok(),
            capture_start_step(*old(self), accessor, *final(self)),
    {
        proof { self.enemy_base.lemma_limits_after_move(); }
        if accessor.player_capture_completed {
            if let Some(tractor_beam) = self.tractor_beam {
                let mut tb = tractor_beam;
                tb.close_capture();
                self.tractor_beam = Some(tb);
            }
            self.enemy_base.set_state(EnemyState::Attack(AttackPhase::CaptureCloseBeam));
            self.enemy_base.count = 0;
        }
    }

    /// Once the beam has closed, the captured ship becomes a fighter of the boss's troop.
    fn update_attack_capture_close_beam(&mut self, events: &mut Vec<EventType>)
        requires
            old(self).wf(),
            old(self).enemy_base.limits_ok(),
            old(self).enemy_base.state == EnemyState::Attack(AttackPhase::CaptureCloseBeam),
        ensures
            final(self).wf(),
            final(self).enemy_base.after_move_ok(),
            capture_close_step(*old(self), old(events)@, *final(self), final(events)@),
    {
        proof { self.enemy_base.lemma_limits_after_move(); }
        if let Some(tractor_beam) = self.tractor_beam {
            if tractor_beam.closed() {
                let fi = FormationIndex(self.enemy_base.formation_index.0, self.enemy_base.formation_index.1 - 1);
                events.push(EventType::SpawnCapturedFighter(self.enemy_base.pos.plus(&Vector2D::new(0, 16 * ONE)), fi));

                let added = self.add_troop(fi);
                proof {
                    if added {
                        let i = choose|i: int| 0 <= i < MAX_TROOPS && (#[trigger] old(self).troops@[i]).is_none()
                            && self.troops@ == old(self).troops@.update(i, Some(fi))
                            && forall|k: int| 0 <= k < i ==> (#[trigger] old(self).troops@[k]).is_some();
                        assert(self.troops@[i] == Some(fi));
                    }
                }

                self.tractor_beam = None;
                self.capturing_state = CapturingState::Idle;
                events.push(EventType::CapturePlayerCompleted);

                self.copy_angle_to_troops = false;
                self.enemy_base.set_state(EnemyState::Attack(AttackPhase::CaptureDoneWait));
                self.enemy_base.count = 0;
            }
        }
    }

    /// Waits two seconds with the captured fighter, then heads back.
    fn update_attack_capture_done_wait(&mut self)
        requires
            old(self).wf(),
            old(self).enemy_base.limits_ok(),
            old(self).enemy_base.state == EnemyState::Attack(AttackPhase::CaptureDoneWait),
        ensures
            final(self).wf(),
            final(self).enemy_base.after_move_ok(),
            capture_wait_step(*old(self), *final(self)),
    {
        proof { self.enemy_base.lemma_limits_after_move(); }
        self.enemy_base.count += 1;
        if self.enemy_base.count >= 120 {
            self.enemy_base.speed = 5 * ONE / 2;
            self.enemy_base.set_state(EnemyState::Attack(AttackPhase::CaptureDoneBack));
        }
    }

    /// Flies back to the slot; once there, stops and starts pushing the fighter up.
    fn update_attack_capture_back(&mut self, formation: &Formation)
        requires
            old(self).wf(),
            old(self).enemy_base.limits_ok(),
            formation.wf(),
            old(self).enemy_base.state == EnemyState::Attack(AttackPhase::CaptureDoneBack),
        ensures
            final(self).wf(),
            final(self).enemy_base.after_move_ok(),
            capture_back_step(*old(self), formation, *final(self)),
    {
        proof {
            self.enemy_base.lemma_limits_after_move();
            formation.lemma_wf_bounds();
        }
        if !self.enemy_base.move_to_formation(formation) {
            self.enemy_base.speed = 0;
            self.enemy_base.angle = normalize_angle(self.enemy_base.angle);
            self.enemy_base.set_state(EnemyState::Attack(AttackPhase::CaptureDonePushUp));
        }
    }

    /// Pushes the captured fighter up into its slot above the boss; then the capture is over
    /// and the boss and its troop return to the formation.
    fn update_attack_capture_push_up(&mut self, table: &mut Vec<Option<Enemy>>, events: &mut Vec<EventType>)
        requires
            old(self).wf(),
            old(self).enemy_base.limits_ok(),
            table_wf(old(table)@),
            old(self).enemy_base.state == EnemyState::Attack(AttackPhase::CaptureDonePushUp),
        ensures
            final(self).wf(),
            final(self).enemy_base.after_move_ok(),
            table_wf(final(table)@),
            same_slots(old(table)@, final(table)@),
            capture_push_up_step(*old(self), old(table)@, old(events)@, *final(self), final(table)@, final(events)@),
    {
        proof { self.enemy_base.lemma_limits_after_move(); }
        let ang = ANGLE * ONE / 128;
        self.enemy_base.angle = self.enemy_base.angle - clamp(self.enemy_base.angle, -ang, ang);

        let fi = FormationIndex(self.enemy_base.formation_index.0, self.enemy_base.formation_index.1 - 1);
        let idx = calc_array_index(&fi);
        let mut done = false;
        if let Some(captured_fighter) = table[idx] {
            let mut cf = captured_fighter;
            let mut pos = cf.pos();
            pos.y = pos.y - ONE;
            let topy = self.enemy_base.pos.y - 16 * ONE;
            if pos.y <= topy {
                pos.y = topy;
                done = true;
            }
            cf.set_pos(&pos);
            if cf.check_limits() {
                table.set(idx, Some(cf));
            }
        }
        if done {
            events.push(EventType::CaptureSequenceEnded);
            self.release_troops(table);
            self.set_to_formation();
        }
    }

    /// Counts a frame of the attack; when the boss fires, its troop members fire too.
    fn update_attack(&mut self, accessor: &Accessor, table: &Vec<Option<Enemy>>, events: &mut Vec<EventType>)
        requires
            old(self).wf(),
            old(self).enemy_base.attack_frame_count < u32::MAX,
            table_wf(table@),
        ensures
            final(self).wf(),
            ({
                let fired = fires_at(old(self).enemy_base.attack_frame_count + 1, accessor.stage_no as int);
                &&& final(self).enemy_base == (EnemyBase {
                    attack_frame_count: (old(self).enemy_base.attack_frame_count + 1) as u32,
                    ..old(self).enemy_base
                })
                &&& final(events)@ == if fired {
                    old(events)@.push(EventType::EneShot(old(self).enemy_base.pos)) + troop_shots(table@, old(self).troops@)
                } else {
                    old(events)@
                }
            }),
            (Owl { enemy_base: old(self).enemy_base, ..*final(self) }) == *old(self),
    {
        if self.enemy_base.update_attack(accessor, events) {
            let ghost e0 = events@;
            let mut i: usize = 0;
            while i < MAX_TROOPS
                invariant
                    i <= MAX_TROOPS,
                    self.wf(),
                    table_wf(table@),
                    events@ == e0 + troop_shots(table@, self.troops@.take(i as int)),
                decreases MAX_TROOPS - i,
            {
                assert(self.troops@.take(i as int + 1).drop_last() == self.troops@.take(i as int));
                if let Some(fi) = self.troops[i] {
                    if let Some(enemy) = crate::enemy::get_enemy_at(table, &fi) {
                        events.push(EventType::EneShot(enemy.pos()));
                        assert(events@ == e0 + troop_shots(table@, self.troops@.take(i as int + 1)));
                    }
                }
                i += 1;
            }
            assert(self.troops@.take(3) == self.troops@);
        } else {
            assert(events@ == old(events)@);
        }
    }

    /// A flight along the attack path: when it ends, the boss attacks again in rush mode
    /// (with the troop members still alive), or returns to its slot.
    fn update_attack_traj(&mut self, accessor: &Accessor, formation: &Formation, table: &Vec<Option<Enemy>>,
        events: &mut Vec<EventType>)
        requires
            old(self).wf(),
            old(self).enemy_base.frame_ok(),
            formation.wf(),
            table_wf(table@),
            old(self).enemy_base.state == EnemyState::Attack(AttackPhase::Traj),
        ensures
            final(self).wf(),
            final(self).enemy_base.after_move_ok(),
            owl_traj_step(*old(self), accessor, formation, table@, old(events)@, *final(self), final(events)@),
    {
        self.update_attack(accessor, table, events);
        proof { assert(self.enemy_base.limits_ok()); }
        if !self.enemy_base.update_trajectory(formation, events) {
            if accessor.is_rush {
                self.remove_destroyed_troops(table);
                self.rush_attack();
                events.push(EventType::PlaySe(CH_JINGLE, SoundEffect::AttackStart));
            } else {
                self.enemy_base.set_state(EnemyState::MoveToFormation);
            }
        }
    }

    /// A hit on the boss: the first takes a life; the second destroys it, releases a
    /// capture in progress, holds the enemies' fire for a while, and scores by the troop.
    /// A boss whose troop is still alive stays on as a ghost until the troop is gone.
    pub fn set_damage(&mut self, power: u32, table: &Vec<Option<Enemy>>, events: &mut Vec<EventType>,
        shot_pause: &mut u32) -> (r: DamageResult)
        requires
            old(self).wf(),
            table_wf(table@),
        ensures
            final(self).wf(),
            owl_damaged(*old(self), *final(self), power, table@, old(events)@, final(events)@,
                *old(shot_pause), *final(shot_pause), r),
    {
        if self.life > power {
            self.life = self.life - power;
            DamageResult { killed: false, point: 0 }
        } else {
            let mut killed = true;
            self.life = 0;
            if self.live_troops(table) {
                killed = false;
            }
            let point = self.calc_point();

            let ghost e0 = events@;
            match self.capturing_state {
                CapturingState::Idle => {
                    let fi = FormationIndex(self.enemy_base.formation_index.0, self.enemy_base.formation_index.1 - 1);
                    let mut found = false;
                    let mut i: usize = 0;
                    while i < MAX_TROOPS
                        invariant
                            i <= MAX_TROOPS,
                            fi == captured_slot(self.enemy_base.formation_index),
                            found == exists|k: int| 0 <= k < i && #[trigger] self.troops@[k] == Some(fi),
                        decreases MAX_TROOPS - i,
                    {
                        if self.troops[i] == Some(fi) {
                            found = true;
                        }
                        proof {
                            if self.troops@[i as int] == Some(fi) {
                                assert(exists|k: int| 0 <= k < i + 1 && #[trigger] self.troops@[k] == Some(fi));
                            }
                            if found && self.troops@[i as int] != Some(fi) {
                                let k = choose|k: int| 0 <= k < i && #[trigger] self.troops@[k] == Some(fi);
                                assert(0 <= k < i + 1 && self.troops@[k] == Some(fi));
                            }
                        }
                        i += 1;
                    }
                    if found {
                        events.push(EventType::RecapturePlayer(fi));
                    }
                },
                CapturingState::Attacking => {
                    events.push(EventType::EndCaptureAttack);
                },
                CapturingState::BeamTracting => {
                    events.push(EventType::EscapeCapturing);
                },
            }
            self.capturing_state = CapturingState::Idle;

            *shot_pause = OWL_DESTROY_SHOT_WAIT;

            events.push(EventType::EnemyExplosion(self.enemy_base.pos, self.enemy_base.angle, EnemyType::Owl));
            DamageResult { killed, point }
        }
    }

    /// Runs the behaviour of the current state for one frame.
    fn dispatch_update(&mut self, accessor: &Accessor, formation: &Formation, table: &mut Vec<Option<Enemy>>,
        events: &mut Vec<EventType>)
        requires
            old(self).wf(),
            old(self).enemy_base.frame_ok(),
            accessor.wf(),
            formation.wf(),
            table_wf(old(table)@),
        ensures
            final(self).wf(),
            final(self).enemy_base.after_move_ok(),
            table_wf(final(table)@),
            final(self).enemy_base.formation_index == old(self).enemy_base.formation_index,
            final(self).life == old(self).life,
            old(self).enemy_base.disappeared ==> final(self).enemy_base.disappeared,
            same_slots(old(table)@, final(table)@),
            owl_behaviour(*old(self), accessor, formation, old(table)@, old(events)@, *final(self), final(table)@,
                final(events)@),
    {
        proof {
            self.enemy_base.lemma_limits_after_move();
            formation.lemma_wf_bounds();
        }
        match self.enemy_base.state {
            EnemyState::Idle | EnemyState::Troop => {},
            EnemyState::Appearance => {
                if !self.enemy_base.update_trajectory(formation, events) {
                    if self.enemy_base.formation_index.1 as usize >= Y_COUNT {
                        self.enemy_base.set_assault(accessor);
                        self.enemy_base.set_state(EnemyState::Assault(0));
                    } else {
                        self.enemy_base.set_state(EnemyState::MoveToFormation);
                    }
                }
            },
            EnemyState::MoveToFormation => {
                if !self.enemy_base.move_to_formation(formation) {
                    self.capturing_state = CapturingState::Idle;
                    self.release_troops(table);
                    self.set_to_formation();
                }
            },
            EnemyState::Assault(phase) => {
                let phase = self.enemy_base.update_assault(phase);
                self.enemy_base.set_state(EnemyState::Assault(phase));
            },
            EnemyState::Formation => {
                self.enemy_base.update_formation(formation);
            },
            EnemyState::Attack(phase) => {
                match phase {
                    AttackPhase::Traj => self.update_attack_traj(accessor, formation, table, events),
                    AttackPhase::Capture => self.update_attack_capture(),
                    AttackPhase::CaptureBeam => self.update_attack_capture_beam(accessor, events),
                    AttackPhase::NoCaptureGoOut => self.update_attack_capture_go_out(accessor, formation, events),
                    AttackPhase::CaptureStart => self.update_attack_capture_start(accessor),
                    AttackPhase::CaptureCloseBeam => self.update_attack_capture_close_beam(events),
                    AttackPhase::CaptureDoneWait => self.update_attack_capture_done_wait(),
                    AttackPhase::CaptureDoneBack => self.update_attack_capture_back(formation),
                    AttackPhase::CaptureDonePushUp => self.update_attack_capture_push_up(table, events),
                    AttackPhase::BeeAttack => {},
                }
            },
        }
    }

    /// Runs one frame: the state's behaviour, the move, the troop following the boss and the
    /// beam. A destroyed boss whose troop is gone disappears. Tells whether the boss stays.
    pub fn update(&mut self, accessor: &Accessor, formation: &Formation, table: &mut Vec<Option<Enemy>>,
        events: &mut Vec<EventType>) -> (alive: bool)
        requires
            old(self).wf(),
            old(self).enemy_base.frame_ok(),
            accessor.wf(),
            formation.wf(),
            table_wf(old(table)@),
        ensures
            final(self).wf(),
            table_wf(final(table)@),
            alive == !final(self).enemy_base.disappeared,
            final(self).enemy_base.formation_index == old(self).enemy_base.formation_index,
            final(self).life == old(self).life,
            old(self).enemy_base.disappeared ==> final(self).enemy_base.disappeared,
            same_slots(old(table)@, final(table)@),
            final(self).life == 0 && !(exists|i: int| 0 <= i < MAX_TROOPS && live_troop(final(table)@, #[trigger] final(self).troops@[i]))
                ==> final(self).enemy_base.disappeared,
            exists|mid: Owl, tm: Seq<Option<Enemy>>| {
                &&& #[trigger] owl_behaviour(*old(self), accessor, formation, old(table)@, old(events)@, mid, tm, final(events)@)
                &&& owl_moved(*old(self), mid, tm, *final(self), final(table)@)
            },
    {
        let prev_pos = self.enemy_base.pos;

        self.dispatch_update(accessor, formation, table, events);
        let ghost mid = *self;
        let ghost tm = table@;
        let ghost d = self.enemy_base.disappeared;
        self.enemy_base.forward();

        let angle_opt = if self.copy_angle_to_troops { Some(self.enemy_base.angle) } else { None };
        let add = self.enemy_base.pos.minus(&prev_pos);
        self.update_troops(&add, angle_opt, table);

        if let Some(tractor_beam) = self.tractor_beam {
            let mut tb = tractor_beam;
            if tb.color_count + 1 < 0x1000_0000 {
                tb.update();
            }
            self.tractor_beam = Some(tb);
        }

        if self.life == 0 && !self.enemy_base.disappeared && !self.live_troops(table) {
            self.enemy_base.disappeared = true;
        }
        assert(owl_moved(*old(self), mid, tm, *self, table@));
        !self.enemy_base.disappeared
    }

    /// Starts an attack: a dive with the troop along the boss's path, or, for a capture
    /// attack, a dive alone toward the player's ship to open the tractor beam.
    pub fn set_attack(&mut self, capture_attack: bool, accessor: &Accessor, table: &mut Vec<Option<Enemy>>,
        events: &mut Vec<EventType>)
        requires
            old(self).wf(),
            table_wf(old(table)@),
        ensures
            final(self).wf(),
            table_wf(final(table)@),
            final(self).enemy_base.count == 0,
            final(self).enemy_base.attack_frame_count == 0,
            final(self).copy_angle_to_troops,
            final(self).enemy_base.formation_index == old(self).enemy_base.formation_index,
            final(self).enemy_base.pos == old(self).enemy_base.pos,
            final(self).life == old(self).life,
            final(self).tractor_beam == old(self).tractor_beam,
            final(events)@ == old(events)@.push(EventType::PlaySe(CH_JINGLE, SoundEffect::AttackStart)),
            old(self).enemy_base.limits_ok() && accessor.wf() ==> final(self).enemy_base.limits_ok(),
            same_slots(old(table)@, final(table)@),
            !capture_attack ==> {
                &&& final(self).enemy_base.state == EnemyState::Attack(AttackPhase::Traj)
                &&& final(self).capturing_state == CapturingState::Idle
                &&& final(self).troops@ == chosen_troops(old(table)@, old(self).enemy_base.formation_index)
                &&& final(table)@ == change_troops(old(table)@, final(self).troops@, to_troop_fn())
                &&& final(self).enemy_base.traj matches Some(t) && t.pos == old(self).enemy_base.pos && t.index == 0
                    && t.flip_x == (old(self).enemy_base.formation_index.0 >= 5)
            },
            capture_attack ==> {
                &&& final(self).enemy_base.state == EnemyState::Attack(AttackPhase::Capture)
                &&& final(self).capturing_state == CapturingState::Attacking
                &&& forall|i: int| 0 <= i < MAX_TROOPS ==> (#[trigger] final(self).troops@[i]).is_none()
                &&& final(table)@ == old(table)@
                &&& final(self).enemy_base.speed == 3 * ONE / 2
                &&& final(self).enemy_base.angle == 0
                &&& final(self).enemy_base.vangle == if old(self).enemy_base.formation_index.0 < 5 { -4 * ONE } else { 4 * ONE }
                &&& final(self).enemy_base.target_pos == (Vector2D { x: accessor.player_pos.x, y: ((HEIGHT - 16 - 8 - 88) * ONE) as i32 })
            },
    {
        self.enemy_base.count = 0;
        self.enemy_base.attack_frame_count = 0;
        self.copy_angle_to_troops = true;
        self.troops = [None, None, None];

        let phase = if !capture_attack {
            self.capturing_state = CapturingState::Idle;
            self.choose_troops(table);

            let flip_x = self.enemy_base.formation_index.0 >= 5;
            let mut traj = Traj::new(owl_attack_table(), &Vector2D::new(0, 0), flip_x, self.enemy_base.formation_index);
            traj.set_pos(&self.enemy_base.pos);

            self.enemy_base.traj = Some(traj);
            AttackPhase::Traj
        } else {
            self.capturing_state = CapturingState::Attacking;

            let dlimit: i32 = 4 * ONE;
            self.enemy_base.speed = 3 * ONE / 2;
            self.enemy_base.angle = 0;
            if self.enemy_base.formation_index.0 < 5 {
                self.enemy_base.vangle = -dlimit;
            } else {
                self.enemy_base.vangle = dlimit;
            }

            let player_pos = accessor.player_pos;
            self.enemy_base.target_pos = Vector2D::new(player_pos.x, (HEIGHT - 16 - 8 - 88) * ONE);

            AttackPhase::Capture
        };

        self.enemy_base.set_state(EnemyState::Attack(phase));

        events.push(EventType::PlaySe(CH_JINGLE, SoundEffect::AttackStart));
    }
}

} // verus!

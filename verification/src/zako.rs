use vstd::prelude::*;

use crate::collision::CollBox;
use crate::consts::{SoundEffect, CH_JINGLE};
use crate::enemy_base::{fires_at, assault_step, base_forwarded, formation_step, rested, slot_followed, slot_ok, traj_step, AttackPhase, EnemyBase, EnemyState};
use crate::enemy_types::{Accessor, DamageResult, EnemyType, FormationIndex};
use crate::events::EventType;
use crate::formation::{Formation, Y_COUNT};
use crate::traj::{
    bee_attack_rush_cont_table, bee_attack_table, bee_rush_attack_table, butterfly_attack_table,
    butterfly_rush_attack_table, owl_attack_table, owl_rush_attack_table, Traj, TrajCommand,
};
use crate::types::{Vec2I, Vector2D};

verus! {

/// The points a small enemy is worth: double while it flies out of the formation.
pub open spec fn zako_point(enemy_type: EnemyType, in_formation: bool) -> u32 {
    match enemy_type {
        EnemyType::Bee => if in_formation { 50 } else { 100 },
        EnemyType::Butterfly => if in_formation { 80 } else { 160 },
        _ => if in_formation { 500 } else { 1000 },
    }
}

/// The flight path an enemy type repeats while the stage is in rush mode.
pub fn rush_traj_table(enemy_type: EnemyType) -> (t: &'static [TrajCommand])
    ensures
        crate::traj::table_ok(t@),
{
    match enemy_type {
        EnemyType::Bee => bee_rush_attack_table(),
        EnemyType::Butterfly => butterfly_rush_attack_table(),
        EnemyType::Owl => owl_rush_attack_table(),
        EnemyType::CapturedFighter => owl_rush_attack_table(),
    }
}

/// An enemy's attack frame count and the shot it fires on the frames that the stage allows.
pub open spec fn attack_counted(b: EnemyBase, accessor: &Accessor, ev: Seq<EventType>) -> (EnemyBase, Seq<EventType>) {
    let n = b.attack_frame_count + 1;
    (EnemyBase { attack_frame_count: n as u32, ..b },
        if fires_at(n, accessor.stage_no as int) { ev.push(EventType::EneShot(b.pos)) } else { ev })
}

/// A new path that the enemy starts from where it is, mirrored on the right half.
pub open spec fn fresh_path(b: EnemyBase, b1: EnemyBase) -> bool {
    &&& b1.traj matches Some(t)
    &&& t.pos == b.pos
    &&& t.flip_x == (b.formation_index.0 >= 5)
    &&& t.fi == b.formation_index
    &&& t.index == 0
    &&& t.delay == 0
    &&& crate::traj::table_ok(t.command_table@)
}

/// A frame of a bee's dive: it counts the attack frame (firing when the stage allows) and
/// follows its path; at the path's end it loops on in rush mode, or heads back.
pub open spec fn bee_attack_step(b: EnemyBase, accessor: &Accessor, formation: &Formation, ev: Seq<EventType>,
    b1: EnemyBase, ev1: Seq<EventType>) -> bool {
    let ba = attack_counted(b, accessor, ev).0;
    let eva = attack_counted(b, accessor, ev).1;
    let bt = traj_step(ba, formation, eva).0;
    let evt = traj_step(ba, formation, eva).2;
    if traj_step(ba, formation, eva).1 {
        b1 == bt && ev1 == evt
    } else if accessor.is_rush {
        &&& fresh_path(bt, b1)
        &&& b1 == (EnemyBase { traj: b1.traj, state: EnemyState::Attack(AttackPhase::Traj), ..bt })
        &&& ev1 == evt.push(EventType::PlaySe(CH_JINGLE, SoundEffect::AttackStart))
    } else {
        b1 == (EnemyBase { state: EnemyState::MoveToFormation, ..bt }) && ev1 == evt
    }
}

/// A frame of an attack path: it counts the attack frame (firing when the stage allows) and
/// follows its path; at the path's end a captured fighter leaves, the others attack again
/// in rush mode, or head back.
pub open spec fn traj_attack_step(b: EnemyBase, accessor: &Accessor, formation: &Formation, ev: Seq<EventType>,
    b1: EnemyBase, ev1: Seq<EventType>) -> bool {
    let ba = attack_counted(b, accessor, ev).0;
    let eva = attack_counted(b, accessor, ev).1;
    let bt = traj_step(ba, formation, eva).0;
    let evt = traj_step(ba, formation, eva).2;
    if traj_step(ba, formation, eva).1 {
        b1 == bt && ev1 == evt
    } else if b.enemy_type == EnemyType::CapturedFighter {
        b1 == (EnemyBase { disappeared: true, ..bt }) && ev1 == evt
    } else if accessor.is_rush {
        &&& fresh_path(bt, b1)
        &&& b1 == (EnemyBase { traj: b1.traj, count: 0, attack_frame_count: 0, ..bt })
        &&& ev1 == evt.push(EventType::PlaySe(CH_JINGLE, SoundEffect::AttackStart))
    } else {
        b1 == (EnemyBase { state: EnemyState::MoveToFormation, ..bt }) && ev1 == evt
    }
}

/// A frame of a small enemy's behaviour, before it moves along its heading, from the enemy
/// and the events before to those after. It rests or flies with a boss unchanged; along its
/// entry path, after which it heads for its slot, or, with no slot, assaults the ship (or
/// either ship of a dual fighter); to its slot, where it comes to rest; in its assault; in
/// its slot, following it; and along an attack path, after which it attacks again in rush
/// mode or heads back (a captured fighter leaves).
pub open spec fn zako_behaviour(b: EnemyBase, accessor: &Accessor, formation: &Formation, ev: Seq<EventType>,
    b1: EnemyBase, ev1: Seq<EventType>) -> bool {
    match b.state {
        EnemyState::Idle | EnemyState::Troop => b1 == b && ev1 == ev,
        EnemyState::Appearance => {
            let bt = traj_step(b, formation, ev).0;
            let cont = traj_step(b, formation, ev).1;
            &&& ev1 == traj_step(b, formation, ev).2
            &&& if cont {
                b1 == bt
            } else if b.formation_index.1 >= Y_COUNT {
                &&& b1 == (EnemyBase { target_pos: b1.target_pos, vangle: 0, state: EnemyState::Assault(0), ..bt })
                &&& (b1.target_pos == accessor.player_pos || accessor.dual_player_pos == Some(b1.target_pos))
            } else {
                b1 == (EnemyBase { state: EnemyState::MoveToFormation, ..bt })
            }
        },
        EnemyState::MoveToFormation => {
            let bm = formation_step(b, formation).0;
            &&& ev1 == ev
            &&& b1 == if formation_step(b, formation).1 { bm } else { EnemyBase { state: EnemyState::Formation, ..rested(bm) } }
        },
        EnemyState::Assault(phase) => {
            &&& ev1 == ev
            &&& b1 == (EnemyBase { state: EnemyState::Assault(assault_step(b, phase).1), ..assault_step(b, phase).0 })
        },
        EnemyState::Formation => ev1 == ev && b1 == slot_followed(b, formation),
        EnemyState::Attack(phase) => if phase == AttackPhase::BeeAttack {
            bee_attack_step(b, accessor, formation, ev, b1, ev1)
        } else {
            traj_attack_step(b, accessor, formation, ev, b1, ev1)
        },
    }
}

/// A bee, a butterfly or a captured fighter.
#[derive(Clone, Copy)]
pub struct Zako {
    pub enemy_base: EnemyBase,
}

/// A shot hits the enemy `z`: it is destroyed, its explosion is raised (and the loss of a
/// captured fighter, where it was one), and its points are given.
pub open spec fn zako_damaged(z: Zako, ev0: Seq<EventType>, ev1: Seq<EventType>, r: DamageResult) -> bool {
    &&& r == (DamageResult {
        killed: true,
        point: zako_point(z.enemy_base.enemy_type, z.enemy_base.state == EnemyState::Formation),
    })
    &&& ev1 == if z.enemy_base.enemy_type == EnemyType::CapturedFighter {
        ev0.push(EventType::EnemyExplosion(z.enemy_base.pos, z.enemy_base.angle,
            z.enemy_base.enemy_type)).push(EventType::CapturedFighterDestroyed)
    } else {
        ev0.push(EventType::EnemyExplosion(z.enemy_base.pos, z.enemy_base.angle, z.enemy_base.enemy_type))
    }
}

impl Zako {
    /// The invariant of a small enemy: it is no boss and attacks only along a path.
    pub open spec fn wf(&self) -> bool {
        &&& self.enemy_base.enemy_type != EnemyType::Owl
        &&& (self.enemy_base.state matches EnemyState::Attack(p) ==> p == AttackPhase::BeeAttack || p == AttackPhase::Traj)
    }

    pub fn new(enemy_type: EnemyType, pos: &Vec2I, angle: i32, speed: i32, fi: &FormationIndex) -> (z: Self)
        ensures
            enemy_type != EnemyType::Owl ==> z.wf(),
            z.enemy_base == EnemyBase::new_spec(enemy_type, *pos, angle, speed, *fi),
    {
        Zako { enemy_base: EnemyBase::new(enemy_type, pos, angle, speed, fi) }
    }

    /// Runs the behaviour of the current state for one frame.
    #[verifier::rlimit(40)]
    #[verifier::spinoff_prover]
    fn dispatch_update(&mut self, accessor: &Accessor, formation: &Formation, events: &mut Vec<EventType>)
        requires
            old(self).wf(),
            old(self).enemy_base.frame_ok(),
            formation.wf(),
            (old(self).enemy_base.state == EnemyState::MoveToFormation || old(self).enemy_base.state == EnemyState::Formation)
                ==> slot_ok(old(self).enemy_base.formation_index),
        ensures
            final(self).wf(),
            final(self).enemy_base.after_move_ok(),
            final(self).enemy_base.enemy_type == old(self).enemy_base.enemy_type,
            final(self).enemy_base.formation_index == old(self).enemy_base.formation_index,
            zako_behaviour(old(self).enemy_base, accessor, formation, old(events)@, final(self).enemy_base, final(events)@),
    {
        proof {
            self.enemy_base.lemma_limits_after_move();
            formation.lemma_wf_bounds();
        }
        match self.enemy_base.state {
            EnemyState::Idle | EnemyState::Troop => {},
            EnemyState::Appearance => {
                if !self.enemy_base.update_trajectory(formation, events) {
                    if self.enemy_base.formation_index.1 as usize >= Y_COUNT {
                        self.enemy_base.set_assault(accessor);
                        self.enemy_base.set_state(EnemyState::Assault(0));
                    } else {
                        self.enemy_base.set_state(EnemyState::MoveToFormation);
                    }
                }
            },
            EnemyState::MoveToFormation => {
                if !self.enemy_base.move_to_formation(formation) {
                    self.set_to_formation();
                }
            },
            EnemyState::Assault(phase) => {
                let phase = self.enemy_base.update_assault(phase);
                self.enemy_base.set_state(EnemyState::Assault(phase));
            },
            EnemyState::Formation => {
                self.enemy_base.update_formation(formation);
            },
            EnemyState::Attack(phase) => {
                match phase {
                    AttackPhase::BeeAttack => self.update_bee_attack(accessor, formation, events),
                    _ => self.update_attack_traj(accessor, formation, events),
                }
            },
        }
    }

    /// A bee's dive: when it ends, the bee loops back into the field in rush mode, or
    /// returns to its slot.
    fn update_bee_attack(&mut self, accessor: &Accessor, formation: &Formation, events: &mut Vec<EventType>)
        requires
            old(self).wf(),
            old(self).enemy_base.frame_ok(),
            formation.wf(),
            old(self).enemy_base.state == EnemyState::Attack(AttackPhase::BeeAttack),
        ensures
            final(self).wf(),
            final(self).enemy_base.after_move_ok(),
            final(self).enemy_base.enemy_type == old(self).enemy_base.enemy_type,
            final(self).enemy_base.formation_index == old(self).enemy_base.formation_index,
            final(self).enemy_base.state == EnemyState::Attack(AttackPhase::BeeAttack)
                || final(self).enemy_base.state == EnemyState::Attack(AttackPhase::Traj)
                || final(self).enemy_base.state == EnemyState::MoveToFormation,
            final(self).enemy_base.state == EnemyState::Attack(AttackPhase::Traj) ==> accessor.is_rush,
            final(self).enemy_base.state == EnemyState::MoveToFormation ==> !accessor.is_rush,
            final(self).enemy_base.disappeared == old(self).enemy_base.disappeared,
            bee_attack_step(old(self).enemy_base, accessor, formation, old(events)@, final(self).enemy_base, final(events)@),
    {
        self.enemy_base.update_attack(accessor, events);
        if !self.enemy_base.update_trajectory(formation, events) {
            if accessor.is_rush {
                let flip_x = self.enemy_base.formation_index.0 >= 5;
                let mut traj = Traj::new(bee_attack_rush_cont_table(), &Vector2D::new(0, 0), flip_x, self.enemy_base.formation_index);
                traj.set_pos(&self.enemy_base.pos);
                self.enemy_base.traj = Some(traj);
                self.enemy_base.set_state(EnemyState::Attack(AttackPhase::Traj));
                events.push(EventType::PlaySe(CH_JINGLE, SoundEffect::AttackStart));
            } else {
                self.enemy_base.set_state(EnemyState::MoveToFormation);
            }
        }
    }

    /// A flight along an attack path: when it ends, a captured fighter leaves the stage, the
    /// others attack again in rush mode, or return to their slots.
    fn update_attack_traj(&mut self, accessor: &Accessor, formation: &Formation, events: &mut Vec<EventType>)
        requires
            old(self).wf(),
            old(self).enemy_base.frame_ok(),
            formation.wf(),
            old(self).enemy_base.state == EnemyState::Attack(AttackPhase::Traj),
        ensures
            final(self).wf(),
            final(self).enemy_base.after_move_ok(),
            final(self).enemy_base.enemy_type == old(self).enemy_base.enemy_type,
            final(self).enemy_base.formation_index == old(self).enemy_base.formation_index,
            final(self).enemy_base.state == EnemyState::Attack(AttackPhase::Traj)
                || final(self).enemy_base.state == EnemyState::MoveToFormation,
            final(self).enemy_base.state == EnemyState::MoveToFormation ==> !accessor.is_rush
                && old(self).enemy_base.enemy_type != EnemyType::CapturedFighter,
            final(self).enemy_base.disappeared != old(self).enemy_base.disappeared
                ==> old(self).enemy_base.enemy_type == EnemyType::CapturedFighter,
            traj_attack_step(old(self).enemy_base, accessor, formation, old(events)@, final(self).enemy_base, final(events)@),
    {
        self.enemy_base.update_attack(accessor, events);
        if !self.enemy_base.update_trajectory(formation, events) {
            if self.enemy_base.enemy_type == EnemyType::CapturedFighter {
                self.enemy_base.disappeared = true;
            } else if accessor.is_rush {
                let table = rush_traj_table(self.enemy_base.enemy_type);
                self.enemy_base.rush_attack(table);
                events.push(EventType::PlaySe(CH_JINGLE, SoundEffect::AttackStart));
            } else {
                self.enemy_base.set_state(EnemyState::MoveToFormation);
            }
        }
    }

    fn start_attack_traj(&mut self, table: &'static [TrajCommand], phase: AttackPhase)
        requires
            old(self).wf(),
            phase == AttackPhase::BeeAttack || phase == AttackPhase::Traj,
            crate::traj::table_ok(table@),
        ensures
            old(self).enemy_base.limits_ok() && slot_ok(old(self).enemy_base.formation_index)
                ==> final(self).enemy_base.limits_ok(),
            final(self).wf(),
            final(self).enemy_base.state == EnemyState::Attack(phase),
            final(self).enemy_base.count == 0,
            final(self).enemy_base.attack_frame_count == 0,
            final(self).enemy_base.traj matches Some(t) && t.command_table == table
                && t.pos == old(self).enemy_base.pos
                && t.flip_x == (old(self).enemy_base.formation_index.0 >= 5),
            final(self).enemy_base.pos == old(self).enemy_base.pos,
            final(self).enemy_base.enemy_type == old(self).enemy_base.enemy_type,
            final(self).enemy_base.formation_index == old(self).enemy_base.formation_index,
    {
        let flip_x = self.enemy_base.formation_index.0 >= 5;
        let mut traj = Traj::new(table, &Vector2D::new(0, 0), flip_x, self.enemy_base.formation_index);
        traj.set_pos(&self.enemy_base.pos);

        self.enemy_base.count = 0;
        self.enemy_base.attack_frame_count = 0;
        self.enemy_base.traj = Some(traj);
        self.enemy_base.set_state(EnemyState::Attack(phase));
    }

    fn set_bee_attack(&mut self)
        requires
            old(self).wf(),
        ensures
            old(self).enemy_base.limits_ok() && slot_ok(old(self).enemy_base.formation_index)
                ==> final(self).enemy_base.limits_ok(),
            final(self).wf(),
            final(self).enemy_base.state == EnemyState::Attack(AttackPhase::BeeAttack),
            final(self).enemy_base.formation_index == old(self).enemy_base.formation_index,
            final(self).enemy_base.enemy_type == old(self).enemy_base.enemy_type,
    {
        self.start_attack_traj(bee_attack_table(), AttackPhase::BeeAttack);
    }

    fn set_butterfly_attack(&mut self)
        requires
            old(self).wf(),
        ensures
            old(self).enemy_base.limits_ok() && slot_ok(old(self).enemy_base.formation_index)
                ==> final(self).enemy_base.limits_ok(),
            final(self).wf(),
            final(self).enemy_base.state == EnemyState::Attack(AttackPhase::Traj),
            final(self).enemy_base.formation_index == old(self).enemy_base.formation_index,
            final(self).enemy_base.enemy_type == old(self).enemy_base.enemy_type,
    {
        self.start_attack_traj(butterfly_attack_table(), AttackPhase::Traj);
    }

    fn set_captured_fighter_attack(&mut self)
        requires
            old(self).wf(),
        ensures
            old(self).enemy_base.limits_ok() && slot_ok(old(self).enemy_base.formation_index)
                ==> final(self).enemy_base.limits_ok(),
            final(self).wf(),
            final(self).enemy_base.state == EnemyState::Attack(AttackPhase::Traj),
            final(self).enemy_base.formation_index == old(self).enemy_base.formation_index,
            final(self).enemy_base.enemy_type == old(self).enemy_base.enemy_type,
    {
        self.start_attack_traj(owl_attack_table(), AttackPhase::Traj);
    }

    /// The points the enemy is worth now.
    pub fn calc_point(&self) -> (p: u32)
        requires
            self.wf(),
        ensures
            p == zako_point(self.enemy_base.enemy_type, self.enemy_base.state == EnemyState::Formation),
    {
        match self.enemy_base.enemy_type {
            EnemyType::Bee => if self.is_formation() { 50 } else { 100 },
            EnemyType::Butterfly => if self.is_formation() { 80 } else { 160 },
            _ => if self.is_formation() { 500 } else { 1000 },
        }
    }

    /// Runs one frame; tells whether the enemy stays.
    pub fn update(&mut self, accessor: &Accessor, formation: &Formation, events: &mut Vec<EventType>) -> (alive: bool)
        requires
            old(self).wf(),
            old(self).enemy_base.frame_ok(),
            formation.wf(),
            (old(self).enemy_base.state == EnemyState::MoveToFormation || old(self).enemy_base.state == EnemyState::Formation)
                ==> slot_ok(old(self).enemy_base.formation_index),
        ensures
            final(self).wf(),
            alive == !final(self).enemy_base.disappeared,
            final(self).enemy_base.enemy_type == old(self).enemy_base.enemy_type,
            final(self).enemy_base.formation_index == old(self).enemy_base.formation_index,
            exists|b1: EnemyBase| zako_behaviour(old(self).enemy_base, accessor, formation, old(events)@, b1, final(events)@)
                && final(self).enemy_base == base_forwarded(b1),
    {
        self.dispatch_update(accessor, formation, events);
        let ghost b1 = self.enemy_base;
        self.enemy_base.forward();
        assert(zako_behaviour(old(self).enemy_base, accessor, formation, old(events)@, b1, events@)
            && self.enemy_base == base_forwarded(b1));
        !self.enemy_base.disappeared
    }

    pub fn get_collbox(&self) -> (c: Option<CollBox>)
        requires
            self.enemy_base.limits_ok(),
        ensures
            c == Some(self.enemy_base.collbox_spec()),
    {
        Some(self.enemy_base.get_collbox())
    }

    pub fn pos(&self) -> (p: &Vec2I)
        ensures
            *p == self.enemy_base.pos,
    {
        &self.enemy_base.pos
    }

    pub fn set_pos(&mut self, pos: &Vec2I)
        ensures
            final(self).enemy_base == (EnemyBase { pos: *pos, ..old(self).enemy_base }),
    {
        self.enemy_base.pos = *pos;
    }

    pub fn is_formation(&self) -> (b: bool)
        ensures
            b == (self.enemy_base.state == EnemyState::Formation),
    {
        self.enemy_base.is_formation()
    }

    pub fn can_capture_attack(&self) -> (b: bool)
        ensures
            !b,
    {
        false
    }

    pub fn is_captured_fighter(&self) -> (b: bool)
        ensures
            b == (self.enemy_base.enemy_type == EnemyType::CapturedFighter),
    {
        self.enemy_base.is_captured_fighter()
    }

    pub fn formation_index(&self) -> (fi: &FormationIndex)
        ensures
            *fi == self.enemy_base.formation_index,
    {
        &self.enemy_base.formation_index
    }

    /// A shot destroys the enemy: it explodes, and a destroyed captured fighter is reported.
    pub fn set_damage(&mut self, _power: u32, events: &mut Vec<EventType>) -> (r: DamageResult)
        requires
            old(self).wf(),
        ensures
            zako_damaged(*old(self), old(events)@, final(events)@, r),
            *final(self) == *old(self),
    {
        events.push(EventType::EnemyExplosion(self.enemy_base.pos, self.enemy_base.angle, self.enemy_base.enemy_type));
        if self.enemy_base.enemy_type == EnemyType::CapturedFighter {
            events.push(EventType::CapturedFighterDestroyed);
        }
        let point = self.calc_point();
        DamageResult { killed: true, point }
    }

    pub fn update_troop(&mut self, add: &Vec2I, angle_opt: Option<i32>)
        requires
            crate::types::fits_i32(old(self).enemy_base.pos.x + add.x),
            crate::types::fits_i32(old(self).enemy_base.pos.y + add.y),
        ensures
            final(self).enemy_base.pos.x == old(self).enemy_base.pos.x + add.x,
            final(self).enemy_base.pos.y == old(self).enemy_base.pos.y + add.y,
            final(self).enemy_base.angle == match angle_opt { Some(a) => a, None => old(self).enemy_base.angle },
            (EnemyBase { pos: old(self).enemy_base.pos, angle: old(self).enemy_base.angle, ..final(self).enemy_base })
                == old(self).enemy_base,
    {
        self.enemy_base.update_troop(add, angle_opt);
    }

    /// Starts an attack flight of the enemy's kind.
    pub fn set_attack(&mut self, _capture_attack: bool, events: &mut Vec<EventType>)
        requires
            old(self).wf(),
        ensures
            old(self).enemy_base.limits_ok() && slot_ok(old(self).enemy_base.formation_index)
                ==> final(self).enemy_base.limits_ok(),
            final(self).wf(),
            final(self).enemy_base.state == if old(self).enemy_base.enemy_type == EnemyType::Bee {
                EnemyState::Attack(AttackPhase::BeeAttack)
            } else {
                EnemyState::Attack(AttackPhase::Traj)
            },
            final(self).enemy_base.formation_index == old(self).enemy_base.formation_index,
            final(self).enemy_base.enemy_type == old(self).enemy_base.enemy_type,
            final(events)@ == old(events)@.push(EventType::PlaySe(CH_JINGLE, SoundEffect::AttackStart)),
    {
        match self.enemy_base.enemy_type {
            EnemyType::Bee => self.set_bee_attack(),
            EnemyType::Butterfly => self.set_butterfly_attack(),
            _ => self.set_captured_fighter_attack(),
        }
        events.push(EventType::PlaySe(CH_JINGLE, SoundEffect::AttackStart));
    }

    pub fn set_to_troop(&mut self)
        requires
            old(self).wf(),
        ensures
            final(self).wf(),
            final(self).enemy_base == (EnemyBase { state: EnemyState::Troop, ..old(self).enemy_base }),
    {
        self.enemy_base.set_state(EnemyState::Troop);
    }

    pub fn set_to_formation(&mut self)
        requires
            old(self).wf(),
        ensures
            final(self).wf(),
            final(self).enemy_base == (EnemyBase {
                speed: 0,
                angle: crate::math::normalized(old(self).enemy_base.angle as int) as i32,
                vangle: 0,
                state: EnemyState::Formation,
                ..old(self).enemy_base
            }),
    {
        self.enemy_base.set_to_formation();
        self.enemy_base.set_state(EnemyState::Formation);
    }
}

} // verus!

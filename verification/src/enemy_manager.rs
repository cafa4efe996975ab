use vstd::prelude::*;

use crate::appearance_manager::{appearance_step, AppearanceManager};
use crate::attack_manager::AttackManager;
use crate::collision::{box_ok, overlaps, CollBox};
use crate::effect::{earned_point_type_of, to_earned_point_type};
use crate::ene_shot::{on_screen, out_of_screen, shot_velocity_ok, EneShot};
use crate::enemy::{
    array_index, calc_array_index, change_at, change_troops, enemy_at, enemy_stepped, index_ok, same_slots, table_wf, Enemy,
    MAX_ENEMY_COUNT,
};
use crate::enemy_base::EnemyState;
use crate::enemy_types::{Accessor, EnemyType, FormationIndex};
use crate::events::EventType;
use crate::formation::{formation_step, Formation};
use crate::math::{atan2_lut, atan2_spec, calc_velocity, clamp, clamp_spec, velocity, ANGLE, ONE};
use crate::rng::{gen_index, seeded_rng};
use crate::traj::TrajCommand;
use crate::types::{Vec2I, Vector2D};
use crate::zako::Zako;

verus! {

/// Number of enemy shots that can fly at the same time.
pub const MAX_SHOT_COUNT: usize = 16;
/// Once no more than this many enemies are left, they attack without pause.
pub const RUSH_THRESHOLD: u32 = 5;

/// The phase of a stage.
#[derive(Clone, Copy, Debug, PartialEq, Eq, Structural)]
pub enum StageState {
    Appearance,
    Normal,
    Rush,
}

/// Number of occupied slots of a table.
pub open spec fn enemy_count(t: Seq<Option<Enemy>>) -> nat
    decreases t.len(),
{
    if t.len() == 0 {
        0
    } else {
        enemy_count(t.drop_last()) + if t.last().is_some() { 1nat } else { 0nat }
    }
}

/// Replacing one slot changes the count by what left and what came.
pub proof fn lemma_count_update(t: Seq<Option<Enemy>>, i: int, v: Option<Enemy>)
    requires
        0 <= i < t.len(),
    ensures
        enemy_count(t.update(i, v)) + (if t[i].is_some() { 1int } else { 0int })
            == enemy_count(t) + (if v.is_some() { 1int } else { 0int }),
    decreases t.len(),
{
    if i == t.len() - 1 {
        assert(t.update(i, v).drop_last() == t.drop_last());
    } else {
        lemma_count_update(t.drop_last(), i, v);
        assert(t.update(i, v).drop_last() == t.drop_last().update(i, v));
    }
}

/// A table of no enemies counts none.
pub proof fn lemma_count_empty(t: Seq<Option<Enemy>>)
    requires
        forall|i: int| 0 <= i < t.len() ==> (#[trigger] t[i]).is_none(),
    ensures
        enemy_count(t) == 0,
    decreases t.len(),
{
    if t.len() > 0 {
        lemma_count_empty(t.drop_last());
    }
}

/// The count is at most the number of slots.
pub proof fn lemma_count_bound(t: Seq<Option<Enemy>>)
    ensures
        enemy_count(t) <= t.len(),
    decreases t.len(),
{
    if t.len() > 0 {
        lemma_count_bound(t.drop_last());
    }
}

/// Runs the enemies of a stage: their appearance, formation, attacks and shots.
pub struct EnemyManager {
    pub enemies: Vec<Option<Enemy>>,
    pub alive_enemy_count: u32,
    pub shots: Vec<Option<EneShot>>,
    pub formation: Formation,
    pub appearance_manager: AppearanceManager,
    pub attack_manager: AttackManager,
    pub stage_state: StageState,
    pub frame_count: u32,
    pub shot_paused_count: u32,
}

/// Whether a shot table holds only shots on the screen at sane speeds.
pub open spec fn shots_wf(s: Seq<Option<EneShot>>) -> bool {
    &&& s.len() == MAX_SHOT_COUNT
    &&& forall|i: int| 0 <= i < s.len() ==> (#[trigger] s[i] matches Some(shot) ==> on_screen(shot.pos)
        && shot_velocity_ok(shot.vel))
}

/// The table `t` after the enemies `v` are placed in turn: each goes to its slot when it is
/// within bounds and its slot is free.
pub open spec fn spawned_all(t: Seq<Option<Enemy>>, v: Seq<Enemy>) -> Seq<Option<Enemy>>
    decreases v.len(),
{
    if v.len() == 0 {
        t
    } else {
        let t1 = spawned_all(t, v.drop_last());
        let e = v.last();
        if e.base().limits_ok() && index_ok(e.base().formation_index) && enemy_at(t1, e.base().formation_index).is_none() {
            t1.update(array_index(e.base().formation_index), Some(e))
        } else {
            t1
        }
    }
}

/// The frame of the enemy in slot `k`, from the table `t0` and the events `ev0` to `t1` and
/// `ev1`: an enemy that can run a frame is taken out of its slot, runs it, and goes back
/// there unless it is gone or out of bounds; an empty slot, or an enemy that cannot run, is
/// left as it is.
pub open spec fn slot_step(t0: Seq<Option<Enemy>>, ev0: Seq<EventType>, k: int, accessor: Accessor,
    formation: Formation, t1: Seq<Option<Enemy>>, ev1: Seq<EventType>) -> bool {
    match t0[k] {
        Some(e) => if e.frame_ready() {
            exists|e1: Enemy, tm: Seq<Option<Enemy>>|
                #[trigger] enemy_stepped(e, accessor, formation, t0.update(k, None), ev0, e1, tm, ev1)
                && t1 == if !e1.base().disappeared && e1.base().limits_ok() { tm.update(k, Some(e1)) } else { tm }
        } else {
            t1 == t0 && ev1 == ev0
        },
        None => t1 == t0 && ev1 == ev0,
    }
}

/// The frames of the enemies in slot order, through the tables `ts` and the events `evs`: the
/// step from `ts[k]` to `ts[k + 1]` is the frame of slot `k`.
pub open spec fn slots_chain(ts: Seq<Seq<Option<Enemy>>>, evs: Seq<Seq<EventType>>, accessor: Accessor,
    formation: Formation) -> bool {
    &&& ts.len() == MAX_ENEMY_COUNT + 1
    &&& evs.len() == MAX_ENEMY_COUNT + 1
    &&& forall|k: int| 0 <= k < MAX_ENEMY_COUNT ==> #[trigger] slot_step(ts[k], evs[k], k, accessor, formation,
        ts[k + 1], evs[k + 1])
}

impl EnemyManager {
    /// The enemies sit in their slots, the alive count counts them, and the parts are in order.
    pub open spec fn wf(&self) -> bool {
        &&& table_wf(self.enemies@)
        &&& self.alive_enemy_count == enemy_count(self.enemies@)
        &&& shots_wf(self.shots@)
        &&& self.formation.wf()
        &&& self.appearance_manager.wf()
        &&& self.attack_manager.wf()
    }

    pub fn new() -> (m: Self)
        ensures
            m.wf(),
            m.alive_enemy_count == 0,
            m.stage_state == StageState::Appearance,
            m.appearance_manager.done,
    {
        let m = Self {
            enemies: empty_table(),
            alive_enemy_count: 0,
            shots: empty_shots(),
            formation: Formation::new(),
            appearance_manager: AppearanceManager::new(0),
            attack_manager: AttackManager::new(),
            stage_state: StageState::Appearance,
            frame_count: 0,
            shot_paused_count: 0,
        };
        proof { lemma_count_empty(m.enemies@); }
        m
    }

    /// Clears the field and starts the appearance of a stage.
    pub fn start_next_stage(&mut self, stage: u32)
        requires
            old(self).wf(),
        ensures
            final(self).wf(),
            final(self).alive_enemy_count == 0,
            forall|i: int| 0 <= i < MAX_ENEMY_COUNT ==> (#[trigger] final(self).enemies@[i]).is_none(),
            forall|i: int| 0 <= i < MAX_SHOT_COUNT ==> (#[trigger] final(self).shots@[i]).is_none(),
            final(self).stage_state == StageState::Appearance,
            final(self).frame_count == 0,
            !final(self).appearance_manager.done,
            final(self).appearance_manager.stage == stage,
    {
        self.enemies = empty_table();
        self.alive_enemy_count = 0;
        self.shots = empty_shots();
        proof { lemma_count_empty(self.enemies@); }

        self.appearance_manager.restart(stage);
        self.formation.restart();
        self.attack_manager.restart(0);
        self.stage_state = StageState::Appearance;
        self.frame_count = 0;
    }

    /// Whether the stage is over: every enemy has appeared and is gone, with its shots.
    pub fn all_destroyed(&self) -> (b: bool)
        requires
            self.wf(),
        ensures
            b == (self.appearance_manager.done && enemy_count(self.enemies@) == 0
                && forall|i: int| 0 <= i < MAX_SHOT_COUNT ==> (#[trigger] self.shots@[i]).is_none()),
    {
        if !self.appearance_manager.done || self.alive_enemy_count != 0 {
            return false;
        }
        let mut i: usize = 0;
        while i < MAX_SHOT_COUNT
            invariant
                i <= MAX_SHOT_COUNT,
                self.shots@.len() == MAX_SHOT_COUNT,
                forall|k: int| 0 <= k < i ==> (#[trigger] self.shots@[k]).is_none(),
            decreases MAX_SHOT_COUNT - i,
        {
            if self.shots[i].is_some() {
                return false;
            }
            i += 1;
        }
        true
    }

    /// Runs one frame of the stage.
    pub fn update(&mut self, accessor: &Accessor, events: &mut Vec<EventType>)
        requires
            old(self).wf(),
            accessor.wf(),
        ensures
            final(self).wf(),
            final(self).frame_count == old(self).frame_count.wrapping_add(1),
            final(self).shot_paused_count == if old(self).shot_paused_count > 0 { old(self).shot_paused_count - 1 } else { 0 },
            final(self).attack_manager.paused == old(self).attack_manager.paused,
            old(self).appearance_manager.done ==> final(self).alive_enemy_count <= old(self).alive_enemy_count,
            old(self).appearance_manager.done ==> final(self).appearance_manager == old(self).appearance_manager,
            !old(self).appearance_manager.done ==> exists|r: Option<Vec<Enemy>>| #[trigger] appearance_step(
                old(self).appearance_manager, final(self).appearance_manager, old(self).enemies@, r),
            old(self).formation.moving_count + 1 < 0x7fff_ff00 ==> formation_step(Formation {
                done_appearance: final(self).formation.done_appearance, ..old(self).formation }, final(self).formation),
            exists|ts: Seq<Seq<Option<Enemy>>>, evs: Seq<Seq<EventType>>|
                #[trigger] slots_chain(ts, evs, *accessor, final(self).formation)
                && ts.last() == final(self).enemies@ && evs.last() == final(events)@,
            forall|i: int| 0 <= i < MAX_SHOT_COUNT ==> #[trigger] final(self).shots@[i] == match old(self).shots@[i] {
                Some(s) => {
                    let p = Vector2D { x: (s.pos.x + s.vel.x) as i32, y: (s.pos.y + s.vel.y) as i32 };
                    if on_screen(p) { Some(EneShot { pos: p, vel: s.vel }) } else { None }
                },
                None => None,
            },
    {
        self.frame_count = self.frame_count.wrapping_add(1);
        if self.shot_paused_count > 0 {
            self.shot_paused_count -= 1;
        }
        self.update_appearance();
        if self.formation.moving_count + 1 < 0x7fff_ff00 {
            self.formation.update();
        }
        let ghost t0 = self.enemies@;
        self.attack_manager.update(accessor, &mut self.enemies, events);
        proof { lemma_same_slots_count(t0, self.enemies@); }
        self.update_enemies(accessor, events);
        self.update_shots();
    }

    /// The slot of the first enemy whose hit box overlaps `target`.
    pub fn check_collision(&self, target: &CollBox) -> (r: Option<FormationIndex>)
        requires
            self.wf(),
            box_ok(*target),
        ensures
            match r {
                Some(fi) => {
                    &&& index_ok(fi)
                    &&& forall|j: int| 0 <= j < array_index(fi) ==> !hits(#[trigger] self.enemies@[j], *target)
                    &&& hits(enemy_at(self.enemies@, fi), *target)
                },
                None => forall|j: int| 0 <= j < MAX_ENEMY_COUNT ==> !hits(#[trigger] self.enemies@[j], *target),
            },
    {
        let mut i: usize = 0;
        while i < MAX_ENEMY_COUNT
            invariant
                i <= MAX_ENEMY_COUNT,
                self.wf(),
                box_ok(*target),
                forall|j: int| 0 <= j < i ==> !hits(#[trigger] self.enemies@[j], *target),
            decreases MAX_ENEMY_COUNT - i,
        {
            if let Some(enemy) = &self.enemies[i] {
                if let Some(colbox) = enemy.get_collbox() {
                    proof { crate::enemy_base::lemma_collbox_ok(enemy.base()); }
                    if colbox.check_collision(target) {
                        return Some(enemy.formation_index());
                    }
                }
            }
            i += 1;
        }
        None
    }

    /// A hit on the enemy in a slot: it takes the damage, the points are scored with their
    /// mark, and a destroyed enemy leaves the field. Tells whether it was destroyed.
    pub fn set_damage_to_enemy(&mut self, fi: &FormationIndex, power: u32, events: &mut Vec<EventType>) -> (killed: bool)
        requires
            old(self).wf(),
            index_ok(*fi),
        ensures
            final(self).frame_count == old(self).frame_count,
            final(self).wf(),
            enemy_at(old(self).enemies@, *fi).is_none() ==> !killed && *final(self) == *old(self)
                && final(events)@ == old(events)@,
            killed ==> enemy_at(final(self).enemies@, *fi).is_none()
                && final(self).alive_enemy_count == old(self).alive_enemy_count - 1,
            !killed ==> final(self).alive_enemy_count == old(self).alive_enemy_count,
            enemy_at(old(self).enemies@, *fi) matches Some(e) && e.is_zako() ==> killed,
    {
        let index = calc_array_index(fi);
        if let Some(enemy) = self.enemies[index] {
            let mut enemy = enemy;
            let pos = enemy.pos();
            let mut pause = self.shot_paused_count;
            let result = enemy.set_damage(power, &self.enemies, events, &mut pause);
            self.shot_paused_count = pause;

            if result.point > 0 {
                events.push(EventType::AddScore(result.point));
                if let Some(point_type) = to_earned_point_type(result.point) {
                    events.push(EventType::EarnPointEffect(point_type, pos));
                }
            }

            if result.killed {
                proof { lemma_count_update(self.enemies@, index as int, None); }
                self.enemies.set(index, None);
                self.decrement_alive_enemy();
            } else {
                proof { lemma_count_update(self.enemies@, index as int, Some(enemy)); }
                self.enemies.set(index, Some(enemy));
            }
            result.killed
        } else {
            false
        }
    }

    /// Takes away the first shot that hits `target`, and gives where it was.
    pub fn check_shot_collision(&mut self, target: &CollBox) -> (r: Option<Vec2I>)
        requires
            old(self).wf(),
            box_ok(*target),
        ensures
            final(self).frame_count == old(self).frame_count,
            final(self).wf(),
            match r {
                Some(p) => exists|i: int| 0 <= i < MAX_SHOT_COUNT && (#[trigger] old(self).shots@[i] matches Some(s)
                    && s.pos == p) && final(self).shots@ == old(self).shots@.update(i, None),
                None => *final(self) == *old(self),
            },
            final(self).enemies == old(self).enemies,
            final(self).alive_enemy_count == old(self).alive_enemy_count,
    {
        let mut i: usize = 0;
        while i < MAX_SHOT_COUNT
            invariant
                i <= MAX_SHOT_COUNT,
                *self == *old(self),
                self.wf(),
                box_ok(*target),
            decreases MAX_SHOT_COUNT - i,
        {
            if let Some(shot) = self.shots[i] {
                if let Some(colbox) = shot.get_collbox() {
                    if colbox.check_collision(target) {
                        let pos = shot.pos;
                        self.shots.set(i, None);
                        return Some(pos);
                    }
                }
            }
            i += 1;
        }
        None
    }

    /// Puts a new enemy into its slot if the slot is free; tells whether it was.
    fn spawn(&mut self, enemy: Enemy) -> (ok: bool)
        requires
            old(self).wf(),
            enemy.wf(),
            enemy.base().limits_ok(),
            index_ok(enemy.base().formation_index),
        ensures
            final(self).wf(),
            ok == enemy_at(old(self).enemies@, enemy.base().formation_index).is_none(),
            ok ==> final(self).enemies@ == old(self).enemies@.update(array_index(enemy.base().formation_index), Some(enemy))
                && final(self).alive_enemy_count == old(self).alive_enemy_count + 1,
            !ok ==> *final(self) == *old(self),
            (EnemyManager { enemies: old(self).enemies, alive_enemy_count: old(self).alive_enemy_count, ..*final(self) })
                == *old(self),
    {
        let fi = enemy.formation_index();
        let index = calc_array_index(&fi);
        if self.enemies[index].is_none() {
            proof {
                lemma_count_update(self.enemies@, index as int, Some(enemy));
                lemma_count_bound(self.enemies@);
            }
            self.enemies.set(index, Some(enemy));
            self.alive_enemy_count += 1;
            true
        } else {
            false
        }
    }

    /// Puts a fighter captured by the boss of `formation_index`'s row below into that slot.
    pub fn spawn_captured_fighter(&mut self, pos: &Vec2I, formation_index: &FormationIndex) -> (ok: bool)
        requires
            old(self).wf(),
        ensures
            final(self).frame_count == old(self).frame_count,
            final(self).wf(),
            ok ==> index_ok(*formation_index) && enemy_at(old(self).enemies@, *formation_index).is_none()
                && final(self).alive_enemy_count == old(self).alive_enemy_count + 1
                && (enemy_at(final(self).enemies@, *formation_index) matches Some(e)
                && e.base().enemy_type == EnemyType::CapturedFighter && e.base().state == EnemyState::Troop
                && e.base().pos == *pos),
            !ok ==> *final(self) == *old(self),
            index_ok(*formation_index) && enemy_at(old(self).enemies@, *formation_index).is_none()
                && -0x3_0000 <= pos.x <= 0x3_0000 && -0x3_0000 <= pos.y <= 0x3_0000 ==> ok,
    {
        if !((formation_index.0 as usize) < 10 && (formation_index.1 as usize) <= 6) {
            return false;
        }
        let mut zako = Zako::new(EnemyType::CapturedFighter, pos, 0, 0, formation_index);
        zako.set_to_troop();
        let enemy = Enemy::Zako(zako);
        if !enemy.check_limits() {
            return false;
        }
        self.spawn(enemy)
    }

    /// Takes the enemy out of a slot; tells whether there was one.
    pub fn remove_enemy(&mut self, formation_index: &FormationIndex) -> (ok: bool)
        requires
            old(self).wf(),
            index_ok(*formation_index),
        ensures
            final(self).frame_count == old(self).frame_count,
            final(self).wf(),
            ok == enemy_at(old(self).enemies@, *formation_index).is_some(),
            ok ==> final(self).enemies@ == old(self).enemies@.update(array_index(*formation_index), None)
                && final(self).alive_enemy_count == old(self).alive_enemy_count - 1,
            !ok ==> *final(self) == *old(self),
    {
        let index = calc_array_index(formation_index);
        if self.enemies[index].is_some() {
            proof { lemma_count_update(self.enemies@, index as int, None); }
            self.enemies.set(index, None);
            self.decrement_alive_enemy();
            true
        } else {
            false
        }
    }

    /// Lets the appearance go on; once it is over, the formation may breathe, attacks start,
    /// and with few enemies left the stage goes into rush mode.
    fn update_appearance(&mut self)
        requires
            old(self).wf(),
        ensures
            final(self).wf(),
            final(self).shots == old(self).shots,
            final(self).frame_count == old(self).frame_count,
            final(self).shot_paused_count == old(self).shot_paused_count,
            final(self).attack_manager.paused == old(self).attack_manager.paused,
            old(self).appearance_manager.done ==> final(self).alive_enemy_count == old(self).alive_enemy_count,
            old(self).appearance_manager.done ==> final(self).appearance_manager == old(self).appearance_manager,
            !old(self).appearance_manager.done ==> exists|r: Option<Vec<Enemy>>| #[trigger] appearance_step(
                old(self).appearance_manager, final(self).appearance_manager, old(self).enemies@, r)
                && final(self).enemies@ == match r {
                    Some(v) => spawned_all(old(self).enemies@, v@),
                    None => old(self).enemies@,
                },
            old(self).appearance_manager.done ==> final(self).enemies@ == old(self).enemies@,
            final(self).formation == (Formation { done_appearance: final(self).formation.done_appearance,
                ..old(self).formation }),
            !old(self).appearance_manager.done && final(self).appearance_manager.done ==> {
                &&& final(self).attack_manager.enable
                &&& final(self).formation.done_appearance
                &&& final(self).stage_state == if final(self).alive_enemy_count <= RUSH_THRESHOLD {
                    StageState::Rush
                } else {
                    StageState::Normal
                }
            },
    {
        let prev_done = self.appearance_manager.done;
        let ghost e0 = self.enemies@;
        let res = self.appearance_manager.update(&self.enemies);
        let ghost am1 = self.appearance_manager;
        let ghost r0 = res;
        if let Some(new_borns) = res {
            let mut i: usize = 0;
            while i < new_borns.len()
                invariant
                    i <= new_borns@.len(),
                    self.wf(),
                    self.shots == old(self).shots,
                    self.frame_count == old(self).frame_count,
                    self.shot_paused_count == old(self).shot_paused_count,
                    self.attack_manager.paused == old(self).attack_manager.paused,
                    self.appearance_manager == am1,
                    self.formation == old(self).formation,
                    forall|k: int| 0 <= k < new_borns@.len() ==> (#[trigger] new_borns@[k]).wf(),
                    self.enemies@ == spawned_all(e0, new_borns@.take(i as int)),
                decreases new_borns@.len() - i,
            {
                let enemy = new_borns[i];
                proof {
                    assert(new_borns@.take(i + 1).drop_last() =~= new_borns@.take(i as int));
                    assert(new_borns@.take(i + 1).last() == enemy);
                }
                if enemy.check_limits() && (enemy.formation_index().0 as usize) < 10
                    && (enemy.formation_index().1 as usize) <= 6 {
                    self.spawn(enemy);
                }
                i += 1;
            }
            assert(new_borns@.take(new_borns@.len() as int) =~= new_borns@);
        }
        if !prev_done && self.appearance_manager.done {
            self.stage_state = StageState::Normal;
            self.formation.done_appearance();
            if self.alive_enemy_count <= RUSH_THRESHOLD {
                self.stage_state = StageState::Rush;
            }
            self.attack_manager.set_enable(true);
        }
        proof {
            if !prev_done {
                assert(appearance_step(old(self).appearance_manager, self.appearance_manager, e0, r0));
            }
        }
    }

    /// Runs a frame of each enemy in slot order; the ones that are gone leave the field.
    fn update_enemies(&mut self, accessor: &Accessor, events: &mut Vec<EventType>)
        requires
            old(self).wf(),
            accessor.wf(),
        ensures
            final(self).wf(),
            (EnemyManager {
                enemies: old(self).enemies,
                alive_enemy_count: old(self).alive_enemy_count,
                stage_state: old(self).stage_state,
                ..*final(self)
            }) == *old(self),
            final(self).alive_enemy_count <= old(self).alive_enemy_count,
            exists|ts: Seq<Seq<Option<Enemy>>>, evs: Seq<Seq<EventType>>|
                #[trigger] slots_chain(ts, evs, *accessor, old(self).formation)
                && ts[0] == old(self).enemies@ && evs[0] == old(events)@
                && ts.last() == final(self).enemies@ && evs.last() == final(events)@,
    {
        let ghost mut ts: Seq<Seq<Option<Enemy>>> = seq![self.enemies@];
        let ghost mut evs: Seq<Seq<EventType>> = seq![events@];
        let mut i: usize = 0;
        while i < MAX_ENEMY_COUNT
            invariant
                i <= MAX_ENEMY_COUNT,
                self.wf(),
                accessor.wf(),
                (EnemyManager {
                    enemies: old(self).enemies,
                    alive_enemy_count: old(self).alive_enemy_count,
                    stage_state: old(self).stage_state,
                    ..*self
                }) == *old(self),
                self.alive_enemy_count <= old(self).alive_enemy_count,
                ts.len() == i + 1,
                evs.len() == i + 1,
                ts[0] == old(self).enemies@,
                evs[0] == old(events)@,
                ts.last() == self.enemies@,
                evs.last() == events@,
                forall|k: int| 0 <= k < i ==> #[trigger] slot_step(ts[k], evs[k], k, *accessor, old(self).formation,
                    ts[k + 1], evs[k + 1]),
            decreases MAX_ENEMY_COUNT - i,
        {
            let ghost tb = self.enemies@;
            let ghost eb = events@;
            if let Some(enemy) = self.enemies[i] {
                if enemy.check_frame() {
                    let mut e = enemy;
                    proof { lemma_count_update(self.enemies@, i as int, None); }
                    self.enemies.set(i, None);
                    let ghost t0 = self.enemies@;
                    let alive = e.update(accessor, &self.formation, &mut self.enemies, events);
                    let ghost tm = self.enemies@;
                    proof { lemma_same_slots_count(t0, self.enemies@); }
                    if alive && e.check_limits() {
                        proof { lemma_count_update(self.enemies@, i as int, Some(e)); }
                        self.enemies.set(i, Some(e));
                    } else {
                        self.decrement_alive_enemy();
                    }
                    proof {
                        assert(t0 == tb.update(i as int, None));
                        assert(enemy_stepped(enemy, *accessor, old(self).formation, tb.update(i as int, None), eb, e,
                            tm, events@));
                    }
                }
            }
            proof {
                assert(slot_step(tb, eb, i as int, *accessor, old(self).formation, self.enemies@, events@));
                let ts2 = ts.push(self.enemies@);
                let evs2 = evs.push(events@);
                assert forall|k: int| 0 <= k < i + 1 implies #[trigger] slot_step(ts2[k], evs2[k], k, *accessor,
                    old(self).formation, ts2[k + 1], evs2[k + 1]) by {
                    if k < i {
                        assert(slot_step(ts[k], evs[k], k, *accessor, old(self).formation, ts[k + 1], evs[k + 1]));
                    }
                }
                ts = ts2;
                evs = evs2;
            }
            i += 1;
        }
        assert(slots_chain(ts, evs, *accessor, old(self).formation));
    }

    /// Counts an enemy gone; with few left after the appearance, the stage goes into rush.
    fn decrement_alive_enemy(&mut self)
        requires
            old(self).alive_enemy_count > 0,
        ensures
            final(self).alive_enemy_count == old(self).alive_enemy_count - 1,
            final(self).stage_state == if final(self).alive_enemy_count <= RUSH_THRESHOLD
                && old(self).appearance_manager.done { StageState::Rush } else { old(self).stage_state },
            (EnemyManager { alive_enemy_count: old(self).alive_enemy_count, stage_state: old(self).stage_state,
                ..*final(self) }) == *old(self),
    {
        self.alive_enemy_count -= 1;
        if self.alive_enemy_count <= RUSH_THRESHOLD && self.appearance_manager.done {
            self.stage_state = StageState::Rush;
        }
    }

    /// Moves the shots; the ones that leave the screen are gone.
    fn update_shots(&mut self)
        requires
            old(self).wf(),
        ensures
            final(self).wf(),
            (EnemyManager { shots: old(self).shots, ..*final(self) }) == *old(self),
            forall|i: int| 0 <= i < MAX_SHOT_COUNT ==> #[trigger] final(self).shots@[i] == match old(self).shots@[i] {
                Some(s) => {
                    let p = Vector2D { x: (s.pos.x + s.vel.x) as i32, y: (s.pos.y + s.vel.y) as i32 };
                    if on_screen(p) { Some(EneShot { pos: p, vel: s.vel }) } else { None }
                },
                None => None,
            },
    {
        let mut i: usize = 0;
        while i < MAX_SHOT_COUNT
            invariant
                i <= MAX_SHOT_COUNT,
                self.wf(),
                self.enemies == old(self).enemies,
                (EnemyManager { shots: old(self).shots, ..*self }) == *old(self),
                forall|k: int| i <= k < MAX_SHOT_COUNT ==> #[trigger] self.shots@[k] == old(self).shots@[k],
                forall|k: int| 0 <= k < i ==> #[trigger] self.shots@[k] == match old(self).shots@[k] {
                    Some(s) => {
                        let p = Vector2D { x: (s.pos.x + s.vel.x) as i32, y: (s.pos.y + s.vel.y) as i32 };
                        if on_screen(p) { Some(EneShot { pos: p, vel: s.vel }) } else { None }
                    },
                    None => None,
                },
            decreases MAX_SHOT_COUNT - i,
        {
            if let Some(shot) = self.shots[i] {
                let mut s = shot;
                if s.update() {
                    self.shots.set(i, Some(s));
                } else {
                    self.shots.set(i, None);
                }
            }
            i += 1;
        }
    }

    /// Fires a shot from `pos` toward one of the targets, picked at random, within 30 degrees
    /// of straight down, if a shot place is free and the shots are not held. A shot from off
    /// the screen would leave at once, so none is made.
    pub fn spawn_shot(&mut self, pos: &Vec2I, target_pos: &Vec<Option<Vec2I>>, speed: i32)
        requires
            old(self).wf(),
            -0x1_0000 <= speed <= 0x1_0000,
            exists|k: int| 0 <= k < target_pos@.len() && (#[trigger] target_pos@[k]).is_some(),
            forall|k: int| 0 <= k < target_pos@.len() ==> (#[trigger] target_pos@[k] matches Some(t)
                ==> -0x10_0000 <= t.x <= 0x10_0000 && -0x10_0000 <= t.y <= 0x10_0000),
        ensures
            final(self).frame_count == old(self).frame_count,
            final(self).wf(),
            final(self).enemies == old(self).enemies,
            (EnemyManager { shots: old(self).shots, ..*final(self) }) == *old(self),
            old(self).shot_paused_count > 0 || !on_screen(*pos) ==> *final(self) == *old(self),
            forall|i: int| 0 <= i < MAX_SHOT_COUNT ==> (old(self).shots@[i] matches Some(s)
                ==> #[trigger] final(self).shots@[i] == Some(s)),
            old(self).shot_paused_count == 0 && on_screen(*pos)
                && (exists|i: int| 0 <= i < MAX_SHOT_COUNT && (#[trigger] old(self).shots@[i]).is_none())
                ==> exists|i: int| 0 <= i < MAX_SHOT_COUNT && (#[trigger] old(self).shots@[i]).is_none()
                    && final(self).shots@ == old(self).shots@.update(i, final(self).shots@[i])
                    && fired_at(final(self).shots@[i], *pos, target_pos@, speed as int),
    {
        if self.shot_paused_count > 0 || out_of_screen(pos) {
            return;
        }
        let mut index: usize = 0;
        while index < MAX_SHOT_COUNT && self.shots[index].is_some()
            invariant
                index <= MAX_SHOT_COUNT,
                self.wf(),
                *self == *old(self),
                forall|k: int| 0 <= k < index ==> (#[trigger] self.shots@[k]).is_some(),
            decreases MAX_SHOT_COUNT - index,
        {
            index += 1;
        }
        if index >= MAX_SHOT_COUNT {
            return;
        }
        let mut count: usize = 0;
        let mut k: usize = 0;
        while k < target_pos.len()
            invariant
                k <= target_pos@.len(),
                count <= k,
                count == 0 ==> forall|j: int| 0 <= j < k ==> (#[trigger] target_pos@[j]).is_none(),
            decreases target_pos@.len() - k,
        {
            if target_pos[k].is_some() {
                count += 1;
            }
            k += 1;
        }
        let mut rng = seeded_rng();
        let nth = gen_index(&mut rng, count);
        let target = nth_some(target_pos, nth);
        let d = target.minus(pos);

        let limit: i32 = ANGLE * ONE * 30 / 360;
        let angle = atan2_lut(d.y, -d.x);
        let angle = clamp(angle, -limit, limit);

        let vel = calc_velocity(angle + ANGLE * ONE / 2, speed);
        proof {
            let k = choose|k: int| 0 <= k < target_pos@.len() && (#[trigger] target_pos@[k]) == Some(target);
            assert(aimed(target_pos@[k], *pos, vel, speed as int));
        }
        let ghost before = self.shots@;
        self.shots.set(index, Some(EneShot::new(pos, &vel)));
        proof {
            assert(before == old(self).shots@);
            assert(old(self).shots@[index as int].is_none());
            assert(self.shots@ == old(self).shots@.update(index as int, self.shots@[index as int]));
            assert(fired_at(self.shots@[index as int], *pos, target_pos@, speed as int));
        }
    }

    /// Allows or stops the start of attacks.
    pub fn enable_attack(&mut self, value: bool)
        requires
            old(self).wf(),
        ensures
            final(self).wf(),
            final(self).attack_manager == (AttackManager { enable: value, ..old(self).attack_manager }),
            (EnemyManager { attack_manager: old(self).attack_manager, ..*final(self) }) == *old(self),
    {
        self.attack_manager.set_enable(value);
    }

    /// Holds or releases the start of attacks.
    pub fn pause_attack(&mut self, value: bool)
        requires
            old(self).wf(),
        ensures
            final(self).frame_count == old(self).frame_count,
            final(self).wf(),
            final(self).attack_manager == (AttackManager { paused: value, ..old(self).attack_manager }),
            (EnemyManager { attack_manager: old(self).attack_manager, ..*final(self) }) == *old(self),
    {
        self.attack_manager.pause(value);
    }

    /// Holds the enemies' fire for `wait` frames.
    pub fn pause_enemy_shot(&mut self, wait: u32)
        ensures
            *final(self) == (EnemyManager { shot_paused_count: wait, ..*old(self) }),
    {
        self.shot_paused_count = wait;
    }

    /// Whether no enemy is attacking.
    pub fn is_no_attacker(&self) -> (b: bool)
        ensures
            b == forall|i: int| 0 <= i < crate::attack_manager::MAX_ATTACKER_COUNT
                ==> (#[trigger] self.attack_manager.attackers@[i]).is_none(),
    {
        self.attack_manager.is_no_attacker()
    }

    /// Starts the attack of the enemy in a slot, if there is one; tells whether there was.
    pub fn set_attack_at(&mut self, fi: &FormationIndex, capture_attack: bool, accessor: &Accessor,
        events: &mut Vec<EventType>) -> (ok: bool)
        requires
            old(self).wf(),
            accessor.wf(),
            crate::enemy_base::slot_ok(*fi),
        ensures
            final(self).wf(),
            ok == enemy_at(old(self).enemies@, *fi).is_some(),
            ok ==> (enemy_at(final(self).enemies@, *fi) matches Some(e) && e.base().state is Attack),
            !ok ==> *final(self) == *old(self),
    {
        let idx = calc_array_index(fi);
        match self.enemies[idx] {
            Some(enemy) => {
                let mut enemy = enemy;
                proof { lemma_count_update(self.enemies@, idx as int, None); }
                self.enemies.set(idx, None);
                let ghost t0 = self.enemies@;
                enemy.set_attack(capture_attack, accessor, &mut self.enemies, events);
                proof {
                    lemma_same_slots_count(t0, self.enemies@);
                    lemma_count_update(self.enemies@, idx as int, Some(enemy));
                }
                self.enemies.set(idx, Some(enemy));
                true
            },
            None => false,
        }
    }

    /// Flies the enemy in a slot along a given path table, from the top of the screen or from
    /// where it is, if the path and the enemy stay within bounds; tells whether it does.
    pub fn set_table_attack(&mut self, fi: &FormationIndex, table: &'static [TrajCommand], flip_x: bool,
        from_top: bool) -> (ok: bool)
        requires
            old(self).wf(),
            index_ok(*fi),
        ensures
            final(self).wf(),
            ok ==> enemy_at(old(self).enemies@, *fi).is_some(),
            ok ==> (enemy_at(final(self).enemies@, *fi) matches Some(e)
                && e.base().state == EnemyState::Attack(crate::enemy_base::AttackPhase::Traj)
                && (e.base().traj matches Some(t) && t.command_table == table && t.flip_x == flip_x)),
            !ok ==> *final(self) == *old(self),
    {
        let idx = calc_array_index(fi);
        match self.enemies[idx] {
            Some(enemy) => {
                let mut e = enemy;
                if from_top {
                    let p = e.pos();
                    e.set_pos(&Vector2D::new(p.x, -16 * ONE));
                }
                e.set_table_attack(table, flip_x);
                if e.check_limits() {
                    proof { lemma_count_update(self.enemies@, idx as int, Some(e)); }
                    self.enemies.set(idx, Some(e));
                    true
                } else {
                    false
                }
            },
            None => false,
        }
    }

    /// The enemies by slot.
    pub fn get_enemies(&self) -> (t: &Vec<Option<Enemy>>)
        ensures
            t@ == self.enemies@,
    {
        &self.enemies
    }

    /// Fills the formation at once with every enemy of a stage at rest, for trying paths.
    pub fn reset_stable(&mut self)
        requires
            old(self).wf(),
        ensures
            final(self).wf(),
            final(self).appearance_manager.done,
            !final(self).attack_manager.enable,
            final(self).stage_state == StageState::Normal,
            final(self).alive_enemy_count == 40,
    {
        self.enemies = empty_table();
        self.alive_enemy_count = 0;
        self.shots = empty_shots();
        proof { lemma_count_empty(self.enemies@); }

        self.appearance_manager.restart(0);
        self.appearance_manager.done = true;
        self.formation.restart();
        self.formation.done_appearance();
        self.attack_manager.restart(0);
        self.attack_manager.set_enable(false);
        self.stage_state = StageState::Normal;

        let mut unit: usize = 0;
        while unit < 5
            invariant
                unit <= 5,
                self.wf(),
                self.appearance_manager.done,
                !self.attack_manager.enable,
                self.stage_state == StageState::Normal,
                self.alive_enemy_count == unit * 8,
                forall|k: int| 0 <= k < MAX_ENEMY_COUNT ==> (#[trigger] self.enemies@[k]).is_some()
                    ==> stable_slot_filled(k, unit as int),
            decreases 5 - unit,
        {
            let mut i: usize = 0;
            while i < 8
                invariant
                    i <= 8,
                    unit < 5,
                    self.wf(),
                    self.appearance_manager.done,
                    !self.attack_manager.enable,
                    self.stage_state == StageState::Normal,
                    self.alive_enemy_count == unit * 8 + i,
                    forall|k: int| 0 <= k < MAX_ENEMY_COUNT ==> (#[trigger] self.enemies@[k]).is_some()
                        ==> stable_slot_filled(k, unit as int) || stable_slot_of(k, unit as int, i as int),
                decreases 8 - i,
            {
                proof { lemma_stable_order(unit as int, i as int); }
                let idx = unit * 8 + i;
                let index = FormationIndex(crate::appearance_manager::ORDER_X[idx], crate::appearance_manager::ORDER_Y[idx]);
                let enemy_type = crate::appearance_manager::enemy_type_table((unit * 2 + i / 4) as u32);
                let pos = self.formation.pos(&index);
                proof { self.formation.lemma_wf_bounds(); }
                let mut enemy = crate::enemy::create_enemy(enemy_type, &pos, 0, 0, &index);
                enemy.set_to_formation();
                let ok = self.spawn(enemy);
                proof {
                    assert(ok);
                }
                i += 1;
            }
            unit += 1;
        }
    }

    /// The enemy in a slot.
    pub fn get_enemy_at(&self, formation_index: &FormationIndex) -> (e: Option<Enemy>)
        requires
            self.wf(),
            index_ok(*formation_index),
        ensures
            e == enemy_at(self.enemies@, *formation_index),
    {
        crate::enemy::get_enemy_at(&self.enemies, formation_index)
    }

    /// The position of a formation slot.
    pub fn get_formation_pos(&self, formation_index: &FormationIndex) -> (p: Vec2I)
        requires
            self.wf(),
            crate::enemy_base::slot_ok(*formation_index),
        ensures
            p == self.formation.pos_spec(*formation_index),
    {
        self.formation.pos(formation_index)
    }

    /// Whether the stage is in rush mode.
    pub fn is_rush(&self) -> (b: bool)
        ensures
            b == (self.stage_state == StageState::Rush),
    {
        self.stage_state == StageState::Rush
    }
}

/// The velocity of a shot from `pos` aimed at `target`, turned at most 30 degrees off
/// straight down.
pub open spec fn shot_velocity(pos: Vec2I, target: Vec2I, speed: int) -> Vec2I {
    let limit = ANGLE * ONE * 30 / 360;
    let a = clamp_spec(atan2_spec(target.y - pos.y, -(target.x - pos.x)), -limit, limit);
    velocity(a + ANGLE * ONE / 2, speed)
}

/// Whether a shot left `pos` aimed at one of the targets.
pub open spec fn fired_at(shot: Option<EneShot>, pos: Vec2I, targets: Seq<Option<Vec2I>>, speed: int) -> bool {
    shot matches Some(s) && s.pos == pos
        && exists|k: int| 0 <= k < targets.len() && #[trigger] aimed(targets[k], pos, s.vel, speed)
}

/// Whether `vel` is the velocity of a shot from `pos` aimed at the target, if there is one.
pub open spec fn aimed(target: Option<Vec2I>, pos: Vec2I, vel: Vec2I, speed: int) -> bool {
    target matches Some(t) && vel == shot_velocity(pos, t, speed)
}

/// Whether a slot's enemy, if any, has a hit box that overlaps `target`.
pub open spec fn hits(slot: Option<Enemy>, target: CollBox) -> bool {
    slot matches Some(e) && e.collbox_spec() matches Some(c) && overlaps(c, target)
}

/// Tables with enemies in the same slots count the same.
pub proof fn lemma_same_slots_count(t0: Seq<Option<Enemy>>, t1: Seq<Option<Enemy>>)
    requires
        same_slots(t0, t1),
    ensures
        enemy_count(t0) == enemy_count(t1),
    decreases t0.len(),
{
    if t0.len() > 0 {
        lemma_same_slots_count(t0.drop_last(), t1.drop_last());
        assert(t1.last().is_some() == t0.last().is_some()) by {
            assert(t1[t1.len() - 1].is_some() == t0[t0.len() - 1].is_some());
        }
    }
}

/// The `n`th present target.
fn nth_some(targets: &Vec<Option<Vec2I>>, n: usize) -> (t: Vec2I)
    requires
        exists|k: int| 0 <= k < targets@.len() && (#[trigger] targets@[k]).is_some(),
    ensures
        exists|k: int| 0 <= k < targets@.len() && (#[trigger] targets@[k]) == Some(t),
{
    let mut seen: usize = 0;
    let mut last: Option<Vec2I> = None;
    let mut k: usize = 0;
    while k < targets.len()
        invariant
            k <= targets@.len(),
            exists|j: int| 0 <= j < targets@.len() && (#[trigger] targets@[j]).is_some(),
            last matches Some(v) ==> exists|j: int| 0 <= j < k && (#[trigger] targets@[j]) == Some(v),
            last.is_none() ==> forall|j: int| 0 <= j < k ==> (#[trigger] targets@[j]).is_none(),
        decreases targets@.len() - k,
    {
        if let Some(v) = targets[k] {
            last = Some(v);
            if seen == n {
                return v;
            }
            if seen < n {
                seen += 1;
            }
        }
        k += 1;
    }
    match last {
        Some(v) => v,
        None => {
            proof {
                let j = choose|j: int| 0 <= j < targets@.len() && (#[trigger] targets@[j]).is_some();
                assert(targets@[j].is_none());
            }
            Vector2D::new(0, 0)
        },
    }
}

/// A table with every slot empty.
pub fn empty_table() -> (t: Vec<Option<Enemy>>)
    ensures
        t@.len() == MAX_ENEMY_COUNT,
        forall|i: int| 0 <= i < MAX_ENEMY_COUNT ==> (#[trigger] t@[i]).is_none(),
        table_wf(t@),
{
    let mut t: Vec<Option<Enemy>> = Vec::new();
    let mut i: usize = 0;
    while i < MAX_ENEMY_COUNT
        invariant
            i <= MAX_ENEMY_COUNT,
            t@.len() == i,
            forall|k: int| 0 <= k < i ==> (#[trigger] t@[k]).is_none(),
        decreases MAX_ENEMY_COUNT - i,
    {
        t.push(None);
        i += 1;
    }
    t
}

/// A shot table with no shots.
pub fn empty_shots() -> (s: Vec<Option<EneShot>>)
    ensures
        shots_wf(s@),
        forall|i: int| 0 <= i < MAX_SHOT_COUNT ==> (#[trigger] s@[i]).is_none(),
{
    let mut s: Vec<Option<EneShot>> = Vec::new();
    let mut i: usize = 0;
    while i < MAX_SHOT_COUNT
        invariant
            i <= MAX_SHOT_COUNT,
            s@.len() == i,
            forall|k: int| 0 <= k < i ==> (#[trigger] s@[k]).is_none(),
        decreases MAX_SHOT_COUNT - i,
    {
        s.push(None);
        i += 1;
    }
    s
}

/// Whether slot `k` is one of the slots of the first `units` units of the fill order.
pub open spec fn stable_slot_filled(k: int, units: int) -> bool {
    exists|j: int| 0 <= j < units * 8 && #[trigger] crate::appearance_manager::ORDER_X@[j]
        + crate::appearance_manager::ORDER_Y@[j] * 10 == k
}

/// Whether slot `k` is one of the first `count` slots of unit `unit` in the fill order.
pub open spec fn stable_slot_of(k: int, unit: int, count: int) -> bool {
    exists|j: int| unit * 8 <= j < unit * 8 + count && #[trigger] crate::appearance_manager::ORDER_X@[j]
        + crate::appearance_manager::ORDER_Y@[j] * 10 == k
}

/// The slot order names forty different slots, and a boss of the order sits where it can
/// lead a troop.
pub proof fn lemma_stable_order(unit: int, i: int)
    requires
        0 <= unit < 5,
        0 <= i < 8,
    ensures
        ({
            let j = unit * 8 + i;
            let k = crate::appearance_manager::ORDER_X@[j] + crate::appearance_manager::ORDER_Y@[j] * 10;
            &&& crate::appearance_manager::ORDER_X@[j] < 10 && crate::appearance_manager::ORDER_Y@[j] <= 6
            &&& crate::appearance_manager::unit_enemy_type(unit * 2 + i / 4) == EnemyType::Owl ==>
                1 <= crate::appearance_manager::ORDER_X@[j] <= 8 && 1 <= crate::appearance_manager::ORDER_Y@[j] <= 4
            &&& !stable_slot_filled(k, unit)
            &&& !stable_slot_of(k, unit, i)
        }),
{
    let ox = crate::appearance_manager::ORDER_X@;
    let oy = crate::appearance_manager::ORDER_Y@;
    assert(forall|a: int| 0 <= a < 40 ==> ox[a] < 10 && oy[a] <= 6);
    assert(forall|a: int, b: int| 0 <= a < b < 40 ==> #[trigger] ox[a] + oy[a] * 10 != #[trigger] ox[b] + oy[b] * 10);
    assert(forall|a: int| 8 <= a < 12 ==> 1 <= #[trigger] ox[a] <= 8 && 1 <= oy[a] <= 4);
}

} // verus!

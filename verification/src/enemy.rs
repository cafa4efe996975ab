use vstd::prelude::*;

use crate::collision::CollBox;
use crate::enemy_base::{base_forwarded, slot_ok, AttackPhase, EnemyBase, EnemyState};
use crate::enemy_types::DamageResult;
use crate::events::EventType;
use crate::zako::{zako_behaviour, zako_point};
use crate::enemy_types::{Accessor, EnemyType, FormationIndex};
use crate::formation::Formation;
use crate::owl::{owl_behaviour, owl_moved, Owl};
use crate::traj::{Traj, TrajCommand};
use crate::types::{Vec2I, Vector2D};
use crate::zako::Zako;

verus! {

/// Number of enemy slots: ten columns of seven rows, the last for enemies that never
/// join the formation.
pub const MAX_ENEMY_COUNT: usize = 70;

/// The slot of a formation index.
pub open spec fn array_index(fi: FormationIndex) -> int {
    fi.0 + fi.1 * 10
}

/// Whether a formation index has a slot.
pub open spec fn index_ok(fi: FormationIndex) -> bool {
    (fi.0 as int) < 10 && (fi.1 as int) <= 6
}

/// Tells whether a formation index has a slot.
pub fn index_ok_exec(fi: &FormationIndex) -> (b: bool)
    ensures
        b == index_ok(*fi),
{
    (fi.0 as usize) < 10 && (fi.1 as usize) <= 6
}

/// The slot of a formation index.
pub fn calc_array_index(fi: &FormationIndex) -> (i: usize)
    requires
        index_ok(*fi),
    ensures
        i == array_index(*fi),
        i < MAX_ENEMY_COUNT,
{
    (fi.0 as usize) + (fi.1 as usize) * 10
}

/// An enemy of any kind.
#[derive(Clone, Copy)]
pub enum Enemy {
    Zako(Zako),
    Owl(Owl),
}

/// A frame of the enemy `e0`, with the table `t0` and the events `ev0` before it, giving `e1`,
/// `t1` and `ev1`: a small enemy behaves by its state and moves; a boss behaves, moves, and
/// leads its escort.
pub open spec fn enemy_stepped(e0: Enemy, accessor: Accessor, formation: Formation, t0: Seq<Option<Enemy>>,
    ev0: Seq<EventType>, e1: Enemy, t1: Seq<Option<Enemy>>, ev1: Seq<EventType>) -> bool {
    &&& e1.base().formation_index == e0.base().formation_index
    &&& e1.base().enemy_type == e0.base().enemy_type
    &&& e0.is_zako() ==> t1 == t0
    &&& match (e0, e1) {
        (Enemy::Zako(z0), Enemy::Zako(z1)) => exists|b1: EnemyBase|
            #[trigger] zako_behaviour(z0.enemy_base, &accessor, &formation, ev0, b1, ev1)
            && z1.enemy_base == base_forwarded(b1),
        (Enemy::Owl(o0), Enemy::Owl(o1)) => exists|mid: Owl, tm: Seq<Option<Enemy>>| {
            &&& #[trigger] owl_behaviour(o0, &accessor, &formation, t0, ev0, mid, tm, ev1)
            &&& owl_moved(o0, mid, tm, o1, t1)
        },
        _ => false,
    }
}

impl Enemy {
    pub open spec fn base(&self) -> EnemyBase {
        match self {
            Enemy::Zako(z) => z.enemy_base,
            Enemy::Owl(o) => o.enemy_base,
        }
    }

    /// The same enemy with another base state.
    pub open spec fn with_base(self, b: EnemyBase) -> Enemy {
        match self {
            Enemy::Zako(z) => Enemy::Zako(Zako { enemy_base: b }),
            Enemy::Owl(o) => Enemy::Owl(Owl { enemy_base: b, ..o }),
        }
    }

    /// The enemy back in its slot, stopped and pointing within one turn.
    pub open spec fn formed(self) -> Enemy {
        let b = EnemyBase {
            speed: 0,
            angle: crate::math::normalized(self.base().angle as int) as i32,
            vangle: 0,
            state: EnemyState::Formation,
            ..self.base()
        };
        match self {
            Enemy::Zako(z) => Enemy::Zako(Zako { enemy_base: b }),
            Enemy::Owl(o) => Enemy::Owl(Owl {
                enemy_base: EnemyBase { disappeared: b.disappeared || o.life == 0, ..b },
                ..o
            }),
        }
    }

    pub open spec fn is_zako(&self) -> bool {
        match self {
            Enemy::Zako(_) => true,
            Enemy::Owl(_) => false,
        }
    }

    pub open spec fn wf(&self) -> bool {
        match self {
            Enemy::Zako(z) => z.wf(),
            Enemy::Owl(o) => o.wf(),
        }
    }

    /// Tells whether the enemy is within the bounds under which its frame runs.
    pub fn check_limits(&self) -> (b: bool)
        ensures
            b == self.base().limits_ok(),
    {
        match self {
            Enemy::Zako(z) => z.enemy_base.check_limits(),
            Enemy::Owl(o) => o.enemy_base.check_limits(),
        }
    }

    /// Starts an attack along a given path table.
    pub fn set_table_attack(&mut self, table: &'static [TrajCommand], flip_x: bool)
        requires
            old(self).wf(),
        ensures
            final(self).wf(),
            final(self).is_zako() == old(self).is_zako(),
            final(self).base().traj matches Some(t) && t.command_table == table && t.pos == old(self).base().pos
                && t.flip_x == flip_x && t.fi == old(self).base().formation_index && t.index == 0,
            final(self).base() == (EnemyBase {
                count: 0,
                attack_frame_count: 0,
                traj: final(self).base().traj,
                state: EnemyState::Attack(AttackPhase::Traj),
                ..old(self).base()
            }),
            *final(self) == old(self).with_base(final(self).base()),
    {
        match self {
            Enemy::Zako(z) => z.enemy_base.set_table_attack(table, flip_x),
            Enemy::Owl(o) => o.enemy_base.set_table_attack(table, flip_x),
        }
    }

    /// The state shared by every kind of enemy.
    pub fn enemy_base(&self) -> (b: EnemyBase)
        ensures
            b == self.base(),
    {
        match self {
            Enemy::Zako(z) => z.enemy_base,
            Enemy::Owl(o) => o.enemy_base,
        }
    }

    pub fn angle(&self) -> (a: i32)
        ensures
            a == self.base().angle,
    {
        match self {
            Enemy::Zako(z) => z.enemy_base.angle,
            Enemy::Owl(o) => o.enemy_base.angle,
        }
    }

    pub fn pos(&self) -> (p: Vec2I)
        ensures
            p == self.base().pos,
    {
        match self {
            Enemy::Zako(z) => z.enemy_base.pos,
            Enemy::Owl(o) => o.enemy_base.pos,
        }
    }

    pub fn set_pos(&mut self, pos: &Vec2I)
        ensures
            *final(self) == old(self).with_base(EnemyBase { pos: *pos, ..old(self).base() }),
            final(self).base() == (EnemyBase { pos: *pos, ..old(self).base() }),
            final(self).wf() == old(self).wf(),
            final(self).is_zako() == old(self).is_zako(),
    {
        match self {
            Enemy::Zako(z) => z.enemy_base.pos = *pos,
            Enemy::Owl(o) => o.enemy_base.pos = *pos,
        }
    }

    pub fn is_formation(&self) -> (b: bool)
        ensures
            b == (self.base().state == EnemyState::Formation),
    {
        match self {
            Enemy::Zako(z) => z.is_formation(),
            Enemy::Owl(o) => o.enemy_base.is_formation(),
        }
    }

    pub fn is_captured_fighter(&self) -> (b: bool)
        ensures
            b == (self.base().enemy_type == EnemyType::CapturedFighter),
    {
        match self {
            Enemy::Zako(z) => z.is_captured_fighter(),
            Enemy::Owl(o) => o.enemy_base.is_captured_fighter(),
        }
    }

    pub fn formation_index(&self) -> (fi: FormationIndex)
        ensures
            fi == self.base().formation_index,
    {
        match self {
            Enemy::Zako(z) => z.enemy_base.formation_index,
            Enemy::Owl(o) => o.enemy_base.formation_index,
        }
    }

    pub fn can_capture_attack(&self) -> (b: bool)
        ensures
            b == !self.is_zako(),
    {
        match self {
            Enemy::Zako(_) => false,
            Enemy::Owl(_) => true,
        }
    }

    /// The hit box, if the enemy can be hit.
    pub fn get_collbox(&self) -> (c: Option<CollBox>)
        requires
            self.base().limits_ok(),
        ensures
            c == self.collbox_spec(),
    {
        match self {
            Enemy::Zako(z) => z.get_collbox(),
            Enemy::Owl(o) => o.get_collbox(),
        }
    }

    pub open spec fn collbox_spec(&self) -> Option<CollBox> {
        match self {
            Enemy::Zako(z) => Some(z.enemy_base.collbox_spec()),
            Enemy::Owl(o) => if o.life > 0 { Some(o.enemy_base.collbox_spec()) } else { None },
        }
    }

    /// Makes a small enemy a member of a boss's troop.
    pub fn set_to_troop(&mut self)
        requires
            old(self).is_zako(),
            old(self).wf(),
        ensures
            final(self).is_zako(),
            final(self).wf(),
            *final(self) == old(self).with_base(EnemyBase { state: EnemyState::Troop, ..old(self).base() }),
            final(self).base() == (EnemyBase { state: EnemyState::Troop, ..old(self).base() }),
    {
        match self {
            Enemy::Zako(z) => z.set_to_troop(),
            Enemy::Owl(_) => {},
        }
    }

    /// Moves a troop member along with its leader.
    pub fn update_troop(&mut self, add: &Vec2I, angle_opt: Option<i32>)
        requires
            crate::types::fits_i32(old(self).base().pos.x + add.x),
            crate::types::fits_i32(old(self).base().pos.y + add.y),
        ensures
            final(self).base().pos.x == old(self).base().pos.x + add.x,
            final(self).base().pos.y == old(self).base().pos.y + add.y,
            final(self).base().angle == match angle_opt { Some(a) => a, None => old(self).base().angle },
            (EnemyBase { pos: old(self).base().pos, angle: old(self).base().angle, ..final(self).base() }) == old(self).base(),
            *final(self) == old(self).with_base(final(self).base()),
            final(self).wf() == old(self).wf(),
            final(self).is_zako() == old(self).is_zako(),
    {
        match self {
            Enemy::Zako(z) => z.update_troop(add, angle_opt),
            Enemy::Owl(o) => o.enemy_base.update_troop(add, angle_opt),
        }
    }

    /// Puts the enemy back into its formation slot.
    pub fn set_to_formation(&mut self)
        requires
            old(self).wf(),
        ensures
            final(self).wf(),
            final(self).base().state == EnemyState::Formation,
            final(self).base().formation_index == old(self).base().formation_index,
            final(self).base().enemy_type == old(self).base().enemy_type,
            final(self).base().pos == old(self).base().pos,
            final(self).is_zako() == old(self).is_zako(),
            *final(self) == old(self).formed(),
    {
        match self {
            Enemy::Zako(z) => z.set_to_formation(),
            Enemy::Owl(o) => o.set_to_formation(),
        }
    }
}

impl Enemy {
    /// Whether a frame of the enemy can run: its numbers are within bounds, and an enemy
    /// that heads for or rests in the formation has a slot there.
    pub open spec fn frame_ready(&self) -> bool {
        &&& self.base().frame_ok()
        &&& (self.base().state == EnemyState::MoveToFormation || self.base().state == EnemyState::Formation)
            ==> slot_ok(self.base().formation_index)
    }

    /// Tells whether a frame of the enemy can run.
    pub fn check_frame(&self) -> (b: bool)
        ensures
            b == self.frame_ready(),
    {
        let base = match self {
            Enemy::Zako(z) => &z.enemy_base,
            Enemy::Owl(o) => &o.enemy_base,
        };
        if !base.check_limits() || base.attack_frame_count + 1 >= 0x1000_0000 {
            return false;
        }
        if base.state == EnemyState::MoveToFormation || base.state == EnemyState::Formation {
            (base.formation_index.0 as usize) < crate::formation::X_COUNT
                && (base.formation_index.1 as usize) < crate::formation::Y_COUNT
        } else {
            true
        }
    }

    /// Runs one frame of the enemy; tells whether it stays.
    pub fn update(&mut self, accessor: &Accessor, formation: &Formation, table: &mut Vec<Option<Enemy>>,
        events: &mut Vec<EventType>) -> (alive: bool)
        requires
            old(self).wf(),
            old(self).frame_ready(),
            accessor.wf(),
            formation.wf(),
            table_wf(old(table)@),
        ensures
            final(self).wf(),
            table_wf(final(table)@),
            alive == !final(self).base().disappeared,
            final(self).base().formation_index == old(self).base().formation_index,
            final(self).base().enemy_type == old(self).base().enemy_type,
            final(self).is_zako() == old(self).is_zako(),
            old(self).is_zako() ==> final(table)@ == old(table)@,
            same_slots(old(table)@, final(table)@),
            enemy_stepped(*old(self), *accessor, *formation, old(table)@, old(events)@, *final(self), final(table)@,
                final(events)@),
    {
        match self {
            Enemy::Zako(z) => z.update(accessor, formation, events),
            Enemy::Owl(o) => o.update(accessor, formation, table, events),
        }
    }

    /// A hit by a shot of the given power.
    pub fn set_damage(&mut self, power: u32, table: &Vec<Option<Enemy>>, events: &mut Vec<EventType>,
        shot_pause: &mut u32) -> (r: DamageResult)
        requires
            old(self).wf(),
            table_wf(table@),
        ensures
            final(self).wf(),
            final(self).is_zako() == old(self).is_zako(),
            final(self).base().formation_index == old(self).base().formation_index,
            final(self).base() == old(self).base(),
            old(self).is_zako() ==> {
                &&& r == (DamageResult {
                    killed: true,
                    point: zako_point(old(self).base().enemy_type, old(self).base().state == EnemyState::Formation),
                })
                &&& *final(self) == *old(self)
                &&& *final(shot_pause) == *old(shot_pause)
            },
            *old(self) matches Enemy::Zako(z) ==> crate::zako::zako_damaged(z, old(events)@, final(events)@, r),
            *old(self) matches Enemy::Owl(o0) ==> (*final(self) matches Enemy::Owl(o1)
                && crate::owl::owl_damaged(o0, o1, power, table@, old(events)@, final(events)@,
                    *old(shot_pause), *final(shot_pause), r)),
    {
        match self {
            Enemy::Zako(z) => z.set_damage(power, events),
            Enemy::Owl(o) => o.set_damage(power, table, events, shot_pause),
        }
    }

    /// Starts an attack of the enemy's kind; only a boss makes a capture attack.
    pub fn set_attack(&mut self, capture_attack: bool, accessor: &Accessor, table: &mut Vec<Option<Enemy>>,
        events: &mut Vec<EventType>)
        requires
            old(self).wf(),
            table_wf(old(table)@),
        ensures
            final(self).wf(),
            table_wf(final(table)@),
            final(self).is_zako() == old(self).is_zako(),
            final(self).base().formation_index == old(self).base().formation_index,
            final(self).base().state matches EnemyState::Attack(_),
            old(self).base().limits_ok() && slot_ok(old(self).base().formation_index) && accessor.wf()
                ==> final(self).base().limits_ok(),
            final(events)@ == old(events)@.push(EventType::PlaySe(crate::consts::CH_JINGLE,
                crate::consts::SoundEffect::AttackStart)),
            old(self).is_zako() ==> final(table)@ == old(table)@,
            same_slots(old(table)@, final(table)@),
    {
        match self {
            Enemy::Zako(z) => z.set_attack(capture_attack, events),
            Enemy::Owl(o) => o.set_attack(capture_attack, accessor, table, events),
        }
    }
}

/// A new enemy of a kind, at rest.
pub fn create_enemy(enemy_type: EnemyType, pos: &Vec2I, angle: i32, speed: i32, fi: &FormationIndex) -> (e: Enemy)
    ensures
        (enemy_type == EnemyType::Owl ==> 1 <= fi.0 <= 8 && 1 <= fi.1 <= 4) ==> e.wf(),
        e.is_zako() == (enemy_type != EnemyType::Owl),
        e.base() == EnemyBase::new_spec(enemy_type, *pos, angle, speed, *fi),
{
    match enemy_type {
        EnemyType::Owl => Enemy::Owl(Owl::new(pos, angle, speed, fi)),
        _ => Enemy::Zako(Zako::new(enemy_type, pos, angle, speed, fi)),
    }
}

/// A new enemy that flies in along a path.
pub fn create_appearance_enemy(enemy_type: EnemyType, pos: &Vec2I, angle: i32, speed: i32, fi: &FormationIndex,
    traj: Traj) -> (e: Enemy)
    ensures
        (enemy_type == EnemyType::Owl ==> 1 <= fi.0 <= 8 && 1 <= fi.1 <= 4) ==> e.wf(),
        e.is_zako() == (enemy_type != EnemyType::Owl),
        e.base() == (EnemyBase {
            traj: Some(traj),
            state: EnemyState::Appearance,
            ..EnemyBase::new_spec(enemy_type, *pos, angle, speed, *fi)
        }),
{
    match enemy_type {
        EnemyType::Owl => {
            let mut owl = Owl::new(pos, angle, speed, fi);
            owl.enemy_base.traj = Some(traj);
            owl.enemy_base.set_state(EnemyState::Appearance);
            Enemy::Owl(owl)
        },
        _ => {
            let mut zako = Zako::new(enemy_type, pos, angle, speed, fi);
            zako.enemy_base.traj = Some(traj);
            zako.enemy_base.set_state(EnemyState::Appearance);
            Enemy::Zako(zako)
        },
    }
}

/// The sprite of an enemy for an animation frame (0 or 1); a destroyed boss shows none,
/// and a damaged one shows its second pair of sprites.
pub fn enemy_sprite(e: &Enemy, pat: usize) -> (s: Option<&'static str>)
    requires
        pat < 2,
    ensures
        s.is_none() <==> (*e matches Enemy::Owl(o) && o.life == 0),
        *e matches Enemy::Zako(z) && z.enemy_base.enemy_type == EnemyType::Bee
            ==> s == Some(if pat == 0 { "gopher1" } else { "gopher2" }),
        *e matches Enemy::Zako(z) && z.enemy_base.enemy_type == EnemyType::Butterfly
            ==> s == Some(if pat == 0 { "dman1" } else { "dman2" }),
        *e matches Enemy::Zako(z) && z.enemy_base.enemy_type == EnemyType::CapturedFighter
            ==> s == Some("rustacean_captured"),
        *e matches Enemy::Owl(o) && o.life >= 2 ==> s == Some(if pat == 0 { "cpp11" } else { "cpp12" }),
        *e matches Enemy::Owl(o) && o.life == 1 ==> s == Some(if pat == 0 { "cpp21" } else { "cpp22" }),
{
    match e {
        Enemy::Zako(z) => match z.enemy_base.enemy_type {
            EnemyType::Bee => Some(if pat == 0 { "gopher1" } else { "gopher2" }),
            EnemyType::Butterfly => Some(if pat == 0 { "dman1" } else { "dman2" }),
            _ => Some("rustacean_captured"),
        },
        Enemy::Owl(o) => {
            if o.life == 0 {
                None
            } else if o.life <= 1 {
                Some(if pat == 0 { "cpp21" } else { "cpp22" })
            } else {
                Some(if pat == 0 { "cpp11" } else { "cpp12" })
            }
        },
    }
}

/// A table of enemies by slot: each enemy sits in the slot of its formation index.
pub open spec fn table_wf(t: Seq<Option<Enemy>>) -> bool {
    &&& t.len() == MAX_ENEMY_COUNT
    &&& forall|i: int| 0 <= i < t.len() ==> (#[trigger] t[i] matches Some(e) ==> {
        &&& e.wf()
        &&& e.base().limits_ok()
        &&& index_ok(e.base().formation_index)
        &&& array_index(e.base().formation_index) == i
    })
}

/// The enemy in the slot of a formation index.
pub open spec fn enemy_at(t: Seq<Option<Enemy>>, fi: FormationIndex) -> Option<Enemy> {
    t[array_index(fi)]
}

/// The enemy in the slot of a formation index.
pub fn get_enemy_at(table: &Vec<Option<Enemy>>, fi: &FormationIndex) -> (e: Option<Enemy>)
    requires
        table@.len() == MAX_ENEMY_COUNT,
        index_ok(*fi),
    ensures
        e == enemy_at(table@, *fi),
{
    let i = calc_array_index(fi);
    table[i]
}


/// An enemy moved along with its leader.
pub open spec fn moved(e: Enemy, add: Vec2I, angle_opt: Option<i32>) -> Enemy {
    e.with_base(EnemyBase {
        pos: Vector2D { x: (e.base().pos.x + add.x) as i32, y: (e.base().pos.y + add.y) as i32 },
        angle: match angle_opt { Some(a) => a, None => e.base().angle },
        ..e.base()
    })
}

/// A troop member moved with its leader, unless that would take it out of bounds.
pub open spec fn move_fn(add: Vec2I, angle_opt: Option<i32>) -> spec_fn(Enemy) -> Option<Enemy> {
    |e: Enemy| {
        let m = moved(e, add, angle_opt);
        if m.base().limits_ok() { Some(m) } else { None }
    }
}

/// A troop member sent back to its slot.
pub open spec fn to_formation_fn() -> spec_fn(Enemy) -> Option<Enemy> {
    |e: Enemy| Some(e.formed())
}

/// A small enemy made a troop member.
pub open spec fn to_troop_fn() -> spec_fn(Enemy) -> Option<Enemy> {
    |e: Enemy| if e.is_zako() { Some(e.with_base(EnemyBase { state: EnemyState::Troop, ..e.base() })) } else { None }
}

/// The table after the enemy in a slot, if any, goes through `f`; `None` from `f` leaves it.
pub open spec fn change_at(t: Seq<Option<Enemy>>, fi: FormationIndex, f: spec_fn(Enemy) -> Option<Enemy>) -> Seq<Option<Enemy>> {
    match t[array_index(fi)] {
        Some(e) => match f(e) {
            Some(e2) => t.update(array_index(fi), Some(e2)),
            None => t,
        },
        None => t,
    }
}

/// The table after the enemies in the slots of a troop go through `f`, in order.
pub open spec fn change_troops(t: Seq<Option<Enemy>>, troops: Seq<Option<FormationIndex>>, f: spec_fn(Enemy) -> Option<Enemy>) -> Seq<Option<Enemy>>
    decreases troops.len(),
{
    if troops.len() == 0 {
        t
    } else {
        let t1 = change_troops(t, troops.drop_last(), f);
        match troops.last() {
            Some(fi) => change_at(t1, fi, f),
            None => t1,
        }
    }
}

/// Moves the enemy in a slot along with its leader, unless it would leave the bounds.
pub fn move_enemy_at(table: &mut Vec<Option<Enemy>>, fi: &FormationIndex, add: &Vec2I, angle_opt: Option<i32>)
    requires
        table_wf(old(table)@),
        index_ok(*fi),
        -0x1000_0000 <= add.x <= 0x1000_0000,
        -0x1000_0000 <= add.y <= 0x1000_0000,
    ensures
        final(table)@ == change_at(old(table)@, *fi, move_fn(*add, angle_opt)),
        table_wf(final(table)@),
        same_slots(old(table)@, final(table)@),
{
    let i = calc_array_index(fi);
    if let Some(e) = table[i] {
        let mut m = e;
        m.update_troop(add, angle_opt);
        assert(m == moved(e, *add, angle_opt));
        if m.check_limits() {
            table.set(i, Some(m));
        }
    }
}

/// Sends the enemy in a slot, if any, back to its place in the formation.
pub fn form_enemy_at(table: &mut Vec<Option<Enemy>>, fi: &FormationIndex)
    requires
        table_wf(old(table)@),
        index_ok(*fi),
    ensures
        final(table)@ == change_at(old(table)@, *fi, to_formation_fn()),
        table_wf(final(table)@),
        same_slots(old(table)@, final(table)@),
{
    let i = calc_array_index(fi);
    if let Some(e) = table[i] {
        let mut m = e;
        m.set_to_formation();
        assert(0 <= crate::math::normalized(e.base().angle as int) < 0x1_0000);
        table.set(i, Some(m));
    }
}

/// Makes the small enemy in a slot, if any, a troop member.
pub fn enlist_enemy_at(table: &mut Vec<Option<Enemy>>, fi: &FormationIndex)
    requires
        table_wf(old(table)@),
        index_ok(*fi),
    ensures
        final(table)@ == change_at(old(table)@, *fi, to_troop_fn()),
        table_wf(final(table)@),
        same_slots(old(table)@, final(table)@),
{
    let i = calc_array_index(fi);
    if let Some(e) = table[i] {
        if let Enemy::Zako(_) = e {
            let mut m = e;
            m.set_to_troop();
            table.set(i, Some(m));
        }
    }
}

/// Whether two tables have enemies in the same slots.
pub open spec fn same_slots(t0: Seq<Option<Enemy>>, t1: Seq<Option<Enemy>>) -> bool {
    &&& t0.len() == t1.len()
    &&& forall|i: int| 0 <= i < t0.len() ==> (#[trigger] t1[i]).is_some() == t0[i].is_some()
}

/// Changing the enemies of a troop keeps every slot occupied or empty as it was.
pub proof fn lemma_change_troops_same_slots(t: Seq<Option<Enemy>>, troops: Seq<Option<FormationIndex>>,
    f: spec_fn(Enemy) -> Option<Enemy>)
    requires
        t.len() == MAX_ENEMY_COUNT,
        forall|k: int| 0 <= k < troops.len() ==> (#[trigger] troops[k] matches Some(fi) ==> index_ok(fi)),
    ensures
        same_slots(t, change_troops(t, troops, f)),
    decreases troops.len(),
{
    if troops.len() > 0 {
        assert forall|k: int| 0 <= k < troops.drop_last().len() implies
            (#[trigger] troops.drop_last()[k] matches Some(fi) ==> index_ok(fi)) by {
            assert(troops.drop_last()[k] == troops[k]);
        }
        lemma_change_troops_same_slots(t, troops.drop_last(), f);
        assert(troops[troops.len() - 1] == troops.last());
    }
}

} // verus!

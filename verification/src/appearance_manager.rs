use vstd::prelude::*;

use crate::enemy::{create_appearance_enemy, index_ok, Enemy};
use crate::enemy_base::{EnemyBase, EnemyState};
use crate::enemy_types::{EnemyType, FormationIndex};
use crate::math::ONE;
use crate::traj::{command_table1, command_table2, entry_path1, entry_path2, table_ok, Traj, TrajCommand};
use crate::types::{Vec2I, Vector2D};

verus! {

/// Number of units that fly in during a stage.
pub const UNIT_COUNT: u32 = 5;
/// Number of enemies in a unit.
pub const UNIT_SIZE: usize = 8;
/// Frames between two pairs of a unit.
pub const ORDER_INTERVAL: u32 = 5;

/// Columns of the formation slots in the order in which they are filled.
pub const ORDER_X: [u8; 40] = [
    4, 5, 4, 5, 4, 5, 4, 5,
    3, 4, 5, 6, 3, 6, 3, 6,
    8, 7, 8, 7, 1, 2, 1, 2,
    7, 6, 7, 6, 3, 2, 3, 2,
    9, 8, 9, 8, 0, 1, 0, 1,
];

/// Rows of the formation slots in the order in which they are filled.
pub const ORDER_Y: [u8; 40] = [
    2, 2, 3, 3, 4, 4, 5, 5,
    1, 1, 1, 1, 2, 2, 3, 3,
    2, 2, 3, 3, 2, 2, 3, 3,
    4, 4, 5, 5, 4, 4, 5, 5,
    4, 4, 5, 5, 4, 4, 5, 5,
];

/// The enemy kinds of a unit: the first for the first half of its slots.
pub open spec fn unit_enemy_type(i: int) -> EnemyType {
    if i == 0 { EnemyType::Butterfly }
    else if i == 1 { EnemyType::Bee }
    else if i == 2 { EnemyType::Owl }
    else if i <= 5 { EnemyType::Butterfly }
    else { EnemyType::Bee }
}

/// The enemy kinds of the units, two per unit.
pub fn enemy_type_table(i: u32) -> (t: EnemyType)
    ensures
        t == unit_enemy_type(i as int),
{
    if i == 0 { EnemyType::Butterfly }
    else if i == 1 { EnemyType::Bee }
    else if i == 2 { EnemyType::Owl }
    else if i <= 5 { EnemyType::Butterfly }
    else { EnemyType::Bee }
}

/// How a unit of a stage flies in: the entry pattern, the path table and whether it is
/// mirrored. Four stage kinds repeat. Path table 3 has no commands of its own in this
/// library: its units fly the first entry path.
pub open spec fn unit_entry(stage: int, unit: int) -> (int, int, bool) {
    let s = stage % 4;
    if s == 0 {
        if unit == 0 { (0, 1, false) } else if unit == 1 { (1, 2, false) } else if unit == 2 { (1, 2, true) }
        else if unit == 3 { (2, 1, false) } else { (2, 1, true) }
    } else if s == 1 {
        if unit == 0 { (0, 3, true) } else if unit == 1 { (3, 2, false) } else if unit == 2 { (3, 2, true) }
        else if unit == 3 { (3, 1, false) } else { (3, 1, true) }
    } else if s == 2 {
        if unit == 0 { (0, 1, false) } else if unit == 1 { (0, 2, true) } else if unit == 2 { (0, 2, false) }
        else { (0, 1, false) }
    } else {
        if unit == 0 { (0, 3, true) } else if unit == 1 { (3, 2, false) } else if unit == 2 { (3, 2, true) }
        else if unit == 3 { (3, 3, false) } else { (3, 3, true) }
    }
}

/// The `k`th order of a unit under an entry pattern: the index into the slot order, the
/// kind (0 or 1) within the unit, the x offset of the path, whether the path is mirrored,
/// and the frame of appearance.
pub open spec fn order_entry(pat: int, flip: bool, unit: int, k: int) -> (int, int, int, bool, int) {
    let c = k / 2;
    let odd = k % 2 == 1;
    let f = if flip { 1int } else { 0int };
    if pat == 0 {
        if !odd {
            (unit * 8 + c + f * 4, f, 8 * ONE as int, true, c * 5)
        } else {
            (unit * 8 + c + (1 - f) * 4, 1 - f, 8 * ONE as int, false, c * 5)
        }
    } else if pat == 1 {
        (unit * 8 + c + (k % 2) * 4, k % 2, 8 * ONE as int, flip, k * 5)
    } else if pat == 2 {
        (unit * 8 + k, k % 2, 0, flip, k * 5)
    } else {
        if !odd {
            (unit * 8 + c + f * 4, f, 8 * ONE as int, flip, c * 5)
        } else {
            (unit * 8 + c + (1 - f) * 4, 1 - f, -8 * ONE as int, flip, c * 5)
        }
    }
}

/// One enemy to fly in: when, what, where to, and along which path.
#[derive(Clone, Copy, Debug)]
pub struct Info {
    pub time: u32,
    pub enemy_type: EnemyType,
    pub fi: FormationIndex,
    pub offset: Vec2I,
    pub flip_x: bool,
    pub traj_table: &'static [TrajCommand],
}

impl Info {
    pub fn new(time: u32, enemy_type: EnemyType, fi: FormationIndex, offset: Vec2I, flip_x: bool,
        traj_table: &'static [TrajCommand]) -> (i: Self)
        ensures
            i == (Info { time, enemy_type, fi, offset, flip_x, traj_table }),
    {
        Self { time, enemy_type, fi, offset, flip_x, traj_table }
    }

    /// Whether the order can make its enemy.
    pub open spec fn wf(&self) -> bool {
        &&& table_ok(self.traj_table@)
        &&& self.offset.x != i32::MIN
        &&& index_ok(self.fi)
        &&& self.enemy_type == EnemyType::Owl ==> 1 <= self.fi.0 <= 8 && 1 <= self.fi.1 <= 4
    }

    /// Whether the order is the `k`th of the given unit of the given stage.
    pub open spec fn is_order(&self, stage: int, unit: int, k: int) -> bool {
        let (pat, table, flip) = unit_entry(stage, unit);
        let (idx, kind, dx, fx, time) = order_entry(pat, flip, unit, k);
        &&& self.traj_table@ == if table == 2 { entry_path2() } else { entry_path1() }
        &&& self.time == time
        &&& self.enemy_type == unit_enemy_type(unit * 2 + kind)
        &&& self.fi == FormationIndex(ORDER_X@[idx], ORDER_Y@[idx])
        &&& self.offset == (Vector2D { x: dx as i32, y: 0i32 })
        &&& self.flip_x == fx
    }
}

/// The frame in which the `k`th order of a unit of a stage appears.
pub open spec fn order_time(stage: int, unit: int, k: int) -> int {
    let (pat, _table, flip) = unit_entry(stage, unit);
    order_entry(pat, flip, unit, k).4
}

/// Whether an enemy is the one that the `k`th order of a unit of a stage makes.
pub open spec fn born_matches(b: EnemyBase, stage: int, unit: int, k: int) -> bool {
    let (pat, table, flip) = unit_entry(stage, unit);
    let (idx, kind, dx, fx, time) = order_entry(pat, flip, unit, k);
    &&& b.enemy_type == unit_enemy_type(unit * 2 + kind)
    &&& b.formation_index == FormationIndex(ORDER_X@[idx], ORDER_Y@[idx])
    &&& b.state == EnemyState::Appearance
    &&& b.pos == (Vector2D { x: 0i32, y: 0i32 })
    &&& b.traj matches Some(t) && t.flip_x == fx && t.fi == b.formation_index && t.index == 0
        && t.command_table@ == if table == 2 { entry_path2() } else { entry_path1() }
}

/// One frame of sending a unit, from `m0` to `m1`, with `enemies` on the field: the manager
/// waits for the field to come to rest and then for its countdown; after the last unit it is
/// done; otherwise it gives the enemies whose orders fall due in this frame, in order, and
/// all of them.
pub open spec fn appearance_step(m0: AppearanceManager, m1: AppearanceManager, enemies: Seq<Option<Enemy>>,
    r: Option<Vec<Enemy>>) -> bool {
    if m0.wait_stationary && !stationary(enemies) {
        r.is_none() && m1 == m0
    } else if m0.wait > 0 {
        r.is_none() && m1 == (AppearanceManager { wait_stationary: false, wait: (m0.wait - 1) as u32, ..m0 })
    } else if m0.unit >= UNIT_COUNT {
        r.is_none() && m1.done
    } else {
        let fresh = m0.next >= m0.orders@.len();
        let start = if fresh { 0 } else { m0.next as int };
        let t = if fresh { 0 } else { m0.time as int };
        &&& r matches Some(v)
        &&& forall|i: int| 0 <= i < v@.len() ==> born_matches(#[trigger] v@[i].base(), m0.stage as int,
            m0.unit as int, start + i) && order_time(m0.stage as int, m0.unit as int, start + i) == t
        &&& start + v@.len() < UNIT_SIZE ==> order_time(m0.stage as int, m0.unit as int, start + v@.len()) != t
        &&& m1.unit == m0.unit || m1.unit == m0.unit + 1
        &&& !m1.done
    }
}

/// Sends the units of enemies of a stage into the field, one unit after the other.
pub struct AppearanceManager {
    pub stage: u32,
    pub wait_stationary: bool,
    pub wait: u32,
    pub unit: u32,
    pub time: u32,
    pub done: bool,
    pub orders: Vec<Info>,
    pub next: usize,
}

impl AppearanceManager {
    /// The orders of the current unit are in time order and can all make their enemies.
    pub open spec fn wf(&self) -> bool {
        &&& self.unit <= UNIT_COUNT
        &&& self.next <= self.orders@.len() <= UNIT_SIZE
        &&& self.orders@.len() == 0 || (self.orders@.len() == UNIT_SIZE && self.unit < UNIT_COUNT)
        &&& forall|i: int| 0 <= i < self.orders@.len() ==> (#[trigger] self.orders@[i]).is_order(
            self.stage as int, self.unit as int, i)
        &&& self.wait <= 10
        &&& self.time <= 40
        &&& forall|i: int| 0 <= i < self.orders@.len() ==> (#[trigger] self.orders@[i]).wf()
        &&& forall|i: int| 0 <= i < self.orders@.len() ==> (#[trigger] self.orders@[i]).time <= 35
        &&& forall|i: int, j: int| 0 <= i <= j < self.orders@.len() ==> self.orders@[i].time <= self.orders@[j].time
        &&& self.next < self.orders@.len() ==> self.time <= self.orders@[self.next as int].time
    }

    pub fn new(stage: u32) -> (m: Self)
        ensures
            m.wf(),
            m.stage == stage,
            m.done,
            !m.wait_stationary,
            m.wait == 0,
            m.unit == 0,
            m.time == 0,
            m.orders@.len() == 0,
    {
        Self {
            stage,
            wait_stationary: false,
            wait: 0,
            unit: 0,
            time: 0,
            done: true,
            orders: Vec::new(),
            next: 0,
        }
    }

    /// Starts sending the units of a stage.
    pub fn restart(&mut self, stage: u32)
        ensures
            final(self).wf(),
            final(self).stage == stage,
            !final(self).done,
            !final(self).wait_stationary,
            final(self).wait == 0,
            final(self).unit == 0,
            final(self).time == 0,
            final(self).orders@.len() == 0,
    {
        *self = Self::new(stage);
        self.done = false;
        self.orders.clear();
    }

    /// Runs one frame; gives the enemies that appear in it, if this frame sends any.
    pub fn update(&mut self, enemies: &Vec<Option<Enemy>>) -> (r: Option<Vec<Enemy>>)
        requires
            old(self).wf(),
        ensures
            final(self).wf(),
            old(self).done ==> r.is_none() && *final(self) == *old(self),
            !old(self).done ==> appearance_step(*old(self), *final(self), enemies@, r),
            r matches Some(v) ==> forall|i: int| 0 <= i < v@.len() ==> (#[trigger] v@[i]).wf(),
            final(self).stage == old(self).stage,
            old(self).done ==> final(self).done,
    {
        if self.done {
            return None;
        }
        self.update_main(enemies)
    }

    fn update_main(&mut self, enemies: &Vec<Option<Enemy>>) -> (r: Option<Vec<Enemy>>)
        requires
            old(self).wf(),
            !old(self).done,
        ensures
            final(self).wf(),
            final(self).stage == old(self).stage,
            appearance_step(*old(self), *final(self), enemies@, r),
            r matches Some(v) ==> forall|i: int| 0 <= i < v@.len() ==> (#[trigger] v@[i]).wf(),
            final(self).done ==> r.is_none(),
    {
        if self.wait_stationary {
            if !is_stationary(enemies) {
                return None;
            }
            self.wait_stationary = false;
        }
        if self.wait > 0 {
            self.wait -= 1;
            return None;
        }
        if self.unit >= UNIT_COUNT {
            self.done = true;
            return None;
        }

        if self.next >= self.orders.len() {
            self.set_orders();
            self.next = 0;
            self.time = 0;
            proof {
                let (pat, _t, flip) = unit_entry(self.stage as int, self.unit as int);
                assert(order_entry(pat, flip, self.unit as int, 0).4 == 0);
                assert(self.orders@[0].is_order(self.stage as int, self.unit as int, 0));
                assert(self.wf());
            }
        }
        if self.next >= self.orders.len() {
            self.done = true;
            return None;
        }

        if self.orders[self.next].time < self.time {
            return None;
        }

        let new_borns = if self.orders[self.next].time == self.time { self.emit() } else { Vec::new() };
        self.finish_frame();
        Some(new_borns)
    }

    /// Makes the enemies of the orders due in the current frame.
    fn emit(&mut self) -> (v: Vec<Enemy>)
        requires
            old(self).wf(),
            old(self).next < old(self).orders@.len(),
            old(self).orders@[old(self).next as int].time == old(self).time,
        ensures
            final(self).wf(),
            *final(self) == (AppearanceManager { next: final(self).next, ..*old(self) }),
            old(self).next < final(self).next,
            final(self).next < final(self).orders@.len() ==> final(self).time < final(self).orders@[final(self).next as int].time,
            v@.len() == final(self).next - old(self).next,
            forall|i: int| 0 <= i < v@.len() ==> (#[trigger] v@[i]).wf(),
            forall|i: int| 0 <= i < v@.len() ==> born_matches(#[trigger] v@[i].base(), old(self).stage as int,
                old(self).unit as int, old(self).next + i)
                && order_time(old(self).stage as int, old(self).unit as int, old(self).next + i) == old(self).time,
    {
        let ghost start = self.next as int;
        let mut new_borns: Vec<Enemy> = Vec::new();
        while self.next < self.orders.len() && self.orders[self.next].time == self.time
            invariant
                self.wf(),
                *self == (AppearanceManager { next: self.next, ..*old(self) }),
                start == old(self).next,
                start < self.orders@.len(),
                self.orders@[start].time == self.time,
                start <= self.next <= self.orders@.len(),
                new_borns@.len() == self.next - start,
                forall|i: int| 0 <= i < new_borns@.len() ==> (#[trigger] new_borns@[i]).wf(),
                forall|i: int| 0 <= i < new_borns@.len() ==> born_matches(#[trigger] new_borns@[i].base(),
                    self.stage as int, self.unit as int, start + i)
                    && order_time(self.stage as int, self.unit as int, start + i) == self.time,
                forall|i: int| start <= i < self.next ==> #[trigger] self.orders@[i].time == self.time,
            decreases self.orders@.len() - self.next,
        {
            let p = self.orders[self.next];
            assert(p.is_order(self.stage as int, self.unit as int, self.next as int));
            let traj = Traj::new(p.traj_table, &p.offset, p.flip_x, p.fi);
            let enemy = create_appearance_enemy(p.enemy_type, &Vector2D::new(0, 0), 0, 0, &p.fi, traj);
            new_borns.push(enemy);
            self.next += 1;
        }
        proof {
            assert(self.next > start);
            assert(self.orders@[self.next - 1].time == self.time);
        }
        new_borns
    }

    /// Moves to the next frame, and to the next unit once all orders of this one are done.
    fn finish_frame(&mut self)
        requires
            old(self).wf(),
            old(self).orders@.len() > 0,
            old(self).next < old(self).orders@.len() ==> old(self).time < old(self).orders@[old(self).next as int].time,
        ensures
            final(self).wf(),
            final(self).stage == old(self).stage,
            final(self).done == old(self).done,
            if old(self).next >= old(self).orders@.len() {
                &&& final(self).orders@.len() == 0
                &&& final(self).unit == old(self).unit + 1
                &&& final(self).wait_stationary
                &&& final(self).wait == 10
                &&& final(self).time == 0
            } else {
                *final(self) == (AppearanceManager { time: (old(self).time + 1) as u32, ..*old(self) })
            },
    {
        self.time += 1;
        if self.next >= self.orders.len() {
            self.orders.clear();
            self.next = 0;

            self.unit += 1;
            self.wait_stationary = true;
            self.wait = 10;
            self.time = 0;
        }
    }

    /// Lays out the orders of the current unit.
    fn set_orders(&mut self)
        requires
            old(self).wf(),
            old(self).unit < UNIT_COUNT,
        ensures
            final(self).orders@.len() == UNIT_SIZE,
            forall|k: int| 0 <= k < UNIT_SIZE ==> (#[trigger] final(self).orders@[k]).is_order(
                old(self).stage as int, old(self).unit as int, k),
            forall|k: int| 0 <= k < UNIT_SIZE ==> (#[trigger] final(self).orders@[k]).wf(),
            forall|k: int| 0 <= k < UNIT_SIZE ==> (#[trigger] final(self).orders@[k]).time <= 35,
            forall|i: int, j: int| 0 <= i <= j < UNIT_SIZE ==> final(self).orders@[i].time <= final(self).orders@[j].time,
            (AppearanceManager { orders: old(self).orders, ..*final(self) }) == *old(self),
    {
        let unit = self.unit;
        let (pat, table_id, flip) = unit_entry_exec(self.stage, unit);
        let table = if table_id == 2 { command_table2() } else { command_table1() };
        let mut orders: Vec<Info> = Vec::new();
        let mut k: u32 = 0;
        while k < 8
            invariant
                k <= 8,
                unit < UNIT_COUNT,
                unit == self.unit,
                (pat as int, table_id as int, flip) == unit_entry(self.stage as int, unit as int),
                table_ok(table@),
                table@ == if table_id == 2 { entry_path2() } else { entry_path1() },
                orders@.len() == k,
                forall|j: int| 0 <= j < k ==> (#[trigger] orders@[j]).is_order(self.stage as int, unit as int, j),
                forall|j: int| 0 <= j < k ==> (#[trigger] orders@[j]).wf(),
                forall|j: int| 0 <= j < k ==> (#[trigger] orders@[j]).time == (if pat == 0 || pat == 3 { (j / 2) * 5 } else { j * 5 }),
            decreases 8 - k,
        {
            let (idx, kind, dx, fx, time) = order_entry_exec(pat, flip, unit, k);
            proof { lemma_order_slot(self.stage as int, unit as int, k as int); }
            let enemy_type = enemy_type_table(unit * 2 + kind);
            let fi = FormationIndex(ORDER_X[idx as usize], ORDER_Y[idx as usize]);
            orders.push(Info::new(time, enemy_type, fi, Vector2D::new(dx, 0), fx, table));
            k += 1;
        }
        self.orders = orders;
    }
}

/// Whether every enemy on the field rests in the formation.
pub open spec fn stationary(enemies: Seq<Option<Enemy>>) -> bool {
    forall|i: int| 0 <= i < enemies.len() ==> (#[trigger] enemies[i] matches Some(e) ==> e.base().state == EnemyState::Formation)
}

/// Tells whether every enemy on the field rests in the formation.
pub fn is_stationary(enemies: &Vec<Option<Enemy>>) -> (b: bool)
    ensures
        b == stationary(enemies@),
{
    let mut i: usize = 0;
    while i < enemies.len()
        invariant
            i <= enemies@.len(),
            forall|k: int| 0 <= k < i ==> (#[trigger] enemies@[k] matches Some(e) ==> e.base().state == EnemyState::Formation),
        decreases enemies@.len() - i,
    {
        if let Some(e) = &enemies[i] {
            if !(e.is_formation()) {
                return false;
            }
        }
        i += 1;
    }
    true
}

/// How a unit of a stage flies in.
pub fn unit_entry_exec(stage: u32, unit: u32) -> (r: (u32, u32, bool))
    requires
        unit < UNIT_COUNT,
    ensures
        (r.0 as int, r.1 as int, r.2) == unit_entry(stage as int, unit as int),
{
    let s = stage % 4;
    if s == 0 {
        if unit == 0 { (0, 1, false) } else if unit == 1 { (1, 2, false) } else if unit == 2 { (1, 2, true) }
        else if unit == 3 { (2, 1, false) } else { (2, 1, true) }
    } else if s == 1 {
        if unit == 0 { (0, 3, true) } else if unit == 1 { (3, 2, false) } else if unit == 2 { (3, 2, true) }
        else if unit == 3 { (3, 1, false) } else { (3, 1, true) }
    } else if s == 2 {
        if unit == 0 { (0, 1, false) } else if unit == 1 { (0, 2, true) } else if unit == 2 { (0, 2, false) }
        else { (0, 1, false) }
    } else {
        if unit == 0 { (0, 3, true) } else if unit == 1 { (3, 2, false) } else if unit == 2 { (3, 2, true) }
        else if unit == 3 { (3, 3, false) } else { (3, 3, true) }
    }
}

/// The `k`th order of a unit under an entry pattern.
pub fn order_entry_exec(pat: u32, flip: bool, unit: u32, k: u32) -> (r: (u32, u32, i32, bool, u32))
    requires
        pat <= 3,
        unit < UNIT_COUNT,
        k < 8,
    ensures
        (r.0 as int, r.1 as int, r.2 as int, r.3, r.4 as int) == order_entry(pat as int, flip, unit as int, k as int),
{
    let c = k / 2;
    let odd = k % 2 == 1;
    let f: u32 = if flip { 1 } else { 0 };
    if pat == 0 {
        if !odd {
            (unit * 8 + c + f * 4, f, 8 * ONE, true, c * 5)
        } else {
            (unit * 8 + c + (1 - f) * 4, 1 - f, 8 * ONE, false, c * 5)
        }
    } else if pat == 1 {
        (unit * 8 + c + (k % 2) * 4, k % 2, 8 * ONE, flip, k * 5)
    } else if pat == 2 {
        (unit * 8 + k, k % 2, 0, flip, k * 5)
    } else {
        if !odd {
            (unit * 8 + c + f * 4, f, 8 * ONE, flip, c * 5)
        } else {
            (unit * 8 + c + (1 - f) * 4, 1 - f, -8 * ONE, flip, c * 5)
        }
    }
}

/// The slot that the `k`th order of a unit of a stage fills.
pub open spec fn order_slot(stage: int, unit: int, k: int) -> FormationIndex {
    let (pat, _t, flip) = unit_entry(stage, unit);
    let idx = order_entry(pat, flip, unit, k).0;
    FormationIndex(ORDER_X@[idx], ORDER_Y@[idx])
}

/// No two entries of the order table name the same slot.
pub proof fn lemma_order_table_distinct(i: int, j: int)
    requires
        0 <= i < 40,
        0 <= j < 40,
        i != j,
    ensures
        ORDER_X@[i] != ORDER_X@[j] || ORDER_Y@[i] != ORDER_Y@[j],
{
    assert(ORDER_X@ == seq![4u8, 5, 4, 5, 4, 5, 4, 5, 3, 4, 5, 6, 3, 6, 3, 6, 8, 7, 8, 7, 1, 2, 1, 2,
        7, 6, 7, 6, 3, 2, 3, 2, 9, 8, 9, 8, 0, 1, 0, 1]);
    assert(ORDER_Y@ == seq![2u8, 2, 3, 3, 4, 4, 5, 5, 1, 1, 1, 1, 2, 2, 3, 3, 2, 2, 3, 3, 2, 2, 3, 3,
        4, 4, 5, 5, 4, 4, 5, 5, 4, 4, 5, 5, 4, 4, 5, 5]);
}

/// A stage sends each of its forty slots exactly once: two different orders, of the same unit
/// or of two units, fill different slots, and every entry of the order table is sent by some
/// order of some unit.
pub proof fn lemma_stage_sends_each_slot_once(stage: int, u1: int, k1: int, u2: int, k2: int, i: int)
    requires
        0 <= u1 < UNIT_COUNT,
        0 <= u2 < UNIT_COUNT,
        0 <= k1 < UNIT_SIZE,
        0 <= k2 < UNIT_SIZE,
        0 <= i < 40,
    ensures
        (u1, k1) != (u2, k2) ==> order_slot(stage, u1, k1) != order_slot(stage, u2, k2),
        exists|u: int, k: int| 0 <= u < UNIT_COUNT && 0 <= k < UNIT_SIZE
            && #[trigger] order_entry(unit_entry(stage, u).0, unit_entry(stage, u).2, u, k).0 == i,
{
    lemma_order_slot(stage, u1, k1);
    lemma_order_slot(stage, u2, k2);
    let (p1, _t1, f1) = unit_entry(stage, u1);
    let (p2, _t2, f2) = unit_entry(stage, u2);
    let i1 = order_entry(p1, f1, u1, k1).0;
    let i2 = order_entry(p2, f2, u2, k2).0;
    if (u1, k1) != (u2, k2) {
        assert(i1 != i2);
        lemma_order_table_distinct(i1, i2);
    }
    let u = i / 8;
    let r = i % 8;
    let (p, _t, f) = unit_entry(stage, u);
    let fi: int = if f { 1 } else { 0 };
    let k: int = if p == 2 {
        r
    } else if p == 1 {
        if r < 4 { 2 * r } else { 2 * (r - 4) + 1 }
    } else {
        if r < 4 { 2 * r + (if fi == 0 { 0int } else { 1int }) } else { 2 * (r - 4) + (if fi == 0 { 1int } else { 0int }) }
    };
    lemma_order_slot(stage, u, k);
    assert(order_entry(unit_entry(stage, u).0, unit_entry(stage, u).2, u, k).0 == i);
}

/// Every order of every unit names a slot of the order table, and a boss always lands in
/// a slot from which it can lead a troop.
pub proof fn lemma_order_slot(stage: int, unit: int, k: int)
    requires
        0 <= unit < 5,
        0 <= k < 8,
    ensures
        ({
            let (pat, _t, flip) = unit_entry(stage, unit);
            let (idx, kind, dx, fx, time) = order_entry(pat, flip, unit, k);
            &&& 0 <= pat <= 3
            &&& unit * 8 <= idx < unit * 8 + 8
            &&& 0 <= kind <= 1
            &&& unit_enemy_type(unit * 2 + kind) == EnemyType::Owl ==> 8 <= idx < 12
            &&& ORDER_X@[idx] < 10 && ORDER_Y@[idx] <= 6
            &&& unit_enemy_type(unit * 2 + kind) == EnemyType::Owl ==> 1 <= ORDER_X@[idx] <= 8 && 1 <= ORDER_Y@[idx] <= 4
            &&& 0 <= time <= 35
            &&& dx != i32::MIN
        }),
{
    assert(forall|i: int| 0 <= i < 40 ==> #[trigger] ORDER_X@[i] < 10 && ORDER_Y@[i] <= 6);
    assert(forall|i: int| 8 <= i < 12 ==> 1 <= #[trigger] ORDER_X@[i] <= 8 && 1 <= ORDER_Y@[i] <= 4);
}

} // verus!

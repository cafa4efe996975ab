use vstd::prelude::*;

use crate::enemy::{same_slots, array_index, calc_array_index, enemy_at, index_ok, table_wf, Enemy, MAX_ENEMY_COUNT};
use crate::enemy_base::{slot_ok, EnemyState};
use crate::enemy_types::{Accessor, CaptureState, FormationIndex};
use crate::consts::{SoundEffect, CH_JINGLE};
use crate::events::EventType;
use crate::formation::{X_COUNT, Y_COUNT};
use crate::rng::{gen_index, seeded_rng, shuffle};

verus! {

/// Number of enemies that may attack at the same time.
pub const MAX_ATTACKER_COUNT: usize = 3;
/// Frames between two attack starts.
pub const ATTACK_WAIT: u32 = 30;

/// Whether the slot at column `j` of row `i` holds an enemy resting in the formation.
pub open spec fn in_formation(t: Seq<Option<Enemy>>, j: int, i: int) -> bool {
    t[j + i * 10] matches Some(e) && e.base().state == EnemyState::Formation
}

/// The leftmost and rightmost enemies resting in a row, if any.
pub open spec fn sides_ok(t: Seq<Option<Enemy>>, i: int, r: Option<(u8, u8)>) -> bool {
    match r {
        None => forall|j: int| 0 <= j < X_COUNT ==> !#[trigger] in_formation(t, j, i),
        Some((l, rr)) => {
            &&& (l as int) <= (rr as int) < X_COUNT
            &&& in_formation(t, l as int, i)
            &&& in_formation(t, rr as int, i)
            &&& forall|j: int| 0 <= j < l ==> !#[trigger] in_formation(t, j, i)
            &&& forall|j: int| rr < j < X_COUNT ==> !#[trigger] in_formation(t, j, i)
        },
    }
}

/// Whether the slot of a formation index holds an enemy resting in the formation.
pub open spec fn rests(t: Seq<Option<Enemy>>, fi: FormationIndex) -> bool {
    enemy_at(t, fi) matches Some(e) && e.base().state == EnemyState::Formation
}

/// An attacker kept after a check: one whose enemy is gone or back in the formation is forgotten.
pub open spec fn still_attacking(a: Option<FormationIndex>, table: Seq<Option<Enemy>>) -> Option<FormationIndex> {
    match a {
        Some(fi) => match enemy_at(table, fi) {
            Some(e) => if e.base().state == EnemyState::Formation { None } else { Some(fi) },
            None => None,
        },
        None => None,
    }
}

/// The first attacker place free after the check; `MAX_ATTACKER_COUNT` when none is.
pub open spec fn first_free(attackers: Seq<Option<FormationIndex>>, table: Seq<Option<Enemy>>) -> int {
    if still_attacking(attackers[0], table).is_none() {
        0
    } else if still_attacking(attackers[1], table).is_none() {
        1
    } else if still_attacking(attackers[2], table).is_none() {
        2
    } else {
        3
    }
}

/// No enemy is attacking.
pub open spec fn no_attacker(am: &AttackManager) -> bool {
    forall|i: int| 0 <= i < MAX_ATTACKER_COUNT ==> (#[trigger] am.attackers@[i]).is_none()
}

/// Whether the attack of the enemy picked in slot `fi` is a capture attack: it is a boss, it is
/// the turn of capture attacks, no capture is under way and the ship is not dual.
pub open spec fn capture_pick(table: Seq<Option<Enemy>>, fi: FormationIndex, cycle: u32, accessor: Accessor) -> bool {
    &&& enemy_at(table, fi).unwrap() is Owl
    &&& (cycle / 3) % 2 != 0
    &&& accessor.capture_state == CaptureState::NoCapture
    &&& accessor.dual_player_pos.is_none()
}

/// Picks the enemies that leave the formation to attack, a few at a time.
pub struct AttackManager {
    pub enable: bool,
    pub paused: bool,
    pub wait: u32,
    pub attackers: [Option<FormationIndex>; MAX_ATTACKER_COUNT],
    pub cycle: u32,
}

impl AttackManager {
    /// Every attacker names a slot.
    pub open spec fn wf(&self) -> bool {
        forall|i: int| 0 <= i < MAX_ATTACKER_COUNT ==> (#[trigger] self.attackers@[i] matches Some(fi) ==> index_ok(fi))
    }

    pub fn new() -> (m: Self)
        ensures
            m.wf(),
            !m.enable,
            !m.paused,
            m.wait == 0,
            m.cycle == 0,
            forall|i: int| 0 <= i < MAX_ATTACKER_COUNT ==> (#[trigger] m.attackers@[i]).is_none(),
    {
        Self { enable: false, paused: false, wait: 0, attackers: [None, None, None], cycle: 0 }
    }

    pub fn restart(&mut self, _stage: u16)
        ensures
            final(self).wf(),
            !final(self).enable,
            !final(self).paused,
            final(self).wait == 0,
            final(self).cycle == 0,
            forall|i: int| 0 <= i < MAX_ATTACKER_COUNT ==> (#[trigger] final(self).attackers@[i]).is_none(),
    {
        *self = Self::new();
    }

    pub fn set_enable(&mut self, value: bool)
        ensures
            *final(self) == (AttackManager { enable: value, ..*old(self) }),
    {
        self.enable = value;
    }

    pub fn pause(&mut self, value: bool)
        ensures
            *final(self) == (AttackManager { paused: value, ..*old(self) }),
    {
        self.paused = value;
    }

    /// Whether no enemy is attacking.
    pub fn is_no_attacker(&self) -> (b: bool)
        ensures
            b == forall|i: int| 0 <= i < MAX_ATTACKER_COUNT ==> (#[trigger] self.attackers@[i]).is_none(),
    {
        let mut i: usize = 0;
        while i < MAX_ATTACKER_COUNT
            invariant
                i <= MAX_ATTACKER_COUNT,
                forall|k: int| 0 <= k < i ==> (#[trigger] self.attackers@[k]).is_none(),
            decreases MAX_ATTACKER_COUNT - i,
        {
            if self.attackers[i].is_some() {
                return false;
            }
            i += 1;
        }
        true
    }

    /// Runs one frame: forgets attackers that are gone or back in the formation, then, once
    /// the wait is over and attacks are allowed, starts an attack if an attacker place is free.
    pub fn update(&mut self, accessor: &Accessor, table: &mut Vec<Option<Enemy>>, events: &mut Vec<EventType>)
        requires
            old(self).wf(),
            accessor.wf(),
            table_wf(old(table)@),
        ensures
            final(self).wf(),
            table_wf(final(table)@),
            same_slots(old(table)@, final(table)@),
            final(self).enable == old(self).enable,
            final(self).paused == old(self).paused,
            old(self).wait > 0 ==> final(self).wait == old(self).wait - 1 && final(table)@ == old(table)@
                && final(self).cycle == old(self).cycle && final(events)@ == old(events)@,
            old(self).wait == 0 && (!old(self).enable || old(self).paused) ==> final(self).wait == 0
                && final(table)@ == old(table)@ && final(self).cycle == old(self).cycle && final(events)@ == old(events)@,
            forall|i: int| 0 <= i < MAX_ATTACKER_COUNT ==> (#[trigger] final(self).attackers@[i] matches Some(fi)
                ==> old(self).attackers@[i] == Some(fi) || (final(table)@[array_index(fi)] matches Some(e)
                    && e.base().state is Attack)),
            old(self).wait > 0 || !old(self).enable || old(self).paused ==> forall|i: int| 0 <= i < MAX_ATTACKER_COUNT
                ==> #[trigger] final(self).attackers@[i] == still_attacking(old(self).attackers@[i], old(table)@),
            old(self).wait == 0 && old(self).enable && !old(self).paused ==> ({
                let live = |i: int| still_attacking(old(self).attackers@[i], old(table)@);
                let k = first_free(old(self).attackers@, old(table)@);
                if k < MAX_ATTACKER_COUNT {
                    &&& final(self).wait == ATTACK_WAIT
                    &&& final(self).cycle == old(self).cycle.wrapping_add(1)
                    &&& forall|i: int| 0 <= i < MAX_ATTACKER_COUNT && i != k ==> #[trigger] final(self).attackers@[i] == live(i)
                    &&& final(self).attackers@[k] matches Some(fi) ==> ({
                        &&& slot_ok(fi)
                        &&& rests(old(table)@, fi)
                        &&& old(self).cycle % 3 == 2 ==> fi.1 == 1 || accessor.captured_fighter_index == Some(fi)
                        &&& old(self).cycle % 3 != 2 ==> 2 <= fi.1 <= 5
                        &&& final(table)@[array_index(fi)] matches Some(e) && e.base().state is Attack
                        &&& final(events)@ == old(events)@.push(EventType::PlaySe(CH_JINGLE, SoundEffect::AttackStart))
                            + if capture_pick(old(table)@, fi, old(self).cycle, *accessor) {
                                seq![EventType::StartCaptureAttack(fi)]
                            } else {
                                Seq::<EventType>::empty()
                            }
                    })
                    &&& final(self).attackers@[k].is_none() ==> final(table)@ == old(table)@ && final(events)@ == old(events)@
                } else {
                    &&& final(self).wait == 0
                    &&& final(self).cycle == old(self).cycle
                    &&& final(table)@ == old(table)@
                    &&& final(events)@ == old(events)@
                    &&& forall|i: int| 0 <= i < MAX_ATTACKER_COUNT ==> #[trigger] final(self).attackers@[i] == live(i)
                }
            }),
    {
        self.check_liveness(table);

        if self.wait > 0 {
            self.wait -= 1;
            return;
        }

        if !self.enable || self.paused {
            return;
        }

        let mut slot: usize = 0;
        while slot < MAX_ATTACKER_COUNT && self.attackers[slot].is_some()
            invariant
                slot <= MAX_ATTACKER_COUNT,
                forall|i: int| 0 <= i < slot ==> (#[trigger] self.attackers@[i]).is_some(),
                forall|i: int| 0 <= i < MAX_ATTACKER_COUNT ==> #[trigger] self.attackers@[i]
                    == still_attacking(old(self).attackers@[i], old(table)@),
            decreases MAX_ATTACKER_COUNT - slot,
        {
            slot += 1;
        }
        assert(self.attackers@[0] == still_attacking(old(self).attackers@[0], old(table)@));
        assert(self.attackers@[1] == still_attacking(old(self).attackers@[1], old(table)@));
        assert(self.attackers@[2] == still_attacking(old(self).attackers@[2], old(table)@));
        assert(slot as int == first_free(old(self).attackers@, old(table)@));
        if slot < MAX_ATTACKER_COUNT {
            if let Some((fi, capture_attack)) = self.pick_attacker(accessor, table, events) {
                self.attackers[slot] = Some(fi);
                if capture_attack {
                    events.push(EventType::StartCaptureAttack(fi));
                }
            }
            self.wait = ATTACK_WAIT;
            self.cycle = self.cycle.wrapping_add(1);
        }
    }

    /// Forgets the attackers whose enemy is gone or back in the formation.
    fn check_liveness(&mut self, table: &Vec<Option<Enemy>>)
        requires
            old(self).wf(),
            table_wf(table@),
        ensures
            final(self).wf(),
            (AttackManager { attackers: old(self).attackers, ..*final(self) }) == *old(self),
            forall|i: int| 0 <= i < MAX_ATTACKER_COUNT ==> #[trigger] final(self).attackers@[i] == match old(self).attackers@[i] {
                Some(fi) => match enemy_at(table@, fi) {
                    Some(e) => if e.base().state == EnemyState::Formation { None } else { Some(fi) },
                    None => None,
                },
                None => None,
            },
    {
        let mut i: usize = 0;
        while i < MAX_ATTACKER_COUNT
            invariant
                i <= MAX_ATTACKER_COUNT,
                old(self).wf(),
                table_wf(table@),
                (AttackManager { attackers: old(self).attackers, ..*self }) == *old(self),
                forall|k: int| i <= k < MAX_ATTACKER_COUNT ==> #[trigger] self.attackers@[k] == old(self).attackers@[k],
                forall|k: int| 0 <= k < i ==> #[trigger] self.attackers@[k] == match old(self).attackers@[k] {
                    Some(fi) => match enemy_at(table@, fi) {
                        Some(e) => if e.base().state == EnemyState::Formation { None } else { Some(fi) },
                        None => None,
                    },
                    None => None,
                },
            decreases MAX_ATTACKER_COUNT - i,
        {
            if let Some(fi) = self.attackers[i] {
                assert(index_ok(fi));
                match crate::enemy::get_enemy_at(table, &fi) {
                    Some(enemy) => {
                        if enemy.is_formation() {
                            self.attackers[i] = None;
                        }
                    },
                    None => {
                        self.attackers[i] = None;
                    },
                }
            }
            i += 1;
        }
    }

    /// Picks an enemy at an end of a row, or a captured fighter, and starts its attack.
    /// Gives its slot and whether the attack is a capture attack.
    fn pick_attacker(&mut self, accessor: &Accessor, table: &mut Vec<Option<Enemy>>, events: &mut Vec<EventType>)
        -> (r: Option<(FormationIndex, bool)>)
        requires
            accessor.wf(),
            table_wf(old(table)@),
        ensures
            *final(self) == *old(self),
            table_wf(final(table)@),
            same_slots(old(table)@, final(table)@),
            match r {
                Some((fi, capture_attack)) => {
                    &&& slot_ok(fi)
                    &&& rests(old(table)@, fi)
                    &&& old(self).cycle % 3 == 2 ==> fi.1 == 1 || accessor.captured_fighter_index == Some(fi)
                    &&& old(self).cycle % 3 != 2 ==> 2 <= fi.1 <= 5
                    &&& capture_attack == capture_pick(old(table)@, fi, old(self).cycle, *accessor)
                    &&& final(events)@ == old(events)@.push(EventType::PlaySe(CH_JINGLE, SoundEffect::AttackStart))
                    &&& final(table)@[array_index(fi)] matches Some(e) && e.base().state is Attack
                },
                None => final(table)@ == old(table)@ && final(events)@ == old(events)@,
            },
    {
        let candidates = enum_sides(table);
        let fi_opt = if self.cycle % 3 == 2 {
            let mut rows: Vec<u32> = vec![1];
            let r = pick_random(&candidates, &mut rows);
            if r.is_some() { r } else { pick_captured_fighter(accessor, table) }
        } else {
            let mut rows: Vec<u32> = vec![2, 3, 4, 5];
            pick_random(&candidates, &mut rows)
        };
        match fi_opt {
            Some(fi) => {
                let idx = calc_array_index(&fi);
                match table[idx] {
                    Some(enemy) => {
                        let mut enemy = enemy;
                        let capture_attack = enemy.can_capture_attack() && (self.cycle / 3) % 2 != 0
                            && accessor.capture_state == CaptureState::NoCapture
                            && accessor.dual_player_pos.is_none();
                        table.set(idx, None);
                        enemy.set_attack(capture_attack, accessor, table, events);
                        table.set(idx, Some(enemy));
                        Some((fi, capture_attack))
                    },
                    None => None,
                }
            },
            None => None,
        }
    }
}

/// Picks a random row of `rows` that has resting enemies, and then one of its two ends.
pub fn pick_random(candidates: &Vec<Option<(u8, u8)>>, rows: &mut Vec<u32>) -> (r: Option<FormationIndex>)
    requires
        candidates@.len() == Y_COUNT,
        forall|k: int| 0 <= k < old(rows)@.len() ==> (#[trigger] old(rows)@[k] as int) < Y_COUNT,
        forall|i: int| 0 <= i < Y_COUNT ==> (#[trigger] candidates@[i] matches Some((l, rr)) ==> (l as int) <= (rr as int) < X_COUNT),
    ensures
        final(rows)@.to_multiset() == old(rows)@.to_multiset(),
        match r {
            Some(fi) => {
                &&& old(rows)@.contains(fi.1 as u32)
                &&& candidates@[fi.1 as int] matches Some((l, rr)) && (fi.0 == l || fi.0 == rr)
            },
            None => forall|k: int| 0 <= k < old(rows)@.len() ==> (#[trigger] candidates@[old(rows)@[k] as int]).is_none(),
        },
{
    let mut rng = seeded_rng();
    shuffle(rows, &mut rng);
    proof {
        rows@.to_multiset_ensures();
        old(rows)@.to_multiset_ensures();
        assert forall|k: int| 0 <= k < rows@.len() implies (#[trigger] rows@[k] as int) < Y_COUNT && old(rows)@.contains(rows@[k]) by {
            assert(rows@.contains(rows@[k]));
            assert(rows@.to_multiset().count(rows@[k]) > 0);
            assert(old(rows)@.to_multiset().count(rows@[k]) > 0);
            assert(old(rows)@.contains(rows@[k]));
        }
        assert forall|k: int| 0 <= k < old(rows)@.len() implies rows@.contains(#[trigger] old(rows)@[k]) by {
            assert(old(rows)@.contains(old(rows)@[k]));
            assert(old(rows)@.to_multiset().count(old(rows)@[k]) > 0);
            assert(rows@.to_multiset().count(old(rows)@[k]) > 0);
        }
    }
    let mut i: usize = 0;
    while i < rows.len()
        invariant
            i <= rows@.len(),
            candidates@.len() == Y_COUNT,
            forall|k: int| 0 <= k < rows@.len() ==> (#[trigger] rows@[k] as int) < Y_COUNT && old(rows)@.contains(rows@[k]),
            forall|k: int| 0 <= k < old(rows)@.len() ==> rows@.contains(#[trigger] old(rows)@[k]),
            forall|k: int| 0 <= k < i ==> (#[trigger] candidates@[rows@[k] as int]).is_none(),
            rows@.to_multiset() == old(rows)@.to_multiset(),
        decreases rows@.len() - i,
    {
        let row = rows[i];
        if let Some((l, rr)) = candidates[row as usize] {
            let index = gen_index(&mut rng, 2);
            let x = if index == 0 { l } else { rr };
            return Some(FormationIndex(x, row as u8));
        }
        i += 1;
    }
    proof {
        assert forall|k: int| 0 <= k < old(rows)@.len() implies (#[trigger] candidates@[old(rows)@[k] as int]).is_none() by {
            let j = choose|j: int| 0 <= j < rows@.len() && rows@[j] == old(rows)@[k];
            assert(candidates@[rows@[j] as int].is_none());
        }
    }
    None
}

/// The ends of each row of resting enemies.
pub fn enum_sides(table: &Vec<Option<Enemy>>) -> (sides: Vec<Option<(u8, u8)>>)
    requires
        table@.len() == MAX_ENEMY_COUNT,
    ensures
        sides@.len() == Y_COUNT,
        forall|i: int| 0 <= i < Y_COUNT ==> sides_ok(table@, i, #[trigger] sides@[i]),
{
    let mut sides: Vec<Option<(u8, u8)>> = Vec::new();
    let mut i: usize = 0;
    while i < Y_COUNT
        invariant
            i <= Y_COUNT,
            table@.len() == MAX_ENEMY_COUNT,
            sides@.len() == i,
            forall|k: int| 0 <= k < i ==> sides_ok(table@, k, #[trigger] sides@[k]),
        decreases Y_COUNT - i,
    {
        let mut left: usize = 0;
        while left < X_COUNT && !rests_at(table, left, i)
            invariant
                left <= X_COUNT,
                i < Y_COUNT,
                table@.len() == MAX_ENEMY_COUNT,
                forall|j: int| 0 <= j < left ==> !#[trigger] in_formation(table@, j, i as int),
            decreases X_COUNT - left,
        {
            left += 1;
        }
        if left < X_COUNT {
            let mut right: usize = X_COUNT - 1;
            while right > left && !rests_at(table, right, i)
                invariant
                    left <= right < X_COUNT,
                    i < Y_COUNT,
                    table@.len() == MAX_ENEMY_COUNT,
                    in_formation(table@, left as int, i as int),
                    forall|j: int| right < j < X_COUNT ==> !#[trigger] in_formation(table@, j, i as int),
                decreases right - left,
            {
                right -= 1;
            }
            sides.push(Some((left as u8, right as u8)));
        } else {
            sides.push(None);
        }
        i += 1;
    }
    sides
}

/// Whether the slot at column `j` of row `i` holds an enemy resting in the formation.
fn rests_at(table: &Vec<Option<Enemy>>, j: usize, i: usize) -> (b: bool)
    requires
        table@.len() == MAX_ENEMY_COUNT,
        j < X_COUNT,
        i < Y_COUNT,
    ensures
        b == in_formation(table@, j as int, i as int),
{
    match &table[j + i * 10] {
        Some(e) => e.is_formation(),
        None => false,
    }
}

/// The captured fighter, if it rests in the formation and the boss below it is gone.
pub fn pick_captured_fighter(accessor: &Accessor, table: &Vec<Option<Enemy>>) -> (r: Option<FormationIndex>)
    requires
        accessor.wf(),
        table@.len() == MAX_ENEMY_COUNT,
    ensures
        match accessor.captured_fighter_index {
            Some(fi) => r == if rests(table@, fi) && enemy_at(table@, FormationIndex(fi.0, (fi.1 + 1) as u8)).is_none() {
                Some(fi)
            } else {
                None
            },
            None => r.is_none(),
        },
{
    match accessor.captured_fighter_index {
        Some(fi) => {
            match crate::enemy::get_enemy_at(table, &fi) {
                Some(captured_fighter) => {
                    let below = FormationIndex(fi.0, fi.1 + 1);
                    if captured_fighter.is_formation() && crate::enemy::get_enemy_at(table, &below).is_none() {
                        Some(fi)
                    } else {
                        None
                    }
                },
                None => None,
            }
        },
        None => None,
    }
}

} // verus!

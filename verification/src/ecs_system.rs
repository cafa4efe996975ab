use vstd::prelude::*;

use crate::collision::{box_ok, overlaps, CollBox};
use crate::ecs::{do_move_zako, zako_frame_ok, zako_moved, CollRect, Posture, Zako};
use crate::ecs_owl::{placed, troops_ok, update_troops};
use crate::attack_manager::AttackManager;
use crate::ecs_player::{
    do_fire_myshot, do_move_myshot, do_recapture_fighter, fighter_recaptured, myshot_fired, myshot_moved, posture_ok,
    ship_ok, shot_entity_ok,
};
use crate::game_info::GameInfo;
use crate::pad::{bit_of, has_bit, Pad, PadBit};
use crate::player::PlayerState;
use crate::ecs_world::{Components, Entity, Troops, World};
use crate::enemy_base::slot_ok;
use crate::formation::Formation;
use crate::math::{round_fixed, round_vec};
use crate::types::Vector2D;

verus! {

/// An entity that is a small enemy: it has the enemy, the small enemy, a posture and a speed.
pub open spec fn is_zako_entity(c: Components) -> bool {
    &&& c.enemy.is_some()
    &&& c.zako.is_some()
    &&& c.posture.is_some()
    &&& c.speed.is_some()
}

/// A small enemy whose frame runs without overflow, in a slot of the formation.
pub open spec fn zako_entity_ok(c: Components) -> bool {
    is_zako_entity(c) ==> {
        &&& zako_frame_ok(&c.zako.unwrap(), &c.posture.unwrap(), &c.speed.unwrap())
        &&& slot_ok(c.enemy.unwrap().formation_index)
    }
}

/// The entity `c0` after a frame of small-enemy movement: a small enemy has moved as
/// `zako_moved` says; any other entity is as it was.
pub open spec fn zako_entity_moved(c0: Option<Components>, c1: Option<Components>, formation: Formation) -> bool {
    match c0 {
        Some(c) => if is_zako_entity(c) {
            &&& c1 matches Some(d)
            &&& d == Components { zako: d.zako, posture: d.posture, speed: d.speed, ..c }
            &&& d.zako is Some && d.posture is Some && d.speed is Some
            &&& zako_moved(c.zako.unwrap(), c.posture.unwrap(), c.speed.unwrap(), c.enemy.unwrap().formation_index,
                formation, d.zako.unwrap(), d.posture.unwrap(), d.speed.unwrap())
        } else {
            c1 == c0
        },
        None => c1 == c0,
    }
}

/// Moves every small enemy of the world a frame, in the order of the entities.
pub fn move_zako(world: &mut World, formation: &Formation)
    requires
        formation.wf(),
        forall|i: int| 0 <= i < old(world).entities@.len() ==> (#[trigger] old(world).entities@[i] matches Some(c)
            ==> zako_entity_ok(c)),
    ensures
        final(world).entities@.len() == old(world).entities@.len(),
        forall|i: int| 0 <= i < old(world).entities@.len() ==> zako_entity_moved(
            #[trigger] old(world).entities@[i], final(world).entities@[i], *formation),
{
    let ghost w0 = world.entities@;
    let mut i: usize = 0;
    while i < world.entities.len()
        invariant
            formation.wf(),
            world.entities@.len() == w0.len(),
            i <= w0.len(),
            forall|k: int| 0 <= k < w0.len() ==> (#[trigger] w0[k] matches Some(c) ==> zako_entity_ok(c)),
            forall|k: int| 0 <= k < i ==> zako_entity_moved(#[trigger] w0[k], world.entities@[k], *formation),
            forall|k: int| i <= k < w0.len() ==> #[trigger] world.entities@[k] == w0[k],
        decreases w0.len() - i,
    {
        if let Some(c) = world.entities[i] {
            if c.enemy.is_some() && c.zako.is_some() && c.posture.is_some() && c.speed.is_some() {
                let enemy = c.enemy.unwrap();
                let mut zako: Zako = c.zako.unwrap();
                let mut posture = c.posture.unwrap();
                let mut speed = c.speed.unwrap();
                assert(w0[i as int] matches Some(c0) && zako_entity_ok(c0));
                do_move_zako(&mut zako, &enemy, &mut posture, &mut speed, formation);
                world.put(Entity(i), Components { zako: Some(zako), posture: Some(posture), speed: Some(speed), ..c });
            }
        }
        i += 1;
    }
}

/// A posture and a hit rectangle small enough that the hit box is computed without overflow.
pub open spec fn rect_bounds(p: Posture, r: CollRect) -> bool {
    &&& -0x100_0000 <= p.0.x <= 0x100_0000
    &&& -0x100_0000 <= p.0.y <= 0x100_0000
    &&& -0x1000 <= r.offset.x <= 0x1000
    &&& -0x1000 <= r.offset.y <= 0x1000
    &&& -0x1000 <= r.size.x <= 0x1000
    &&& -0x1000 <= r.size.y <= 0x1000
}

/// Every entity with a posture and a hit rectangle keeps them within bounds.
pub open spec fn rects_ok(w: Seq<Option<Components>>) -> bool {
    forall|i: int| 0 <= i < w.len() ==> (#[trigger] w[i] matches Some(c) ==> (c.posture matches Some(p)
        && c.coll_rect matches Some(r) ==> rect_bounds(p, r)))
}

/// The hit box, in whole dots, of an entity at a posture with a hit rectangle.
pub open spec fn entity_box(p: Posture, r: CollRect) -> CollBox {
    CollBox {
        top_left: Vector2D {
            x: (round_fixed(p.0.x as int) + r.offset.x) as i32,
            y: (round_fixed(p.0.y as int) + r.offset.y) as i32,
        },
        size: r.size,
    }
}

/// The hit box of an entity that is a shot of the player.
pub open spec fn shot_box(c: Components) -> Option<CollBox> {
    if c.shot.is_some() && c.posture.is_some() && c.coll_rect.is_some() {
        Some(entity_box(c.posture.unwrap(), c.coll_rect.unwrap()))
    } else {
        None
    }
}

/// The hit box of an entity that is an enemy.
pub open spec fn enemy_box(c: Components) -> Option<CollBox> {
    if c.enemy.is_some() && c.posture.is_some() && c.coll_rect.is_some() {
        Some(entity_box(c.posture.unwrap(), c.coll_rect.unwrap()))
    } else {
        None
    }
}

/// Whether the entity at `j` is an enemy whose box overlaps `b`.
pub open spec fn enemy_hit_at(w: Seq<Option<Components>>, b: CollBox, j: int) -> bool {
    &&& 0 <= j < w.len()
    &&& w[j] matches Some(c)
    &&& enemy_box(c) matches Some(eb)
    &&& overlaps(b, eb)
}

/// Whether the shot at `s` hits some enemy.
pub open spec fn shot_hits(w: Seq<Option<Components>>, s: int) -> bool {
    &&& 0 <= s < w.len()
    &&& w[s].is_some()
    &&& shot_box(w[s].unwrap()).is_some()
    &&& exists|j: int| #[trigger] enemy_hit_at(w, shot_box(w[s].unwrap()).unwrap(), j)
}

/// Whether the enemy at `j` is the first, in entity order, that the shot at `s` hits.
pub open spec fn first_hit_by(w: Seq<Option<Components>>, j: int, s: int) -> bool {
    &&& 0 <= s < w.len()
    &&& w[s].is_some()
    &&& shot_box(w[s].unwrap()).is_some()
    &&& enemy_hit_at(w, shot_box(w[s].unwrap()).unwrap(), j)
    &&& forall|k: int| 0 <= k < j ==> !#[trigger] enemy_hit_at(w, shot_box(w[s].unwrap()).unwrap(), k)
}

/// Whether the entity at `i` is taken out by a hit among the shots before `n`: a shot that
/// hits, or the first enemy that such a shot hits.
pub open spec fn hit_removed(w: Seq<Option<Components>>, i: int, n: int) -> bool {
    ||| i < n && shot_hits(w, i)
    ||| exists|s: int| 0 <= s < n && #[trigger] first_hit_by(w, i, s)
}

fn entity_box_exec(p: &Posture, r: &CollRect) -> (b: CollBox)
    requires
        rect_bounds(*p, *r),
    ensures
        b == entity_box(*p, *r),
        box_ok(b),
{
    let rp = round_vec(&p.0);
    CollBox { top_left: rp.plus(&r.offset), size: r.size }
}

/// The first enemy, in entity order, whose box overlaps `b`.
fn find_enemy_hit(world: &World, b: &CollBox) -> (r: Option<usize>)
    requires
        rects_ok(world.entities@),
        box_ok(*b),
    ensures
        match r {
            Some(j) => enemy_hit_at(world.entities@, *b, j as int)
                && forall|k: int| 0 <= k < j ==> !#[trigger] enemy_hit_at(world.entities@, *b, k),
            None => forall|k: int| !#[trigger] enemy_hit_at(world.entities@, *b, k),
        },
{
    let mut j: usize = 0;
    while j < world.entities.len()
        invariant
            rects_ok(world.entities@),
            box_ok(*b),
            j <= world.entities@.len(),
            forall|k: int| 0 <= k < j ==> !#[trigger] enemy_hit_at(world.entities@, *b, k),
        decreases world.entities@.len() - j,
    {
        if let Some(c) = world.entities[j] {
            if c.enemy.is_some() && c.posture.is_some() && c.coll_rect.is_some() {
                assert(world.entities@[j as int] matches Some(c0) && c0 == c);
                let eb = entity_box_exec(&c.posture.unwrap(), &c.coll_rect.unwrap());
                if b.check_collision(&eb) {
                    return Some(j);
                }
            }
        }
        j += 1;
    }
    None
}

/// Takes out each shot of the player that hits an enemy, with the first enemy, in entity
/// order, that it hits; the hits are all found before anything is taken out.
pub fn coll_check_myshot_enemy(world: &mut World)
    requires
        rects_ok(old(world).entities@),
    ensures
        final(world).entities@.len() == old(world).entities@.len(),
        forall|i: int| 0 <= i < old(world).entities@.len() ==> #[trigger] final(world).entities@[i]
            == if hit_removed(old(world).entities@, i, old(world).entities@.len() as int) {
                None
            } else {
                old(world).entities@[i]
            },
{
    let ghost w0 = world.entities@;
    let n = world.entities.len();
    let mut gone: Vec<bool> = Vec::new();
    let mut i: usize = 0;
    while i < n
        invariant
            n == w0.len(),
            i <= n,
            gone@.len() == i,
            forall|k: int| 0 <= k < i ==> !#[trigger] gone@[k],
        decreases n - i,
    {
        gone.push(false);
        i += 1;
    }

    let mut s: usize = 0;
    while s < n
        invariant
            world.entities@ == w0,
            n == w0.len(),
            rects_ok(w0),
            s <= n,
            gone@.len() == n,
            forall|k: int| 0 <= k < n ==> #[trigger] gone@[k] == hit_removed(w0, k, s as int),
        decreases n - s,
    {
        if let Some(c) = world.entities[s] {
            if c.shot.is_some() && c.posture.is_some() && c.coll_rect.is_some() {
                assert(w0[s as int] matches Some(c0) && c0 == c);
                let b = entity_box_exec(&c.posture.unwrap(), &c.coll_rect.unwrap());
                match find_enemy_hit(world, &b) {
                    Some(j) => {
                        gone.set(s, true);
                        gone.set(j, true);
                        proof {
                            assert(w0[s as int].unwrap() == c);
                            assert(shot_box(w0[s as int].unwrap()) == Some(b));
                            assert(enemy_hit_at(w0, shot_box(w0[s as int].unwrap()).unwrap(), j as int));
                            assert(shot_hits(w0, s as int));
                            assert(first_hit_by(w0, j as int, s as int));
                            assert forall|k: int| 0 <= k < n implies #[trigger] gone@[k] == hit_removed(w0, k, s + 1) by {
                                if k != s && k != j {
                                    if hit_removed(w0, k, s + 1) {
                                        if !hit_removed(w0, k, s as int) {
                                            assert(first_hit_by(w0, k, s as int));
                                            assert(false);
                                        }
                                    }
                                } else if k == j {
                                    assert(hit_removed(w0, k, s + 1));
                                }
                            }
                        }
                    },
                    None => {
                        proof {
                            assert(!shot_hits(w0, s as int));
                            assert forall|k: int| 0 <= k < n implies #[trigger] gone@[k] == hit_removed(w0, k, s + 1) by {
                                if hit_removed(w0, k, s + 1) && !hit_removed(w0, k, s as int) {
                                    if k == s {
                                        assert(!shot_hits(w0, k));
                                    }
                                    assert(first_hit_by(w0, k, s as int));
                                    assert(enemy_hit_at(w0, b, k));
                                    assert(false);
                                }
                            }
                        }
                    },
                }
            } else {
                proof {
                    assert(shot_box(c).is_none());
                    assert forall|k: int| 0 <= k < n implies #[trigger] gone@[k] == hit_removed(w0, k, s + 1) by {
                        if hit_removed(w0, k, s + 1) && !hit_removed(w0, k, s as int) {
                            assert(first_hit_by(w0, k, s as int));
                            assert(false);
                        }
                    }
                }
            }
        } else {
            proof {
                assert forall|k: int| 0 <= k < n implies #[trigger] gone@[k] == hit_removed(w0, k, s + 1) by {
                    if hit_removed(w0, k, s + 1) && !hit_removed(w0, k, s as int) {
                        assert(first_hit_by(w0, k, s as int));
                        assert(false);
                    }
                }
            }
        }
        s += 1;
    }

    let mut i: usize = 0;
    while i < n
        invariant
            n == w0.len(),
            i <= n,
            gone@.len() == n,
            world.entities@.len() == n,
            forall|k: int| 0 <= k < n ==> #[trigger] gone@[k] == hit_removed(w0, k, n as int),
            forall|k: int| 0 <= k < i ==> #[trigger] world.entities@[k]
                == if gone@[k] { None } else { w0[k] },
            forall|k: int| i <= k < n ==> #[trigger] world.entities@[k] == w0[k],
        decreases n - i,
    {
        if gone[i] {
            world.remove(Entity(i));
        }
        i += 1;
    }
}

/// A boss with an escort whose offsets and place are within the bounds of the field.
pub open spec fn escort_ready(c: Components) -> bool {
    &&& c.troops matches Some(t) && troops_ok(t)
    &&& c.owl.is_some()
    &&& c.posture matches Some(p) && -0x3_0000 <= p.0.x <= 0x3_0000 && -0x3_0000 <= p.0.y <= 0x3_0000
}

/// The escort of the entity at `k` moved with it, from the world `w0` to `w1`: each member at
/// its offset from the boss, with its heading; any other entity leaves the world as it is.
pub open spec fn escort_step(w0: Seq<Option<Components>>, k: int, w1: Seq<Option<Components>>) -> bool {
    if w0[k].is_some() && escort_ready(w0[k].unwrap()) {
        let t = w0[k].unwrap().troops.unwrap();
        let p = w0[k].unwrap().posture.unwrap();
        w1 == placed(placed(placed(w0, t.members@[0], p.0, p.1), t.members@[1], p.0, p.1), t.members@[2], p.0, p.1)
    } else {
        w1 == w0
    }
}

/// The worlds `ws` after each entity in turn has moved its escort.
pub open spec fn escorts_chain(ws: Seq<Seq<Option<Components>>>) -> bool {
    &&& ws.len() >= 1
    &&& forall|k: int| 0 <= k < ws.len() - 1 ==> #[trigger] escort_step(ws[k], k, ws[k + 1])
}

fn escort_ready_exec(c: &Components) -> (b: bool)
    ensures
        b == escort_ready(*c),
{
    match (c.troops, c.owl, c.posture) {
        (Some(t), Some(_), Some(p)) => {
            let mut ok = -0x3_0000 <= p.0.x && p.0.x <= 0x3_0000 && -0x3_0000 <= p.0.y && p.0.y <= 0x3_0000;
            let mut k: usize = 0;
            while k < 3
                invariant
                    k <= 3,
                    ok == ((-0x3_0000 <= p.0.x <= 0x3_0000 && -0x3_0000 <= p.0.y <= 0x3_0000)
                        && forall|j: int| 0 <= j < k ==> (#[trigger] t.members@[j] matches Some(x)
                            ==> -0x10_0000 <= x.1.x <= 0x10_0000 && -0x10_0000 <= x.1.y <= 0x10_0000)),
                decreases 3 - k,
            {
                if let Some(x) = t.members[k] {
                    if !(-0x10_0000 <= x.1.x && x.1.x <= 0x10_0000 && -0x10_0000 <= x.1.y && x.1.y <= 0x10_0000) {
                        ok = false;
                    }
                }
                k += 1;
            }
            ok
        },
        _ => false,
    }
}

/// Moves the escort of every boss of the world with it, in the order of the entities. A boss
/// whose place or escort offsets are beyond the bounds of the field is passed over.
pub fn move_troops(world: &mut World)
    ensures
        exists|ws: Seq<Seq<Option<Components>>>| #[trigger] escorts_chain(ws)
            && ws.len() == old(world).entities@.len() + 1
            && ws[0] == old(world).entities@ && ws.last() == final(world).entities@,
{
    let n = world.entities.len();
    let ghost mut ws: Seq<Seq<Option<Components>>> = seq![world.entities@];
    let mut i: usize = 0;
    while i < n
        invariant
            i <= n,
            n == old(world).entities@.len(),
            world.entities@.len() == n,
            ws.len() == i + 1,
            ws[0] == old(world).entities@,
            ws.last() == world.entities@,
            escorts_chain(ws),
        decreases n - i,
    {
        let ghost w0 = world.entities@;
        if let Some(c) = world.entities[i] {
            if escort_ready_exec(&c) {
                let t: Troops = c.troops.unwrap();
                let owl = c.owl.unwrap();
                update_troops(&t, Entity(i), &owl, world);
                proof {
                    assert(w0[i as int] == Some(c));
                }
            }
        }
        proof {
            assert(escort_step(w0, i as int, world.entities@));
            let ws2 = ws.push(world.entities@);
            assert forall|k: int| 0 <= k < ws2.len() - 1 implies #[trigger] escort_step(ws2[k], k, ws2[k + 1]) by {
                if k < i {
                    assert(escort_step(ws[k], k, ws[k + 1]));
                }
            }
            ws = ws2;
        }
        i += 1;
    }
}

/// Whether the shot of the entity at `k` can move: it and its second shot exist with postures
/// within bounds, and they are two entities.
pub open spec fn myshot_ready(w: Seq<Option<Components>>, k: int) -> bool {
    &&& 0 <= k < w.len()
    &&& w[k].is_some()
    &&& w[k].unwrap().shot.is_some()
    &&& shot_entity_ok(w, Entity(k as usize))
    &&& w[k].unwrap().shot.unwrap().dual matches Some(d) ==> d.0 != k && shot_entity_ok(w, d)
}

/// The shot of the entity at `k` moved a frame, from the world `w0` to `w1`; any other entity
/// leaves the world as it is.
pub open spec fn myshot_step(w0: Seq<Option<Components>>, k: int, w1: Seq<Option<Components>>) -> bool {
    if myshot_ready(w0, k) {
        myshot_moved(w0, w0[k].unwrap().shot.unwrap(), Entity(k as usize), w1)
    } else {
        w1 == w0
    }
}

/// The worlds `ws` after each entity in turn has moved its shot.
pub open spec fn myshots_chain(ws: Seq<Seq<Option<Components>>>) -> bool {
    &&& ws.len() >= 1
    &&& forall|k: int| 0 <= k < ws.len() - 1 ==> #[trigger] myshot_step(ws[k], k, ws[k + 1])
}

fn shot_entity_ok_exec(world: &World, e: Entity) -> (b: bool)
    ensures
        b == shot_entity_ok(world.entities@, e),
{
    if e.0 < world.entities.len() {
        match world.entities[e.0] {
            Some(c) => match c.posture {
                Some(p) => -0x2_0000 <= p.0.x && p.0.x <= 0x2_0000 && -0x2_0000 <= p.0.y && p.0.y <= 0x2_0000
                    && -0x4000_0000 <= p.1 && p.1 <= 0x4000_0000,
                None => false,
            },
            None => false,
        }
    } else {
        false
    }
}

/// Moves every shot of the player in the world a frame, in the order of the entities; a shot
/// whose place is beyond the bounds of the field is passed over.
pub fn move_myshot(world: &mut World)
    ensures
        exists|ws: Seq<Seq<Option<Components>>>| #[trigger] myshots_chain(ws)
            && ws.len() == old(world).entities@.len() + 1
            && ws[0] == old(world).entities@ && ws.last() == final(world).entities@,
{
    let n = world.entities.len();
    let ghost mut ws: Seq<Seq<Option<Components>>> = seq![world.entities@];
    let mut i: usize = 0;
    while i < n
        invariant
            i <= n,
            n == old(world).entities@.len(),
            world.entities@.len() == n,
            ws.len() == i + 1,
            ws[0] == old(world).entities@,
            ws.last() == world.entities@,
            myshots_chain(ws),
        decreases n - i,
    {
        let ghost w0 = world.entities@;
        if let Some(c) = world.entities[i] {
            if let Some(shot) = c.shot {
                let ready = shot_entity_ok_exec(world, Entity(i)) && match shot.dual {
                    Some(d) => d.0 != i && shot_entity_ok_exec(world, d),
                    None => true,
                };
                if ready {
                    do_move_myshot(&shot, Entity(i), world);
                }
            }
        }
        proof {
            assert(myshot_step(w0, i as int, world.entities@));
            let ws2 = ws.push(world.entities@);
            assert forall|k: int| 0 <= k < ws2.len() - 1 implies #[trigger] myshot_step(ws2[k], k, ws2[k + 1]) by {
                if k < i {
                    assert(myshot_step(ws[k], k, ws[k + 1]));
                }
            }
            ws = ws2;
        }
        i += 1;
    }
}

/// The number of the player's shots among the entities `w`.
pub open spec fn shot_count(w: Seq<Option<Components>>) -> nat
    decreases w.len(),
{
    if w.len() == 0 {
        0
    } else {
        shot_count(w.drop_last()) + if w.last() matches Some(c) && c.shot.is_some() { 1nat } else { 0nat }
    }
}

/// Whether the entity at `k` is a ship that can fire: it has a posture within bounds, headed
/// straight up when it is dual.
pub open spec fn ship_ready(w: Seq<Option<Components>>, k: int) -> bool {
    &&& 0 <= k < w.len()
    &&& w[k].is_some()
    &&& w[k].unwrap().player.is_some()
    &&& w[k].unwrap().posture matches Some(p) && posture_ok(p)
    &&& w[k].unwrap().player.unwrap().dual.is_some() ==> w[k].unwrap().posture.unwrap().1 == 0
}

/// The ship at `k` fires, when `fire` says that the button was pressed with a shot to spare,
/// from the world `w0` to `w1`; any other entity leaves the world as it is.
pub open spec fn fire_step(w0: Seq<Option<Components>>, k: int, fire: bool, w1: Seq<Option<Components>>) -> bool {
    if fire && ship_ready(w0, k) {
        let pl = w0[k].unwrap().player.unwrap();
        myshot_fired(pl, w0[k].unwrap().posture.unwrap(), Entity(k as usize),
            pl.shot_enable && (pl.state == PlayerState::Normal || pl.state == PlayerState::Capturing), w0, w1)
    } else {
        w1 == w0
    }
}

/// Whether the ships fire: the fire button was pressed and fewer than two shots fly.
pub open spec fn fire_pressed(pad: Pad, w: Seq<Option<Components>>) -> bool {
    has_bit(pad.trg, bit_of(PadBit::A)) && shot_count(w) < 2
}

/// The worlds `ws` after each ship in turn has fired or not.
pub open spec fn fire_chain(ws: Seq<Seq<Option<Components>>>, fire: bool) -> bool {
    &&& ws.len() >= 1
    &&& forall|k: int| 0 <= k < ws.len() - 1 ==> #[trigger] fire_step(ws[k], k, fire, ws[k + 1])
}

fn count_shots(world: &World) -> (n: usize)
    ensures
        n == shot_count(world.entities@),
{
    let mut n: usize = 0;
    let mut i: usize = 0;
    while i < world.entities.len()
        invariant
            i <= world.entities@.len(),
            n == shot_count(world.entities@.take(i as int)),
            n <= i,
        decreases world.entities@.len() - i,
    {
        proof {
            assert(world.entities@.take(i + 1).drop_last() =~= world.entities@.take(i as int));
        }
        if let Some(c) = world.entities[i] {
            if c.shot.is_some() {
                n += 1;
            }
        }
        i += 1;
    }
    assert(world.entities@.take(world.entities@.len() as int) =~= world.entities@);
    n
}

/// When the fire button was pressed and fewer than two shots fly, each ship of the world, in
/// the order of the entities, fires a shot; the shots are counted once, before any is fired.
/// A ship beyond the bounds of the field is passed over.
pub fn fire_myshot(world: &mut World, pad: &Pad)
    ensures
        exists|ws: Seq<Seq<Option<Components>>>| #[trigger] fire_chain(ws, fire_pressed(*pad, old(world).entities@))
            && ws.len() == old(world).entities@.len() + 1
            && ws[0] == old(world).entities@ && ws.last() == final(world).entities@,
{
    let fire = pad.is_trigger(PadBit::A) && count_shots(world) < 2;
    assert(fire == fire_pressed(*pad, old(world).entities@));
    let n = world.entities.len();
    let ghost mut ws: Seq<Seq<Option<Components>>> = seq![world.entities@];
    let mut i: usize = 0;
    while i < n
        invariant
            i <= n,
            n == old(world).entities@.len(),
            ws.len() == i + 1,
            ws[0] == old(world).entities@,
            ws.last() == world.entities@,
            world.entities@.len() >= n,
            fire_chain(ws, fire),
            fire == fire_pressed(*pad, old(world).entities@),
        decreases n - i,
    {
        let ghost w0 = world.entities@;
        if fire {
            if let Some(c) = world.entities[i] {
                match (c.player, c.posture) {
                    (Some(pl), Some(p)) => {
                        if -0x2_0000 <= p.0.x && p.0.x <= 0x2_0000 && -0x2_0000 <= p.0.y && p.0.y <= 0x2_0000
                            && -0x4000_0000 <= p.1 && p.1 <= 0x4000_0000 && (pl.dual.is_none() || p.1 == 0) {
                            do_fire_myshot(&pl, &p, Entity(i), world);
                        }
                    },
                    _ => {},
                }
            }
        }
        proof {
            assert(fire_step(w0, i as int, fire, world.entities@));
            let ws2 = ws.push(world.entities@);
            assert forall|k: int| 0 <= k < ws2.len() - 1 implies #[trigger] fire_step(ws2[k], k, fire, ws2[k + 1]) by {
                if k < i {
                    assert(fire_step(ws[k], k, fire, ws[k + 1]));
                }
            }
            ws = ws2;
        }
        i += 1;
    }
}

/// Whether the entity at `k` is a rescued fighter that can run a frame: its place is within
/// bounds, and its ship is another entity with a ship and a place within bounds.
pub open spec fn fighter_ready(w: World, k: int) -> bool {
    &&& 0 <= k < w.entities@.len()
    &&& w.entities@[k] matches Some(c)
    &&& c.recaptured_fighter.is_some()
    &&& c.posture matches Some(p) && posture_ok(p)
    &&& ship_ok(&w, c.recaptured_fighter.unwrap().player_entity)
    &&& c.recaptured_fighter.unwrap().player_entity.0 != k
}

/// The frame of the rescued fighter at `k`, if it is one; else nothing changes.
pub open spec fn fighter_step(w0: World, am0: AttackManager, gi0: GameInfo, k: int, w1: World, am1: AttackManager,
    gi1: GameInfo) -> bool {
    if fighter_ready(w0, k) {
        fighter_recaptured(w0, am0, gi0, Entity(k as usize), w1, am1, gi1)
    } else {
        w1 == w0 && am1 == am0 && gi1 == gi0
    }
}

/// The worlds, attack managers and game states after each entity in turn has run its rescued
/// fighter.
pub open spec fn fighters_chain(ws: Seq<World>, ams: Seq<AttackManager>, gis: Seq<GameInfo>) -> bool {
    &&& ws.len() >= 1
    &&& ams.len() == ws.len()
    &&& gis.len() == ws.len()
    &&& forall|k: int| 0 <= k < ws.len() - 1 ==> #[trigger] fighter_step(ws[k], ams[k], gis[k], k, ws[k + 1],
        ams[k + 1], gis[k + 1])
}

fn ship_ok_exec(world: &World, e: Entity) -> (b: bool)
    ensures
        b == ship_ok(world, e),
{
    match world.get(e) {
        Some(c) => c.player.is_some() && match c.posture {
            Some(p) => -0x2_0000 <= p.0.x && p.0.x <= 0x2_0000 && -0x2_0000 <= p.0.y && p.0.y <= 0x2_0000
                && -0x4000_0000 <= p.1 && p.1 <= 0x4000_0000,
            None => false,
        },
        None => false,
    }
}

/// Runs a frame of every rescued fighter of the world, in the order of the entities; one whose
/// place or ship is beyond the bounds of the field is passed over.
pub fn recapture_fighter(world: &mut World, attack_manager: &mut AttackManager, game_info: &mut GameInfo)
    requires
        old(game_info).wf(),
    ensures
        final(game_info).wf(),
        exists|ws: Seq<World>, ams: Seq<AttackManager>, gis: Seq<GameInfo>| #[trigger] fighters_chain(ws, ams, gis)
            && ws.len() == old(world).entities@.len() + 1
            && ws[0] == *old(world) && ams[0] == *old(attack_manager) && gis[0] == *old(game_info)
            && ws.last() == *final(world) && ams.last() == *final(attack_manager) && gis.last() == *final(game_info),
{
    let n = world.entities.len();
    let ghost mut ws: Seq<World> = seq![*world];
    let ghost mut ams: Seq<AttackManager> = seq![*attack_manager];
    let ghost mut gis: Seq<GameInfo> = seq![*game_info];
    let mut i: usize = 0;
    while i < n
        invariant
            i <= n,
            n == old(world).entities@.len(),
            game_info.wf(),
            ws.len() == i + 1,
            ws[0] == *old(world),
            ams[0] == *old(attack_manager),
            gis[0] == *old(game_info),
            ws.last() == *world,
            ams.last() == *attack_manager,
            gis.last() == *game_info,
            fighters_chain(ws, ams, gis),
        decreases n - i,
    {
        let ghost w0 = *world;
        let ghost am0 = *attack_manager;
        let ghost gi0 = *game_info;
        if i < world.entities.len() {
            if let Some(c) = world.entities[i] {
                if let (Some(me), Some(p)) = (c.recaptured_fighter, c.posture) {
                    if -0x2_0000 <= p.0.x && p.0.x <= 0x2_0000 && -0x2_0000 <= p.0.y && p.0.y <= 0x2_0000
                        && -0x4000_0000 <= p.1 && p.1 <= 0x4000_0000 && me.player_entity.0 != i
                        && ship_ok_exec(world, me.player_entity) {
                        assert(world.at(Entity(i)) == Some(c));
                        do_recapture_fighter(world, Entity(i), attack_manager, game_info);
                    }
                }
            }
        }
        proof {
            assert(fighter_step(w0, am0, gi0, i as int, *world, *attack_manager, *game_info));
            let ws2 = ws.push(*world);
            let ams2 = ams.push(*attack_manager);
            let gis2 = gis.push(*game_info);
            assert forall|k: int| 0 <= k < ws2.len() - 1 implies #[trigger] fighter_step(ws2[k], ams2[k], gis2[k], k,
                ws2[k + 1], ams2[k + 1], gis2[k + 1]) by {
                if k < i {
                    assert(fighter_step(ws[k], ams[k], gis[k], k, ws[k + 1], ams[k + 1], gis[k + 1]));
                }
            }
            ws = ws2;
            ams = ams2;
            gis = gis2;
        }
        i += 1;
    }
}

} // verus!

use vstd::prelude::*;

use crate::effect::{anime_stepped, SequentialSpriteAnime};
use crate::enemy_types::{EnemyType, FormationIndex};
use crate::formation::{base_x, base_y, scale_phase, slide_phase, Formation, MovingPat, X_COUNT, Y_COUNT};
use crate::game_manager::{earns_ship, ene_shot_speed, extend_score, MAX_STAGE};
use crate::math::{normalized, ANGLE, ONE};
use crate::owl::{captured_slot, escort_count, owl_point};
use crate::enemy_base::{fires_at, shot_count, shot_interval, EnemyBase};
use crate::traj::{apply_command, TrajCommand};
use crate::appearance_manager::{born_matches, lemma_order_slot, ORDER_Y};
use crate::collision::{overlaps, CollBox};
use crate::score_holder::saturated_sum;
use crate::traj::Traj;
use crate::types::{Vec2I, Vector2D};
use crate::zako::zako_point;

verus! {

/// The formation slides back and forth with a period of 512 frames, and breathes in and
/// out with a period of 256 frames.
pub proof fn lemma_formation_periods(c: int)
    requires
        c >= 0,
    ensures
        slide_phase(c + 512) == slide_phase(c),
        scale_phase(c + 256) == scale_phase(c),
{
    assert((c + 512 + 128) % 512 == (c + 128) % 512);
    assert((c + 256) % 256 == c % 256);
}

/// Every 256 frames of breathing, each slot of the formation is back at its place at rest.
pub proof fn lemma_breathing_formation_returns_to_rest(f: Formation, fi: FormationIndex)
    requires
        f.wf(),
        f.moving_pat == MovingPat::Scale,
        f.moving_count % 256 == 0,
        (fi.0 as int) < X_COUNT,
        (fi.1 as int) < Y_COUNT,
    ensures
        f.pos_spec(fi).x == base_x(fi.0 as int) * ONE,
        f.pos_spec(fi).y == base_y(fi.1 as int) * ONE,
{
    assert(scale_phase(f.moving_count as int) == 0);
    assert(f.xtbl@[fi.0 as int] == base_x(fi.0 as int) * ONE + crate::formation::scale_step_x(fi.0 as int) * 0);
    assert(f.ytbl@[fi.1 as int] == base_y(fi.1 as int) * ONE + crate::formation::scale_step_y(fi.1 as int) * 0);
}

/// Every 512 frames of sliding, each slot of the formation is back at its place at rest.
pub proof fn lemma_sliding_formation_returns_to_rest(f: Formation, fi: FormationIndex)
    requires
        f.wf(),
        f.moving_pat == MovingPat::Slide,
        f.moving_count % 512 == 0,
        (fi.0 as int) < X_COUNT,
        (fi.1 as int) < Y_COUNT,
    ensures
        f.pos_spec(fi).x == base_x(fi.0 as int) * ONE,
        f.pos_spec(fi).y == base_y(fi.1 as int) * ONE,
{
    let c = f.moving_count as int;
    assert((c + 128) % 512 == 128) by (nonlinear_arith)
        requires c % 512 == 0, c >= 0;
    assert(slide_phase(c) == 0);
    assert(f.xtbl@[fi.0 as int] == base_x(fi.0 as int) * ONE + crate::formation::slide_dx() * 0);
}

/// A path placed at a position, with no offset, is at that position.
pub proof fn lemma_set_pos_reads_back(t: Traj, pos: Vec2I)
    requires
        t.offset == (Vector2D { x: 0i32, y: 0i32 }),
    ensures
        (Traj { pos, ..t }).pos_spec() == pos,
{
    let a = crate::math::angle_step(t.angle as int);
    let cs = crate::math::cos_tab(a);
    let sn = crate::math::sin_tab(a);
    assert(cs * 0 + sn * 0 == 0) by (nonlinear_arith);
    assert(sn * 0 - cs * 0 == 0) by (nonlinear_arith);
}

/// An animation started afresh shows its next sprite once every `frame_wait` frames (every
/// frame when the wait is zero): after `k` frames it is at sprite `k / w` and `k % w` frames
/// into it, with `w` the wait; its place and sprites never change.
pub proof fn lemma_anime_advances_every_wait(anims: Seq<SequentialSpriteAnime>, k: int)
    requires
        0 <= k < anims.len(),
        anims[0].frame == 0,
        anims[0].count == 0,
        forall|i: int| 1 <= i < anims.len() ==> #[trigger] anime_stepped(anims[i - 1], anims[i]),
    ensures
        ({
            let w: int = if anims[0].frame_wait == 0 { 1 } else { anims[0].frame_wait as int };
            &&& anims[k].frame == k / w
            &&& anims[k].count == k % w
            &&& anims[k].pos == anims[0].pos
            &&& anims[k].sprites == anims[0].sprites
            &&& anims[k].frame_wait == anims[0].frame_wait
        }),
    decreases k,
{
    let w: int = if anims[0].frame_wait == 0 { 1 } else { anims[0].frame_wait as int };
    if k == 0 {
        vstd::arithmetic::div_mod::lemma_fundamental_div_mod_converse(0, w, 0, 0);
    } else {
        lemma_anime_advances_every_wait(anims, k - 1);
        assert(anime_stepped(anims[k - 1], anims[k]));
        let q = (k - 1) / w;
        let r = (k - 1) % w;
        vstd::arithmetic::div_mod::lemma_fundamental_div_mod(k - 1, w);
        assert(k - 1 == w * q + r);
        if r + 1 >= anims[0].frame_wait {
            assert(r + 1 == w);
            assert(k == (q + 1) * w + 0) by (nonlinear_arith)
                requires k - 1 == w * q + r, r + 1 == w;
            vstd::arithmetic::div_mod::lemma_fundamental_div_mod_converse(k, w, q + 1, 0);
        } else {
            assert(k == q * w + (r + 1)) by (nonlinear_arith)
                requires k - 1 == w * q + r;
            vstd::arithmetic::div_mod::lemma_fundamental_div_mod_converse(k, w, q, r + 1);
        }
    }
}

/// While the enemies are still arriving, the formation slides: after each frame the columns
/// stay sixteen dots apart and the rows at their places, and every 512 frames from the start
/// it is back at rest.
pub proof fn lemma_formation_slides_until_arrival(fs: Seq<Formation>, k: int, j: int, i: int)
    requires
        0 <= k < fs.len(),
        fs[0].wf(),
        fs[0].moving_pat == MovingPat::Slide,
        fs[0].moving_count == 0,
        !fs[0].done_appearance,
        forall|n: int| 1 <= n < fs.len() ==> #[trigger] crate::formation::formation_step(fs[n - 1], fs[n])
            && fs[n].wf(),
        0 <= j < X_COUNT - 1,
        0 <= i < Y_COUNT,
    ensures
        fs[k].moving_pat == MovingPat::Slide,
        fs[k].moving_count == k,
        !fs[k].done_appearance,
        fs[k].xtbl@[j + 1] - fs[k].xtbl@[j] == 16 * ONE,
        fs[k].ytbl@[i] == base_y(i) * ONE,
        k % 512 == 0 ==> fs[k].xtbl@[j] == base_x(j) * ONE,
    decreases k,
{
    if k > 0 {
        lemma_formation_slides_until_arrival(fs, k - 1, j, i);
        assert(crate::formation::formation_step(fs[k - 1], fs[k]));
    }
    assert(fs[k].wf());
    if k % 512 == 0 {
        assert((k + 128) % 512 == 128) by (nonlinear_arith)
            requires k % 512 == 0, k >= 0;
        assert(slide_phase(k) == 0);
    }
}

/// A small enemy is worth twice as much while it is out of the formation.
pub proof fn lemma_zako_point_doubles_in_flight(enemy_type: EnemyType)
    ensures
        zako_point(enemy_type, false) == 2 * zako_point(enemy_type, true),
{
}

/// A flying boss is worth 400 points, doubled for each escort, up to three.
pub proof fn lemma_owl_point_doubles_per_escort(escorts: nat)
    requires
        escorts < 3,
    ensures
        owl_point(false, escorts + 1) == 2 * owl_point(false, escorts),
        owl_point(false, 0) == 400,
        owl_point(true, escorts) == 150,
{
}

/// Normalizing an angle twice is normalizing it once, and lands within one turn.
pub proof fn lemma_normalize_idempotent(a: int)
    ensures
        normalized(normalized(a)) == normalized(a),
        0 <= normalized(a) < ANGLE * ONE,
{
}

/// Enemy shots never get slower from one stage to the next, and stop getting faster after
/// the sixty-fourth stage.
pub proof fn lemma_ene_shot_speed_monotone(s1: u16, s2: u16)
    requires
        s1 <= s2,
    ensures
        ene_shot_speed(s1) <= ene_shot_speed(s2),
        s1 >= MAX_STAGE ==> ene_shot_speed(s1) == ene_shot_speed(s2),
{
    let a = if (s1 as int) < 64 { s1 as int } else { 64 };
    let b = if (s2 as int) < 64 { s2 as int } else { 64 };
    assert(a <= b);
    assert(a * 256 / 64 <= b * 256 / 64) by (nonlinear_arith) requires a <= b, 0 <= a;
    let pa = a * 256 / 64;
    let pb = b * 256 / 64;
    assert(384 * pa / 256 <= 384 * pb / 256) by (nonlinear_arith) requires 0 <= pa <= pb;
}

/// After points are added, the high score is at least the score and never drops.
pub proof fn lemma_high_score_follows(score: u32, high_score: u32, add: u32)
    ensures
        ({
            let s = saturated_sum(score as int, add as int);
            let h = if s > high_score { s } else { high_score as int };
            &&& h >= s
            &&& h >= high_score
            &&& s >= score
        }),
{
}

/// A ship is earned when the score reaches 20000, and then whenever it reaches a multiple
/// of 50000. A score that sits exactly on a multiple of 50000 counts that multiple as not
/// yet passed, so it is left out here.
pub proof fn lemma_extend_thresholds(before: int, add: int)
    requires
        0 <= before,
        0 <= add,
        before < 20000 || before % 50000 != 0,
    ensures
        earns_ship(before, add) <==> (
            (before < 20000 && before + add >= 20000)
            || (before >= 20000 && (before + add) / 50000 > before / 50000)),
{
    if before >= 20000 {
        let q = before / 50000;
        assert(extend_score(before) == (before + 49999) / 50000 * 50000);
        assert((before + 49999) / 50000 == q + 1) by (nonlinear_arith)
            requires q == before / 50000, before % 50000 != 0, before >= 0;
        assert((before + add) / 50000 > q <==> before + add >= (q + 1) * 50000) by (nonlinear_arith)
            requires q >= 0, before + add >= 0;
    }
}

/// The captured fighter held by a boss is no escort: putting it in any place of the boss's
/// troop, or taking it out, never changes the points that the boss is worth, in formation or
/// in flight; each other member doubles them, up to three.
pub proof fn lemma_captured_fighter_scores_nothing(troops: Seq<Option<FormationIndex>>, fi: FormationIndex,
    i: int, in_formation: bool)
    requires
        0 <= i < troops.len(),
    ensures
        owl_point(in_formation, escort_count(troops.update(i, Some(captured_slot(fi))), captured_slot(fi)))
            == owl_point(in_formation, escort_count(troops.update(i, None), captured_slot(fi))),
        escort_count(troops.update(i, Some(captured_slot(fi))), captured_slot(fi))
            == escort_count(troops.update(i, None), captured_slot(fi)),
        forall|other: FormationIndex| other != captured_slot(fi) ==>
            #[trigger] escort_count(troops.update(i, Some(other)), captured_slot(fi))
                == escort_count(troops.update(i, None), captured_slot(fi)) + 1,
        forall|other: FormationIndex| other != captured_slot(fi)
            && escort_count(troops.update(i, None), captured_slot(fi)) < 3 ==>
            #[trigger] owl_point(false, escort_count(troops.update(i, Some(other)), captured_slot(fi)))
                == 2 * owl_point(false, escort_count(troops.update(i, None), captured_slot(fi))),
        forall|k: nat| #[trigger] owl_point(true, k) == 150,
    decreases troops.len(),
{
    let cap = captured_slot(fi);
    let a = troops.update(i, Some(cap));
    let b = troops.update(i, None);
    if i == troops.len() - 1 {
        assert(a.drop_last() =~= troops.drop_last());
        assert(b.drop_last() =~= troops.drop_last());
        assert forall|other: FormationIndex| other != cap implies
            #[trigger] escort_count(troops.update(i, Some(other)), cap) == escort_count(b, cap) + 1 by {
            assert(troops.update(i, Some(other)).drop_last() =~= troops.drop_last());
        }
    } else {
        lemma_captured_fighter_scores_nothing(troops.drop_last(), fi, i, in_formation);
        assert(a.drop_last() =~= troops.drop_last().update(i, Some(cap)));
        assert(b.drop_last() =~= troops.drop_last().update(i, None));
        assert forall|other: FormationIndex| other != cap implies
            #[trigger] escort_count(troops.update(i, Some(other)), cap) == escort_count(b, cap) + 1 by {
            assert(troops.update(i, Some(other)).drop_last() =~= troops.drop_last().update(i, Some(other)));
            assert(escort_count(troops.drop_last().update(i, Some(other)), cap)
                == escort_count(troops.drop_last().update(i, None), cap) + 1);
        }
    }
}

/// The number of shots of an attack in a stage: two, one more every eight stages, at most five.
pub open spec fn shots_per_attack(stage: int) -> int {
    if 2 + stage / 8 < 5 { 2 + stage / 8 } else { 5 }
}

/// The frame of an attack in which the `j`th of `c` shots is fired.
pub open spec fn shot_frame(j: int, c: int) -> int {
    j * (20 - 2 * c)
}

/// An attacker fires in exactly the frames of its attack that are whole multiples of its
/// interval, up to its number of shots: with `c = min(2 + stage / 8, 5)` shots every
/// `20 - 2c` frames, the frames that fire are `20 - 2c`, `2(20 - 2c)`, ..., `c(20 - 2c)`.
pub proof fn lemma_attacker_fires_limited_shots(frame: int, stage: int)
    requires
        frame >= 1,
        stage >= 0,
    ensures
        fires_at(frame, stage) <==> exists|j: int| 1 <= j <= shots_per_attack(stage)
            && #[trigger] shot_frame(j, shots_per_attack(stage)) == frame,
{
    let c = shots_per_attack(stage);
    let iv = 20 - 2 * c;
    assert(shot_count(stage) == c);
    assert(shot_interval(stage) == iv);
    assert(10 <= iv <= 16);
    if fires_at(frame, stage) {
        let j = frame / iv;
        vstd::arithmetic::div_mod::lemma_fundamental_div_mod(frame, iv);
        assert(frame == iv * j);
        assert(1 <= j <= c) by (nonlinear_arith)
            requires frame == iv * j, frame >= 1, frame <= iv * c, iv > 0;
        assert(j * (20 - 2 * c) == frame) by (nonlinear_arith)
            requires frame == iv * j, iv == 20 - 2 * c;
        assert(shot_frame(j, c) == frame);
    }
    if exists|j: int| 1 <= j <= c && #[trigger] shot_frame(j, c) == frame {
        let j = choose|j: int| 1 <= j <= c && #[trigger] shot_frame(j, c) == frame;
        assert(frame <= iv * c) by (nonlinear_arith)
            requires frame == j * iv, j <= c, iv > 0;
        vstd::arithmetic::div_mod::lemma_fundamental_div_mod_converse(frame, iv, j, 0);
        assert(frame == j * iv);
    }
}

/// A path turning toward a heading turns the short way to it: with a positive speed, the turn
/// rate has the sign of the difference between the wanted heading (mirrored on a mirrored
/// path) and the current one, and no turn is left when the heading is already the wanted one.
pub proof fn lemma_dest_angle_turns_toward(t: Traj, dest: i32, radius: i32, formation_x: i32)
    requires
        0 < t.speed <= 0x1_0000,
        ONE <= radius <= 0x10_0000,
        -0x400_0000 <= dest <= 0x400_0000,
    ensures
        ({
            let want = if t.flip_x { -dest } else { dest as int };
            let t2 = apply_command(t, TrajCommand::DestAngle(dest, radius), formation_x);
            &&& want > t.angle ==> t2.vangle >= 0
            &&& want < t.angle ==> t2.vangle <= 0
            &&& want == t.angle ==> t2.delay == 0
        }),
{
    let want = if t.flip_x { -dest } else { dest as int };
    let num = crate::traj::turn_num(t.speed as int);
    let den = crate::traj::turn_den(radius as int);
    assert(num > 0 && den > 0) by (nonlinear_arith)
        requires num == t.speed * 65536 * 113, den == 710 * radius, t.speed > 0, radius > 0;
    let v = crate::traj::round_div(num, den);
    assert(v >= 0) by (nonlinear_arith)
        requires v == (2 * num + den) / (2 * den), num > 0, den > 0;
    assert(v <= 0x40_0000) by (nonlinear_arith)
        requires v == (2 * num + den) / (2 * den), 0 < num <= 0x1_0000 * 65536 * 113, den >= 710 * 256;
    if want == t.angle {
        assert(crate::traj::round_div(0 * den, num) == 0) by (nonlinear_arith)
            requires num > 0;
    }
}

/// A quotient rounded by `round_div` lies within half a unit of the exact one.
proof fn lemma_round_div_close(n: int, d: int)
    requires
        n >= 0,
        d > 0,
    ensures
        2 * crate::traj::round_div(n, d) * d <= 2 * n + d,
        2 * n < 2 * crate::traj::round_div(n, d) * d + d,
        crate::traj::round_div(n, d) >= 0,
{
    let x = 2 * n + d;
    let m = 2 * d;
    vstd::arithmetic::div_mod::lemma_fundamental_div_mod(x, m);
    vstd::arithmetic::div_mod::lemma_mod_bound(x, m);
    let q = x / m;
    assert(m * q == 2 * q * d) by (nonlinear_arith)
        requires m == 2 * d;
    assert(q >= 0) by (nonlinear_arith)
        requires x == m * q + x % m, 0 <= x % m < m, x > 0, m > 0;
}

/// Two rounded quotients `v ~ num / den` and `e ~ d * den / num` multiply back to about `d`.
proof fn lemma_rounded_product(num: int, den: int, d: int, v: int, e: int)
    requires
        num > 0,
        den > 0,
        d >= 0,
        2 * v * den <= 2 * num + den,
        2 * num < 2 * v * den + den,
        2 * e * num <= 2 * d * den + num,
        2 * d * den < 2 * e * num + num,
    ensures
        4 * (v * e - d) <= 2 * v + 2 * e + 3,
        4 * (d - v * e) <= 2 * v + 2 * e + 3,
{
    let a = 2 * v * den - 2 * num;
    let b = 2 * e * num - 2 * d * den;
    let vd = 2 * v * den;
    let en = 2 * e * num;
    let p = den * num;
    assert(p > 0) by (nonlinear_arith)
        requires num > 0, den > 0, p == den * num;
    assert(vd * en == 4 * p * (v * e)) by (nonlinear_arith)
        requires vd == 2 * v * den, en == 2 * e * num, p == den * num;
    let x2 = 2 * num;
    let y2 = 2 * d * den;
    assert((x2 + a) * (y2 + b) == x2 * y2 + x2 * b + a * y2 + a * b) by (nonlinear_arith);
    assert(x2 * y2 == 4 * p * d) by (nonlinear_arith)
        requires x2 == 2 * num, y2 == 2 * d * den, p == den * num;
    assert(x2 * b == 2 * num * b) by (nonlinear_arith)
        requires x2 == 2 * num;
    assert(a * y2 == 2 * a * d * den) by (nonlinear_arith)
        requires y2 == 2 * d * den;
    assert(vd == 2 * num + a && en == 2 * d * den + b);
    let lhs = p * (4 * (v * e - d));
    assert(lhs == 4 * p * (v * e) - 4 * p * d) by (nonlinear_arith)
        requires lhs == p * (4 * (v * e - d));
    let t1 = 2 * num * b;
    let t2 = 2 * a * d * den;
    let t3 = a * b;
    assert(lhs == t1 + t2 + t3);
    let nn = num * num;
    let dd = den * d * den;
    assert(-2 * nn <= t1 <= 2 * nn) by (nonlinear_arith)
        requires num > 0, -num <= b <= num, t1 == 2 * num * b, nn == num * num;
    assert(-2 * dd <= t2 <= 2 * dd) by (nonlinear_arith)
        requires den > 0, d >= 0, -den <= a <= den, t2 == 2 * a * d * den, dd == den * d * den;
    assert(-p <= t3 <= p) by (nonlinear_arith)
        requires -den <= a <= den, -num <= b <= num, t3 == a * b, p == den * num;
    let pv = p * (2 * v);
    let pe = p * (2 * e);
    assert(pv == num * vd) by (nonlinear_arith)
        requires pv == p * (2 * v), p == den * num, vd == 2 * v * den;
    assert(pe == den * en) by (nonlinear_arith)
        requires pe == p * (2 * e), p == den * num, en == 2 * e * num;
    assert(num * vd >= 2 * nn - p) by (nonlinear_arith)
        requires num > 0, vd == 2 * num + a, a >= -den, nn == num * num, p == den * num;
    assert(den * en >= 2 * dd - p) by (nonlinear_arith)
        requires den > 0, en == 2 * d * den + b, b >= -num, dd == den * d * den, p == den * num;
    let rhs = p * (2 * v + 2 * e + 3);
    assert(rhs == pv + pe + 3 * p) by (nonlinear_arith)
        requires rhs == p * (2 * v + 2 * e + 3), pv == p * (2 * v), pe == p * (2 * e);
    assert(lhs <= rhs);
    assert(-lhs <= rhs);
    assert(4 * (v * e - d) <= 2 * v + 2 * e + 3) by (nonlinear_arith)
        requires p > 0, lhs == p * (4 * (v * e - d)), rhs == p * (2 * v + 2 * e + 3), lhs <= rhs;
    assert(4 * (d - v * e) <= 2 * v + 2 * e + 3) by (nonlinear_arith)
        requires p > 0, lhs == p * (4 * (v * e - d)), rhs == p * (2 * v + 2 * e + 3), -lhs <= rhs;
}

/// A `DestAngle` turn at a positive speed follows a circle of the given radius and stops
/// at the wanted heading: the turn rate times `2 * pi * radius` (pi taken as 355 / 113) is
/// the speed in angle units up to rounding, and after `delay` frames the heading lies within
/// half a frame's turn, plus a quarter unit per frame, of the wanted one. This holds for every
/// turn that ends in fewer than `u32::MAX` frames.
pub proof fn lemma_dest_angle_circles_to_heading(t: Traj, dest: i32, radius: i32, formation_x: i32)
    requires
        0 < t.speed <= 0x1_0000,
        ONE <= radius <= 0x10_0000,
        -0x400_0000 <= dest <= 0x400_0000,
        ({
            let want = if t.flip_x { -dest } else { dest as int };
            let d = if want > t.angle { want - t.angle } else { t.angle - want };
            2 * d * (710 * radius) + t.speed * 65536 * 113 < 2 * (t.speed * 65536 * 113) * 0x1_0000_0000
        }),
    ensures
        ({
            let want = if t.flip_x { -dest } else { dest as int };
            let t2 = apply_command(t, TrajCommand::DestAngle(dest, radius), formation_x);
            let rate = if t2.vangle >= 0 { t2.vangle as int } else { -t2.vangle };
            let landing = t.angle + t2.vangle * t2.delay - want;
            &&& 2 * rate * (710 * radius) <= 2 * (t.speed * 65536 * 113) + 710 * radius
            &&& 2 * (t.speed * 65536 * 113) < 2 * rate * (710 * radius) + 710 * radius
            &&& 4 * landing <= 2 * rate + 2 * t2.delay + 3
            &&& -4 * landing <= 2 * rate + 2 * t2.delay + 3
        }),
{
    let want = if t.flip_x { -dest } else { dest as int };
    let num = crate::traj::turn_num(t.speed as int);
    let den = crate::traj::turn_den(radius as int);
    assert(num > 0 && den > 0) by (nonlinear_arith)
        requires num == t.speed * 65536 * 113, den == 710 * radius, t.speed > 0, radius > 0;
    let v = crate::traj::round_div(num, den);
    lemma_round_div_close(num, den);
    assert(v <= 0x40_0000) by (nonlinear_arith)
        requires v == (2 * num + den) / (2 * den), 0 < num <= 0x1_0000 * 65536 * 113, den >= 710 * 256;
    let d = if want > t.angle { want - t.angle } else { t.angle - want };
    let dd = d * den;
    assert(dd >= 0) by (nonlinear_arith)
        requires d >= 0, den > 0, dd == d * den;
    let e = crate::traj::round_div(dd, num);
    lemma_round_div_close(dd, num);
    let x = 2 * dd + num;
    let m = 2 * num;
    vstd::arithmetic::div_mod::lemma_fundamental_div_mod(x, m);
    vstd::arithmetic::div_mod::lemma_mod_bound(x, m);
    assert(2 * dd == 2 * d * (710 * radius) && 2 * d * den == 2 * dd) by (nonlinear_arith)
        requires dd == d * den, den == 710 * radius;
    assert(e <= u32::MAX) by (nonlinear_arith)
        requires e == x / m, x == m * (x / m) + x % m, 0 <= x % m, x < m * 0x1_0000_0000, m > 0;
    assert(2 * e * num <= 2 * d * den + num && 2 * d * den < 2 * e * num + num);
    lemma_rounded_product(num, den, d, v, e);
    let t2 = apply_command(t, TrajCommand::DestAngle(dest, radius), formation_x);
    assert(t2.delay == e);
    if want > t.angle {
        assert(t2.vangle == v);
    } else {
        assert(t2.vangle == -v);
        assert(t2.vangle * t2.delay == -(v * e)) by (nonlinear_arith)
            requires t2.vangle == -v, t2.delay == e;
    }
}

/// What each slot of the formation holds is fixed by its row: bosses in the first row,
/// butterflies in the next two, bees in the last two. Every enemy that a stage sends flies
/// to a slot of its own kind.
pub open spec fn row_kind(row: int) -> EnemyType {
    if row <= 1 { EnemyType::Owl } else if row <= 3 { EnemyType::Butterfly } else { EnemyType::Bee }
}

pub proof fn lemma_sent_enemies_fill_slots_of_their_kind(b: EnemyBase, stage: int, unit: int, k: int)
    requires
        0 <= unit < 5,
        0 <= k < 8,
        born_matches(b, stage, unit, k),
    ensures
        b.enemy_type == row_kind(b.formation_index.1 as int),
{
    lemma_order_slot(stage, unit, k);
    assert(ORDER_Y@ == seq![2u8, 2, 3, 3, 4, 4, 5, 5, 1, 1, 1, 1, 2, 2, 3, 3, 2, 2, 3, 3, 2, 2, 3, 3,
        4, 4, 5, 5, 4, 4, 5, 5, 4, 4, 5, 5, 4, 4, 5, 5]);
}

/// Two boxes apart along either axis never touch, and touching does not depend on the order
/// in which the boxes are taken; a box of positive size touches itself.
pub proof fn lemma_apart_boxes_never_overlap(a: CollBox, b: CollBox)
    ensures
        a.top_left.y + a.size.y <= b.top_left.y ==> !overlaps(a, b),
        b.top_left.y + b.size.y <= a.top_left.y ==> !overlaps(a, b),
        a.top_left.x + a.size.x <= b.top_left.x ==> !overlaps(a, b),
        b.top_left.x + b.size.x <= a.top_left.x ==> !overlaps(a, b),
        overlaps(a, b) == overlaps(b, a),
        a.size.x > 0 && a.size.y > 0 ==> overlaps(a, a),
{
}

} // verus!

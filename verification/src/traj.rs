use vstd::prelude::*;

use crate::consts::WIDTH;
use crate::enemy_types::FormationIndex;
use crate::formation::{Formation, X_COUNT, Y_COUNT};
use crate::math::{angle_index, angle_step, calc_velocity, cos_lut, cos_tab, sin_lut, sin_tab, velocity, ONE};
use crate::types::{trunc_div, Vec2I, Vector2D};

verus! {

/// One step of a flight path.
#[derive(Clone, Copy, Debug, PartialEq, Eq, Structural)]
pub enum TrajCommand {
    Pos(i32, i32),
    Speed(i32),
    Angle(i32),
    VAngle(i32),
    Delay(u32),
    DestAngle(i32, i32),
    /// Wait until y is greater than or equal to the value.
    WaitYG(i32),
    AddPos(i32, i32),
    CopyFormationX,
    Shot(u32),
}

/// Bound of the coordinates a flight path may hold.
pub open spec fn pos_limit() -> int { 0x100_0000 }
/// Bound of the parameters of a flight-path command.
pub open spec fn param_limit() -> int { 0x10_0000 }
/// Bound of speeds and turn rates.
pub open spec fn speed_limit() -> int { 0x1_0000 }

/// Whether the numbers of a command are small enough to be applied without overflow.
pub open spec fn command_ok(c: TrajCommand) -> bool {
    match c {
        TrajCommand::Pos(x, y) => -param_limit() <= x <= param_limit() && -param_limit() <= y <= param_limit(),
        TrajCommand::Speed(s) => -speed_limit() <= s <= speed_limit(),
        TrajCommand::Angle(a) => -param_limit() <= a <= param_limit(),
        TrajCommand::VAngle(v) => -speed_limit() <= v <= speed_limit(),
        TrajCommand::Delay(_) => true,
        TrajCommand::DestAngle(a, r) => -param_limit() <= a <= param_limit() && ONE <= r <= param_limit(),
        TrajCommand::WaitYG(_) => true,
        TrajCommand::AddPos(x, y) => -0x4_0000 <= x <= 0x4_0000 && -0x4_0000 <= y <= 0x4_0000,
        TrajCommand::CopyFormationX => true,
        TrajCommand::Shot(_) => true,
    }
}

/// Tells whether the numbers of a command fit the limits.
pub fn command_in_limits(c: &TrajCommand) -> (b: bool)
    ensures
        b == command_ok(*c),
{
    let p: i32 = 0x10_0000;
    let s: i32 = 0x1_0000;
    match *c {
        TrajCommand::Pos(x, y) => -p <= x && x <= p && -p <= y && y <= p,
        TrajCommand::Speed(v) => -s <= v && v <= s,
        TrajCommand::Angle(a) => -p <= a && a <= p,
        TrajCommand::VAngle(v) => -s <= v && v <= s,
        TrajCommand::Delay(_) => true,
        TrajCommand::DestAngle(a, r) => -p <= a && a <= p && ONE <= r && r <= p,
        TrajCommand::WaitYG(_) => true,
        TrajCommand::AddPos(x, y) => -0x4_0000 <= x && x <= 0x4_0000 && -0x4_0000 <= y && y <= 0x4_0000,
        TrajCommand::CopyFormationX => true,
        TrajCommand::Shot(_) => true,
    }
}

/// A command table whose commands all fit the limits.
pub open spec fn table_ok(t: Seq<TrajCommand>) -> bool {
    &&& t.len() <= 64
    &&& forall|i: int| 0 <= i < t.len() ==> command_ok(#[trigger] t[i])
}

/// Whether a table places the path at the formation column.
pub open spec fn copies_formation_x(t: Seq<TrajCommand>) -> bool {
    exists|i: int| 0 <= i < t.len() && t[i] == TrajCommand::CopyFormationX
}

/// `n / d` rounded to the nearest integer, halves away from zero, for `n >= 0`, `d > 0`.
pub open spec fn round_div(n: int, d: int) -> int {
    (2 * n + d) / (2 * d)
}

/// Numerator and denominator of the turn rate, in angle units per frame, that makes a
/// path at `speed` follow a circle of `radius`: `speed * ANGLE * ONE / (2 * pi * radius)`,
/// with pi taken as 355 / 113.
pub open spec fn turn_num(speed: int) -> int { speed * 65536 * 113 }
pub open spec fn turn_den(radius: int) -> int { 710 * radius }

/// A flight path: position, heading and speed, driven by a command table.
#[derive(Clone, Copy, Debug)]
pub struct Traj {
    pub pos: Vec2I,
    pub angle: i32,
    pub speed: i32,
    pub vangle: i32,
    pub offset: Vec2I,
    pub flip_x: bool,
    pub fi: FormationIndex,
    pub command_table: &'static [TrajCommand],
    pub index: usize,
    pub delay: u32,
    pub shot_wait: Option<u32>,
}

/// Whether the next command follows in the same frame after `c`.
pub open spec fn continues(c: TrajCommand) -> bool {
    !(c is Delay || c is DestAngle)
}

/// The path state after one command.
pub open spec fn apply_command(t: Traj, c: TrajCommand, formation_x: i32) -> Traj {
    match c {
        TrajCommand::Pos(x, y) => {
            let x = if t.flip_x { WIDTH * ONE - x } else { x as int };
            Traj { pos: Vector2D { x: x as i32, y }, ..t }
        },
        TrajCommand::Speed(speed) => Traj { speed, ..t },
        TrajCommand::Angle(angle) => Traj { angle: (if t.flip_x { -angle } else { angle as int }) as i32, ..t },
        TrajCommand::VAngle(vangle) => Traj { vangle: (if t.flip_x { -vangle } else { vangle as int }) as i32, ..t },
        TrajCommand::Delay(delay) => Traj { delay, ..t },
        TrajCommand::DestAngle(dest, radius) => {
            let dest = if t.flip_x { -dest } else { dest as int };
            if t.speed == 0 {
                Traj { vangle: 0, delay: if dest != t.angle { u32::MAX } else { 0 }, ..t }
            } else if t.speed < 0 {
                let v = round_div(turn_num(-t.speed), turn_den(radius as int));
                Traj { vangle: (if dest > t.angle { -v } else { v }) as i32, delay: 0, ..t }
            } else {
                let num = turn_num(t.speed as int);
                let den = turn_den(radius as int);
                let v = round_div(num, den);
                let d = if dest > t.angle { dest - t.angle } else { t.angle - dest };
                let delay = round_div(d * den, num);
                let delay = if delay > u32::MAX { u32::MAX as int } else { delay };
                Traj { vangle: (if dest > t.angle { v } else { -v }) as i32, delay: delay as u32, ..t }
            }
        },
        TrajCommand::WaitYG(_) => t,
        TrajCommand::AddPos(x, y) => {
            let x = if t.flip_x { -x } else { x as int };
            Traj { pos: Vector2D { x: (t.pos.x + x) as i32, y: (t.pos.y + y) as i32 }, ..t }
        },
        TrajCommand::CopyFormationX => Traj { pos: Vector2D { x: formation_x, ..t.pos }, ..t },
        TrajCommand::Shot(wait) => Traj { shot_wait: Some(wait), ..t },
    }
}

/// The path state after the commands of a frame run from `t.index` on.
pub open spec fn run_commands(t: Traj, formation_x: i32) -> Traj
    decreases t.command_table@.len() - t.index,
{
    if t.index >= t.command_table@.len() || t.index >= usize::MAX {
        t
    } else {
        let c = t.command_table@[t.index as int];
        if c matches TrajCommand::WaitYG(y) && t.pos.y < y {
            t
        } else {
            let t1 = Traj { index: (t.index + 1) as usize, ..t };
            let t2 = apply_command(t1, c, formation_x);
            if continues(c) {
                proof {
                    lemma_apply_keeps_table(t1, c, formation_x);
                }
                run_commands(t2, formation_x)
            } else {
                t2
            }
        }
    }
}

/// The path state after one frame's commands: a pending delay counts down instead.
pub open spec fn handled(t: Traj, formation_x: i32) -> Traj {
    if t.delay > 0 {
        Traj { delay: (t.delay - 1) as u32, ..t }
    } else {
        run_commands(t, formation_x)
    }
}

/// The path state after one frame: commands, then a move.
pub open spec fn stepped(t: Traj, formation_x: i32) -> Traj {
    let h = handled(t, formation_x);
    let v = velocity(h.angle + trunc_div(h.vangle as int, 2), h.speed as int);
    Traj {
        pos: Vector2D { x: (h.pos.x + v.x) as i32, y: (h.pos.y + v.y) as i32 },
        angle: (h.angle + h.vangle) as i32,
        ..h
    }
}

impl Traj {
    /// Whether the numbers of the path are small enough for a frame to run without overflow.
    pub open spec fn limits_ok(&self) -> bool {
        &&& -pos_limit() <= self.pos.x <= pos_limit()
        &&& -pos_limit() <= self.pos.y <= pos_limit()
        &&& -pos_limit() <= self.angle <= pos_limit()
        &&& -speed_limit() <= self.speed <= speed_limit()
        &&& -speed_limit() <= self.vangle <= speed_limit()
        &&& -speed_limit() <= self.offset.x <= speed_limit()
        &&& -speed_limit() <= self.offset.y <= speed_limit()
        &&& table_ok(self.command_table@)
        &&& self.index <= self.command_table@.len()
        &&& copies_formation_x(self.command_table@) ==> {
            &&& (self.fi.0 as int) < X_COUNT
            &&& (self.fi.1 as int) < Y_COUNT
        }
    }

    /// Tells whether the numbers of the path are within `limits_ok`.
    pub fn check_limits(&self) -> (b: bool)
        ensures
            b == self.limits_ok(),
    {
        let lim: i32 = 0x100_0000;
        let sl: i32 = 0x1_0000;
        if !(-lim <= self.pos.x && self.pos.x <= lim && -lim <= self.pos.y && self.pos.y <= lim
            && -lim <= self.angle && self.angle <= lim && -sl <= self.speed && self.speed <= sl
            && -sl <= self.vangle && self.vangle <= sl && -sl <= self.offset.x && self.offset.x <= sl
            && -sl <= self.offset.y && self.offset.y <= sl) {
            return false;
        }
        let t = self.command_table;
        if t.len() > 64 || self.index > t.len() {
            return false;
        }
        let mut copies = false;
        let mut i: usize = 0;
        while i < t.len()
            invariant
                i <= t.len(),
                t@ == self.command_table@,
                forall|k: int| 0 <= k < i ==> command_ok(#[trigger] t@[k]),
                copies == exists|k: int| 0 <= k < i && t@[k] == TrajCommand::CopyFormationX,
            decreases t.len() - i,
        {
            if !command_in_limits(&t[i]) {
                return false;
            }
            if t[i] == TrajCommand::CopyFormationX {
                copies = true;
            }
            proof {
                if t@[i as int] == TrajCommand::CopyFormationX {
                    assert(exists|k: int| 0 <= k < i + 1 && t@[k] == TrajCommand::CopyFormationX);
                }
                if copies && t@[i as int] != TrajCommand::CopyFormationX {
                    let k = choose|k: int| 0 <= k < i && t@[k] == TrajCommand::CopyFormationX;
                    assert(0 <= k < i + 1 && t@[k] == TrajCommand::CopyFormationX);
                }
            }
            i += 1;
        }
        if copies && !((self.fi.0 as usize) < X_COUNT && (self.fi.1 as usize) < Y_COUNT) {
            return false;
        }
        true
    }

    /// A new path over a command table; a flipped path mirrors the table left to right.
    pub fn new(table: &'static [TrajCommand], offset: &Vec2I, flip_x: bool, fi: FormationIndex) -> (t: Self)
        requires
            offset.x != i32::MIN,
        ensures
            t.pos == (Vector2D { x: 0i32, y: 0i32 }),
            t.angle == 0,
            t.speed == 0,
            t.vangle == 0,
            t.offset == (if flip_x { Vector2D { x: (-offset.x) as i32, y: offset.y } } else { *offset }),
            t.flip_x == flip_x,
            t.fi == fi,
            t.command_table == table,
            t.index == 0,
            t.delay == 0,
            t.shot_wait.is_none(),
    {
        let offset = if flip_x { Vector2D::new(-offset.x, offset.y) } else { *offset };
        Traj {
            pos: Vector2D::new(0, 0),
            angle: 0,
            speed: 0,
            vangle: 0,
            offset,
            flip_x,
            fi,
            command_table: table,
            index: 0,
            delay: 0,
            shot_wait: None,
        }
    }

    /// The position of the path, with the offset turned by the heading.
    pub open spec fn pos_spec(&self) -> Vec2I {
        let a = angle_step(self.angle as int);
        let cs = cos_tab(a);
        let sn = sin_tab(a);
        Vector2D {
            x: (self.pos.x + trunc_div(cs * self.offset.x + sn * self.offset.y, ONE as int)) as i32,
            y: (self.pos.y + trunc_div(sn * self.offset.x - cs * self.offset.y, ONE as int)) as i32,
        }
    }

    /// The position of the path, with the offset turned by the heading.
    pub fn pos(&self) -> (p: Vec2I)
        requires
            self.offset == (Vector2D { x: 0i32, y: 0i32 }) || self.pos_ok(),
        ensures
            p == self.pos_spec(),
            self.pos.x - 0x2_0000 <= p.x <= self.pos.x + 0x2_0000,
            self.pos.y - 0x2_0000 <= p.y <= self.pos.y + 0x2_0000,
            self.offset == (Vector2D { x: 0i32, y: 0i32 }) ==> p == self.pos,
    {
        if self.offset.x == 0 && self.offset.y == 0 {
            proof {
                let a = angle_step(self.angle as int);
                let cs = cos_tab(a);
                let sn = sin_tab(a);
                assert(cs * 0 + sn * 0 == 0) by (nonlinear_arith);
                assert(sn * 0 - cs * 0 == 0) by (nonlinear_arith);
            }
            return self.pos;
        }
        let a = angle_index(self.angle);
        let cs = cos_lut(a);
        let sn = sin_lut(a);
        assert(-0x100_0000 <= cs * self.offset.x <= 0x100_0000) by (nonlinear_arith)
            requires -256 <= cs <= 256, -0x1_0000 <= self.offset.x <= 0x1_0000;
        assert(-0x100_0000 <= sn * self.offset.y <= 0x100_0000) by (nonlinear_arith)
            requires -256 <= sn <= 256, -0x1_0000 <= self.offset.y <= 0x1_0000;
        assert(-0x100_0000 <= sn * self.offset.x <= 0x100_0000) by (nonlinear_arith)
            requires -256 <= sn <= 256, -0x1_0000 <= self.offset.x <= 0x1_0000;
        assert(-0x100_0000 <= cs * self.offset.y <= 0x100_0000) by (nonlinear_arith)
            requires -256 <= cs <= 256, -0x1_0000 <= self.offset.y <= 0x1_0000;
        let dx = crate::types::div_trunc(cs * self.offset.x + sn * self.offset.y, ONE);
        let dy = crate::types::div_trunc(sn * self.offset.x - cs * self.offset.y, ONE);
        assert(-0x2_0000 <= dx <= 0x2_0000) by (nonlinear_arith)
            requires dx == trunc_div(cs * self.offset.x + sn * self.offset.y, 256),
                -0x200_0000 <= cs * self.offset.x + sn * self.offset.y <= 0x200_0000;
        assert(-0x2_0000 <= dy <= 0x2_0000) by (nonlinear_arith)
            requires dy == trunc_div(sn * self.offset.x - cs * self.offset.y, 256),
                -0x200_0000 <= sn * self.offset.x - cs * self.offset.y <= 0x200_0000;
        Vector2D::new(self.pos.x + dx, self.pos.y + dy)
    }

    /// Bounds under which the turned offset can be added to the position.
    pub open spec fn pos_ok(&self) -> bool {
        &&& -0x400_0000 <= self.pos.x <= 0x400_0000
        &&& -0x400_0000 <= self.pos.y <= 0x400_0000
        &&& crate::math::valid_angle(self.angle as int)
        &&& -speed_limit() <= self.offset.x <= speed_limit()
        &&& -speed_limit() <= self.offset.y <= speed_limit()
    }

    pub fn set_pos(&mut self, pos: &Vec2I)
        ensures
            *final(self) == (Traj { pos: *pos, ..*old(self) }),
    {
        self.pos = *pos;
    }

    pub fn angle(&self) -> (a: i32)
        ensures
            a == self.angle,
    {
        self.angle
    }

    /// Takes the shot request that the last commands made, if any.
    pub fn is_shot(&mut self) -> (w: Option<u32>)
        ensures
            w == old(self).shot_wait,
            *final(self) == (Traj { shot_wait: None, ..*old(self) }),
    {
        let w = self.shot_wait;
        self.shot_wait = None;
        w
    }

    /// Runs one frame of the path; tells whether commands or a delay remain.
    pub fn update(&mut self, formation: &Formation) -> (cont: bool)
        requires
            old(self).limits_ok(),
            formation.wf(),
        ensures
            *final(self) == stepped(*old(self), formation_x_of(formation, old(self).fi)),
            cont == (final(self).index < final(self).command_table@.len() || final(self).delay > 0),
            final(self).pos_ok(),
            final(self).pos.x <= 0x200_0000 + 0x40_0000,
            -0x200_0000 - 0x40_0000 <= final(self).pos.x,
            -0x200_0000 - 0x40_0000 <= final(self).pos.y <= 0x200_0000 + 0x40_0000,
            -0x200_0000 <= final(self).angle <= 0x200_0000,
            -0x40_0000 <= final(self).vangle <= 0x40_0000,
            -speed_limit() <= final(self).speed <= speed_limit(),
            final(self).fi == old(self).fi,
            final(self).offset == old(self).offset,
    {
        let ghost fx = formation_x_of(formation, self.fi);
        self.handle_command(formation);
        let v = calc_velocity(self.angle + self.vangle / 2, self.speed);
        self.pos = self.pos.plus(&v);
        self.angle = self.angle + self.vangle;
        self.index < self.command_table.len() || self.delay > 0
    }

    fn handle_command(&mut self, formation: &Formation)
        requires
            old(self).limits_ok(),
            formation.wf(),
        ensures
            *final(self) == handled(*old(self), formation_x_of(formation, old(self).fi)),
            final(self).after_commands_ok(),
            final(self).command_table == old(self).command_table,
            final(self).offset == old(self).offset,
            final(self).fi == old(self).fi,
    {
        if self.delay > 0 {
            self.delay -= 1;
            return;
        }
        self.run(formation);
    }

    /// Bounds that hold once a frame's commands have run.
    pub open spec fn after_commands_ok(&self) -> bool {
        &&& -0x200_0000 <= self.pos.x <= 0x200_0000
        &&& -0x200_0000 <= self.pos.y <= 0x200_0000
        &&& -pos_limit() <= self.angle <= pos_limit()
        &&& -speed_limit() <= self.speed <= speed_limit()
        &&& -0x40_0000 <= self.vangle <= 0x40_0000
        &&& self.index <= self.command_table@.len()
    }

    fn run(&mut self, formation: &Formation)
        requires
            old(self).limits_ok(),
            formation.wf(),
            old(self).delay == 0,
        ensures
            *final(self) == run_commands(*old(self), formation_x_of(formation, old(self).fi)),
            final(self).after_commands_ok(),
            final(self).command_table == old(self).command_table,
            final(self).offset == old(self).offset,
            final(self).fi == old(self).fi,
    {
        let ghost fx = formation_x_of(formation, self.fi);
        let ghost target = run_commands(*self, fx);
        let ghost k0 = self.index as int;
        while self.index < self.command_table.len()
            invariant_except_break
                run_commands(*self, fx) == target,
            invariant
                0 <= k0 <= self.index <= self.command_table@.len(),
                self.command_table == old(self).command_table,
                self.fi == old(self).fi,
                self.flip_x == old(self).flip_x,
                self.offset == old(self).offset,
                fx == formation_x_of(formation, self.fi),
                formation.wf(),
                table_ok(self.command_table@),
                self.command_table@.len() <= 64,
                copies_formation_x(self.command_table@) ==> {
                    &&& (self.fi.0 as int) < X_COUNT
                    &&& (self.fi.1 as int) < Y_COUNT
                },
                -pos_limit() - (self.index - k0) * 0x4_0000 <= self.pos.x <= pos_limit() + (self.index - k0) * 0x4_0000,
                -pos_limit() - (self.index - k0) * 0x4_0000 <= self.pos.y <= pos_limit() + (self.index - k0) * 0x4_0000,
                -pos_limit() <= self.angle <= pos_limit(),
                -speed_limit() <= self.speed <= speed_limit(),
                -0x40_0000 <= self.vangle <= 0x40_0000,
                k0 + self.command_table@.len() <= 64 + k0,
            ensures
                *self == target,
                -0x200_0000 <= self.pos.x <= 0x200_0000,
                -0x200_0000 <= self.pos.y <= 0x200_0000,
                -pos_limit() <= self.angle <= pos_limit(),
                -speed_limit() <= self.speed <= speed_limit(),
                -0x40_0000 <= self.vangle <= 0x40_0000,
                self.index <= self.command_table@.len(),
                self.command_table == old(self).command_table,
                self.offset == old(self).offset,
                self.fi == old(self).fi,
            decreases self.command_table@.len() - self.index,
        {
            let c = self.command_table[self.index];
            assert(command_ok(c));
            if let TrajCommand::WaitYG(y) = c {
                if self.pos.y < y {
                    break;
                }
            }
            if c == TrajCommand::CopyFormationX {
                assert(copies_formation_x(self.command_table@));
            }
            self.index += 1;
            let cont = self.handle_one_command(c, formation);
            if !cont {
                break;
            }
        }
    }

    fn handle_one_command(&mut self, c: TrajCommand, formation: &Formation) -> (cont: bool)
        requires
            command_ok(c),
            formation.wf(),
            c == TrajCommand::CopyFormationX ==> (old(self).fi.0 as int) < X_COUNT && (old(self).fi.1 as int) < Y_COUNT,
            -0x200_0000 + 0x4_0000 <= old(self).pos.x <= 0x200_0000 - 0x4_0000,
            -0x200_0000 + 0x4_0000 <= old(self).pos.y <= 0x200_0000 - 0x4_0000,
            -pos_limit() <= old(self).angle <= pos_limit(),
            -speed_limit() <= old(self).speed <= speed_limit(),
            -0x40_0000 <= old(self).vangle <= 0x40_0000,
        ensures
            *final(self) == apply_command(*old(self), c, formation_x_of(formation, old(self).fi)),
            cont == continues(c),
            final(self).offset == old(self).offset,
            final(self).fi == old(self).fi,
            -0x40_0000 <= final(self).vangle <= 0x40_0000,
            -speed_limit() <= final(self).speed <= speed_limit(),
            -pos_limit() <= final(self).angle <= pos_limit(),
            (-0x20_0000 <= final(self).pos.x <= 0x20_0000)
                || (old(self).pos.x - 0x4_0000 <= final(self).pos.x <= old(self).pos.x + 0x4_0000),
            (-0x20_0000 <= final(self).pos.y <= 0x20_0000)
                || (old(self).pos.y - 0x4_0000 <= final(self).pos.y <= old(self).pos.y + 0x4_0000),
    {
        match c {
            TrajCommand::Pos(x, y) => {
                let x = if self.flip_x { WIDTH * ONE - x } else { x };
                self.pos = Vector2D::new(x, y);
            },
            TrajCommand::Speed(speed) => {
                self.speed = speed;
            },
            TrajCommand::Angle(angle) => {
                self.angle = if self.flip_x { -angle } else { angle };
            },
            TrajCommand::VAngle(vangle) => {
                self.vangle = if self.flip_x { -vangle } else { vangle };
            },
            TrajCommand::Delay(delay) => {
                self.delay = delay;
                return false;
            },
            TrajCommand::DestAngle(dest_angle, radius) => {
                let dest: i32 = if self.flip_x { -dest_angle } else { dest_angle };
                if self.speed == 0 {
                    self.vangle = 0;
                    self.delay = if dest != self.angle { u32::MAX } else { 0 };
                    return false;
                }
                if self.speed < 0 {
                    let num: i128 = (-(self.speed as i128)) * 65536 * 113;
                    let den: i128 = 710 * (radius as i128);
                    let v: i128 = (2 * num + den) / (2 * den);
                    assert(0 <= v <= 0x40_0000) by (nonlinear_arith)
                        requires
                            0 < num <= 0x1_0000 * 65536 * 113,
                            den >= 710 * 256,
                            v == (2 * num + den) / (2 * den);
                    self.vangle = if dest > self.angle { -(v as i32) } else { v as i32 };
                    self.delay = 0;
                    return false;
                }
                let num: i128 = (self.speed as i128) * 65536 * 113;
                let den: i128 = 710 * (radius as i128);
                let v: i128 = (2 * num + den) / (2 * den);
                assert(0 <= v <= 0x40_0000) by (nonlinear_arith)
                    requires
                        0 < num <= 0x1_0000 * 65536 * 113,
                        den >= 710 * 256,
                        v == (2 * num + den) / (2 * den);
                let d: i128 = if dest > self.angle { (dest - self.angle) as i128 } else { (self.angle - dest) as i128 };
                assert(0 <= d * den <= 0x10_0000_0000_0000_0000) by (nonlinear_arith)
                    requires 0 <= d <= 0x400_0000, 0 < den <= 710 * 0x10_0000;
                let delay: i128 = (2 * (d * den) + num) / (2 * num);
                let delay: i128 = if delay > u32::MAX as i128 { u32::MAX as i128 } else { delay };
                assert(0 <= delay) by (nonlinear_arith)
                    requires 0 <= d, den > 0, num > 0, delay == (2 * (d * den) + num) / (2 * num) || delay == u32::MAX;
                self.vangle = if dest > self.angle { v as i32 } else { -(v as i32) };
                self.delay = delay as u32;
                return false;
            },
            TrajCommand::WaitYG(_) => {},
            TrajCommand::AddPos(x, y) => {
                let x = if self.flip_x { -x } else { x };
                self.pos = Vector2D::new(self.pos.x + x, self.pos.y + y);
            },
            TrajCommand::CopyFormationX => {
                proof {
                    formation.lemma_wf_bounds();
                }
                let fpos = formation.pos(&self.fi);
                self.pos = Vector2D::new(fpos.x, self.pos.y);
            },
            TrajCommand::Shot(wait) => {
                self.shot_wait = Some(wait);
            },
        }
        true
    }
}

pub proof fn lemma_apply_keeps_table(t: Traj, c: TrajCommand, formation_x: i32)
    ensures
        apply_command(t, c, formation_x).index == t.index,
        apply_command(t, c, formation_x).command_table == t.command_table,
        apply_command(t, c, formation_x).fi == t.fi,
        apply_command(t, c, formation_x).flip_x == t.flip_x,
        apply_command(t, c, formation_x).offset == t.offset,
{
}

/// The formation column that a path copies, when its slot exists.
pub open spec fn formation_x_of(formation: &Formation, fi: FormationIndex) -> i32 {
    formation.xtbl@[fi.0 as int]
}

/// The commands of the first entry path.
pub open spec fn entry_path1() -> Seq<TrajCommand> {
    seq![
        TrajCommand::Pos(34816, -2048i32),
        TrajCommand::Speed(768),
        TrajCommand::Angle(32768),
        TrajCommand::VAngle(0),
        TrajCommand::Delay(5),
        TrajCommand::Shot(0),
        TrajCommand::VAngle(512),
        TrajCommand::Delay(17),
        TrajCommand::VAngle(0),
        TrajCommand::Delay(30),
        TrajCommand::DestAngle(8192, 7680),
        TrajCommand::VAngle(0),
    ]
}

/// The commands of the second entry path.
pub open spec fn entry_path2() -> Seq<TrajCommand> {
    seq![
        TrajCommand::Pos(-2048i32, 62464),
        TrajCommand::Speed(768),
        TrajCommand::Angle(16384),
        TrajCommand::VAngle(-512i32),
        TrajCommand::Delay(16),
        TrajCommand::VAngle(0),
        TrajCommand::Delay(10),
        TrajCommand::VAngle(-512i32),
        TrajCommand::Delay(17),
        TrajCommand::Shot(8),
        TrajCommand::DestAngle(-57344i32, 5120),
        TrajCommand::VAngle(0),
    ]
}

/// An entry path: in from the top heading down, a curve, then a turn toward the slot.
pub fn command_table1() -> (t: &'static [TrajCommand])
    ensures
        table_ok(t@),
        t@ == entry_path1(),
{
    &[
        TrajCommand::Pos(34816, -2048),
        TrajCommand::Speed(768),
        TrajCommand::Angle(32768),
        TrajCommand::VAngle(0),
        TrajCommand::Delay(5),
        TrajCommand::Shot(0),
        TrajCommand::VAngle(512),
        TrajCommand::Delay(17),
        TrajCommand::VAngle(0),
        TrajCommand::Delay(30),
        TrajCommand::DestAngle(8192, 7680),
        TrajCommand::VAngle(0),
    ]
}

/// An entry path: in from the lower left heading right, turning up, then toward the slot.
pub fn command_table2() -> (t: &'static [TrajCommand])
    ensures
        table_ok(t@),
        t@ == entry_path2(),
{
    &[
        TrajCommand::Pos(-2048, 62464),
        TrajCommand::Speed(768),
        TrajCommand::Angle(16384),
        TrajCommand::VAngle(-512),
        TrajCommand::Delay(16),
        TrajCommand::VAngle(0),
        TrajCommand::Delay(10),
        TrajCommand::VAngle(-512),
        TrajCommand::Delay(17),
        TrajCommand::Shot(8),
        TrajCommand::DestAngle(-57344, 5120),
        TrajCommand::VAngle(0),
    ]
}

/// A bee's dive.
/// The attack path of a bee.
pub open spec fn bee_attack_path() -> Seq<TrajCommand> {
    seq![
        TrajCommand::Speed(512),
        TrajCommand::Angle(0),
        TrajCommand::VAngle(-1024i32),
        TrajCommand::Delay(41),
        TrajCommand::VAngle(0),
        TrajCommand::WaitYG(53760),
        TrajCommand::VAngle(512),
        TrajCommand::Delay(80),
    ]
}

pub fn bee_attack_table() -> (t: &'static [TrajCommand])
    ensures
        table_ok(t@),
        t@ == bee_attack_path(),
{
    &[
        TrajCommand::Speed(512),
        TrajCommand::Angle(0),
        TrajCommand::VAngle(-1024),
        TrajCommand::Delay(41),
        TrajCommand::VAngle(0),
        TrajCommand::WaitYG(53760),
        TrajCommand::VAngle(512),
        TrajCommand::Delay(80),
    ]
}

/// The loop with which a bee goes on attacking after its dive in rush mode.
pub fn bee_attack_rush_cont_table() -> (t: &'static [TrajCommand])
    ensures
        table_ok(t@),
{
    &[
        TrajCommand::Speed(512),
        TrajCommand::VAngle(512),
        TrajCommand::Delay(65),
        TrajCommand::VAngle(0),
        TrajCommand::WaitYG(77824),
        TrajCommand::AddPos(0, -81920),
        TrajCommand::CopyFormationX,
        TrajCommand::Angle(32768),
    ]
}

/// A butterfly's dive.
/// The attack path of a butterfly.
pub open spec fn butterfly_attack_path() -> Seq<TrajCommand> {
    seq![
        TrajCommand::Speed(512),
        TrajCommand::Angle(0),
        TrajCommand::VAngle(-1024i32),
        TrajCommand::Delay(40),
        TrajCommand::VAngle(0),
        TrajCommand::WaitYG(40960),
        TrajCommand::VAngle(1024),
        TrajCommand::Delay(18),
        TrajCommand::VAngle(0),
        TrajCommand::Delay(10),
        TrajCommand::VAngle(-1024i32),
        TrajCommand::Delay(18),
        TrajCommand::VAngle(0),
        TrajCommand::WaitYG(77824),
        TrajCommand::AddPos(0, -81920i32),
        TrajCommand::CopyFormationX,
        TrajCommand::Angle(32768),
    ]
}

pub fn butterfly_attack_table() -> (t: &'static [TrajCommand])
    ensures
        table_ok(t@),
        t@ == butterfly_attack_path(),
{
    &[
        TrajCommand::Speed(512),
        TrajCommand::Angle(0),
        TrajCommand::VAngle(-1024),
        TrajCommand::Delay(40),
        TrajCommand::VAngle(0),
        TrajCommand::WaitYG(40960),
        TrajCommand::VAngle(1024),
        TrajCommand::Delay(18),
        TrajCommand::VAngle(0),
        TrajCommand::Delay(10),
        TrajCommand::VAngle(-1024),
        TrajCommand::Delay(18),
        TrajCommand::VAngle(0),
        TrajCommand::WaitYG(77824),
        TrajCommand::AddPos(0, -81920),
        TrajCommand::CopyFormationX,
        TrajCommand::Angle(32768),
    ]
}

/// A boss's dive, also flown by a captured fighter.
/// The attack path of a boss and of a captured fighter.
pub open spec fn owl_attack_path() -> Seq<TrajCommand> {
    seq![
        TrajCommand::Speed(512),
        TrajCommand::Angle(0),
        TrajCommand::VAngle(-1024i32),
        TrajCommand::Delay(32),
        TrajCommand::VAngle(0),
        TrajCommand::WaitYG(28160),
        TrajCommand::VAngle(-768i32),
        TrajCommand::Delay(94),
        TrajCommand::VAngle(0),
        TrajCommand::WaitYG(51200),
        TrajCommand::VAngle(256),
        TrajCommand::Delay(40),
        TrajCommand::VAngle(0),
        TrajCommand::WaitYG(77824),
        TrajCommand::AddPos(0, -81920i32),
        TrajCommand::CopyFormationX,
        TrajCommand::Angle(32768),
    ]
}

pub fn owl_attack_table() -> (t: &'static [TrajCommand])
    ensures
        table_ok(t@),
        t@ == owl_attack_path(),
{
    &[
        TrajCommand::Speed(512),
        TrajCommand::Angle(0),
        TrajCommand::VAngle(-1024),
        TrajCommand::Delay(32),
        TrajCommand::VAngle(0),
        TrajCommand::WaitYG(28160),
        TrajCommand::VAngle(-768),
        TrajCommand::Delay(94),
        TrajCommand::VAngle(0),
        TrajCommand::WaitYG(51200),
        TrajCommand::VAngle(256),
        TrajCommand::Delay(40),
        TrajCommand::VAngle(0),
        TrajCommand::WaitYG(77824),
        TrajCommand::AddPos(0, -81920),
        TrajCommand::CopyFormationX,
        TrajCommand::Angle(32768),
    ]
}

/// A bee's repeated attack in rush mode.
pub fn bee_rush_attack_table() -> (t: &'static [TrajCommand])
    ensures
        table_ok(t@),
{
    &[
        TrajCommand::Speed(640),
        TrajCommand::Angle(32768),
        TrajCommand::VAngle(0),
        TrajCommand::WaitYG(2048),
        TrajCommand::VAngle(768),
        TrajCommand::Delay(10),
        TrajCommand::VAngle(0),
        TrajCommand::Delay(20),
        TrajCommand::VAngle(-768),
        TrajCommand::Delay(23),
        TrajCommand::VAngle(0),
        TrajCommand::Delay(20),
        TrajCommand::VAngle(128),
        TrajCommand::Delay(20),
        TrajCommand::VAngle(0),
        TrajCommand::WaitYG(56320),
        TrajCommand::VAngle(640),
        TrajCommand::Delay(113),
        TrajCommand::VAngle(0),
        TrajCommand::WaitYG(77824),
        TrajCommand::AddPos(0, -81920),
        TrajCommand::CopyFormationX,
        TrajCommand::Angle(32768),
    ]
}

/// A butterfly's repeated attack in rush mode.
pub fn butterfly_rush_attack_table() -> (t: &'static [TrajCommand])
    ensures
        table_ok(t@),
{
    &[
        TrajCommand::Speed(640),
        TrajCommand::Angle(32768),
        TrajCommand::VAngle(0),
        TrajCommand::WaitYG(2048),
        TrajCommand::VAngle(768),
        TrajCommand::Delay(10),
        TrajCommand::VAngle(0),
        TrajCommand::Delay(20),
        TrajCommand::VAngle(-768),
        TrajCommand::Delay(23),
        TrajCommand::VAngle(0),
        TrajCommand::Delay(37),
        TrajCommand::VAngle(768),
        TrajCommand::Delay(23),
        TrajCommand::VAngle(0),
        TrajCommand::WaitYG(77824),
        TrajCommand::AddPos(0, -81920),
        TrajCommand::CopyFormationX,
        TrajCommand::Angle(32768),
    ]
}

/// A boss's repeated attack in rush mode.
pub fn owl_rush_attack_table() -> (t: &'static [TrajCommand])
    ensures
        table_ok(t@),
{
    &[
        TrajCommand::Speed(640),
        TrajCommand::Angle(32768),
        TrajCommand::VAngle(0),
        TrajCommand::WaitYG(28160),
        TrajCommand::VAngle(-1024),
        TrajCommand::Delay(72),
        TrajCommand::VAngle(0),
        TrajCommand::WaitYG(51200),
        TrajCommand::VAngle(384),
        TrajCommand::Delay(25),
        TrajCommand::VAngle(256),
        TrajCommand::WaitYG(77824),
        TrajCommand::AddPos(0, -81920),
        TrajCommand::CopyFormationX,
        TrajCommand::Angle(32768),
    ]
}

} // verus!

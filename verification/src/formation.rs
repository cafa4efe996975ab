use vstd::prelude::*;

use crate::consts::WIDTH;
use crate::enemy_types::FormationIndex;
use crate::math::ONE;
use crate::types::{trunc_div, Vec2I, Vector2D};

verus! {

pub const X_COUNT: usize = 10;
pub const Y_COUNT: usize = 6;

pub const BASE_Y: i32 = 24;

/// The x coordinate, in dots, of column `j` of the formation at rest.
pub open spec fn base_x(j: int) -> int {
    WIDTH / 2 - ((X_COUNT - 1) as int) * 16 / 2 + j * 16
}

/// The y coordinate, in dots, of row `i` of the formation at rest.
pub open spec fn base_y(i: int) -> int {
    BASE_Y + i * 16
}

/// Horizontal step of the slide movement per frame.
pub open spec fn slide_dx() -> int {
    (WIDTH - X_COUNT as int * 16) * ONE / 256
}

/// Scale factors of the breathing movement.
pub open spec fn scale_factor_x() -> int {
    ((WIDTH - X_COUNT as int * 16) / 2 * ONE) / ((X_COUNT as int - 1) * 16 / 2)
}

pub open spec fn scale_factor_y() -> int {
    scale_factor_x() * 3 / 4
}

/// Per-frame step of column `j` while the formation breathes.
pub open spec fn scale_step_x(j: int) -> int {
    trunc_div((base_x(j) - WIDTH / 2) * scale_factor_x(), 128)
}

/// Per-frame step of row `i` while the formation breathes.
pub open spec fn scale_step_y(i: int) -> int {
    trunc_div((base_y(i) - BASE_Y) * scale_factor_y(), 128)
}

/// The slide displacement, in steps, after `c` frames of sliding.
pub open spec fn slide_phase(c: int) -> int {
    let p = (c + 128) % 512;
    if p < 256 { p - 128 } else { 384 - p }
}

/// The breathing displacement, in steps, after `c` frames of breathing.
pub open spec fn scale_phase(c: int) -> int {
    let t = c % 256;
    if t <= 128 { t } else { 256 - t }
}

#[derive(Copy, Clone, PartialEq, Eq, Structural)]
pub enum MovingPat {
    Slide,
    Scale,
}

/// One frame of the formation's movement: a slide goes on, and turns into breathing once every
/// enemy has arrived and the slide is back at rest; breathing goes on.
pub open spec fn formation_step(f0: Formation, f1: Formation) -> bool {
    &&& f1.done_appearance == f0.done_appearance
    &&& match f0.moving_pat {
        MovingPat::Slide => if f0.done_appearance && (f0.moving_count + 1) % 256 == 0 {
            f1.moving_pat == MovingPat::Scale && f1.moving_count == 0
        } else {
            f1.moving_pat == MovingPat::Slide && f1.moving_count == f0.moving_count + 1
        },
        MovingPat::Scale => f1.moving_pat == MovingPat::Scale && f1.moving_count == f0.moving_count + 1,
    }
}

/// The positions of the enemy formation, which first slides sideways and,
/// once every enemy has arrived, breathes in and out.
pub struct Formation {
    pub xtbl: [i32; X_COUNT],
    pub ytbl: [i32; Y_COUNT],
    pub moving_pat: MovingPat,
    pub moving_count: u32,
    pub done_appearance: bool,
}

impl Formation {
    /// The column and row positions follow from the movement pattern and its frame count.
    pub open spec fn wf(&self) -> bool {
        &&& self.moving_count < 0x7fff_ff00
        &&& match self.moving_pat {
            MovingPat::Slide => {
                &&& forall|j: int| 0 <= j < X_COUNT ==> #[trigger] self.xtbl@[j] == base_x(j) * ONE
                    + slide_dx() * slide_phase(self.moving_count as int)
                &&& forall|i: int| 0 <= i < Y_COUNT ==> #[trigger] self.ytbl@[i] == base_y(i) * ONE
            },
            MovingPat::Scale => {
                &&& forall|j: int| 0 <= j < X_COUNT ==> #[trigger] self.xtbl@[j] == base_x(j) * ONE
                    + scale_step_x(j) * scale_phase(self.moving_count as int)
                &&& forall|i: int| 0 <= i < Y_COUNT ==> #[trigger] self.ytbl@[i] == base_y(i) * ONE
                    + scale_step_y(i) * scale_phase(self.moving_count as int)
            },
        }
    }

    /// A formation in order keeps its slots on the field.
    pub proof fn lemma_wf_bounds(&self)
        requires
            self.wf(),
        ensures
            forall|j: int| 0 <= j < X_COUNT ==> 0 <= #[trigger] self.xtbl@[j] <= 0x1_0000,
            forall|i: int| 0 <= i < Y_COUNT ==> 0 <= #[trigger] self.ytbl@[i] <= 0x1_0000,
    {
        lemma_slide_phase_bounds(self.moving_count as int);
        lemma_scale_phase_bounds(self.moving_count as int);
        assert forall|j: int| 0 <= j < X_COUNT implies 0 <= #[trigger] self.xtbl@[j] <= 0x1_0000 by {
            lemma_scale_step_x_bounds(j);
            let p = scale_phase(self.moving_count as int);
            let q = slide_phase(self.moving_count as int);
            assert(-64 * 128 <= scale_step_x(j) * p <= 64 * 128) by (nonlinear_arith)
                requires -64 <= scale_step_x(j) <= 64, 0 <= p <= 128;
            assert(slide_dx() == 64);
        }
        assert forall|i: int| 0 <= i < Y_COUNT implies 0 <= #[trigger] self.ytbl@[i] <= 0x1_0000 by {
            lemma_scale_step_y_bounds(i);
            let p = scale_phase(self.moving_count as int);
            assert(0 <= scale_step_y(i) * p <= 64 * 128) by (nonlinear_arith)
                requires 0 <= scale_step_y(i) <= 64, 0 <= p <= 128;
        }
    }

    /// The position of a formation slot.
    pub open spec fn pos_spec(&self, index: FormationIndex) -> Vec2I {
        Vector2D { x: self.xtbl@[index.0 as int], y: self.ytbl@[index.1 as int] }
    }

    pub fn new() -> (f: Formation)
        ensures
            f.wf(),
            f.moving_pat == MovingPat::Slide,
            f.moving_count == 0,
            !f.done_appearance,
    {
        let mut formation = Formation {
            xtbl: [0; X_COUNT],
            ytbl: [0; Y_COUNT],
            moving_pat: MovingPat::Slide,
            moving_count: 0,
            done_appearance: false,
        };
        formation.restart();
        formation
    }

    /// Puts the formation back at rest, sliding.
    pub fn restart(&mut self)
        ensures
            final(self).wf(),
            final(self).moving_pat == MovingPat::Slide,
            final(self).moving_count == 0,
            !final(self).done_appearance,
    {
        self.moving_pat = MovingPat::Slide;
        self.moving_count = 0;
        self.done_appearance = false;

        let mut j: usize = 0;
        while j < X_COUNT
            invariant
                j <= X_COUNT,
                self.moving_count == 0,
                self.moving_pat == MovingPat::Slide,
                !self.done_appearance,
                forall|k: int| 0 <= k < j ==> #[trigger] self.xtbl@[k] == base_x(k) * ONE,
            decreases X_COUNT - j,
        {
            let x: i32 = WIDTH / 2 - ((X_COUNT - 1) as i32) * 16 / 2 + (j as i32) * 16;
            self.xtbl[j] = x * ONE;
            j += 1;
        }
        let mut i: usize = 0;
        while i < Y_COUNT
            invariant
                i <= Y_COUNT,
                self.moving_count == 0,
                self.moving_pat == MovingPat::Slide,
                !self.done_appearance,
                forall|k: int| 0 <= k < X_COUNT ==> #[trigger] self.xtbl@[k] == base_x(k) * ONE,
                forall|k: int| 0 <= k < i ==> #[trigger] self.ytbl@[k] == base_y(k) * ONE,
            decreases Y_COUNT - i,
        {
            let y: i32 = BASE_Y + (i as i32) * 16;
            self.ytbl[i] = y * ONE;
            i += 1;
        }
        assert(slide_phase(0) == 0);
    }

    /// Marks that every enemy has arrived, so that the formation may start breathing.
    pub fn done_appearance(&mut self)
        ensures
            final(self).done_appearance,
            final(self).xtbl == old(self).xtbl,
            final(self).ytbl == old(self).ytbl,
            final(self).moving_pat == old(self).moving_pat,
            final(self).moving_count == old(self).moving_count,
    {
        self.done_appearance = true;
    }

    /// Advances the movement by one frame.
    pub fn update(&mut self)
        requires
            old(self).wf(),
            old(self).moving_count + 1 < 0x7fff_ff00,
        ensures
            final(self).wf(),
            final(self).done_appearance == old(self).done_appearance,
            formation_step(*old(self), *final(self)),
    {
        match self.moving_pat {
            MovingPat::Slide => self.update_formation_slide(),
            MovingPat::Scale => self.update_formation_scale(),
        }
    }

    fn update_formation_slide(&mut self)
        requires
            old(self).wf(),
            old(self).moving_pat == MovingPat::Slide,
            old(self).moving_count + 1 < 0x7fff_ff00,
        ensures
            final(self).wf(),
            final(self).done_appearance == old(self).done_appearance,
            formation_step(*old(self), *final(self)),
    {
        let c = self.moving_count;
        let tc: i32 = self.moving_count as i32 + 128;
        let t = tc & 511;
        assert(t as int == (c as int + 128) % 512) by {
            assert((tc & 511i32) as int == (tc as int) % 512) by (bit_vector)
                requires tc >= 0;
        }
        let space = WIDTH - X_COUNT as i32 * 16;
        let dx = space * ONE / 256;
        let dx = if t >= 256 { -dx } else { dx };
        proof {
            lemma_slide_phase_step(c as int);
            lemma_slide_phase_bounds(c as int);
            assert(old(self).moving_count == c);
        }

        let ghost old_x = self.xtbl;
        let mut i: usize = 0;
        while i < X_COUNT
            invariant
                i <= X_COUNT,
                self.ytbl == old(self).ytbl,
                self.moving_count == c,
                self.moving_pat == old(self).moving_pat,
                self.done_appearance == old(self).done_appearance,
                old_x == old(self).xtbl,
                -64 <= dx <= 64,
                -128 <= slide_phase(c as int) <= 128,
                dx == slide_dx() * (slide_phase(c as int + 1) - slide_phase(c as int)),
                forall|j: int| 0 <= j < X_COUNT ==> #[trigger] old_x@[j] == base_x(j) * ONE
                    + slide_dx() * slide_phase(c as int),
                forall|j: int| 0 <= j < i ==> #[trigger] self.xtbl@[j] == old_x@[j] + dx,
                forall|j: int| i <= j < X_COUNT ==> #[trigger] self.xtbl@[j] == old_x@[j],
            decreases X_COUNT - i,
        {
            self.xtbl[i] = self.xtbl[i] + dx;
            i += 1;
        }

        self.moving_count = self.moving_count + 1;
        let ghost nc = self.moving_count as int;
        assert(forall|j: int| 0 <= j < X_COUNT ==> #[trigger] self.xtbl@[j] == base_x(j) * ONE
            + slide_dx() * slide_phase(nc));
        let mc = self.moving_count;
        assert((mc & 255u32) as int == (mc as int) % 256) by (bit_vector);
        if self.done_appearance && (mc & 255) == 0 {
            assert(slide_phase(nc) == 0);
            self.moving_pat = MovingPat::Scale;
            self.moving_count = 0;
            assert(scale_phase(0) == 0);
        }
    }

    #[verifier::spinoff_prover]
    fn update_formation_scale(&mut self)
        requires
            old(self).wf(),
            old(self).moving_pat == MovingPat::Scale,
            old(self).moving_count + 1 < 0x7fff_ff00,
        ensures
            final(self).wf(),
            final(self).moving_pat == MovingPat::Scale,
            final(self).done_appearance == old(self).done_appearance,
            final(self).moving_count == old(self).moving_count + 1,
    {
        let c = self.moving_count;
        let t: i32 = (self.moving_count as i32) & 255;
        assert(t as int == (c as int) % 256) by {
            let ci: i32 = c as i32;
            assert((ci & 255i32) as int == (ci as int) % 256) by (bit_vector)
                requires ci >= 0;
        }
        let bx = WIDTH / 2;
        let by = BASE_Y;
        let space = WIDTH - X_COUNT as i32 * 16;
        let factor_x = (space / 2 * ONE) / ((X_COUNT as i32 - 1) * 16 / 2);
        let factor_x = if t >= 128 { -factor_x } else { factor_x };
        let factor_y = factor_x * 3 / 4;
        let ghost sign: int = if t >= 128 { -1 } else { 1 };
        proof {
            lemma_scale_phase_step(c as int);
            lemma_scale_phase_bounds(c as int);
        }

        let ghost old_x = self.xtbl;
        let ghost old_y = self.ytbl;
        let mut i: usize = 0;
        while i < X_COUNT
            invariant
                i <= X_COUNT,
                self.ytbl == old_y,
                self.moving_count == c,
                self.moving_pat == MovingPat::Scale,
                self.done_appearance == old(self).done_appearance,
                0 <= scale_phase(c as int) <= 128,
                factor_x == sign * scale_factor_x(),
                sign == scale_phase(c as int + 1) - scale_phase(c as int),
                sign == 1 || sign == -1,
                bx == WIDTH / 2,
                forall|j: int| 0 <= j < X_COUNT ==> #[trigger] old_x@[j] == base_x(j) * ONE
                    + scale_step_x(j) * scale_phase(c as int),
                forall|j: int| 0 <= j < i ==> #[trigger] self.xtbl@[j] == old_x@[j] + sign * scale_step_x(j),
                forall|j: int| i <= j < X_COUNT ==> #[trigger] self.xtbl@[j] == old_x@[j],
            decreases X_COUNT - i,
        {
            let pos_x: i32 = base_x_at(i);
            proof {
                lemma_scale_step_x_bounds(i as int);
            }
            assert(-72 * 113 <= (pos_x - bx) * factor_x <= 72 * 113 &&
                (pos_x - bx) * factor_x == (pos_x - bx) * sign * 113) by (nonlinear_arith)
                requires
                    -72 <= pos_x - bx <= 72,
                    factor_x == sign * 113,
                    sign == 1 || sign == -1;
            let m: i32 = (pos_x - bx) * factor_x;
            let d: i32 = m / 128;
            assert(d == sign * scale_step_x(i as int)) by {
                if sign == -1 {
                    assert(m == -((base_x(i as int) - WIDTH / 2) * scale_factor_x()));
                } else {
                    assert(m == (base_x(i as int) - WIDTH / 2) * scale_factor_x());
                }
            }
            assert(-64 * 128 <= scale_step_x(i as int) * scale_phase(c as int) <= 64 * 128)
                by (nonlinear_arith)
                requires
                    -64 <= scale_step_x(i as int) <= 64,
                    0 <= scale_phase(c as int) <= 128;
            self.xtbl[i] = self.xtbl[i] + d;
            i += 1;
        }

        let ghost new_x = self.xtbl;
        let mut i: usize = 0;
        while i < Y_COUNT
            invariant
                i <= Y_COUNT,
                self.xtbl == new_x,
                self.moving_count == c,
                self.moving_pat == MovingPat::Scale,
                self.done_appearance == old(self).done_appearance,
                0 <= scale_phase(c as int) <= 128,
                factor_y == sign * scale_factor_y(),
                sign == scale_phase(c as int + 1) - scale_phase(c as int),
                sign == 1 || sign == -1,
                by == BASE_Y,
                forall|j: int| 0 <= j < Y_COUNT ==> #[trigger] old_y@[j] == base_y(j) * ONE
                    + scale_step_y(j) * scale_phase(c as int),
                forall|j: int| 0 <= j < i ==> #[trigger] self.ytbl@[j] == old_y@[j] + sign * scale_step_y(j),
                forall|j: int| i <= j < Y_COUNT ==> #[trigger] self.ytbl@[j] == old_y@[j],
            decreases Y_COUNT - i,
        {
            let pos_y: i32 = BASE_Y + (i as i32) * 16;
            proof {
                lemma_scale_step_y_bounds(i as int);
            }
            assert(-80 * 84 <= (pos_y - by) * factor_y <= 80 * 84 &&
                (pos_y - by) * factor_y == (pos_y - by) * sign * 84) by (nonlinear_arith)
                requires
                    0 <= pos_y - by <= 80,
                    factor_y == sign * 84,
                    sign == 1 || sign == -1;
            let m: i32 = (pos_y - by) * factor_y;
            let d: i32 = m / 128;
            assert(d == sign * scale_step_y(i as int)) by {
                if sign == -1 {
                    assert(m == -((base_y(i as int) - BASE_Y) * scale_factor_y()));
                } else {
                    assert(m == (base_y(i as int) - BASE_Y) * scale_factor_y());
                }
            }
            assert(0 <= scale_step_y(i as int) * scale_phase(c as int) <= 64 * 128)
                by (nonlinear_arith)
                requires
                    0 <= scale_step_y(i as int) <= 64,
                    0 <= scale_phase(c as int) <= 128;
            self.ytbl[i] = self.ytbl[i] + d;
            i += 1;
        }

        assert forall|j: int| 0 <= j < X_COUNT implies #[trigger] self.xtbl@[j] == base_x(j) * ONE
            + scale_step_x(j) * scale_phase(c as int + 1) by {
            let s = scale_step_x(j);
            let p = scale_phase(c as int);
            assert(s * p + sign * s == s * (p + sign)) by (nonlinear_arith);
        }
        assert forall|j: int| 0 <= j < Y_COUNT implies #[trigger] self.ytbl@[j] == base_y(j) * ONE
            + scale_step_y(j) * scale_phase(c as int + 1) by {
            let s = scale_step_y(j);
            let p = scale_phase(c as int);
            assert(s * p + sign * s == s * (p + sign)) by (nonlinear_arith);
        }
        self.moving_count = self.moving_count + 1;
    }

    /// The position of a formation slot.
    pub fn pos(&self, index: &FormationIndex) -> (p: Vec2I)
        requires
            (index.0 as int) < X_COUNT,
            (index.1 as int) < Y_COUNT,
        ensures
            p == self.pos_spec(*index),
    {
        Vector2D::new(self.xtbl[index.0 as usize], self.ytbl[index.1 as usize])
    }
}

/// The x coordinate, in dots, of column `j` at rest.
pub fn base_x_at(j: usize) -> (x: i32)
    requires
        j < X_COUNT,
    ensures
        x == base_x(j as int),
{
    WIDTH / 2 - ((X_COUNT - 1) as i32) * 16 / 2 + (j as i32) * 16
}

proof fn lemma_slide_phase_bounds(c: int)
    ensures
        -128 <= slide_phase(c) <= 128,
{
}

proof fn lemma_scale_phase_bounds(c: int)
    ensures
        0 <= scale_phase(c) <= 128,
{
}

proof fn lemma_scale_step_x_bounds(j: int)
    requires
        0 <= j < X_COUNT,
    ensures
        -64 <= scale_step_x(j) <= 64,
        -72 <= base_x(j) - WIDTH / 2 <= 72,
        scale_factor_x() == 113,
{
    assert(scale_factor_x() == 113) by {
        assert((WIDTH - X_COUNT as int * 16) / 2 * ONE == 8192);
        assert((X_COUNT as int - 1) * 16 / 2 == 72);
        assert(8192int / 72int == 113);
    }
    let a = (base_x(j) - WIDTH / 2) * 113;
    assert(-8136 <= a <= 8136) by (nonlinear_arith)
        requires a == (base_x(j) - 112) * 113, -72 <= base_x(j) - 112 <= 72;
}

proof fn lemma_scale_step_y_bounds(i: int)
    requires
        0 <= i < Y_COUNT,
    ensures
        0 <= scale_step_y(i) <= 64,
        0 <= base_y(i) - BASE_Y <= 80,
        scale_factor_y() == 84,
{
    assert(scale_factor_y() == 84) by {
        assert((WIDTH - X_COUNT as int * 16) / 2 * ONE == 8192);
        assert((X_COUNT as int - 1) * 16 / 2 == 72);
        assert(8192int / 72int == 113);
        assert(339int / 4int == 84);
    }
    let a = (base_y(i) - BASE_Y) * 84;
    assert(0 <= a <= 6720) by (nonlinear_arith)
        requires a == (base_y(i) - 24) * 84, 0 <= base_y(i) - 24 <= 80;
}

proof fn lemma_slide_phase_step(c: int)
    requires
        c >= 0,
    ensures
        slide_phase(c + 1) - slide_phase(c) == if (c + 128) % 512 >= 256 { -1int } else { 1int },
{
    let p = (c + 128) % 512;
    if p == 511 {
        assert((c + 129) % 512 == 0);
    } else {
        assert((c + 129) % 512 == p + 1);
    }
}

proof fn lemma_scale_phase_step(c: int)
    requires
        c >= 0,
    ensures
        scale_phase(c + 1) - scale_phase(c) == if c % 256 >= 128 { -1int } else { 1int },
{
    let t = c % 256;
    if t == 255 {
        assert((c + 1) % 256 == 0);
    } else {
        assert((c + 1) % 256 == t + 1);
    }
}

} // verus!

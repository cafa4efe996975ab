use vstd::prelude::*;

use crate::collision::CollBox;
use crate::consts::{ANGLE_DIV, HEIGHT, MYSHOT_SPEED, WIDTH};
use crate::framework::{at_dots, draw_sprites, sprites_are, RendererTrait, Sprite};
use crate::math::{calc_velocity, quantize_angle, quantized, round_fixed, round_vec, velocity, ONE};
use crate::types::{Vec2I, Vector2D};

verus! {

/// Bound of the coordinates of a player's shot.
pub open spec fn myshot_pos_limit() -> int { 0x4_0000 }

/// Whether a shot at `pos` is still in the field and its margin of 4 dots.
pub open spec fn myshot_in_field(angle: i32, pos: Vec2I) -> bool {
    let margin: int = 4;
    if angle == 0 {
        pos.y > -margin * ONE
    } else {
        &&& pos.y > -margin * ONE
        &&& pos.x > -margin * ONE
        &&& pos.x < (WIDTH + margin) * ONE
        &&& pos.y < (HEIGHT + margin) * ONE
    }
}

/// A shot of the player's ship; a dual fighter fires two side by side.
#[derive(Clone, Copy, Debug)]
pub struct MyShot {
    pub pos: Vec2I,
    pub dual: bool,
    pub angle: i32,
}

impl MyShot {
    /// The shot stays within bounds.
    pub open spec fn wf(&self) -> bool {
        &&& -myshot_pos_limit() <= self.pos.x <= myshot_pos_limit()
        &&& -myshot_pos_limit() <= self.pos.y <= myshot_pos_limit()
        &&& -0x4000_0000 <= self.angle <= 0x4000_0000
    }

    pub fn new(pos: &Vec2I, dual: bool, angle: i32) -> (s: Self)
        ensures
            s == (MyShot { pos: *pos, dual, angle }),
    {
        Self { pos: *pos, dual, angle }
    }

    /// Moves one frame: straight up, or along the angle of a shot fired while spinning.
    /// Tells whether the shot is still in the field.
    pub fn update(&mut self) -> (alive: bool)
        requires
            old(self).wf(),
        ensures
            alive == myshot_in_field(old(self).angle, final(self).pos),
            alive ==> final(self).wf(),
            final(self).dual == old(self).dual,
            final(self).angle == old(self).angle,
            final(self).pos == if old(self).angle == 0 {
                Vector2D { x: old(self).pos.x, y: (old(self).pos.y - MYSHOT_SPEED) as i32 }
            } else {
                let v = velocity(old(self).angle as int, MYSHOT_SPEED as int);
                Vector2D { x: (old(self).pos.x + v.x) as i32, y: (old(self).pos.y + v.y) as i32 }
            },
    {
        let margin: i32 = 4;
        let top = -margin * ONE;
        if self.angle == 0 {
            self.pos.y = self.pos.y - MYSHOT_SPEED;
            self.pos.y > top
        } else {
            let left = -margin * ONE;
            let right = (WIDTH + margin) * ONE;
            let bottom = (HEIGHT + margin) * ONE;
            self.pos = self.pos.plus(&calc_velocity(self.angle, MYSHOT_SPEED));
            self.pos.y > top && self.pos.x > left && self.pos.x < right && self.pos.y < bottom
        }
    }

    /// What the shot shows: its sprite, with a second one to its right when it is dual; a shot
    /// fired at a heading is drawn turned by that heading.
    pub open spec fn sprites_spec(&self) -> Seq<(Seq<char>, Vec2I, Option<u8>)> {
        if self.angle == 0 {
            let first = seq![("myshot"@, at_dots(self.pos, -2, -4), None::<u8>)];
            if self.dual { first.push(("myshot"@, at_dots(self.pos, -2 + 16, -4), None)) } else { first }
        } else {
            seq![("myshot"@, at_dots(self.pos, -2, -4), Some(quantized(self.angle as int, ANGLE_DIV as int) as u8))]
        }
    }

    /// The sprites that the shot shows.
    pub fn sprites(&self) -> (v: Vec<Sprite>)
        requires
            self.wf(),
        ensures
            sprites_are(v@, self.sprites_spec()),
    {
        let pos = round_vec(&self.pos);
        let mut v: Vec<Sprite> = Vec::new();
        if self.angle == 0 {
            v.push(Sprite { name: "myshot", pos: pos.plus(&Vector2D::new(-2, -4)), angle: None });
            if self.dual {
                v.push(Sprite { name: "myshot", pos: pos.plus(&Vector2D::new(-2 + 16, -4)), angle: None });
            }
        } else {
            v.push(Sprite {
                name: "myshot",
                pos: pos.plus(&Vector2D::new(-2, -4)),
                angle: Some(quantize_angle(self.angle, ANGLE_DIV)),
            });
        }
        v
    }

    /// Draws the shot's sprites in order, and gives the first failure of the renderer, if any.
    pub fn draw<R: RendererTrait>(&self, renderer: &mut R) -> (r: Result<(), String>)
        requires
            self.wf(),
    {
        let v = self.sprites();
        draw_sprites(&v, renderer)
    }

    /// The hit box of the second shot of a dual fighter.
    pub fn dual_collbox(&self) -> (c: Option<CollBox>)
        requires
            self.wf(),
        ensures
            c == if self.dual {
                Some(CollBox {
                    top_left: Vector2D {
                        x: (round_fixed(self.pos.x as int) - 1 + 16) as i32,
                        y: (round_fixed(self.pos.y as int) - 4) as i32,
                    },
                    size: Vector2D { x: 1, y: 8 },
                })
            } else {
                None
            },
    {
        if self.dual {
            Some(CollBox {
                top_left: round_vec(&self.pos).plus(&Vector2D::new(-1 + 16, -4)),
                size: Vector2D::new(1, 8),
            })
        } else {
            None
        }
    }

    /// The hit box of the shot.
    pub fn get_collbox(&self) -> (c: Option<CollBox>)
        requires
            self.wf(),
        ensures
            c == Some(CollBox {
                top_left: Vector2D {
                    x: (round_fixed(self.pos.x as int) - 1) as i32,
                    y: (round_fixed(self.pos.y as int) - 4) as i32,
                },
                size: Vector2D { x: 1, y: 8 },
            }),
    {
        Some(CollBox { top_left: round_vec(&self.pos).minus(&Vector2D::new(1, 4)), size: Vector2D::new(1, 8) })
    }
}

} // verus!

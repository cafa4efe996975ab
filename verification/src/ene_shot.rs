use vstd::prelude::*;

use crate::collision::CollBox;
use crate::consts::{HEIGHT, WIDTH};
use crate::framework::{at_dots, draw_sprites, sprites_are, RendererTrait, Sprite};
use crate::math::{round_fixed, round_vec, ONE};
use crate::types::{fits_i32, Vec2I, Vector2D};

verus! {

/// Whether a fixed-point position lies outside the screen and its margin.
pub open spec fn outside_screen(pos: Vec2I) -> bool {
    pos.x < -16 * ONE || pos.x > (WIDTH + 16) * ONE || pos.y < -16 * ONE || pos.y > (HEIGHT + 16) * ONE
}

/// Positions within the screen and its margin.
pub open spec fn on_screen(pos: Vec2I) -> bool {
    !outside_screen(pos)
}

/// Velocities small enough to keep a shot's position in range.
pub open spec fn shot_velocity_ok(vel: Vec2I) -> bool {
    -0x40_0000 <= vel.x <= 0x40_0000 && -0x40_0000 <= vel.y <= 0x40_0000
}

/// A shot fired by an enemy.
#[derive(Clone, Copy, Debug)]
pub struct EneShot {
    pub pos: Vec2I,
    pub vel: Vec2I,
}

impl EneShot {
    pub fn new(pos: &Vec2I, vel: &Vec2I) -> (s: Self)
        ensures
            s.pos == *pos,
            s.vel == *vel,
    {
        EneShot { pos: *pos, vel: *vel }
    }

    pub fn pos(&self) -> (p: &Vec2I)
        ensures
            *p == self.pos,
    {
        &self.pos
    }

    /// Moves one frame; tells whether the shot is still on the screen.
    pub fn update(&mut self) -> (alive: bool)
        requires
            fits_i32(old(self).pos.x + old(self).vel.x),
            fits_i32(old(self).pos.y + old(self).vel.y),
        ensures
            final(self).pos.x == old(self).pos.x + old(self).vel.x,
            final(self).pos.y == old(self).pos.y + old(self).vel.y,
            final(self).vel == old(self).vel,
            alive == on_screen(final(self).pos),
    {
        self.pos = self.pos.plus(&self.vel);
        !out_of_screen(&self.pos)
    }

    /// The hit box of the shot.
    pub fn get_collbox(&self) -> (c: Option<CollBox>)
        requires
            on_screen(self.pos),
        ensures
            c == Some(CollBox {
                top_left: Vector2D {
                    x: (round_fixed(self.pos.x as int) - 1) as i32,
                    y: (round_fixed(self.pos.y as int) - 4) as i32,
                },
                size: Vector2D { x: 1, y: 8 },
            }),
    {
        let pos = round_vec(&self.pos);
        Some(CollBox { top_left: pos.minus(&Vector2D::new(1, 4)), size: Vector2D::new(1, 8) })
    }

    /// What the shot shows: its sprite centred on its place.
    pub open spec fn sprites_spec(&self) -> Seq<(Seq<char>, Vec2I, Option<u8>)> {
        seq![("ene_shot"@, at_dots(self.pos, -2, -4), None)]
    }

    /// The sprites that the shot shows.
    pub fn sprites(&self) -> (v: Vec<Sprite>)
        requires
            on_screen(self.pos),
        ensures
            sprites_are(v@, self.sprites_spec()),
    {
        let pos = round_vec(&self.pos);
        let mut v: Vec<Sprite> = Vec::new();
        v.push(Sprite { name: "ene_shot", pos: pos.plus(&Vector2D::new(-2, -4)), angle: None });
        v
    }

    /// Draws the shot, and gives what the renderer gives.
    pub fn draw<R: RendererTrait>(&self, renderer: &mut R) -> (r: Result<(), String>)
        requires
            on_screen(self.pos),
    {
        let v = self.sprites();
        draw_sprites(&v, renderer)
    }
}

/// Whether a fixed-point position lies outside the screen and its margin.
pub fn out_of_screen(pos: &Vec2I) -> (r: bool)
    ensures
        r == outside_screen(*pos),
{
    pos.x < -16 * ONE || pos.x > (WIDTH + 16) * ONE || pos.y < -16 * ONE || pos.y > (HEIGHT + 16) * ONE
}

} // verus!

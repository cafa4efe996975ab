use vstd::prelude::*;

use crate::pad::VKey;
use crate::types::{Vec2I, Vector2D};

verus! {

/// The drawing surface that a platform provides to the game.
pub trait RendererTrait {
    fn load_textures(&mut self, base_path: &str, filenames: &[&str]) -> Result<(), String>;
    fn load_sprite_sheet(&mut self, filename: &str) -> Result<(), String>;
    fn clear(&mut self);
    fn present(&mut self);
    fn set_texture_color_mod(&mut self, tex_name: &str, r: u8, g: u8, b: u8);
    fn draw_str(&mut self, tex_name: &str, x: i32, y: i32, text: &str) -> Result<(), String>;
    fn draw_sprite(&mut self, sprite_name: &str, pos: &Vec2I) -> Result<(), String>;
    fn draw_sprite_rot(&mut self, sprite_name: &str, pos: &Vec2I, angle: u8, center: Option<&Vec2I>)
        -> Result<(), String>;
    fn set_draw_color(&mut self, r: u8, g: u8, b: u8);
    fn fill_rect(&mut self, dst: Option<[&Vec2I; 2]>) -> Result<(), String>;
}

/// Values that a platform keeps between runs, such as the high score.
pub trait SystemTrait {
    fn get_u32(&self, key: &str) -> Option<u32>;
    fn set_u32(&mut self, key: &str, value: u32);
}

/// An application that a platform runs frame by frame.
pub trait AppTrait<R: RendererTrait> {
    fn init(&mut self, renderer: &mut R);
    fn update(&mut self) -> bool;
    fn draw(&mut self, renderer: &mut R);
    fn on_key(&mut self, keycode: VKey, down: bool);
    fn on_joystick_axis(&mut self, axis_index: u8, dir: i8);
    fn on_joystick_button(&mut self, button_index: u8, down: bool);
}

/// A fixed-point place rounded to whole dots and moved by an offset in dots.
pub open spec fn at_dots(pos: Vec2I, dx: int, dy: int) -> Vec2I {
    Vector2D {
        x: (crate::math::round_fixed(pos.x as int) + dx) as i32,
        y: (crate::math::round_fixed(pos.y as int) + dy) as i32,
    }
}

/// One sprite to draw: its name, its place in dots, and its rotation when it is drawn turned.
#[derive(Clone, Copy, Debug)]
pub struct Sprite {
    pub name: &'static str,
    pub pos: Vec2I,
    pub angle: Option<u8>,
}

/// What a sprite is, as contracts speak of it: its name, its place and its rotation.
pub open spec fn sprite_view(s: Sprite) -> (Seq<char>, Vec2I, Option<u8>) {
    (s.name@, s.pos, s.angle)
}

/// Whether the sprites `v` are, in order, those of `expected`.
pub open spec fn sprites_are(v: Seq<Sprite>, expected: Seq<(Seq<char>, Vec2I, Option<u8>)>) -> bool {
    &&& v.len() == expected.len()
    &&& forall|i: int| 0 <= i < v.len() ==> #[trigger] sprite_view(v[i]) == expected[i]
}

/// Draws the sprites in order, each turned when it has a rotation, and stops at the first
/// failure, which it gives back. With no sprite it succeeds without a call.
pub fn draw_sprites<R: RendererTrait>(sprites: &Vec<Sprite>, renderer: &mut R) -> (r: Result<(), String>)
    ensures
        sprites@.len() == 0 ==> r is Ok,
{
    let mut i: usize = 0;
    while i < sprites.len()
        invariant
            i <= sprites@.len(),
        decreases sprites@.len() - i,
    {
        let s = sprites[i];
        match s.angle {
            Some(a) => renderer.draw_sprite_rot(s.name, &s.pos, a, None)?,
            None => renderer.draw_sprite(s.name, &s.pos)?,
        }
        i += 1;
    }
    Ok(())
}

} // verus!

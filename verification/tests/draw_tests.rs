use galangua::effect::{EarnedPointType, Effect};
use galangua::framework::RendererTrait;
use galangua::myshot::MyShot;
use galangua::player::{Player, PlayerState};
use galangua::types::Vec2I;

#[derive(Default)]
struct Recorder {
    calls: Vec<(String, Vec2I, Option<u8>)>,
}

impl RendererTrait for Recorder {
    fn load_textures(&mut self, _base_path: &str, _filenames: &[&str]) -> Result<(), String> { Ok(()) }
    fn load_sprite_sheet(&mut self, _filename: &str) -> Result<(), String> { Ok(()) }
    fn clear(&mut self) {}
    fn present(&mut self) {}
    fn set_texture_color_mod(&mut self, _tex_name: &str, _r: u8, _g: u8, _b: u8) {}
    fn draw_str(&mut self, _tex_name: &str, _x: i32, _y: i32, _text: &str) -> Result<(), String> { Ok(()) }
    fn draw_sprite(&mut self, sprite_name: &str, pos: &Vec2I) -> Result<(), String> {
        self.calls.push((sprite_name.to_string(), *pos, None));
        Ok(())
    }
    fn draw_sprite_rot(&mut self, sprite_name: &str, pos: &Vec2I, angle: u8, _center: Option<&Vec2I>)
        -> Result<(), String> {
        self.calls.push((sprite_name.to_string(), *pos, Some(angle)));
        Ok(())
    }
    fn set_draw_color(&mut self, _r: u8, _g: u8, _b: u8) {}
    fn fill_rect(&mut self, _dst: Option<[&Vec2I; 2]>) -> Result<(), String> { Ok(()) }
}

#[test]
fn an_earned_point_effect_draws_its_mark() {
    let e = Effect::create_earned_point(EarnedPointType::Point800, &Vec2I::new(0, 0));
    let mut r = Recorder::default();
    assert!(e.draw(&mut r).is_ok());
    assert_eq!(vec![("pts800".to_string(), Vec2I::new(-8, -4), None)], r.calls);
}

#[test]
fn a_dead_ship_without_a_rescued_fighter_draws_nothing() {
    let mut p = Player::new();
    p.state = PlayerState::Dead;
    let mut r = Recorder::default();
    assert!(p.draw(&mut r).is_ok());
    assert!(r.calls.is_empty());
}

#[test]
fn a_dual_shot_draws_two_sprites_sixteen_dots_apart() {
    let s = MyShot::new(&Vec2I::new(100 * 256, 50 * 256), true, 0);
    let mut r = Recorder::default();
    assert!(s.draw(&mut r).is_ok());
    assert_eq!(vec![
        ("myshot".to_string(), Vec2I::new(98, 46), None),
        ("myshot".to_string(), Vec2I::new(114, 46), None),
    ], r.calls);
}

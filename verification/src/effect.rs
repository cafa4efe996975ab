use vstd::prelude::*;

use crate::framework::{draw_sprites, sprites_are, RendererTrait, Sprite};
use crate::math::{round_fixed, round_vec, roundable};
use crate::types::{Vec2I, Vector2D};

verus! {

/// The points shown where a formation of enemies was shot down.
#[derive(Clone, Copy, Debug, PartialEq, Eq, Structural)]
pub enum EarnedPointType {
    Point1600,
    Point1000,
    Point800,
    Point400,
}

/// The point type shown for a score, if any.
pub open spec fn earned_point_type_of(point: u32) -> Option<EarnedPointType> {
    if point == 1600 {
        Some(EarnedPointType::Point1600)
    } else if point == 1000 {
        Some(EarnedPointType::Point1000)
    } else if point == 800 {
        Some(EarnedPointType::Point800)
    } else if point == 400 {
        Some(EarnedPointType::Point400)
    } else {
        None
    }
}

/// The point type shown for a score, if any.
pub fn to_earned_point_type(point: u32) -> (r: Option<EarnedPointType>)
    ensures
        r == earned_point_type_of(point),
{
    match point {
        1600 => Some(EarnedPointType::Point1600),
        1000 => Some(EarnedPointType::Point1000),
        800 => Some(EarnedPointType::Point800),
        400 => Some(EarnedPointType::Point400),
        _ => None,
    }
}

pub const EARNED_POINT_FRAME: u32 = 64;
pub const ENEMY_EXPLOSION_FRAME: u32 = 4;
pub const PLAYER_EXPLOSION_FRAME: u32 = 8;

/// Number of frames of each effect animation.
pub open spec fn earned_point_len() -> nat { 1 }
pub open spec fn enemy_explosion_len() -> nat { 5 }
pub open spec fn player_explosion_len() -> nat { 4 }

/// The name of the sprite that shows an earned score.
pub open spec fn earned_point_name(point_type: EarnedPointType) -> Seq<char> {
    match point_type {
        EarnedPointType::Point1600 => "pts1600"@,
        EarnedPointType::Point1000 => "pts1000"@,
        EarnedPointType::Point800 => "pts800"@,
        EarnedPointType::Point400 => "pts400"@,
    }
}

/// The sprites of an earned-point effect.
pub fn earned_point_sprites(point_type: EarnedPointType) -> (s: &'static [&'static str])
    ensures
        s@.len() == earned_point_len(),
        s@[0]@ == earned_point_name(point_type),
{
    match point_type {
        EarnedPointType::Point1600 => &["pts1600"],
        EarnedPointType::Point1000 => &["pts1000"],
        EarnedPointType::Point800 => &["pts800"],
        EarnedPointType::Point400 => &["pts400"],
    }
}

/// The names of the sprites of an enemy explosion, in order.
pub open spec fn enemy_explosion_names() -> Seq<Seq<char>> {
    seq!["ene_exp1"@, "ene_exp2"@, "ene_exp3"@, "ene_exp4"@, "ene_exp5"@]
}

/// The sprites of an enemy explosion.
pub fn enemy_explosion_sprites() -> (s: &'static [&'static str])
    ensures
        s@.len() == enemy_explosion_len(),
        forall|i: int| 0 <= i < s@.len() ==> #[trigger] s@[i]@ == enemy_explosion_names()[i],
{
    &["ene_exp1", "ene_exp2", "ene_exp3", "ene_exp4", "ene_exp5"]
}

/// The names of the sprites of a player explosion, in order.
pub open spec fn player_explosion_names() -> Seq<Seq<char>> {
    seq!["pl_exp1"@, "pl_exp2"@, "pl_exp3"@, "pl_exp4"@]
}

/// The sprites of a player explosion.
pub fn player_explosion_sprites() -> (s: &'static [&'static str])
    ensures
        s@.len() == player_explosion_len(),
        forall|i: int| 0 <= i < s@.len() ==> #[trigger] s@[i]@ == player_explosion_names()[i],
{
    &["pl_exp1", "pl_exp2", "pl_exp3", "pl_exp4"]
}

/// An animation that shows a sequence of sprites, each for `frame_wait` frames.
#[derive(Clone, Copy, Debug)]
pub struct SequentialSpriteAnime {
    pub pos: Vec2I,
    pub sprites: &'static [&'static str],
    pub frame_wait: u32,
    pub frame: u32,
    pub count: u32,
}

/// A frame of an animation: the count goes up, and at the wait the next sprite comes.
pub open spec fn anime_stepped(a0: SequentialSpriteAnime, a1: SequentialSpriteAnime) -> bool {
    &&& a1.pos == a0.pos
    &&& a1.sprites == a0.sprites
    &&& a1.frame_wait == a0.frame_wait
    &&& if a0.count + 1 >= a0.frame_wait {
        a1.count == 0 && a1.frame == a0.frame + 1
    } else {
        a1.count == a0.count + 1 && a1.frame == a0.frame
    }
}

impl SequentialSpriteAnime {
    pub fn new(pos: Vec2I, sprites: &'static [&'static str], frame_wait: u32) -> (a: Self)
        ensures
            a.pos == pos,
            a.sprites == sprites,
            a.frame_wait == frame_wait,
            a.frame == 0,
            a.count == 0,
    {
        SequentialSpriteAnime { pos, sprites, frame_wait, frame: 0, count: 0 }
    }

    /// Advances one frame; tells whether the animation still runs.
    pub fn update(&mut self) -> (alive: bool)
        requires
            old(self).count < u32::MAX,
            old(self).frame < u32::MAX,
        ensures
            final(self).pos == old(self).pos,
            final(self).sprites == old(self).sprites,
            final(self).frame_wait == old(self).frame_wait,
            old(self).count + 1 >= old(self).frame_wait ==> {
                &&& final(self).count == 0
                &&& final(self).frame == old(self).frame + 1
            },
            old(self).count + 1 < old(self).frame_wait ==> {
                &&& final(self).count == old(self).count + 1
                &&& final(self).frame == old(self).frame
            },
            alive == (final(self).frame < old(self).sprites@.len()),
            anime_stepped(*old(self), *final(self)),
    {
        self.count += 1;
        if self.count >= self.frame_wait {
            self.count = 0;
            self.frame += 1;
        }
        (self.frame as usize) < self.sprites.len()
    }

    /// What the animation shows: its current sprite at its place.
    pub open spec fn sprites_spec(&self) -> Seq<(Seq<char>, Vec2I, Option<u8>)> {
        seq![(self.sprites@[self.frame as int]@, self.pos, None)]
    }

    /// The sprites that the animation shows.
    pub fn sprites(&self) -> (v: Vec<Sprite>)
        requires
            (self.frame as int) < self.sprites@.len(),
        ensures
            sprites_are(v@, self.sprites_spec()),
    {
        let mut v: Vec<Sprite> = Vec::new();
        v.push(Sprite { name: self.sprites[self.frame as usize], pos: self.pos, angle: None });
        v
    }

    /// Draws the current sprite at the animation's place, and gives what the renderer gives.
    pub fn draw<R: RendererTrait>(&self, renderer: &mut R) -> (r: Result<(), String>)
        requires
            (self.frame as int) < self.sprites@.len(),
    {
        let v = self.sprites();
        draw_sprites(&v, renderer)
    }
}

/// An earned-point effect for `point_type` centred on `pos`, at its first frame.
pub open spec fn is_earned_point_effect(e: Effect, point_type: EarnedPointType, pos: Vec2I) -> bool {
    &&& e.anime().pos.x == round_fixed(pos.x as int) - 8
    &&& e.anime().pos.y == round_fixed(pos.y as int) - 4
    &&& e.anime().sprites@.len() == earned_point_len()
    &&& e.anime().sprites@[0]@ == earned_point_name(point_type)
    &&& e.anime().frame_wait == EARNED_POINT_FRAME
    &&& e.anime().frame == 0
    &&& e.anime().count == 0
}

/// An enemy explosion centred on `pos`, at its first frame.
pub open spec fn is_enemy_explosion(e: Effect, pos: Vec2I) -> bool {
    &&& e.anime().pos.x == round_fixed(pos.x as int) - 16
    &&& e.anime().pos.y == round_fixed(pos.y as int) - 16
    &&& e.anime().sprites@.len() == enemy_explosion_len()
    &&& forall|i: int| 0 <= i < enemy_explosion_len() ==> #[trigger] e.anime().sprites@[i]@ == enemy_explosion_names()[i]
    &&& e.anime().frame_wait == ENEMY_EXPLOSION_FRAME
    &&& e.anime().frame == 0
    &&& e.anime().count == 0
}

/// A player explosion centred on `pos`, at its first frame.
pub open spec fn is_player_explosion(e: Effect, pos: Vec2I) -> bool {
    &&& e.anime().pos.x == round_fixed(pos.x as int) - 16
    &&& e.anime().pos.y == round_fixed(pos.y as int) - 16
    &&& e.anime().sprites@.len() == player_explosion_len()
    &&& forall|i: int| 0 <= i < player_explosion_len() ==> #[trigger] e.anime().sprites@[i]@ == player_explosion_names()[i]
    &&& e.anime().frame_wait == PLAYER_EXPLOSION_FRAME
    &&& e.anime().frame == 0
    &&& e.anime().count == 0
}

/// A visual effect.
#[derive(Clone, Copy, Debug)]
pub enum Effect {
    SequentialSpriteAnime(SequentialSpriteAnime),
}

impl Effect {
    /// The animation of the effect.
    pub open spec fn anime(&self) -> SequentialSpriteAnime {
        match self {
            Effect::SequentialSpriteAnime(x) => *x,
        }
    }

    /// Points earned, shown centred on `pos`.
    pub fn create_earned_point(point_type: EarnedPointType, pos: &Vec2I) -> (e: Self)
        requires
            roundable(*pos),
        ensures
            e.anime().pos.x == round_fixed(pos.x as int) - 8,
            e.anime().pos.y == round_fixed(pos.y as int) - 4,
            e.anime().sprites@.len() == earned_point_len(),
            e.anime().sprites@[0]@ == earned_point_name(point_type),
            e.anime().frame_wait == EARNED_POINT_FRAME,
            e.anime().frame == 0,
            e.anime().count == 0,
            is_earned_point_effect(e, point_type, *pos),
    {
        let p = round_vec(pos);
        Effect::SequentialSpriteAnime(
            SequentialSpriteAnime::new(
                p.plus(&Vector2D::new(-8, -4)),
                earned_point_sprites(point_type),
                EARNED_POINT_FRAME,
            ),
        )
    }

    /// An enemy explosion centred on `pos`.
    pub fn create_enemy_explosion(pos: &Vec2I) -> (e: Self)
        requires
            roundable(*pos),
        ensures
            e.anime().pos.x == round_fixed(pos.x as int) - 16,
            e.anime().pos.y == round_fixed(pos.y as int) - 16,
            e.anime().sprites@.len() == enemy_explosion_len(),
            forall|i: int| 0 <= i < enemy_explosion_len() ==> #[trigger] e.anime().sprites@[i]@ == enemy_explosion_names()[i],
            e.anime().frame_wait == ENEMY_EXPLOSION_FRAME,
            e.anime().frame == 0,
            e.anime().count == 0,
            is_enemy_explosion(e, *pos),
    {
        let p = round_vec(pos);
        Effect::SequentialSpriteAnime(
            SequentialSpriteAnime::new(
                p.plus(&Vector2D::new(-16, -16)),
                enemy_explosion_sprites(),
                ENEMY_EXPLOSION_FRAME,
            ),
        )
    }

    /// A player explosion centred on `pos`.
    pub fn create_player_explosion(pos: &Vec2I) -> (e: Self)
        requires
            roundable(*pos),
        ensures
            e.anime().pos.x == round_fixed(pos.x as int) - 16,
            e.anime().pos.y == round_fixed(pos.y as int) - 16,
            e.anime().sprites@.len() == player_explosion_len(),
            forall|i: int| 0 <= i < player_explosion_len() ==> #[trigger] e.anime().sprites@[i]@ == player_explosion_names()[i],
            e.anime().frame_wait == PLAYER_EXPLOSION_FRAME,
            e.anime().frame == 0,
            e.anime().count == 0,
            is_player_explosion(e, *pos),
    {
        let p = round_vec(pos);
        Effect::SequentialSpriteAnime(
            SequentialSpriteAnime::new(
                p.plus(&Vector2D::new(-16, -16)),
                player_explosion_sprites(),
                PLAYER_EXPLOSION_FRAME,
            ),
        )
    }

    /// Advances one frame; tells whether the effect still runs.
    pub fn update(&mut self) -> (alive: bool)
        requires
            old(self).anime().count < u32::MAX,
            old(self).anime().frame < u32::MAX,
        ensures
            final(self).anime().pos == old(self).anime().pos,
            final(self).anime().sprites == old(self).anime().sprites,
            final(self).anime().frame_wait == old(self).anime().frame_wait,
            old(self).anime().count + 1 >= old(self).anime().frame_wait ==> {
                &&& final(self).anime().count == 0
                &&& final(self).anime().frame == old(self).anime().frame + 1
            },
            old(self).anime().count + 1 < old(self).anime().frame_wait ==> {
                &&& final(self).anime().count == old(self).anime().count + 1
                &&& final(self).anime().frame == old(self).anime().frame
            },
            alive == (final(self).anime().frame < old(self).anime().sprites@.len()),
    {
        match self {
            Effect::SequentialSpriteAnime(x) => x.update(),
        }
    }

    /// The sprites that the effect shows: those of its animation.
    pub fn sprites(&self) -> (v: Vec<Sprite>)
        requires
            (self.anime().frame as int) < self.anime().sprites@.len(),
        ensures
            sprites_are(v@, self.anime().sprites_spec()),
    {
        match self {
            Effect::SequentialSpriteAnime(x) => x.sprites(),
        }
    }

    /// Draws the effect's current sprite, and gives what the renderer gives.
    pub fn draw<R: RendererTrait>(&self, renderer: &mut R) -> (r: Result<(), String>)
        requires
            (self.anime().frame as int) < self.anime().sprites@.len(),
    {
        let v = self.sprites();
        draw_sprites(&v, renderer)
    }
}

} // verus!

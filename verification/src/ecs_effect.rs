use vstd::prelude::*;

use crate::ecs::{new_seqanime, update_seqanime, Posture, SequentialSpriteAnime, SpriteDrawable};
use crate::ecs_world::{empty_components, no_components, Components, Entity, World};
use crate::effect::{
    earned_point_name, earned_point_sprites, enemy_explosion_names, enemy_explosion_sprites,
    player_explosion_names, player_explosion_sprites, EarnedPointType, EARNED_POINT_FRAME,
    ENEMY_EXPLOSION_FRAME, PLAYER_EXPLOSION_FRAME,
};
use crate::types::{Vec2I, Vector2D};

verus! {

/// An animated effect at a place: its sprites from the first, each shown for some frames,
/// drawn at an offset.
pub open spec fn effect_entity(pos: Vec2I, sprites: &'static [&'static str], frame_wait: u32, offset: Vec2I) -> Components {
    Components {
        posture: Some(Posture(pos, 0)),
        anime: Some(SequentialSpriteAnime(sprites, frame_wait, 0)),
        sprite: Some(SpriteDrawable { sprite_name: sprites@[0], offset }),
        ..no_components()
    }
}

fn create_effect(pos: &Vec2I, sprites: &'static [&'static str], frame_wait: u32, offset: Vec2I, world: &mut World) -> (e: Entity)
    requires
        sprites@.len() > 0,
    ensures
        e.0 == old(world).entities@.len(),
        final(world).entities@ == old(world).entities@.push(Some(effect_entity(*pos, sprites, frame_wait, offset))),
{
    let mut c = empty_components();
    c.posture = Some(Posture(*pos, 0));
    c.anime = Some(new_seqanime(sprites, frame_wait));
    c.sprite = Some(SpriteDrawable { sprite_name: sprites[0], offset });
    world.push(c)
}

/// An enemy's explosion at a place.
pub fn create_enemy_explosion_effect(pos: &Vec2I, world: &mut World) -> (e: Entity)
    ensures
        e.0 == old(world).entities@.len(),
        final(world).entities@.len() == old(world).entities@.len() + 1,
        final(world).entities@.take(old(world).entities@.len() as int) == old(world).entities@,
        final(world).entities@.last() matches Some(c) && c.anime matches Some(a) && a.0@.len() == 5
            && (forall|i: int| 0 <= i < 5 ==> #[trigger] a.0@[i]@ == enemy_explosion_names()[i])
            && c == effect_entity(*pos, a.0, ENEMY_EXPLOSION_FRAME, Vector2D { x: -16i32, y: -16i32 }),
{
    let e = create_effect(pos, enemy_explosion_sprites(), ENEMY_EXPLOSION_FRAME, Vector2D::new(-16, -16), world);
    assert(world.entities@.take(old(world).entities@.len() as int) =~= old(world).entities@);
    e
}

/// The ship's explosion at a place.
pub fn create_player_explosion_effect(pos: &Vec2I, world: &mut World) -> (e: Entity)
    ensures
        e.0 == old(world).entities@.len(),
        final(world).entities@.len() == old(world).entities@.len() + 1,
        final(world).entities@.take(old(world).entities@.len() as int) == old(world).entities@,
        final(world).entities@.last() matches Some(c) && c.anime matches Some(a) && a.0@.len() == 4
            && (forall|i: int| 0 <= i < 4 ==> #[trigger] a.0@[i]@ == player_explosion_names()[i])
            && c == effect_entity(*pos, a.0, PLAYER_EXPLOSION_FRAME, Vector2D { x: -16i32, y: -16i32 }),
{
    let e = create_effect(pos, player_explosion_sprites(), PLAYER_EXPLOSION_FRAME, Vector2D::new(-16, -16), world);
    assert(world.entities@.take(old(world).entities@.len() as int) =~= old(world).entities@);
    e
}

/// The points earned, shown at a place.
pub fn create_earned_piont_effect(point_type: EarnedPointType, pos: &Vec2I, world: &mut World) -> (e: Entity)
    ensures
        e.0 == old(world).entities@.len(),
        final(world).entities@.len() == old(world).entities@.len() + 1,
        final(world).entities@.take(old(world).entities@.len() as int) == old(world).entities@,
        final(world).entities@.last() matches Some(c) && c.anime matches Some(a) && a.0@.len() == 1
            && a.0@[0]@ == earned_point_name(point_type)
            && c == effect_entity(*pos, a.0, EARNED_POINT_FRAME, Vector2D { x: -8i32, y: -4i32 }),
{
    let e = create_effect(pos, earned_point_sprites(point_type), EARNED_POINT_FRAME, Vector2D::new(-8, -4), world);
    assert(world.entities@.take(old(world).entities@.len() as int) =~= old(world).entities@);
    e
}

/// Runs an effect's animation a frame: it shows the animation's sprite, and leaves the world
/// once the animation is over.
pub fn move_sequential_anime(world: &mut World, entity: Entity)
    requires
        old(world).at(entity) matches Some(c) && c.sprite.is_some() && (c.anime matches Some(a) && a.2 < u32::MAX),
    ensures
        ({
            let c = old(world).at(entity).unwrap();
            let a = c.anime.unwrap();
            let next = a.0@.len() > 0 && a.2 + 1 >= a.1;
            let a2 = if a.0@.len() == 0 { a } else { final(world).at(entity).unwrap().anime.unwrap() };
            let left = if a.0@.len() == 0 { a.0@ } else if next { a.0@.subrange(1, a.0@.len() as int) } else { a.0@ };
            if left.len() == 0 {
                final(world).entities@ == old(world).entities@.update(entity.0 as int, None)
            } else {
                &&& a2.0@ == left
                &&& a2.1 == a.1
                &&& a2.2 == if next { 0 } else { a.2 + 1 }
                &&& final(world).entities@ == old(world).put_spec(entity, Components {
                    anime: Some(a2),
                    sprite: Some(SpriteDrawable { sprite_name: left[0], ..c.sprite.unwrap() }),
                    ..c
                })
            }
        }),
{
    let c = world.get(entity).unwrap();
    let mut a = c.anime.unwrap();
    match update_seqanime(&mut a) {
        Some(name) => {
            let sp = c.sprite.unwrap();
            world.put(entity, Components { anime: Some(a), sprite: Some(SpriteDrawable { sprite_name: name, ..sp }), ..c });
        },
        None => {
            world.remove(entity);
        },
    }
}

} // verus!

use vstd::prelude::*;

use crate::ecs::{CollRect, Enemy, Posture, SequentialSpriteAnime, Speed, SpriteDrawable, Zako};
use crate::player::PlayerState;
use crate::recaptured_fighter::RecapturedFighterState;
use crate::tractor_beam::TractorBeamState;
use crate::traj::Traj;
use crate::types::Vec2I;

verus! {

/// An entity of the world, by its number.
#[derive(Clone, Copy, Debug, PartialEq, Eq, Structural)]
pub struct Entity(pub usize);

/// The player's ship: what it does, a frame count, whether it may fire, and the entity of
/// its second fighter when it is dual.
#[derive(Clone, Copy, Debug)]
pub struct PlayerShip {
    pub state: PlayerState,
    pub count: u32,
    pub shot_enable: bool,
    pub dual: Option<Entity>,
}

/// The steps of a boss's capture attack.
#[derive(Clone, Copy, Debug, PartialEq, Eq, Structural)]
pub enum OwlCaptureAttackPhase {
    Capture,
    CaptureBeam,
    NoCaptureGoOut,
    Capturing,
    CaptureDoneWait,
    CaptureDoneBack,
    CaptureDonePushUp,
}

/// What a boss is doing.
#[derive(Clone, Copy, Debug, PartialEq, Eq, Structural)]
pub enum OwlState {
    Appearance,
    Formation,
    TrajAttack,
    CaptureAttack(OwlCaptureAttackPhase),
    MoveToFormation,
}

/// Where a boss stands in capturing the player's ship.
#[derive(Clone, Copy, Debug, PartialEq, Eq, Structural)]
pub enum OwlCapturingState {
    Idle,
    Attacking,
    BeamTracting,
    Failed,
}

/// A boss: its state, its flight path, its capture, a frame count and its life.
#[derive(Clone, Copy, Debug)]
pub struct Owl {
    pub state: OwlState,
    pub traj: Option<Traj>,
    pub capturing_state: OwlCapturingState,
    pub target_pos: Vec2I,
    pub count: u32,
    pub life: u32,
}

/// Number of places in a boss's escort.
pub const TROOPS_COUNT: usize = 3;

/// The enemies that fly with a boss, each with its offset from the boss.
#[derive(Clone, Copy, Debug)]
pub struct Troops {
    pub members: [Option<(Entity, Vec2I)>; 3],
}

/// Number of sprite steps of a fully opened beam.
pub const TRACTOR_BEAM_SPRITE_COUNT: usize = 12;

/// The beam with which a boss captures the player's ship, with the entities of the beam's
/// parts that are shown and the ship that it pulls.
#[derive(Clone, Copy, Debug)]
pub struct TractorBeam {
    pub pos: Vec2I,
    pub state: TractorBeamState,
    pub count: u32,
    pub color_count: u32,
    pub size_count: i32,
    pub beam_sprites: [Option<Entity>; 12],
    pub capturing_player: Option<Entity>,
}

/// A captured fighter set free, on its way to the player's ship.
#[derive(Clone, Copy, Debug)]
pub struct RecapturedFighter {
    pub state: RecapturedFighterState,
    pub count: u32,
    pub player_entity: Entity,
}

/// A shot of the player's ship: the ship that fired it, and the entity of the second shot
/// fired beside it by a dual fighter.
#[derive(Clone, Copy, Debug)]
pub struct PlayerShot {
    pub player_entity: Entity,
    pub dual: Option<Entity>,
}

/// The components that an entity has.
#[derive(Clone, Copy, Debug)]
pub struct Components {
    pub enemy: Option<Enemy>,
    pub zako: Option<Zako>,
    pub owl: Option<Owl>,
    pub troops: Option<Troops>,
    pub tractor_beam: Option<TractorBeam>,
    pub player: Option<PlayerShip>,
    pub recaptured_fighter: Option<RecapturedFighter>,
    pub posture: Option<Posture>,
    pub speed: Option<Speed>,
    pub sprite: Option<SpriteDrawable>,
    pub coll_rect: Option<CollRect>,
    /// The step of a tractor beam that this entity shows.
    pub beam_part: Option<usize>,
    pub shot: Option<PlayerShot>,
    pub anime: Option<SequentialSpriteAnime>,
}

/// An entity with no component.
pub open spec fn no_components() -> Components {
    Components {
        enemy: None,
        zako: None,
        owl: None,
        troops: None,
        tractor_beam: None,
        player: None,
        recaptured_fighter: None,
        posture: None,
        speed: None,
        sprite: None,
        coll_rect: None,
        beam_part: None,
        shot: None,
        anime: None,
    }
}

pub fn empty_components() -> (c: Components)
    ensures
        c == no_components(),
{
    Components {
        enemy: None,
        zako: None,
        owl: None,
        troops: None,
        tractor_beam: None,
        player: None,
        recaptured_fighter: None,
        posture: None,
        speed: None,
        sprite: None,
        coll_rect: None,
        beam_part: None,
        shot: None,
        anime: None,
    }
}

/// The entities of the game by number; a removed entity leaves its place empty.
pub struct World {
    pub entities: Vec<Option<Components>>,
}

impl World {
    /// The components of an entity, if it exists.
    pub open spec fn at(&self, e: Entity) -> Option<Components> {
        if e.0 < self.entities@.len() {
            self.entities@[e.0 as int]
        } else {
            None
        }
    }

    /// The world's entities after one is given new components.
    pub open spec fn put_spec(&self, e: Entity, c: Components) -> Seq<Option<Components>> {
        self.entities@.update(e.0 as int, Some(c))
    }

    pub fn new() -> (w: Self)
        ensures
            w.entities@.len() == 0,
    {
        World { entities: Vec::new() }
    }

    pub fn get(&self, e: Entity) -> (c: Option<Components>)
        ensures
            c == self.at(e),
    {
        if e.0 < self.entities.len() {
            self.entities[e.0]
        } else {
            None
        }
    }

    /// Gives an existing entity new components.
    pub fn put(&mut self, e: Entity, c: Components)
        requires
            old(self).at(e).is_some(),
        ensures
            final(self).entities@ == old(self).put_spec(e, c),
    {
        self.entities.set(e.0, Some(c));
    }

    /// Removes an entity, if it exists.
    pub fn remove(&mut self, e: Entity)
        ensures
            final(self).entities@ == if e.0 < old(self).entities@.len() {
                old(self).entities@.update(e.0 as int, None)
            } else {
                old(self).entities@
            },
    {
        if e.0 < self.entities.len() {
            self.entities.set(e.0, None);
        }
    }

    /// Adds an entity with some components; gives its number.
    pub fn push(&mut self, c: Components) -> (e: Entity)
        ensures
            e.0 == old(self).entities@.len(),
            final(self).entities@ == old(self).entities@.push(Some(c)),
    {
        let e = Entity(self.entities.len());
        self.entities.push(Some(c));
        e
    }
}

} // verus!

use vstd::prelude::*;

use crate::consts::{ANGLE_DIV, CENTER_X, PLAYER_Y};
use crate::events::EventType;
use crate::framework::{at_dots, draw_sprites, sprites_are, RendererTrait, Sprite};
use crate::math::{clamp, clamp_spec, quantize_angle, quantized, round_vec, ANGLE, ONE};
use crate::types::{Vec2I, Vector2D};

verus! {

/// Turn per frame of a spinning fighter: one of `ANGLE_DIV` sprite steps.
pub const SPIN_STEP: i32 = 2730;
/// Speed at which a rescued fighter slides into place.
pub const SLIDE_SPEED: i32 = 2 * ONE;
/// Bound of the coordinates of a rescued fighter.
pub open spec fn fighter_pos_limit() -> int { 0x2_0000 }

/// The steps of a rescued fighter's way back to the player.
#[derive(Clone, Copy, Debug, PartialEq, Eq, Structural)]
pub enum RecapturedFighterState {
    Rotate,
    SlideHorz,
    SlideDown,
    Done,
}

/// A captured fighter set free: it spins, then slides beside the player's ship.
#[derive(Clone, Copy, Debug)]
pub struct RecapturedFighter {
    pub pos: Vec2I,
    pub state: RecapturedFighterState,
    pub angle: i32,
}

/// One frame of a rescued fighter: the fighter and the events after it.
pub open spec fn fighter_step(f: RecapturedFighter, player_living: bool, no_attacker: bool, events: Seq<EventType>)
    -> (RecapturedFighter, Seq<EventType>) {
    match f.state {
        RecapturedFighterState::Rotate => {
            let a = if f.angle < 0x3fff_0000 { f.angle + SPIN_STEP } else { f.angle as int };
            if a >= ANGLE * ONE * 4 && no_attacker {
                (RecapturedFighter { state: RecapturedFighterState::SlideHorz, angle: 0, ..f }, events.push(EventType::MovePlayerHomePos))
            } else {
                (RecapturedFighter { angle: a as i32, ..f }, events)
            }
        },
        RecapturedFighterState::SlideHorz => {
            let x = CENTER_X + if player_living { 8 * ONE } else { 0 };
            let nx = f.pos.x + clamp_spec(x - f.pos.x, -SLIDE_SPEED as int, SLIDE_SPEED as int);
            (RecapturedFighter {
                pos: Vector2D { x: nx as i32, y: f.pos.y },
                state: if nx == x { RecapturedFighterState::SlideDown } else { RecapturedFighterState::SlideHorz },
                ..f
            }, events)
        },
        RecapturedFighterState::SlideDown => {
            let ny = f.pos.y + clamp_spec(PLAYER_Y - f.pos.y, -SLIDE_SPEED as int, SLIDE_SPEED as int);
            (RecapturedFighter {
                pos: Vector2D { x: f.pos.x, y: ny as i32 },
                state: if ny == PLAYER_Y { RecapturedFighterState::Done } else { RecapturedFighterState::SlideDown },
                ..f
            }, events)
        },
        RecapturedFighterState::Done => (f, events),
    }
}

impl RecapturedFighter {
    /// The fighter stays in the field, and its spin stays far from overflow.
    pub open spec fn wf(&self) -> bool {
        &&& -fighter_pos_limit() <= self.pos.x <= fighter_pos_limit()
        &&& -fighter_pos_limit() <= self.pos.y <= fighter_pos_limit()
        &&& 0 <= self.angle <= 0x4000_0000
    }

    pub fn new(pos: &Vec2I, angle: i32) -> (f: Self)
        requires
            -fighter_pos_limit() <= pos.x <= fighter_pos_limit(),
            -fighter_pos_limit() <= pos.y <= fighter_pos_limit(),
        ensures
            f.wf(),
            f.pos == *pos,
            f.state == RecapturedFighterState::Rotate,
            f.angle == (angle as int) % (ANGLE * ONE) as int,
    {
        let a = angle & (ANGLE * ONE - 1);
        assert(angle & 0xffffi32 == (angle as int) % 65536) by (bit_vector);
        Self { pos: *pos, state: RecapturedFighterState::Rotate, angle: a }
    }

    /// One frame: spins until four turns are done and no enemy attacks, then slides to the
    /// player's side (or to the player's place when the player is gone), then down.
    pub fn update(&mut self, player_living: bool, no_attacker: bool, events: &mut Vec<EventType>)
        requires
            old(self).wf(),
        ensures
            final(self).wf(),
            (*final(self), final(events)@) == fighter_step(*old(self), player_living, no_attacker, old(events)@),
            match old(self).state {
                RecapturedFighterState::Rotate => {
                    let a = if old(self).angle < 0x3fff_0000 { old(self).angle + SPIN_STEP } else { old(self).angle as int };
                    if a >= ANGLE * ONE * 4 && no_attacker {
                        &&& *final(self) == (RecapturedFighter { state: RecapturedFighterState::SlideHorz, angle: 0, ..*old(self) })
                        &&& final(events)@ == old(events)@.push(EventType::MovePlayerHomePos)
                    } else {
                        &&& *final(self) == (RecapturedFighter { angle: a as i32, ..*old(self) })
                        &&& final(events)@ == old(events)@
                    }
                },
                RecapturedFighterState::SlideHorz => {
                    let x = CENTER_X + if player_living { 8 * ONE } else { 0 };
                    let nx = old(self).pos.x + clamp_spec(x - old(self).pos.x, -SLIDE_SPEED as int, SLIDE_SPEED as int);
                    &&& final(self).pos == (Vector2D { x: nx as i32, y: old(self).pos.y })
                    &&& final(self).state == if nx == x { RecapturedFighterState::SlideDown } else { RecapturedFighterState::SlideHorz }
                    &&& final(self).angle == old(self).angle
                    &&& final(events)@ == old(events)@
                },
                RecapturedFighterState::SlideDown => {
                    let ny = old(self).pos.y + clamp_spec(PLAYER_Y - old(self).pos.y, -SLIDE_SPEED as int, SLIDE_SPEED as int);
                    &&& final(self).pos == (Vector2D { x: old(self).pos.x, y: ny as i32 })
                    &&& final(self).state == if ny == PLAYER_Y { RecapturedFighterState::Done } else { RecapturedFighterState::SlideDown }
                    &&& final(self).angle == old(self).angle
                    &&& final(events)@ == old(events)@
                },
                RecapturedFighterState::Done => *final(self) == *old(self) && final(events)@ == old(events)@,
            },
    {
        match self.state {
            RecapturedFighterState::Rotate => {
                if self.angle < 0x3fff_0000 {
                    self.angle += SPIN_STEP;
                }
                if self.angle >= ANGLE * ONE * 4 && no_attacker {
                    self.state = RecapturedFighterState::SlideHorz;
                    self.angle = 0;
                    events.push(EventType::MovePlayerHomePos);
                }
            },
            RecapturedFighterState::SlideHorz => {
                let x = CENTER_X + if player_living { 8 * ONE } else { 0 };
                self.pos.x = self.pos.x + clamp(x - self.pos.x, -SLIDE_SPEED, SLIDE_SPEED);
                if self.pos.x == x {
                    self.state = RecapturedFighterState::SlideDown;
                }
            },
            RecapturedFighterState::SlideDown => {
                self.pos.y = self.pos.y + clamp(PLAYER_Y - self.pos.y, -SLIDE_SPEED, SLIDE_SPEED);
                if self.pos.y == PLAYER_Y {
                    self.state = RecapturedFighterState::Done;
                }
            },
            RecapturedFighterState::Done => {},
        }
    }

    /// What the fighter shows: the ship's sprite, turned while it spins.
    pub open spec fn sprites_spec(&self) -> Seq<(Seq<char>, Vec2I, Option<u8>)> {
        let angle = if self.state == RecapturedFighterState::Rotate {
            Some(quantized(self.angle as int, ANGLE_DIV as int) as u8)
        } else {
            None
        };
        seq![("rustacean"@, at_dots(self.pos, -8, -8), angle)]
    }

    /// The sprites that the fighter shows.
    pub fn sprites(&self) -> (v: Vec<Sprite>)
        requires
            self.wf(),
        ensures
            sprites_are(v@, self.sprites_spec()),
    {
        let pos = round_vec(&self.pos);
        let angle = match self.state {
            RecapturedFighterState::Rotate => Some(quantize_angle(self.angle, ANGLE_DIV)),
            _ => None,
        };
        let mut v: Vec<Sprite> = Vec::new();
        v.push(Sprite { name: "rustacean", pos: pos.plus(&Vector2D::new(-8, -8)), angle });
        v
    }

    /// Draws the fighter, and gives what the renderer gives.
    pub fn draw<R: RendererTrait>(&self, renderer: &mut R) -> (r: Result<(), String>)
        requires
            self.wf(),
    {
        let v = self.sprites();
        draw_sprites(&v, renderer)
    }

    /// Whether the fighter has reached its place.
    pub fn done(&self) -> (b: bool)
        ensures
            b == (self.state == RecapturedFighterState::Done),
    {
        self.state == RecapturedFighterState::Done
    }
}

} // verus!

use vstd::prelude::*;

use crate::collision::CollBox;
use crate::consts::{ANGLE_DIV, CENTER_X, PLAYER_SPEED, PLAYER_Y, WIDTH};
use crate::events::EventType;
use crate::framework::{at_dots, draw_sprites, sprites_are, RendererTrait, Sprite};
use crate::math::{calc_velocity, clamp, clamp_spec, quantize_angle, quantized, round_fixed, round_vec, velocity, ANGLE, ONE};
use crate::pad::{bit_of, has_bit, Pad, PadBit};
use crate::recaptured_fighter::{fighter_step, RecapturedFighter, RecapturedFighterState, SPIN_STEP};
use crate::types::{Vec2I, Vector2D};

verus! {

/// Bound of the coordinates of the player's ship.
pub open spec fn player_pos_limit() -> int { 0x2_0000 }
/// Bound of the place to which a boss pulls the ship.
pub open spec fn capture_pos_limit() -> int { 0x1_F000 }

/// What the player's ship is doing.
#[derive(Clone, Copy, Debug, PartialEq, Eq, Structural)]
pub enum PlayerState {
    Normal,
    Dead,
    Capturing,
    Captured,
    EscapeCapturing,
    MoveHomePos,
}

/// The player's ship, single or dual.
pub struct Player {
    pub pos: Vec2I,
    pub state: PlayerState,
    pub dual: bool,
    pub angle: i32,
    pub capture_pos: Vec2I,
    pub recaptured_fighter: Option<RecapturedFighter>,
    pub shot_enable: bool,
}

/// The left and right bounds of the ship's position; a dual ship stops one ship earlier.
pub open spec fn right_bound(dual: bool) -> int {
    if dual { (WIDTH - 8 - 16) * ONE } else { (WIDTH - 8) * ONE }
}

impl Player {
    /// The ship stays in the field, and so do the capture place and a rescued fighter.
    pub open spec fn wf(&self) -> bool {
        &&& -player_pos_limit() <= self.pos.x <= player_pos_limit()
        &&& -player_pos_limit() <= self.pos.y <= player_pos_limit()
        &&& self.dual ==> self.pos.x <= capture_pos_limit()
        &&& -capture_pos_limit() <= self.capture_pos.x <= capture_pos_limit()
        &&& -capture_pos_limit() <= self.capture_pos.y <= capture_pos_limit()
        &&& -0x4000_0000 <= self.angle <= 0x4000_0000
        &&& self.recaptured_fighter matches Some(f) ==> f.wf()
        &&& self.state == PlayerState::MoveHomePos ==> self.recaptured_fighter.is_some()
    }

    pub fn new() -> (p: Self)
        ensures
            p.wf(),
            p.pos == (Vector2D { x: CENTER_X, y: PLAYER_Y }),
            p.state == PlayerState::Normal,
            !p.dual,
            p.angle == 0,
            p.recaptured_fighter.is_none(),
            p.shot_enable,
    {
        Self {
            pos: Vector2D::new(CENTER_X, PLAYER_Y),
            state: PlayerState::Normal,
            dual: false,
            angle: 0,
            capture_pos: Vector2D::new(0, 0),
            recaptured_fighter: None,
            shot_enable: true,
        }
    }

    /// Puts a new ship at the start position.
    pub fn restart(&mut self)
        requires
            old(self).wf(),
        ensures
            final(self).wf(),
            *final(self) == (Player {
                state: PlayerState::Normal,
                pos: Vector2D { x: CENTER_X, y: PLAYER_Y },
                ..*old(self)
            }),
    {
        self.state = PlayerState::Normal;
        self.pos = Vector2D::new(CENTER_X, PLAYER_Y);
    }

    pub fn set_shot_enable(&mut self, value: bool)
        ensures
            *final(self) == (Player { shot_enable: value, ..*old(self) }),
    {
        self.shot_enable = value;
    }

    /// Runs one frame of the ship and of a fighter being rescued.
    pub fn update(&mut self, pad: &Pad, no_attacker: bool, events: &mut Vec<EventType>)
        requires
            old(self).wf(),
        ensures
            final(self).wf(),
            (*final(self), final(events)@) == player_step(*old(self), pad, no_attacker, old(events)@),
    {
        match self.state {
            PlayerState::Normal => self.update_normal(pad, events),
            PlayerState::Capturing => self.update_capture(pad, events),
            PlayerState::EscapeCapturing => {
                self.pos.y = self.pos.y + ONE;
                if self.pos.y >= PLAYER_Y {
                    self.pos.y = PLAYER_Y;
                    self.state = PlayerState::Normal;
                    events.push(EventType::EscapeEnded);
                }
            },
            PlayerState::MoveHomePos => {
                let x = CENTER_X - 8 * ONE;
                let speed = 2 * ONE;
                self.pos.x = self.pos.x + clamp(x - self.pos.x, -speed, speed);
                if self.pos.x == x {
                    if let Some(f) = self.recaptured_fighter {
                        if f.done() {
                            self.dual = true;
                            self.state = PlayerState::Normal;
                            self.recaptured_fighter = None;
                            events.push(EventType::RecaptureEnded(true));
                        }
                    }
                }
            },
            PlayerState::Dead | PlayerState::Captured => {},
        }

        if let Some(fighter) = self.recaptured_fighter {
            let mut f = fighter;
            f.update(self.state != PlayerState::Dead, no_attacker, events);
            self.recaptured_fighter = Some(f);
            if self.state == PlayerState::Dead && f.done() {
                self.pos.x = CENTER_X;
                self.state = PlayerState::Normal;
                self.recaptured_fighter = None;
                events.push(EventType::RecaptureEnded(false));
            }
        }
    }

    /// Moves the ship left or right within the field, and fires.
    pub fn update_normal(&mut self, pad: &Pad, events: &mut Vec<EventType>)
        requires
            old(self).wf(),
        ensures
            final(self).wf(),
            ({
                let x0 = old(self).pos.x as int;
                let x1 = if has_bit(pad.pad, bit_of(PadBit::L)) {
                    if x0 - PLAYER_SPEED < 8 * ONE { 8 * ONE as int } else { x0 - PLAYER_SPEED }
                } else { x0 };
                let x2 = if has_bit(pad.pad, bit_of(PadBit::R)) {
                    if x1 + PLAYER_SPEED > right_bound(old(self).dual) { right_bound(old(self).dual) } else { x1 + PLAYER_SPEED }
                } else { x1 };
                &&& *final(self) == (Player { pos: Vector2D { x: x2 as i32, y: old(self).pos.y }, ..*old(self) })
                &&& final(events)@ == fired(*final(self), pad, old(events)@)
            }),
    {
        if pad.is_pressed(PadBit::L) {
            self.pos.x = self.pos.x - PLAYER_SPEED;
            let left = 8 * ONE;
            if self.pos.x < left {
                self.pos.x = left;
            }
        }
        if pad.is_pressed(PadBit::R) {
            self.pos.x = self.pos.x + PLAYER_SPEED;
            let right = if self.dual { (WIDTH - 8 - 16) * ONE } else { (WIDTH - 8) * ONE };
            if self.pos.x > right {
                self.pos.x = right;
            }
        }
        self.fire_bullet(pad, events);
    }

    /// Pulled toward the boss one dot per frame while spinning, still firing; once there,
    /// the ship is captured.
    pub fn update_capture(&mut self, pad: &Pad, events: &mut Vec<EventType>)
        requires
            old(self).wf(),
        ensures
            final(self).wf(),
            ({
                let dx = old(self).capture_pos.x - old(self).pos.x;
                let dy = old(self).capture_pos.y - old(self).pos.y;
                let p = Vector2D {
                    x: (old(self).pos.x + clamp_spec(dx, -ONE as int, ONE as int)) as i32,
                    y: (old(self).pos.y + clamp_spec(dy, -ONE as int, ONE as int)) as i32,
                };
                let a = if old(self).angle <= 0x3fff_0000 { old(self).angle + SPIN_STEP } else { old(self).angle as int };
                let spun = Player { pos: p, angle: a as i32, ..*old(self) };
                &&& final(events)@ == fired(spun, pad, old(events)@)
                &&& *final(self) == if dx == 0 && dy == 0 {
                    Player { state: PlayerState::Captured, angle: 0, ..spun }
                } else {
                    spun
                }
            }),
    {
        let d = self.capture_pos.minus(&self.pos);
        self.pos.x = self.pos.x + clamp(d.x, -ONE, ONE);
        self.pos.y = self.pos.y + clamp(d.y, -ONE, ONE);
        if self.angle <= 0x3fff_0000 {
            self.angle = self.angle + ANGLE * ONE / ANGLE_DIV;
        }

        self.fire_bullet(pad, events);

        if d.x == 0 && d.y == 0 {
            self.state = PlayerState::Captured;
            self.angle = 0;
        }
    }

    /// Fires a shot from the ship's nose when the fire button has just been pressed.
    fn fire_bullet(&self, pad: &Pad, events: &mut Vec<EventType>)
        requires
            self.wf(),
        ensures
            final(events)@ == fired(*self, pad, old(events)@),
    {
        if self.shot_enable && pad.is_trigger(PadBit::A) {
            let pos = self.pos.plus(&calc_velocity(self.angle, 4 * ONE));
            events.push(EventType::MyShot(pos, self.dual, self.angle));
        }
    }

    /// What the ship shows, by its state: its sprite (and its second fighter's when it is
    /// dual), turned while it is pulled in, the captured sprite once taken, nothing once dead;
    /// then the rescued fighter, if any.
    pub open spec fn sprites_spec(&self) -> Seq<(Seq<char>, Vec2I, Option<u8>)> {
        let own = match self.state {
            PlayerState::Normal | PlayerState::EscapeCapturing | PlayerState::MoveHomePos => {
                let first = seq![("rustacean"@, at_dots(self.pos, -8, -8), None::<u8>)];
                if self.dual { first.push(("rustacean"@, at_dots(self.pos, -8 + 16, -8), None)) } else { first }
            },
            PlayerState::Capturing => seq![("rustacean"@, at_dots(self.pos, -8, -8),
                Some(quantized(self.angle as int, ANGLE_DIV as int) as u8))],
            PlayerState::Captured => seq![("rustacean_captured"@, at_dots(self.pos, -8, -8), None)],
            PlayerState::Dead => Seq::empty(),
        };
        match self.recaptured_fighter {
            Some(f) => own + f.sprites_spec(),
            None => own,
        }
    }

    /// The sprites that the ship shows.
    pub fn sprites(&self) -> (v: Vec<Sprite>)
        requires
            self.wf(),
        ensures
            sprites_are(v@, self.sprites_spec()),
    {
        let mut v: Vec<Sprite> = Vec::new();
        match self.state {
            PlayerState::Normal | PlayerState::EscapeCapturing | PlayerState::MoveHomePos => {
                let pos = round_vec(&self.pos);
                v.push(Sprite { name: "rustacean", pos: pos.plus(&Vector2D::new(-8, -8)), angle: None });
                if self.dual {
                    v.push(Sprite { name: "rustacean", pos: pos.plus(&Vector2D::new(-8 + 16, -8)), angle: None });
                }
            },
            PlayerState::Capturing => {
                let pos = round_vec(&self.pos);
                let angle = quantize_angle(self.angle, ANGLE_DIV);
                v.push(Sprite { name: "rustacean", pos: pos.plus(&Vector2D::new(-8, -8)), angle: Some(angle) });
            },
            PlayerState::Captured => {
                let pos = round_vec(&self.pos);
                v.push(Sprite { name: "rustacean_captured", pos: pos.plus(&Vector2D::new(-8, -8)), angle: None });
            },
            PlayerState::Dead => {},
        }
        let ghost own = v@;
        if let Some(f) = &self.recaptured_fighter {
            let w = f.sprites();
            v.push(w[0]);
            proof {
                assert(v@ == own + w@);
            }
        }
        v
    }

    /// Draws the ship's sprites in order, and gives the first failure of the renderer, if any;
    /// with nothing to show it succeeds without drawing.
    pub fn draw<R: RendererTrait>(&self, renderer: &mut R) -> (r: Result<(), String>)
        requires
            self.wf(),
        ensures
            self.sprites_spec().len() == 0 ==> r is Ok,
    {
        let v = self.sprites();
        draw_sprites(&v, renderer)
    }

    pub fn pos(&self) -> (p: &Vec2I)
        ensures
            *p == self.pos,
    {
        &self.pos
    }

    /// The position of the second ship of a dual fighter, 16 dots to the right.
    pub fn dual_pos(&self) -> (p: Option<Vec2I>)
        requires
            self.wf(),
        ensures
            p == if self.dual { Some(Vector2D { x: (self.pos.x + 16 * ONE) as i32, y: self.pos.y }) } else { None },
    {
        if self.dual {
            Some(self.pos.plus(&Vector2D::new(16 * ONE, 0)))
        } else {
            None
        }
    }

    /// The hit box of the second ship, while the dual fighter flies normally.
    pub fn dual_collbox(&self) -> (c: Option<CollBox>)
        requires
            self.wf(),
        ensures
            c == if self.dual && self.state == PlayerState::Normal {
                Some(CollBox {
                    top_left: Vector2D {
                        x: (round_fixed(self.pos.x as int) - 4 + 16) as i32,
                        y: (round_fixed(self.pos.y as int) - 4) as i32,
                    },
                    size: Vector2D { x: 8, y: 8 },
                })
            } else {
                None
            },
    {
        if self.dual && self.state == PlayerState::Normal {
            Some(CollBox {
                top_left: round_vec(&self.pos).plus(&Vector2D::new(-4 + 16, -4)),
                size: Vector2D::new(8, 8),
            })
        } else {
            None
        }
    }

    /// The hit box of the ship, while it flies normally.
    pub fn get_collbox(&self) -> (c: Option<CollBox>)
        requires
            self.wf(),
        ensures
            c == if self.state == PlayerState::Normal {
                Some(CollBox {
                    top_left: Vector2D {
                        x: (round_fixed(self.pos.x as int) - 4) as i32,
                        y: (round_fixed(self.pos.y as int) - 4) as i32,
                    },
                    size: Vector2D { x: 8, y: 8 },
                })
            } else {
                None
            },
    {
        if self.state == PlayerState::Normal {
            Some(CollBox { top_left: round_vec(&self.pos).minus(&Vector2D::new(4, 4)), size: Vector2D::new(8, 8) })
        } else {
            None
        }
    }

    /// A hit: a dual fighter loses the hit ship and flies on; a single ship is destroyed.
    /// Tells whether the ship is destroyed.
    pub fn crash(&mut self, dual: bool) -> (dead: bool)
        requires
            old(self).wf(),
            dual ==> old(self).dual,
        ensures
            final(self).wf(),
            dead == !old(self).dual,
            old(self).dual ==> *final(self) == (Player {
                dual: false,
                pos: if dual { old(self).pos } else {
                    Vector2D { x: (old(self).pos.x + 16 * ONE) as i32, y: old(self).pos.y }
                },
                ..*old(self)
            }),
            !old(self).dual ==> *final(self) == (Player { state: PlayerState::Dead, ..*old(self) }),
    {
        if self.dual {
            if !dual {
                self.pos.x = self.pos.x + 16 * ONE;
            }
            self.dual = false;
            false
        } else {
            self.state = PlayerState::Dead;
            true
        }
    }

    /// The tractor beam has the ship: it is pulled toward `capture_pos`.
    pub fn start_capture(&mut self, capture_pos: &Vec2I)
        requires
            old(self).wf(),
            -capture_pos_limit() <= capture_pos.x <= capture_pos_limit(),
            -capture_pos_limit() <= capture_pos.y <= capture_pos_limit(),
        ensures
            final(self).wf(),
            *final(self) == (Player { state: PlayerState::Capturing, capture_pos: *capture_pos, angle: 0, ..*old(self) }),
    {
        self.state = PlayerState::Capturing;
        self.capture_pos = *capture_pos;
        self.angle = 0;
    }

    pub fn is_captured(&self) -> (b: bool)
        ensures
            b == (self.state == PlayerState::Captured),
    {
        self.state == PlayerState::Captured
    }

    /// The captured ship becomes a fighter of the boss; the player's ship is lost.
    pub fn complete_capture(&mut self)
        requires
            old(self).wf(),
        ensures
            final(self).wf(),
            *final(self) == (Player { state: PlayerState::Dead, ..*old(self) }),
    {
        self.state = PlayerState::Dead;
    }

    /// The boss was destroyed while pulling the ship: it drops back to its line.
    pub fn escape_capturing(&mut self)
        requires
            old(self).wf(),
        ensures
            final(self).wf(),
            *final(self) == (Player { state: PlayerState::EscapeCapturing, angle: 0, ..*old(self) }),
    {
        self.state = PlayerState::EscapeCapturing;
        self.angle = 0;
    }

    /// A captured fighter is set free at `pos`, spinning from `angle`.
    pub fn start_recapture_effect(&mut self, pos: &Vec2I, angle: i32)
        requires
            old(self).wf(),
            -0x2_0000 <= pos.x <= 0x2_0000,
            -0x2_0000 <= pos.y <= 0x2_0000,
        ensures
            final(self).wf(),
            final(self).recaptured_fighter matches Some(f) && f.pos == *pos
                && f.state == RecapturedFighterState::Rotate,
            (Player { recaptured_fighter: old(self).recaptured_fighter, ..*final(self) }) == *old(self),
    {
        self.recaptured_fighter = Some(RecapturedFighter::new(pos, angle));
    }

    /// A living ship moves to its place beside the rescued fighter.
    pub fn start_move_home_pos(&mut self)
        requires
            old(self).wf(),
        ensures
            final(self).wf(),
            *final(self) == if old(self).state != PlayerState::Dead && old(self).recaptured_fighter.is_some() {
                Player { state: PlayerState::MoveHomePos, ..*old(self) }
            } else {
                *old(self)
            },
    {
        if self.state != PlayerState::Dead && self.recaptured_fighter.is_some() {
            self.state = PlayerState::MoveHomePos;
        }
    }
}

/// The events after a frame's fire check: a shot from the nose when the fire button has
/// just been pressed and shots are allowed.
pub open spec fn fired(p: Player, pad: &Pad, events: Seq<EventType>) -> Seq<EventType> {
    if p.shot_enable && has_bit(pad.trg, bit_of(PadBit::A)) {
        let v = velocity(p.angle as int, 4 * ONE as int);
        events.push(EventType::MyShot(Vector2D { x: (p.pos.x + v.x) as i32, y: (p.pos.y + v.y) as i32 }, p.dual, p.angle))
    } else {
        events
    }
}

/// The ship moved by the pad: left and right by its speed, within the field (one ship
/// narrower when dual).
pub open spec fn steered(p: Player, pad: &Pad) -> Player {
    let x0 = p.pos.x as int;
    let x1 = if has_bit(pad.pad, bit_of(PadBit::L)) {
        if x0 - PLAYER_SPEED < 8 * ONE { 8 * ONE as int } else { x0 - PLAYER_SPEED }
    } else {
        x0
    };
    let x2 = if has_bit(pad.pad, bit_of(PadBit::R)) {
        if x1 + PLAYER_SPEED > right_bound(p.dual) { right_bound(p.dual) } else { x1 + PLAYER_SPEED }
    } else {
        x1
    };
    Player { pos: Vector2D { x: x2 as i32, y: p.pos.y }, ..p }
}

/// The ship pulled a dot toward the boss on each axis while it spins; there it is captured.
pub open spec fn pulled_in(p: Player) -> Player {
    let dx = p.capture_pos.x - p.pos.x;
    let dy = p.capture_pos.y - p.pos.y;
    let pos = Vector2D {
        x: (p.pos.x + clamp_spec(dx, -ONE as int, ONE as int)) as i32,
        y: (p.pos.y + clamp_spec(dy, -ONE as int, ONE as int)) as i32,
    };
    let a = if p.angle <= 0x3fff_0000 { p.angle + SPIN_STEP } else { p.angle as int };
    Player { pos, angle: a as i32, ..p }
}

/// The first part of a frame of the ship, by its state, with the events it raises.
pub open spec fn state_step(p: Player, pad: &Pad, events: Seq<EventType>) -> (Player, Seq<EventType>) {
    match p.state {
        PlayerState::Normal => {
            let p1 = steered(p, pad);
            (p1, fired(p1, pad, events))
        },
        PlayerState::Capturing => {
            let spun = pulled_in(p);
            let done = p.capture_pos.x == p.pos.x && p.capture_pos.y == p.pos.y;
            (if done { Player { state: PlayerState::Captured, angle: 0, ..spun } } else { spun }, fired(spun, pad, events))
        },
        PlayerState::EscapeCapturing => {
            let y = p.pos.y + ONE;
            if y >= PLAYER_Y {
                (Player { pos: Vector2D { x: p.pos.x, y: PLAYER_Y }, state: PlayerState::Normal, ..p },
                    events.push(EventType::EscapeEnded))
            } else {
                (Player { pos: Vector2D { x: p.pos.x, y: y as i32 }, ..p }, events)
            }
        },
        PlayerState::MoveHomePos => {
            let x = CENTER_X - 8 * ONE;
            let nx = p.pos.x + clamp_spec(x - p.pos.x, -2 * ONE, 2 * ONE);
            let p1 = Player { pos: Vector2D { x: nx as i32, y: p.pos.y }, ..p };
            if nx == x && (p.recaptured_fighter matches Some(f) && f.state == RecapturedFighterState::Done) {
                (Player { dual: true, state: PlayerState::Normal, recaptured_fighter: None, ..p1 },
                    events.push(EventType::RecaptureEnded(true)))
            } else {
                (p1, events)
            }
        },
        PlayerState::Dead | PlayerState::Captured => (p, events),
    }
}

/// One frame of the ship and of a fighter that comes back to it, with the events raised:
/// a rescued fighter that arrives while the ship is gone becomes the ship.
pub open spec fn player_step(p: Player, pad: &Pad, no_attacker: bool, events: Seq<EventType>) -> (Player, Seq<EventType>) {
    let p1 = state_step(p, pad, events).0;
    let ev1 = state_step(p, pad, events).1;
    match p1.recaptured_fighter {
        Some(f) => {
            let f2 = fighter_step(f, p1.state != PlayerState::Dead, no_attacker, ev1).0;
            let ev2 = fighter_step(f, p1.state != PlayerState::Dead, no_attacker, ev1).1;
            if p1.state == PlayerState::Dead && f2.state == RecapturedFighterState::Done {
                (Player { pos: Vector2D { x: CENTER_X, y: p1.pos.y }, state: PlayerState::Normal, recaptured_fighter: None, ..p1 },
                    ev2.push(EventType::RecaptureEnded(false)))
            } else {
                (Player { recaptured_fighter: Some(f2), ..p1 }, ev2)
            }
        },
        None => (p1, ev1),
    }
}

} // verus!

use vstd::prelude::*;

use crate::math::ONE;
use crate::types::Vec2I;

verus! {

/// Number of sprite steps of the fully opened beam.
pub const BEAM_STEPS: i32 = 12;
/// Frames that the opened beam waits for the player.
pub const BEAM_FULL_FRAMES: u32 = 180;
/// Horizontal reach of the beam.
pub const BEAM_RANGE: i32 = 24 * 256;

#[derive(Clone, Copy, Debug, PartialEq, Eq, Structural)]
pub enum TractorBeamState {
    Opening,
    Full,
    Closing,
    Closed,
    Capturing,
}

/// The beam with which a boss captures the player's ship.
#[derive(Clone, Copy, Debug)]
pub struct TractorBeam {
    pub pos: Vec2I,
    pub state: TractorBeamState,
    pub count: u32,
    pub color_count: u32,
    pub size_count: i32,
}

impl TractorBeam {
    /// The beam's size stays between closed and fully open.
    pub open spec fn wf(&self) -> bool {
        &&& 0 <= self.size_count <= BEAM_STEPS * ONE
        &&& self.count <= BEAM_FULL_FRAMES
        &&& self.state == TractorBeamState::Full ==> self.count < BEAM_FULL_FRAMES
        &&& self.color_count < 0x1000_0000
    }

    pub fn new(pos: &Vec2I) -> (b: Self)
        ensures
            b.wf(),
            b.pos == *pos,
            b.state == TractorBeamState::Opening,
            b.size_count == 0,
            b.count == 0,
    {
        TractorBeam { pos: *pos, state: TractorBeamState::Opening, count: 0, color_count: 0, size_count: 0 }
    }

    pub fn closed(&self) -> (b: bool)
        ensures
            b == (self.state == TractorBeamState::Closed),
    {
        self.state == TractorBeamState::Closed
    }

    /// Whether the open beam reaches a ship at `pos`.
    pub fn can_capture(&self, pos: &Vec2I) -> (b: bool)
        requires
            crate::types::fits_i32(pos.x - self.pos.x),
        ensures
            b == (self.state == TractorBeamState::Full && -BEAM_RANGE <= pos.x - self.pos.x <= BEAM_RANGE),
    {
        if self.state == TractorBeamState::Full {
            let dx = pos.x - self.pos.x;
            -BEAM_RANGE <= dx && dx <= BEAM_RANGE
        } else {
            false
        }
    }

    /// Holds the beam open while it pulls the ship in.
    pub fn start_capture(&mut self)
        requires
            old(self).wf(),
        ensures
            final(self).wf(),
            *final(self) == (TractorBeam { state: TractorBeamState::Capturing, count: 0, ..*old(self) }),
    {
        self.state = TractorBeamState::Capturing;
        self.count = 0;
    }

    /// Closes the beam once the ship is held.
    pub fn close_capture(&mut self)
        requires
            old(self).wf(),
        ensures
            final(self).wf(),
            *final(self) == (TractorBeam { state: TractorBeamState::Closing, ..*old(self) }),
    {
        self.state = TractorBeamState::Closing;
    }

    /// Opens, waits, and closes the beam, a third of a step per frame.
    pub fn update(&mut self)
        requires
            old(self).wf(),
            old(self).color_count + 1 < 0x1000_0000,
        ensures
            final(self).wf(),
            final(self).pos == old(self).pos,
            final(self).color_count == old(self).color_count + 1,
            old(self).state == TractorBeamState::Opening ==> if old(self).size_count + ONE / 3 >= BEAM_STEPS * ONE {
                final(self).state == TractorBeamState::Full && final(self).size_count == BEAM_STEPS * ONE && final(self).count == 0
            } else {
                final(self).state == TractorBeamState::Opening && final(self).size_count == old(self).size_count + ONE / 3
            },
            old(self).state == TractorBeamState::Full ==> if old(self).count + 1 >= BEAM_FULL_FRAMES {
                final(self).state == TractorBeamState::Closing && final(self).count == old(self).count + 1
            } else {
                final(self).state == TractorBeamState::Full && final(self).count == old(self).count + 1
            },
            old(self).state == TractorBeamState::Closing ==> if old(self).size_count > ONE / 3 {
                final(self).state == TractorBeamState::Closing && final(self).size_count == old(self).size_count - ONE / 3
            } else {
                final(self).state == TractorBeamState::Closed && final(self).size_count == 0
            },
            old(self).state == TractorBeamState::Closed || old(self).state == TractorBeamState::Capturing
                ==> final(self).state == old(self).state && final(self).size_count == old(self).size_count,
    {
        self.color_count += 1;
        match self.state {
            TractorBeamState::Opening => {
                self.size_count += ONE / 3;
                if self.size_count >= BEAM_STEPS * ONE {
                    self.size_count = BEAM_STEPS * ONE;
                    self.state = TractorBeamState::Full;
                    self.count = 0;
                }
            },
            TractorBeamState::Full => {
                self.count += 1;
                if self.count >= BEAM_FULL_FRAMES {
                    self.state = TractorBeamState::Closing;
                }
            },
            TractorBeamState::Closing => {
                if self.size_count > ONE / 3 {
                    self.size_count -= ONE / 3;
                } else {
                    self.size_count = 0;
                    self.state = TractorBeamState::Closed;
                }
            },
            TractorBeamState::Closed | TractorBeamState::Capturing => {},
        }
    }
}

} // verus!

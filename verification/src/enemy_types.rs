use vstd::prelude::*;

use crate::types::Vec2I;

verus! {

/// A slot of the enemy formation: column, row.
#[derive(Clone, Copy, Debug, PartialEq, Eq, Structural)]
pub struct FormationIndex(pub u8, pub u8);

#[derive(Clone, Copy, Debug, PartialEq, Eq, Structural)]
pub enum EnemyType {
    Bee,
    Butterfly,
    Owl,
    CapturedFighter,
}

/// How far the player's ship is in being captured or rescued.
#[derive(Clone, Copy, Debug, PartialEq, Eq, Structural)]
pub enum CaptureState {
    NoCapture,
    CaptureAttacking,
    Capturing,
    Captured,
    Recapturing,
    Dual,
}

/// The result of a hit on an enemy.
#[derive(Clone, Copy, Debug, PartialEq, Eq, Structural)]
pub struct DamageResult {
    pub killed: bool,
    pub point: u32,
}

/// What an enemy learns of the rest of the game during a frame.
#[derive(Clone, Copy, Debug)]
pub struct Accessor {
    pub player_pos: Vec2I,
    pub dual_player_pos: Option<Vec2I>,
    pub can_player_capture: bool,
    pub player_capture_completed: bool,
    pub capture_state: CaptureState,
    pub captured_fighter_index: Option<FormationIndex>,
    pub is_rush: bool,
    pub stage_no: u16,
}

impl Accessor {
    /// The ships are within the bounds of the field that enemies work in.
    pub open spec fn wf(&self) -> bool {
        &&& -0x3_0000 <= self.player_pos.x <= 0x3_0000
        &&& -0x3_0000 <= self.player_pos.y <= 0x3_0000
        &&& self.dual_player_pos matches Some(p) ==> -0x3_0000 <= p.x <= 0x3_0000 && -0x3_0000 <= p.y <= 0x3_0000
        &&& self.captured_fighter_index matches Some(fi) ==> (fi.0 as int) < 10 && (fi.1 as int) < 6
    }
}

} // verus!

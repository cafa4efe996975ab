use vstd::prelude::*;

use crate::consts::SoundEffect;
use crate::effect::EarnedPointType;
use crate::enemy_types::{EnemyType, FormationIndex};
use crate::types::Vec2I;

verus! {

/// What the actors of a frame ask the game to do.
#[derive(Clone, Copy, Debug, PartialEq, Eq, Structural)]
pub enum EventType {
    MyShot(Vec2I, bool, i32),
    EneShot(Vec2I),
    AddScore(u32),
    EarnPointEffect(EarnedPointType, Vec2I),
    EnemyExplosion(Vec2I, i32, EnemyType),
    PlayerExplosion(Vec2I),
    DeadPlayer,
    StartCaptureAttack(FormationIndex),
    EndCaptureAttack,
    CapturePlayer(Vec2I),
    CapturePlayerCompleted,
    CaptureSequenceEnded,
    SpawnCapturedFighter(Vec2I, FormationIndex),
    RecapturePlayer(FormationIndex),
    MovePlayerHomePos,
    RecaptureEnded(bool),
    EscapeCapturing,
    EscapeEnded,
    CapturedFighterDestroyed,
    PlaySe(u32, SoundEffect),
}

} // verus!

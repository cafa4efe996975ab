use vstd::prelude::*;

use crate::math::ONE;

verus! {

pub const WIDTH: i32 = 224;
pub const HEIGHT: i32 = 288;
pub const ANGLE_DIV: i32 = 24;

/// `WIDTH * ONE / 2`.
pub const CENTER_X: i32 = 28672;
pub const PLAYER_Y: i32 = (HEIGHT - 16 - 8) * ONE;

/// `3 * ONE / 2`.
pub const PLAYER_SPEED: i32 = 384;
pub const MYSHOT_SPEED: i32 = 6 * ONE;

/// `25 * ONE / 10`.
pub const ENE_SHOT_SPEED1: i32 = 640;
/// `40 * ONE / 10`.
pub const ENE_SHOT_SPEED2: i32 = 1024;

pub const EXTEND_FIRST_SCORE: u32 = 20_000;
pub const EXTEND_AFTER_SCORE: u32 = 50_000;

pub const CHANNEL_COUNT: u32 = 3;
pub const CH_SHOT: u32 = 0;
pub const CH_BOMB: u32 = 0;
pub const CH_JINGLE: u32 = 1;

/// The sound effects that the game plays.
#[derive(Clone, Copy, Debug, PartialEq, Eq, Structural)]
pub enum SoundEffect {
    CountStage,
    MyShot,
    BombEnemy,
    BombPlayer,
    ExtendShip,
    AttackStart,
}

impl SoundEffect {
    /// The asset path of the sound.
    pub open spec fn asset_path_spec(&self) -> &'static str {
        match self {
            SoundEffect::CountStage => "assets/audio/se_get_1",
            SoundEffect::MyShot => "assets/audio/se_pyuun",
            SoundEffect::BombEnemy => "assets/audio/se_zugyan",
            SoundEffect::BombPlayer => "assets/audio/se_zugyan",
            SoundEffect::ExtendShip => "assets/audio/jingle_1up",
            SoundEffect::AttackStart => "assets/audio/attack_start",
        }
    }

    pub fn asset_path(&self) -> (p: &'static str)
        ensures
            p == self.asset_path_spec(),
    {
        match self {
            SoundEffect::CountStage => "assets/audio/se_get_1",
            SoundEffect::MyShot => "assets/audio/se_pyuun",
            SoundEffect::BombEnemy => "assets/audio/se_zugyan",
            SoundEffect::BombPlayer => "assets/audio/se_zugyan",
            SoundEffect::ExtendShip => "assets/audio/jingle_1up",
            SoundEffect::AttackStart => "assets/audio/attack_start",
        }
    }
}

} // verus!

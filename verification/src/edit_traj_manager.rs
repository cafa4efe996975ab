use vstd::prelude::*;

use crate::enemy_types::FormationIndex;
use crate::pad::VKey;

verus! {

/// What the trajectory editor asks of the game after a key.
#[derive(Clone, Copy, Debug, PartialEq, Eq, Structural)]
pub enum EditCommand {
    Nothing,
    /// Fly the selected enemy along the path of a numbered debug file, mirrored or not, from
    /// the top of the screen or from where it is.
    TrajAttack(u32, bool, bool),
    /// Start the selected enemy's own attack, a capture attack or not.
    Attack(bool),
}

/// A debugging aid that selects an enemy slot and makes its enemy attack.
#[derive(Clone, Copy, Debug)]
pub struct EditTrajManager {
    pub fi: FormationIndex,
    pub no: u32,
    pub flip_x: bool,
    pub from_top: bool,
}

impl EditTrajManager {
    pub fn new() -> (m: Self)
        ensures
            m == (EditTrajManager { fi: FormationIndex(0, 5), no: 0, flip_x: false, from_top: false }),
    {
        Self { fi: FormationIndex(0, 5), no: 0, flip_x: false, from_top: false }
    }

    /// Handles a key: the arrows move the selection within the formation, 9 and 0 pick the
    /// path file, F mirrors, T starts from the top, and 1, 2, 3 start an attack.
    pub fn update(&mut self, pressed_key: Option<VKey>) -> (cmd: EditCommand)
        ensures
            *final(self) == match pressed_key {
                Some(VKey::Left) if old(self).fi.0 > 0 =>
                    EditTrajManager { fi: FormationIndex((old(self).fi.0 - 1) as u8, old(self).fi.1), ..*old(self) },
                Some(VKey::Right) if old(self).fi.0 < 9 =>
                    EditTrajManager { fi: FormationIndex((old(self).fi.0 + 1) as u8, old(self).fi.1), ..*old(self) },
                Some(VKey::Up) if old(self).fi.1 > 0 =>
                    EditTrajManager { fi: FormationIndex(old(self).fi.0, (old(self).fi.1 - 1) as u8), ..*old(self) },
                Some(VKey::Down) if old(self).fi.1 < 5 =>
                    EditTrajManager { fi: FormationIndex(old(self).fi.0, (old(self).fi.1 + 1) as u8), ..*old(self) },
                Some(VKey::Num9) if old(self).no > 0 => EditTrajManager { no: (old(self).no - 1) as u32, ..*old(self) },
                Some(VKey::Num0) => EditTrajManager { no: old(self).no.wrapping_add(1), ..*old(self) },
                Some(VKey::F) => EditTrajManager { flip_x: !old(self).flip_x, ..*old(self) },
                Some(VKey::T) => EditTrajManager { from_top: !old(self).from_top, ..*old(self) },
                _ => *old(self),
            },
            cmd == match pressed_key {
                Some(VKey::Num1) => EditCommand::TrajAttack(old(self).no, old(self).flip_x, old(self).from_top),
                Some(VKey::Num2) => EditCommand::Attack(false),
                Some(VKey::Num3) => EditCommand::Attack(true),
                _ => EditCommand::Nothing,
            },
    {
        let mut cmd = EditCommand::Nothing;
        match pressed_key {
            Some(VKey::Left) => {
                if self.fi.0 > 0 {
                    self.fi.0 = self.fi.0 - 1;
                }
            },
            Some(VKey::Right) => {
                if self.fi.0 < 9 {
                    self.fi.0 = self.fi.0 + 1;
                }
            },
            Some(VKey::Up) => {
                if self.fi.1 > 0 {
                    self.fi.1 = self.fi.1 - 1;
                }
            },
            Some(VKey::Down) => {
                if self.fi.1 < 5 {
                    self.fi.1 = self.fi.1 + 1;
                }
            },
            Some(VKey::Num1) => {
                cmd = EditCommand::TrajAttack(self.no, self.flip_x, self.from_top);
            },
            Some(VKey::Num2) => {
                cmd = EditCommand::Attack(false);
            },
            Some(VKey::Num3) => {
                cmd = EditCommand::Attack(true);
            },
            Some(VKey::Num9) => {
                if self.no > 0 {
                    self.no = self.no - 1;
                }
            },
            Some(VKey::Num0) => {
                self.no = self.no.wrapping_add(1);
            },
            Some(VKey::F) => {
                self.flip_x = !self.flip_x;
            },
            Some(VKey::T) => {
                self.from_top = !self.from_top;
            },
            _ => {},
        }
        cmd
    }
}

} // verus!

use vstd::prelude::*;

use crate::consts::SoundEffect;
use crate::game_manager::{game_frame, GameManager, Params, StarManager};
use crate::pad::{axis_bits, bit_of, button_bits, has_bit, key_bit, Pad, PadBit, VKey};
use crate::score_holder::ScoreHolder;

verus! {

/// The high score at the first start.
pub const DEFAULT_HIGH_SCORE: u32 = 1000;

/// The screens of the application.
#[derive(Clone, Copy, Debug, PartialEq, Eq, Structural)]
pub enum AppState {
    Title,
    Game,
}

/// The application: a title screen, and a game started from it.
pub struct GalanguaApp {
    pub state: AppState,
    pub count: u32,
    pub game_manager: Option<GameManager>,
    pub params: Params,
    pub frame_count: u32,
    pub paused: bool,
}

impl GalanguaApp {
    /// A game in progress is in order; the title screen has none.
    pub open spec fn wf(&self) -> bool {
        &&& self.state == AppState::Game <==> self.game_manager.is_some()
        &&& self.game_manager matches Some(g) ==> g.wf()
    }

    pub fn new() -> (a: Self)
        ensures
            a.wf(),
            a.state == AppState::Title,
            a.params.score_holder.high_score == DEFAULT_HIGH_SCORE,
            a.params.score_holder.score == 0,
    {
        Self {
            state: AppState::Title,
            count: 0,
            game_manager: None,
            params: Params {
                star_manager: StarManager::new(),
                pad: Pad::new(),
                score_holder: ScoreHolder { score: 0, high_score: DEFAULT_HIGH_SCORE },
            },
            frame_count: 0,
            paused: false,
        }
    }

    /// Hands over the sounds that the game asked for, in order, and forgets them.
    pub fn take_sounds(&mut self) -> (sounds: Vec<(u32, SoundEffect)>)
        requires
            old(self).wf(),
        ensures
            final(self).wf(),
            final(self).state == old(self).state,
            sounds@ == match old(self).game_manager {
                Some(g) => g.sounds@,
                None => Seq::empty(),
            },
            final(self).game_manager matches Some(g) ==> g.sounds@.len() == 0,
    {
        match self.game_manager.as_mut() {
            Some(gm) => {
                let mut taken: Vec<(u32, SoundEffect)> = Vec::new();
                std::mem::swap(&mut taken, &mut gm.sounds);
                taken
            },
            None => Vec::new(),
        }
    }

    pub fn on_key(&mut self, vkey: VKey, down: bool)
        ensures
            final(self).state == old(self).state,
            final(self).game_manager == old(self).game_manager,
    {
        self.params.pad.on_key(vkey, down);
    }

    pub fn on_joystick_axis(&mut self, axis_index: u8, dir: i8)
        ensures
            final(self).state == old(self).state,
            final(self).game_manager == old(self).game_manager,
    {
        self.params.pad.on_joystick_axis(axis_index, dir);
    }

    pub fn on_joystick_button(&mut self, button_index: u8, down: bool)
        ensures
            final(self).state == old(self).state,
            final(self).game_manager == old(self).game_manager,
    {
        self.params.pad.on_joystick_button(button_index, down);
    }

    /// Runs one frame; tells whether the application goes on. The cancel button leaves a
    /// game for the title, and quits from the title; the fire button starts a game; the
    /// start button holds and resumes the game.
    pub fn update(&mut self) -> (running: bool)
        requires
            old(self).wf(),
        ensures
            final(self).wf(),
            final(self).params.score_holder.high_score >= old(self).params.score_holder.high_score,
            old(self).params.score_holder.high_score >= old(self).params.score_holder.score
                ==> final(self).params.score_holder.high_score >= final(self).params.score_holder.score,
            ({
                let trg = final(self).params.pad.trg;
                &&& !running <==> (has_bit(trg, bit_of(PadBit::CANCEL)) && old(self).state == AppState::Title)
                &&& has_bit(trg, bit_of(PadBit::CANCEL)) && !has_bit(trg, bit_of(PadBit::A)) && old(self).state == AppState::Game
                    ==> final(self).state == AppState::Title && final(self).game_manager.is_none()
                &&& running && !has_bit(trg, bit_of(PadBit::CANCEL)) && !final(self).paused && old(self).state == AppState::Title
                    && has_bit(trg, bit_of(PadBit::A)) ==> final(self).state == AppState::Game
                    && final(self).params.score_holder.score == 0
                    && final(self).params.score_holder.high_score == old(self).params.score_holder.high_score
                &&& old(self).state == AppState::Game && !has_bit(trg, bit_of(PadBit::CANCEL)) && !final(self).paused ==> {
                    &&& final(self).frame_count == old(self).frame_count.wrapping_add(1)
                    &&& final(self).game_manager matches Some(g1) ==> game_frame(old(self).game_manager.unwrap(),
                        Params { pad: final(self).params.pad, ..old(self).params }, g1, final(self).params)
                }
            }),
    {
        self.params.pad.update();

        if self.params.pad.is_trigger(PadBit::CANCEL) {
            if self.state != AppState::Title {
                self.back_to_title();
            } else {
                return false;
            }
        }

        if self.params.pad.is_trigger(PadBit::START) {
            self.paused = !self.paused;
        }
        if self.paused {
            return true;
        }

        match self.state {
            AppState::Title => {
                self.count = self.count.wrapping_add(1);
                if self.params.pad.is_trigger(PadBit::A) {
                    let mut game_manager = GameManager::new();
                    game_manager.restart();
                    self.game_manager = Some(game_manager);
                    self.params.score_holder.reset_score();
                    self.state = AppState::Game;
                    self.frame_count = 0;
                }
            },
            AppState::Game => {
                self.frame_count = self.frame_count.wrapping_add(1);
                let mut finished = false;
                let ghost p0 = self.params;
                if let Some(gm) = self.game_manager.as_mut() {
                    let ghost g0 = *gm;
                    gm.update(&mut self.params);
                    assert(game_frame(g0, p0, *gm, self.params));
                    finished = gm.is_finished();
                }
                if finished {
                    self.back_to_title();
                }
            },
        }
        true
    }

    /// Leaves the game for the title screen.
    fn back_to_title(&mut self)
        ensures
            final(self).state == AppState::Title,
            final(self).count == 0,
            final(self).game_manager.is_none(),
            !final(self).params.star_manager.stop,
            final(self).params.score_holder == old(self).params.score_holder,
            final(self).params.pad == old(self).params.pad,
            final(self).paused == old(self).paused,
            final(self).frame_count == old(self).frame_count,
    {
        self.params.star_manager.set_stop(false);
        self.state = AppState::Title;
        self.count = 0;
        self.game_manager = None;
    }
}

} // verus!

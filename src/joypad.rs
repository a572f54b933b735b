//! The state of the eight buttons, active low, and the nibble that the input
//! register shows for each button group.
use vstd::prelude::*;

verus! {

pub const RIGHT_BUTTON: usize = 0;

pub const LEFT_BUTTON: usize = 1;

pub const UP_BUTTON: usize = 2;

pub const DOWN_BUTTON: usize = 3;

pub const A_BUTTON: usize = 4;

pub const B_BUTTON: usize = 5;

pub const SELECT_BUTTON: usize = 6;

pub const START_BUTTON: usize = 7;

/// The button group that the input register selects.
#[derive(Clone, Copy, Debug, PartialEq, Eq, Structural)]
pub enum JoypadMode {
    DIRECTION,
    ACTION,
}

/// One bit per button: 1 while released, 0 while pressed.
pub struct Joypad {
    state: [u8; 8],
}

impl Joypad {
    pub closed spec fn view(&self) -> Seq<u8> {
        self.state@
    }

    /// Every entry is 0 or 1.
    pub open spec fn wf(&self) -> bool {
        self@.len() == 8 && forall|i: int| 0 <= i < 8 ==> #[trigger] self@[i] <= 1
    }

    /// The nibble for a group: for directions down, up, left, right from bit 3
    /// to bit 0; for actions start, select, B, A.
    pub open spec fn mode_nibble(&self, mode: JoypadMode) -> u8 {
        match mode {
            JoypadMode::DIRECTION => (self@[DOWN_BUTTON as int] * 8 + self@[UP_BUTTON as int] * 4
                + self@[LEFT_BUTTON as int] * 2 + self@[RIGHT_BUTTON as int]) as u8,
            JoypadMode::ACTION => (self@[START_BUTTON as int] * 8 + self@[SELECT_BUTTON as int] * 4
                + self@[B_BUTTON as int] * 2 + self@[A_BUTTON as int]) as u8,
        }
    }

    /// All buttons released.
    pub fn new() -> (r: Joypad)
        ensures
            r.wf(),
            r@ == Seq::new(8, |i: int| 1u8),
    {
        let r = Joypad { state: [1; 8] };
        assert(r@ =~= Seq::new(8, |i: int| 1u8));
        r
    }

    /// 1 while the button is released, 0 while it is pressed.
    pub fn get_button_press(&self, button: usize) -> (r: u8)
        requires
            self.wf(),
            button < 8,
        ensures
            r == self@[button as int],
    {
        self.state[button]
    }

    /// Presses a button: its bit goes low.
    pub fn set_button_press(&mut self, button: usize)
        requires
            old(self).wf(),
            button < 8,
        ensures
            final(self).wf(),
            final(self)@ == old(self)@.update(button as int, 0),
    {
        self.state[button] = 0;
    }

    /// Releases a button: its bit goes high.
    pub fn reset_button_state(&mut self, button: usize)
        requires
            old(self).wf(),
            button < 8,
        ensures
            final(self).wf(),
            final(self)@ == old(self)@.update(button as int, 1),
    {
        self.state[button] = 1;
    }

    /// The four bits of the selected group.
    pub fn get_button_mode(&self, mode: JoypadMode) -> (r: u8)
        requires
            self.wf(),
        ensures
            r == self.mode_nibble(mode),
            r < 16,
    {
        match mode {
            JoypadMode::DIRECTION => {
                let up = self.state[UP_BUTTON];
                let down = self.state[DOWN_BUTTON];
                let left = self.state[LEFT_BUTTON];
                let right = self.state[RIGHT_BUTTON];
                down * 8 + up * 4 + left * 2 + right
            },
            JoypadMode::ACTION => {
                let start = self.state[START_BUTTON];
                let select = self.state[SELECT_BUTTON];
                let a = self.state[A_BUTTON];
                let b = self.state[B_BUTTON];
                start * 8 + select * 4 + b * 2 + a
            },
        }
    }
}

} // verus!

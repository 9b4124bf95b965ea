use vstd::prelude::*;

verus! {

/// Board side
#[derive(Debug, Clone, Copy, PartialEq, Eq, Structural)]
pub enum BoardSide {
    Front,
    Back,
}

/// Board state
#[derive(Debug, Clone, Copy, PartialEq, Eq, Structural)]
pub struct BoardState {
    /// Whether the board is currently turned on
    pub power: bool,
    pub side: BoardSide,
}

impl Default for BoardState {
    fn default() -> (r: BoardState)
        ensures
            !r.power,
            r.side == BoardSide::Front,
    {
        BoardState { power: false, side: BoardSide::Front }
    }
}

impl BoardState {
    /// Sets `power`; returns whether it changed, that is whether the switch sound plays
    pub fn switch_power(&mut self, on: bool) -> (r: bool)
        ensures
            r == (old(self).power != on),
            final(self).power == on,
            final(self).side == old(self).side,
    {
        let changed = self.power != on;
        self.power = on;
        changed
    }

    /// Toggles `power`; returns true, as the switch sound always plays
    pub fn toggle_power(&mut self) -> (r: bool)
        ensures
            r,
            final(self).power == !old(self).power,
            final(self).side == old(self).side,
    {
        let on = !self.power;
        self.switch_power(on)
    }
}

} // verus!

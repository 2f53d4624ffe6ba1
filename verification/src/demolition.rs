use vstd::prelude::*;
use crate::xp::decimal;
use crate::text::append_decimal;

verus! {

/// How many crates a demolition round tries to place.
pub const CRATE_COUNT: u32 = 30;
/// How many placement draws a round may use before giving up.
pub const MAX_PLACEMENT_ATTEMPTS: u32 = 4000;
/// Points for each smashed crate.
pub const SMASH_POINTS: u32 = 100;
/// The seed of the crate placement generator.
pub const CRATE_SEED: u32 = 0xDE10_5EED;

/// The demolition mini-game.
#[derive(Clone, Copy, Debug, PartialEq, Eq, Structural)]
pub struct DemolitionState {
    pub active: bool,
    pub crates_remaining: u32,
    pub score: u32,
}

impl DemolitionState {
    pub fn new() -> (r: DemolitionState)
        ensures
            r == (DemolitionState { active: false, crates_remaining: 0, score: 0 }),
    {
        DemolitionState { active: false, crates_remaining: 0, score: 0 }
    }

    /// The X key: switches the mode on or off. Either way the counters
    /// start from zero; switching on asks the caller to place crates.
    pub fn toggle(&mut self) -> (now_active: bool)
        ensures
            now_active == !old(self).active,
            *final(self) == (DemolitionState { active: now_active, crates_remaining: 0, score: 0 }),
    {
        self.active = !self.active;
        self.score = 0;
        self.crates_remaining = 0;
        self.active
    }

    /// Records how many crates the placement managed to put down.
    pub fn set_placed(&mut self, placed: u32)
        ensures
            *final(self) == (DemolitionState { crates_remaining: placed, ..*old(self) }),
    {
        self.crates_remaining = placed;
    }

    /// One crate smashed: points for it, and one crate fewer (never below
    /// zero).
    pub fn smash(&mut self)
        requires
            old(self).score + SMASH_POINTS <= u32::MAX,
        ensures
            final(self).active == old(self).active,
            final(self).score == old(self).score + SMASH_POINTS,
            final(self).crates_remaining == if old(self).crates_remaining > 0 {
                old(self).crates_remaining - 1
            } else {
                0
            },
    {
        self.score = self.score + SMASH_POINTS;
        if self.crates_remaining > 0 {
            self.crates_remaining = self.crates_remaining - 1;
        }
    }

    /// The HUD line: "Score: S  Crates: R/30".
    pub fn stats_text(&self) -> (r: String)
        ensures
            r@ == "Score: "@ + decimal(self.score as nat) + "  Crates: "@
                + decimal(self.crates_remaining as nat) + "/"@ + decimal(CRATE_COUNT as nat),
    {
        let mut s = String::from_str("Score: ");
        append_decimal(&mut s, self.score as u64);
        s.append("  Crates: ");
        append_decimal(&mut s, self.crates_remaining as u64);
        s.append("/");
        append_decimal(&mut s, CRATE_COUNT as u64);
        s
    }

    /// Whether the vehicle is fast enough to smash crates while the mode is
    /// on (`fast_enough`: its speed is above the smash speed).
    pub fn can_smash(&self, fast_enough: bool) -> (r: bool)
        ensures
            r == (self.active && fast_enough),
    {
        self.active && fast_enough
    }
}

/// Whether the placement loop should draw another position.
pub fn keep_placing(placed: u32, attempts: u32) -> (r: bool)
    ensures
        r == (placed < CRATE_COUNT && attempts < MAX_PLACEMENT_ATTEMPTS),
{
    placed < CRATE_COUNT && attempts < MAX_PLACEMENT_ATTEMPTS
}

} // verus!

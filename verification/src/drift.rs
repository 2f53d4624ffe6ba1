use vstd::prelude::*;
use crate::xp::{XpState, GameEventKind, unseen_events, clamp_add, decimal};

verus! {

/// Drift score above which a finished drift pays out.
pub const DRIFT_AWARD_THRESHOLD: u32 = 50;

/// The drift meter.
#[derive(Clone, Copy, Debug, PartialEq, Eq, Structural)]
pub struct DriftMeterState {
    pub current_score: u32,
    pub drift_active: bool,
}

/// What the drift-end check remembers between frames.
#[derive(Clone, Copy, Debug, PartialEq, Eq, Structural)]
pub struct DriftMemory {
    /// The meter was active in the previous frame.
    pub was_drifting: bool,
    /// How many event-log entries have been looked at.
    pub last_log_len: usize,
}

/// The HUD colour band of a drift score.
#[derive(Clone, Copy, Debug, PartialEq, Eq, Structural)]
pub enum DriftTier {
    Green,
    Yellow,
    Orange,
    Red,
}

pub open spec fn spec_drift_tier(score: u32) -> DriftTier {
    if score < 100 {
        DriftTier::Green
    } else if score < 300 {
        DriftTier::Yellow
    } else if score < 600 {
        DriftTier::Orange
    } else {
        DriftTier::Red
    }
}

/// The meter after a drift ends: a clean end of a drift scoring more than
/// the threshold pays the score.
pub open spec fn drift_pays(s: DriftMeterState, m: DriftMemory) -> bool {
    m.was_drifting && !s.drift_active && s.current_score > DRIFT_AWARD_THRESHOLD
}

/// Whether a hard impact was logged since the last look.
pub open spec fn impact_seen(log: Option<Seq<GameEventKind>>, m: DriftMemory) -> bool {
    match log {
        Some(l) => unseen_events(l, m.last_log_len as nat).contains(GameEventKind::HardImpact),
        None => false,
    }
}

/// The rank of a colour band, green lowest.
pub open spec fn tier_rank(t: DriftTier) -> int {
    match t {
        DriftTier::Green => 0,
        DriftTier::Yellow => 1,
        DriftTier::Orange => 2,
        DriftTier::Red => 3,
    }
}

/// The colour band rises with the score: a higher score is never shown in
/// a lower band; scores under 100 are green and from 600 on red.
pub proof fn lemma_drift_tier_monotone(a: u32, b: u32)
    requires
        a <= b,
    ensures
        tier_rank(spec_drift_tier(a)) <= tier_rank(spec_drift_tier(b)),
        a < 100 ==> spec_drift_tier(a) == DriftTier::Green,
        b >= 600 ==> spec_drift_tier(b) == DriftTier::Red,
        100 <= a < 300 ==> spec_drift_tier(a) == DriftTier::Yellow,
        300 <= a < 600 ==> spec_drift_tier(a) == DriftTier::Orange,
{
}

/// A drift pays exactly when it has just ended (active in the previous
/// frame, not now) with more than 50 points on the meter; the payout is the
/// points on the meter.
pub proof fn lemma_drift_payout(s: DriftMeterState, m: DriftMemory)
    ensures
        drift_pays(s, m) <==> (m.was_drifting && !s.drift_active && s.current_score > 50),
        s.drift_active ==> !drift_pays(s, m),
        s.current_score <= 50 ==> !drift_pays(s, m),
{
}

impl DriftMeterState {
    pub fn new() -> (r: DriftMeterState)
        ensures
            r == (DriftMeterState { current_score: 0, drift_active: false }),
    {
        DriftMeterState { current_score: 0, drift_active: false }
    }

    /// One frame of sliding: while the chassis slides sideways on the
    /// ground the meter is active and accumulates `gain` points.
    pub fn tick(&mut self, sliding: bool, gain: u32)
        ensures
            final(self).drift_active == sliding,
            sliding && old(self).current_score + gain <= u32::MAX ==> final(self).current_score == old(self).current_score + gain,
            sliding && old(self).current_score + gain > u32::MAX ==> final(self).current_score == u32::MAX,
            !sliding ==> final(self).current_score == old(self).current_score,
    {
        if sliding {
            self.drift_active = true;
            self.current_score = self.current_score.saturating_add(gain);
        } else {
            self.drift_active = false;
        }
    }

    /// The end-of-drift check: a drift that just ended cleanly pays its
    /// score when it is above the threshold, and the meter is cleared; then
    /// any hard impact logged since the last look wipes the meter.
    /// Returns the XP paid, if any.
    pub fn check_drift_end(
        &mut self,
        mem: &mut DriftMemory,
        log: Option<&Vec<GameEventKind>>,
        xp: &mut XpState,
    ) -> (paid: Option<u32>)
        ensures
            paid is Some == drift_pays(*old(self), *old(mem)),
            paid is Some ==> paid.unwrap() == old(self).current_score,
            paid is Some ==> final(xp).total_xp == clamp_add(old(xp).total_xp, old(self).current_score as int),
            paid is Some ==> final(xp).session_xp == clamp_add(old(xp).session_xp, old(self).current_score as int),
            paid is Some ==> final(xp).last_gain == old(self).current_score as i32,
            paid is None ==> *final(xp) == *old(xp),
            final(mem).was_drifting == old(self).drift_active,
            final(mem).last_log_len == match log {
                Some(l) => l.len(),
                None => old(mem).last_log_len,
            },
            ({
                let ended = old(mem).was_drifting && !old(self).drift_active;
                let hit = impact_seen(
                    match log {
                        Some(l) => Some(l@),
                        None => None,
                    },
                    *old(mem),
                );
                &&& final(self).current_score == if ended || hit { 0 } else { old(self).current_score }
                &&& final(self).drift_active == (old(self).drift_active && !hit)
            }),
    {
        let mut paid: Option<u32> = None;
        if mem.was_drifting && !self.drift_active {
            if self.current_score > DRIFT_AWARD_THRESHOLD {
                let score = self.current_score;
                xp.add_bonus(score);
                paid = Some(score);
            }
            self.current_score = 0;
        }
        mem.was_drifting = self.drift_active;
        match log {
            Some(events) => {
                let current_len = events.len();
                if current_len > mem.last_log_len {
                    let start = mem.last_log_len;
                    let ghost unseen = events@.subrange(start as int, current_len as int);
                    let mut hit = false;
                    let mut i = start;
                    while i < current_len
                        invariant
                            start <= i <= current_len,
                            current_len == events.len(),
                            unseen == events@.subrange(start as int, current_len as int),
                            hit == exists|j: int| start <= j < i && events@[j] == GameEventKind::HardImpact,
                        decreases current_len - i,
                    {
                        if events[i] == GameEventKind::HardImpact {
                            hit = true;
                        }
                        i = i + 1;
                    }
                    proof {
                        if hit {
                            let j = choose|j: int| start <= j < current_len && events@[j] == GameEventKind::HardImpact;
                            assert(unseen[j - start] == GameEventKind::HardImpact);
                        } else {
                            assert forall|k: int| 0 <= k < unseen.len() implies unseen[k] != GameEventKind::HardImpact by {
                                assert(unseen[k] == events@[k + start]);
                            }
                        }
                    }
                    if hit {
                        self.current_score = 0;
                        self.drift_active = false;
                    }
                } else {
                    proof {
                        assert(unseen_events(events@, mem.last_log_len as nat) =~= Seq::<GameEventKind>::empty());
                    }
                }
                mem.last_log_len = current_len;
            },
            None => {},
        }
        paid
    }

    /// Whether the HUD shows the meter: while drifting, while points are
    /// on it, or (`within_grace`) for a moment after a payout.
    pub fn hud_visible(&self, within_grace: bool) -> (r: bool)
        ensures
            r == (self.drift_active || self.current_score > 0
                || (!self.drift_active && self.current_score == 0 && within_grace)),
    {
        self.drift_active || self.current_score > 0 || (!self.drift_active && self.current_score == 0 && within_grace)
    }

    /// The colour band of the current score.
    pub fn tier(&self) -> (r: DriftTier)
        ensures
            r == spec_drift_tier(self.current_score),
    {
        if self.current_score < 100 {
            DriftTier::Green
        } else if self.current_score < 300 {
            DriftTier::Yellow
        } else if self.current_score < 600 {
            DriftTier::Orange
        } else {
            DriftTier::Red
        }
    }

    /// The HUD text, "DRIFT " and the score in decimal.
    pub fn label(&self) -> (r: String)
        ensures
            r@ == "DRIFT "@ + decimal(self.current_score as nat),
    {
        let mut s = String::from_str("DRIFT ");
        crate::text::append_decimal(&mut s, self.current_score as u64);
        s
    }
}

} // verus!

use vstd::prelude::*;
use crate::xp::{XpState, clamp_add};

verus! {

/// How many challenge kinds there are; a new challenge picks one by the
/// whole seconds elapsed since start-up.
pub const CHALLENGE_KINDS: u32 = 5;

/// XP paid for finishing a timed challenge.
pub const CHALLENGE_REWARD_XP: u32 = 150;

/// The text shown for a challenge kind.
pub open spec fn spec_kind_description(kind: u32) -> Seq<char> {
    if kind == 0 {
        "Reach 60 mph"@
    } else if kind == 1 {
        "1.5s air in one jump"@
    } else if kind == 2 {
        "Drive 500m"@
    } else if kind == 3 {
        "3 wheelies"@
    } else if kind == 4 {
        "Hit 80 mph"@
    } else {
        "Unknown"@
    }
}

pub fn kind_description(kind: u32) -> (r: &'static str)
    ensures
        r@ == spec_kind_description(kind),
{
    match kind {
        0 => "Reach 60 mph",
        1 => "1.5s air in one jump",
        2 => "Drive 500m",
        3 => "3 wheelies",
        4 => "Hit 80 mph",
        _ => "Unknown",
    }
}

/// The kind of challenge started when `elapsed_whole_s` whole seconds have
/// passed since start-up.
pub fn challenge_kind(elapsed_whole_s: u32) -> (k: u32)
    ensures
        k == elapsed_whole_s % CHALLENGE_KINDS,
        k < CHALLENGE_KINDS,
{
    elapsed_whole_s % CHALLENGE_KINDS
}

/// The discrete part of a timed challenge: whether one runs, which kind,
/// and whether it has been finished. The clock and the measured progress
/// are read by the caller, which reports each frame whether the target was
/// reached and whether the time is up.
#[derive(Clone, Copy, Debug, PartialEq, Eq, Structural)]
pub struct ChallengesState {
    pub active: bool,
    pub current_kind: u32,
    pub completed: bool,
}


/// One frame of a running challenge, as (state after, whether the reward
/// is paid): reaching the target the first time pays; running out of time
/// ends the run, finished or not.
pub open spec fn track_step(s: ChallengesState, target_reached: bool, time_up: bool) -> (ChallengesState, bool) {
    if !s.active {
        (s, false)
    } else {
        let paid = !s.completed && target_reached;
        (
            ChallengesState {
                active: !time_up,
                current_kind: s.current_kind,
                completed: s.completed || paid,
            },
            paid,
        )
    }
}

/// A run pays its reward at most once: after a frame that paid, no later
/// frame of the same run pays again.
pub proof fn lemma_challenge_pays_once(
    s: ChallengesState,
    reached1: bool,
    up1: bool,
    reached2: bool,
    up2: bool,
)
    requires
        track_step(s, reached1, up1).1,
    ensures
        !track_step(track_step(s, reached1, up1).0, reached2, up2).1,
{
}

impl ChallengesState {
    pub fn new() -> (r: ChallengesState)
        ensures
            r == (ChallengesState { active: false, current_kind: 0, completed: false }),
    {
        ChallengesState { active: false, current_kind: 0, completed: false }
    }

    /// Starts (or restarts) a challenge of the given kind.
    pub fn start(&mut self, kind: u32)
        ensures
            *final(self) == (ChallengesState { active: true, current_kind: kind, completed: false }),
    {
        self.active = true;
        self.current_kind = kind;
        self.completed = false;
    }

    /// One frame of a running challenge. Reaching the target the first time
    /// pays the reward; running out of time ends the challenge, finished or
    /// not. Returns whether the reward was paid in this frame.
    pub fn track(&mut self, xp: &mut XpState, target_reached: bool, time_up: bool) -> (paid: bool)
        ensures
            (*final(self), paid) == track_step(*old(self), target_reached, time_up),
            paid ==> final(xp).total_xp == clamp_add(old(xp).total_xp, CHALLENGE_REWARD_XP as int),
            paid ==> final(xp).session_xp == clamp_add(old(xp).session_xp, CHALLENGE_REWARD_XP as int),
            paid ==> final(xp).last_gain == CHALLENGE_REWARD_XP as i32,
            !paid ==> *final(xp) == *old(xp),
    {
        if !self.active {
            return false;
        }
        let mut paid = false;
        if !self.completed && target_reached {
            self.completed = true;
            xp.add_bonus(CHALLENGE_REWARD_XP);
            paid = true;
        }
        if time_up {
            self.active = false;
        }
        paid
    }
}

} // verus!

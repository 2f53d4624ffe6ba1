use vstd::prelude::*;
use crate::xp::{XpState, decimal};
use crate::text::{append_decimal, mentions, lemma_mentions_at};

verus! {

/// Seconds in one calendar day; the daily challenge changes once per day.
pub const SECONDS_PER_DAY: u64 = 86400;

/// The number of different daily challenges, chosen in turn by day number.
pub const DAILY_KINDS: u64 = 5;

#[derive(Clone, Copy, Debug, PartialEq, Eq, Structural)]
pub enum DailyKind {
    DriveDistanceKm,
    AirtimeTotalSeconds,
    HitTopSpeedMph,
    CollectGems,
    DoWheelies,
}

/// One day's challenge. Every target is a whole number.
#[derive(Clone, Debug)]
pub struct DailyChallenge {
    pub name: String,
    pub description: String,
    pub kind: DailyKind,
    pub target: u32,
    pub xp_reward: u32,
}

/// The day's challenge and the player's progress on it. `progress_whole`
/// is the measured progress rounded down to a whole number: since every
/// target is whole, progress reaches the target exactly when its whole
/// part does.
#[derive(Clone, Debug)]
pub struct DailyState {
    pub today_seed: u64,
    pub challenge: DailyChallenge,
    pub completed_today: bool,
    pub progress_whole: u32,
}

/// The session statistics a daily challenge can measure, each rounded
/// down to a whole number of its unit.
#[derive(Clone, Copy, Debug, PartialEq, Eq, Structural)]
pub struct DailyStats {
    pub distance_km: u32,
    pub total_air_s: u32,
    pub top_speed_mph: u32,
    pub gems: u32,
    pub wheelies: u32,
}

pub open spec fn daily_kind_of(index: int) -> DailyKind {
    if index == 0 {
        DailyKind::DriveDistanceKm
    } else if index == 1 {
        DailyKind::AirtimeTotalSeconds
    } else if index == 2 {
        DailyKind::HitTopSpeedMph
    } else if index == 3 {
        DailyKind::CollectGems
    } else {
        DailyKind::DoWheelies
    }
}

pub open spec fn daily_target(kind: DailyKind) -> u32 {
    match kind {
        DailyKind::DriveDistanceKm => 5,
        DailyKind::AirtimeTotalSeconds => 15,
        DailyKind::HitTopSpeedMph => 70,
        DailyKind::CollectGems => 10,
        DailyKind::DoWheelies => 5,
    }
}

pub open spec fn daily_reward(kind: DailyKind) -> u32 {
    match kind {
        DailyKind::DriveDistanceKm => 500,
        DailyKind::AirtimeTotalSeconds => 400,
        DailyKind::HitTopSpeedMph => 300,
        DailyKind::CollectGems => 350,
        DailyKind::DoWheelies => 400,
    }
}

pub open spec fn daily_name(kind: DailyKind) -> Seq<char> {
    match kind {
        DailyKind::DriveDistanceKm => "Drive 5 km"@,
        DailyKind::AirtimeTotalSeconds => "Total 15 s of airtime"@,
        DailyKind::HitTopSpeedMph => "Reach 70 mph"@,
        DailyKind::CollectGems => "Collect 10 gems"@,
        DailyKind::DoWheelies => "Pull 5 wheelies"@,
    }
}

pub open spec fn daily_description(kind: DailyKind) -> Seq<char> {
    match kind {
        DailyKind::DriveDistanceKm => "Cover 5 kilometres in a single session."@,
        DailyKind::AirtimeTotalSeconds => "Rack up 15 seconds of total airtime today."@,
        DailyKind::HitTopSpeedMph => "Hit a top speed of at least 70 mph."@,
        DailyKind::CollectGems => "Pick up 10 collectible gems scattered around the world."@,
        DailyKind::DoWheelies => "Pull off 5 wheelies (each must last at least 0.5 s)."@,
    }
}

/// The day number of a moment given in seconds since the epoch.
pub open spec fn day_of(epoch_secs: u64) -> u64 {
    epoch_secs / SECONDS_PER_DAY
}

/// The kind of challenge on a given day.
pub open spec fn kind_of_day(day: u64) -> DailyKind {
    daily_kind_of((day % DAILY_KINDS) as int)
}

/// The statistic that measures progress on a challenge of this kind.
pub open spec fn measured(kind: DailyKind, stats: DailyStats) -> u32 {
    match kind {
        DailyKind::DriveDistanceKm => stats.distance_km,
        DailyKind::AirtimeTotalSeconds => stats.total_air_s,
        DailyKind::HitTopSpeedMph => stats.top_speed_mph,
        DailyKind::CollectGems => stats.gems,
        DailyKind::DoWheelies => stats.wheelies,
    }
}

fn challenge(name: &str, description: &str, kind: DailyKind, target: u32, xp_reward: u32) -> (r: DailyChallenge)
    ensures
        r.name@ == name@,
        r.description@ == description@,
        r.kind == kind,
        r.target == target,
        r.xp_reward == xp_reward,
{
    DailyChallenge {
        name: name.to_owned(),
        description: description.to_owned(),
        kind,
        target,
        xp_reward,
    }
}

/// The challenge for the day containing `epoch_secs`, not yet started:
/// the day number picks one of five challenges in turn.
pub fn build_daily_challenge(epoch_secs: u64) -> (r: DailyState)
    ensures
        r.today_seed == day_of(epoch_secs),
        r.challenge.kind == kind_of_day(day_of(epoch_secs)),
        r.challenge.target == daily_target(r.challenge.kind),
        r.challenge.xp_reward == daily_reward(r.challenge.kind),
        r.challenge.name@ == daily_name(r.challenge.kind),
        r.challenge.description@ == daily_description(r.challenge.kind),
        !r.completed_today,
        r.progress_whole == 0,
{
    let today_seed = epoch_secs / SECONDS_PER_DAY;
    let index = today_seed % DAILY_KINDS;
    let challenge = if index == 0 {
        challenge("Drive 5 km", "Cover 5 kilometres in a single session.",
            DailyKind::DriveDistanceKm, 5, 500)
    } else if index == 1 {
        challenge("Total 15 s of airtime", "Rack up 15 seconds of total airtime today.",
            DailyKind::AirtimeTotalSeconds, 15, 400)
    } else if index == 2 {
        challenge("Reach 70 mph", "Hit a top speed of at least 70 mph.",
            DailyKind::HitTopSpeedMph, 70, 300)
    } else if index == 3 {
        challenge("Collect 10 gems", "Pick up 10 collectible gems scattered around the world.",
            DailyKind::CollectGems, 10, 350)
    } else {
        challenge("Pull 5 wheelies", "Pull off 5 wheelies (each must last at least 0.5 s).",
            DailyKind::DoWheelies, 5, 400)
    };
    DailyState { today_seed, challenge, completed_today: false, progress_whole: 0 }
}

/// Whether the completion check would pay out now.
pub open spec fn completes_now(s: DailyState) -> bool {
    !s.completed_today && s.progress_whole >= s.challenge.target
}


/// The challenge rotates through all five kinds: five days later the same
/// kind returns, and none of the four days in between repeats it.
pub proof fn lemma_daily_rotation(day: u64, k: u64)
    requires
        1 <= k < DAILY_KINDS,
        day + DAILY_KINDS <= u64::MAX,
    ensures
        kind_of_day((day + DAILY_KINDS) as u64) == kind_of_day(day),
        day + k <= u64::MAX ==> kind_of_day((day + k) as u64) != kind_of_day(day),
{
    assert(((day + DAILY_KINDS) as u64) % DAILY_KINDS == day % DAILY_KINDS);
    if day + k <= u64::MAX {
        let a = day % DAILY_KINDS;
        let b = ((day + k) as u64) % DAILY_KINDS;
        assert(b == (a + k) % (DAILY_KINDS as int));
        assert(a != b);
    }
}

/// Each kind of challenge is measured by its own statistic: distance for
/// the driving challenge, airtime for the airtime one, top speed, gems and
/// wheelies for theirs; a challenge's progress does not move when only the
/// other statistics change.
pub proof fn lemma_daily_own_statistic(kind: DailyKind, a: DailyStats, b: DailyStats)
    ensures
        measured(DailyKind::DriveDistanceKm, a) == a.distance_km,
        measured(DailyKind::AirtimeTotalSeconds, a) == a.total_air_s,
        measured(DailyKind::HitTopSpeedMph, a) == a.top_speed_mph,
        measured(DailyKind::CollectGems, a) == a.gems,
        measured(DailyKind::DoWheelies, a) == a.wheelies,
        kind is CollectGems && a.gems == b.gems ==> measured(kind, a) == measured(kind, b),
        kind is DoWheelies && a.wheelies == b.wheelies ==> measured(kind, a) == measured(kind, b),
        kind is DriveDistanceKm && a.distance_km == b.distance_km ==> measured(kind, a) == measured(kind, b),
        kind is AirtimeTotalSeconds && a.total_air_s == b.total_air_s ==> measured(kind, a) == measured(kind, b),
        kind is HitTopSpeedMph && a.top_speed_mph == b.top_speed_mph ==> measured(kind, a) == measured(kind, b),
{
}

/// A challenge not yet done, once its progress is taken from the session
/// statistics, completes exactly when its own statistic reaches the target;
/// for the gem challenge, when the gems collected reach it.
pub proof fn lemma_daily_completes_on_own_statistic(s: DailyState, stats: DailyStats)
    requires
        !s.completed_today,
    ensures
        ({
            let t = DailyState { progress_whole: measured(s.challenge.kind, stats), ..s };
            &&& s.challenge.kind is CollectGems ==> (completes_now(t) <==> stats.gems >= s.challenge.target)
            &&& s.challenge.kind is DoWheelies ==> (completes_now(t) <==> stats.wheelies >= s.challenge.target)
            &&& s.challenge.kind is DriveDistanceKm ==> (completes_now(t) <==> stats.distance_km >= s.challenge.target)
            &&& s.challenge.kind is AirtimeTotalSeconds ==> (completes_now(t) <==> stats.total_air_s >= s.challenge.target)
            &&& s.challenge.kind is HitTopSpeedMph ==> (completes_now(t) <==> stats.top_speed_mph >= s.challenge.target)
        }),
{
}

/// The unit in which each kind of challenge is counted.
pub open spec fn daily_unit(kind: DailyKind) -> Seq<char> {
    match kind {
        DailyKind::DriveDistanceKm => "km"@,
        DailyKind::AirtimeTotalSeconds => "airtime"@,
        DailyKind::HitTopSpeedMph => "mph"@,
        DailyKind::CollectGems => "gems"@,
        DailyKind::DoWheelies => "wheelies"@,
    }
}

/// Every daily challenge's name and description state its target: the
/// target's decimal digits appear in both, and the name names the kind's
/// unit.
pub proof fn lemma_daily_texts_state_target(kind: DailyKind)
    ensures
        mentions(daily_name(kind), decimal(daily_target(kind) as nat)),
        mentions(daily_description(kind), decimal(daily_target(kind) as nat)),
        mentions(daily_name(kind), daily_unit(kind)),
{
    reveal_with_fuel(decimal, 3);
    match kind {
        DailyKind::DriveDistanceKm => {
            reveal_strlit("Drive 5 km");
            reveal_strlit("km");
            assert(daily_name(kind).subrange(8, 10) =~= daily_unit(kind));
            lemma_mentions_at(daily_name(kind), daily_unit(kind), 8);
            reveal_strlit("Cover 5 kilometres in a single session.");
            assert(daily_name(kind).subrange(6, 7) =~= decimal(5));
            lemma_mentions_at(daily_name(kind), decimal(5), 6);
            assert(daily_description(kind).subrange(6, 7) =~= decimal(5));
            lemma_mentions_at(daily_description(kind), decimal(5), 6);
        },
        DailyKind::AirtimeTotalSeconds => {
            reveal_strlit("Total 15 s of airtime");
            reveal_strlit("airtime");
            assert(daily_name(kind).subrange(14, 21) =~= daily_unit(kind));
            lemma_mentions_at(daily_name(kind), daily_unit(kind), 14);
            reveal_strlit("Rack up 15 seconds of total airtime today.");
            assert(daily_name(kind).subrange(6, 8) =~= decimal(15));
            lemma_mentions_at(daily_name(kind), decimal(15), 6);
            assert(daily_description(kind).subrange(8, 10) =~= decimal(15));
            lemma_mentions_at(daily_description(kind), decimal(15), 8);
        },
        DailyKind::HitTopSpeedMph => {
            reveal_strlit("Reach 70 mph");
            reveal_strlit("mph");
            assert(daily_name(kind).subrange(9, 12) =~= daily_unit(kind));
            lemma_mentions_at(daily_name(kind), daily_unit(kind), 9);
            reveal_strlit("Hit a top speed of at least 70 mph.");
            assert(daily_name(kind).subrange(6, 8) =~= decimal(70));
            lemma_mentions_at(daily_name(kind), decimal(70), 6);
            assert(daily_description(kind).subrange(28, 30) =~= decimal(70));
            lemma_mentions_at(daily_description(kind), decimal(70), 28);
        },
        DailyKind::CollectGems => {
            reveal_strlit("Collect 10 gems");
            reveal_strlit("gems");
            assert(daily_name(kind).subrange(11, 15) =~= daily_unit(kind));
            lemma_mentions_at(daily_name(kind), daily_unit(kind), 11);
            reveal_strlit("Pick up 10 collectible gems scattered around the world.");
            assert(daily_name(kind).subrange(8, 10) =~= decimal(10));
            lemma_mentions_at(daily_name(kind), decimal(10), 8);
            assert(daily_description(kind).subrange(8, 10) =~= decimal(10));
            lemma_mentions_at(daily_description(kind), decimal(10), 8);
        },
        DailyKind::DoWheelies => {
            reveal_strlit("Pull 5 wheelies");
            reveal_strlit("wheelies");
            assert(daily_name(kind).subrange(7, 15) =~= daily_unit(kind));
            lemma_mentions_at(daily_name(kind), daily_unit(kind), 7);
            reveal_strlit("Pull off 5 wheelies (each must last at least 0.5 s).");
            assert(daily_name(kind).subrange(5, 6) =~= decimal(5));
            lemma_mentions_at(daily_name(kind), decimal(5), 5);
            assert(daily_description(kind).subrange(9, 10) =~= decimal(5));
            lemma_mentions_at(daily_description(kind), decimal(5), 9);
        },
    }
}

/// Two moments of the same day get the same challenge.
pub proof fn lemma_same_day_same_challenge(t1: u64, t2: u64)
    requires
        day_of(t1) == day_of(t2),
    ensures
        kind_of_day(day_of(t1)) == kind_of_day(day_of(t2)),
{
}

/// Once paid, the daily reward is not paid again that day: progress
/// tracking leaves the completion flag alone and a completed challenge
/// never completes again.
pub proof fn lemma_daily_pays_once(s: DailyState)
    requires
        s.completed_today,
    ensures
        !completes_now(s),
{
}

impl DailyState {
    /// Refreshes the progress from the session statistics, unless today's
    /// challenge is already done.
    pub fn track_progress(&mut self, stats: &DailyStats)
        ensures
            final(self).today_seed == old(self).today_seed,
            final(self).challenge == old(self).challenge,
            final(self).completed_today == old(self).completed_today,
            final(self).progress_whole == if old(self).completed_today {
                old(self).progress_whole
            } else {
                measured(old(self).challenge.kind, *stats)
            },
    {
        if self.completed_today {
            return;
        }
        self.progress_whole = match self.challenge.kind {
            DailyKind::DriveDistanceKm => stats.distance_km,
            DailyKind::AirtimeTotalSeconds => stats.total_air_s,
            DailyKind::HitTopSpeedMph => stats.top_speed_mph,
            DailyKind::CollectGems => stats.gems,
            DailyKind::DoWheelies => stats.wheelies,
        };
    }

    /// Marks the challenge complete the first time progress reaches the
    /// target, and pays its reward once. The totals must leave room for the
    /// reward when it is paid.
    pub fn complete_check(&mut self, xp: &mut XpState) -> (paid: bool)
        requires
            completes_now(*old(self)) ==> old(xp).total_xp + old(self).challenge.xp_reward <= u64::MAX,
            completes_now(*old(self)) ==> old(xp).session_xp + old(self).challenge.xp_reward <= u64::MAX,
        ensures
            paid == completes_now(*old(self)),
            final(self).today_seed == old(self).today_seed,
            final(self).challenge == old(self).challenge,
            final(self).progress_whole == old(self).progress_whole,
            final(self).completed_today == (old(self).completed_today || paid),
            paid ==> final(xp).total_xp == old(xp).total_xp + old(self).challenge.xp_reward,
            paid ==> final(xp).session_xp == old(xp).session_xp + old(self).challenge.xp_reward,
            paid ==> final(xp).last_gain == old(self).challenge.xp_reward as i32,
            !paid ==> *final(xp) == *old(xp),
    {
        if self.completed_today {
            return false;
        }
        if self.progress_whole >= self.challenge.target {
            self.completed_today = true;
            xp.add_daily_reward(self.challenge.xp_reward);
            return true;
        }
        false
    }

    /// The challenge line of the HUD: the name, or the completion notice
    /// with the reward once done.
    pub fn name_line(&self) -> (r: String)
        ensures
            r@ == if self.completed_today {
                "[X] COMPLETE -- +"@ + decimal(self.challenge.xp_reward as nat) + " XP"@
            } else {
                self.challenge.name@
            },
    {
        if self.completed_today {
            let mut s = String::from_str("[X] COMPLETE -- +");
            append_decimal(&mut s, self.challenge.xp_reward as u64);
            s.append(" XP");
            s
        } else {
            self.challenge.name.clone()
        }
    }
}

} // verus!

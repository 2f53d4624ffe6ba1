use vstd::prelude::*;
use crate::xp::{XpState, clamp_add, decimal};
use crate::text::{append_decimal, mentions, lemma_mentions_at};

verus! {

/// What one career objective asks of the player.
#[derive(Clone, Copy, Debug, PartialEq, Eq, Structural)]
pub enum ObjectiveKind {
    /// Finish the course in under N seconds.
    CourseUnder { seconds: u32 },
    /// Win a race against rivals.
    WinRace,
    /// Collect at least N gems.
    CollectGems { count: u32 },
    /// Reach a top speed >= N mph.
    TopSpeed { mph: u32 },
    /// Get airtime >= N seconds in a single jump.
    Airtime { seconds: u32 },
    /// Reach progression level N.
    ReachLevel { level: u32 },
}

/// One step of the career ladder.
#[derive(Clone, Debug)]
pub struct CareerObjective {
    pub name: String,
    pub description: String,
    pub kind: ObjectiveKind,
    pub completed: bool,
    pub xp_reward: u32,
}

/// The career ladder and how far the player has climbed it.
pub struct CareerState {
    pub objectives: Vec<CareerObjective>,
    pub current_idx: usize,
    pub all_complete: bool,
}

/// The course as the career reads it. `run_time_whole_s` is the run time
/// rounded down to whole seconds: for a whole number of seconds `n`, a run
/// time is under `n` exactly when its whole part is.
#[derive(Clone, Copy, Debug, PartialEq, Eq, Structural)]
pub struct CourseObservation {
    pub completed: bool,
    pub run_time_whole_s: u32,
}

/// The race as the career reads it.
#[derive(Clone, Copy, Debug, PartialEq, Eq, Structural)]
pub struct RaceObservation {
    /// The race phase is `Finished`.
    pub finished: bool,
    /// The first leaderboard entry is the player.
    pub player_first: bool,
}

/// Everything the career reads in one frame; `None` where the game has no
/// such resource. `top_speed_mph` is the session top speed converted to
/// whole mph; `max_air_whole_s` is the longest single jump rounded down to
/// whole seconds.
#[derive(Clone, Copy, Debug, PartialEq, Eq, Structural)]
pub struct CareerObservation {
    pub level: Option<u32>,
    pub course: Option<CourseObservation>,
    pub race: Option<RaceObservation>,
    pub gems: Option<u32>,
    pub top_speed_mph: Option<u32>,
    pub max_air_whole_s: Option<u32>,
}

/// What the previous frame saw, for rising-edge detection of course
/// completions and race finishes.
#[derive(Clone, Copy, Debug, PartialEq, Eq, Structural)]
pub struct CareerEdges {
    pub prev_course_completed: bool,
    pub prev_race_finished: bool,
}

pub open spec fn course_completed(obs: CareerObservation) -> bool {
    match obs.course {
        Some(c) => c.completed,
        None => false,
    }
}

pub open spec fn race_finished(obs: CareerObservation) -> bool {
    match obs.race {
        Some(r) => r.finished,
        None => false,
    }
}

/// Whether the objective of this kind is met in this frame.
pub open spec fn objective_met(kind: ObjectiveKind, obs: CareerObservation, edges: CareerEdges) -> bool {
    match kind {
        ObjectiveKind::ReachLevel { level } => match obs.level {
            Some(l) => l >= level,
            None => false,
        },
        ObjectiveKind::CourseUnder { seconds } => {
            let now = match obs.course {
                Some(c) => c.completed && c.run_time_whole_s < seconds,
                None => false,
            };
            now && !edges.prev_course_completed
        },
        ObjectiveKind::WinRace => {
            let won = match obs.race {
                Some(r) => r.finished && r.player_first,
                None => false,
            };
            won && !edges.prev_race_finished
        },
        ObjectiveKind::CollectGems { count } => match obs.gems {
            Some(g) => g >= count,
            None => false,
        },
        ObjectiveKind::TopSpeed { mph } => match obs.top_speed_mph {
            Some(s) => s >= mph,
            None => false,
        },
        ObjectiveKind::Airtime { seconds } => match obs.max_air_whole_s {
            Some(a) => a >= seconds,
            None => false,
        },
    }
}

/// The edge memory after evaluating an objective of this kind: only the
/// memory that the kind consults is refreshed.
pub open spec fn edges_after(kind: ObjectiveKind, obs: CareerObservation, edges: CareerEdges) -> CareerEdges {
    match kind {
        ObjectiveKind::CourseUnder { .. } => CareerEdges {
            prev_course_completed: course_completed(obs),
            prev_race_finished: edges.prev_race_finished,
        },
        ObjectiveKind::WinRace => CareerEdges {
            prev_course_completed: edges.prev_course_completed,
            prev_race_finished: race_finished(obs),
        },
        _ => edges,
    }
}

/// The objective with its completion flag set.
pub open spec fn completed_objective(o: CareerObjective) -> CareerObjective {
    CareerObjective {
        name: o.name,
        description: o.description,
        kind: o.kind,
        completed: true,
        xp_reward: o.xp_reward,
    }
}

/// The kind and reward of each rung of the standard ladder, in order.
pub open spec fn ladder_kind(i: int) -> ObjectiveKind {
    if i == 0 {
        ObjectiveKind::ReachLevel { level: 2 }
    } else if i == 1 {
        ObjectiveKind::CourseUnder { seconds: 90 }
    } else if i == 2 {
        ObjectiveKind::CollectGems { count: 5 }
    } else if i == 3 {
        ObjectiveKind::TopSpeed { mph: 50 }
    } else if i == 4 {
        ObjectiveKind::Airtime { seconds: 2 }
    } else if i == 5 {
        ObjectiveKind::CourseUnder { seconds: 60 }
    } else if i == 6 {
        ObjectiveKind::WinRace
    } else {
        ObjectiveKind::ReachLevel { level: 10 }
    }
}

pub open spec fn ladder_reward(i: int) -> u32 {
    if i == 0 {
        100
    } else if i == 1 || i == 2 {
        200
    } else if i == 3 {
        250
    } else if i == 4 {
        300
    } else if i == 5 {
        400
    } else if i == 6 {
        500
    } else {
        800
    }
}

pub open spec fn ladder_name(i: int) -> Seq<char> {
    if i == 0 {
        "FIRST DRIVE"@
    } else if i == 1 {
        "QUICK COURSE"@
    } else if i == 2 {
        "COLLECTOR"@
    } else if i == 3 {
        "BREAK 50 MPH"@
    } else if i == 4 {
        "BIG AIR"@
    } else if i == 5 {
        "FAST COURSE"@
    } else if i == 6 {
        "BEAT THE RIVALS"@
    } else {
        "RANK UP"@
    }
}

pub open spec fn ladder_description(i: int) -> Seq<char> {
    if i == 0 {
        "Reach progression level 2"@
    } else if i == 1 {
        "Finish the course in under 90 seconds"@
    } else if i == 2 {
        "Collect 5 gems"@
    } else if i == 3 {
        "Hit a top speed of 50 mph"@
    } else if i == 4 {
        "Get airborne for 2 seconds in a single jump"@
    } else if i == 5 {
        "Finish the course in under 60 seconds"@
    } else if i == 6 {
        "Win a race against rivals"@
    } else {
        "Reach progression level 10"@
    }
}

/// The number of rungs on the standard ladder.
pub const LADDER_LEN: usize = 8;

fn objective(name: &str, description: &str, kind: ObjectiveKind, xp_reward: u32) -> (r: CareerObjective)
    ensures
        r.name@ == name@,
        r.description@ == description@,
        r.kind == kind,
        !r.completed,
        r.xp_reward == xp_reward,
{
    CareerObjective {
        name: name.to_owned(),
        description: description.to_owned(),
        kind,
        completed: false,
        xp_reward,
    }
}

impl CareerState {
    /// The standard ladder of eight objectives, none completed.
    pub fn with_objectives() -> (r: CareerState)
        ensures
            r.objectives.len() == LADDER_LEN,
            r.current_idx == 0,
            !r.all_complete,
            forall|i: int| 0 <= i < LADDER_LEN ==> {
                &&& (#[trigger] r.objectives@[i]).kind == ladder_kind(i)
                &&& r.objectives@[i].xp_reward == ladder_reward(i)
                &&& !r.objectives@[i].completed
                &&& r.objectives@[i].name@ == ladder_name(i)
                &&& r.objectives@[i].description@ == ladder_description(i)
            },
    {
        let mut objectives: Vec<CareerObjective> = Vec::new();
        objectives.push(objective("FIRST DRIVE", "Reach progression level 2",
            ObjectiveKind::ReachLevel { level: 2 }, 100));
        objectives.push(objective("QUICK COURSE", "Finish the course in under 90 seconds",
            ObjectiveKind::CourseUnder { seconds: 90 }, 200));
        objectives.push(objective("COLLECTOR", "Collect 5 gems",
            ObjectiveKind::CollectGems { count: 5 }, 200));
        objectives.push(objective("BREAK 50 MPH", "Hit a top speed of 50 mph",
            ObjectiveKind::TopSpeed { mph: 50 }, 250));
        objectives.push(objective("BIG AIR", "Get airborne for 2 seconds in a single jump",
            ObjectiveKind::Airtime { seconds: 2 }, 300));
        objectives.push(objective("FAST COURSE", "Finish the course in under 60 seconds",
            ObjectiveKind::CourseUnder { seconds: 60 }, 400));
        objectives.push(objective("BEAT THE RIVALS", "Win a race against rivals",
            ObjectiveKind::WinRace, 500));
        objectives.push(objective("RANK UP", "Reach progression level 10",
            ObjectiveKind::ReachLevel { level: 10 }, 800));
        let r = CareerState { objectives, current_idx: 0, all_complete: false };
        assert forall|i: int| 0 <= i < LADDER_LEN implies {
            &&& (#[trigger] r.objectives@[i]).kind == ladder_kind(i)
            &&& r.objectives@[i].xp_reward == ladder_reward(i)
            &&& !r.objectives@[i].completed
            &&& r.objectives@[i].name@ == ladder_name(i)
            &&& r.objectives@[i].description@ == ladder_description(i)
        } by {
            if i == 0 {
            } else if i == 1 {
            } else if i == 2 {
            } else if i == 3 {
            } else if i == 4 {
            } else if i == 5 {
            } else if i == 6 {
            } else {
            }
        }
        r
    }
}

/// The objective the HUD shows while the career is under way: the current
/// one, or the last one when the index has run past the end.
pub open spec fn shown_index(c: &CareerState) -> int {
    if c.current_idx < c.objectives.len() { c.current_idx as int } else { c.objectives.len() - 1 }
}

impl CareerState {
    /// The two lines of the career HUD: "i/n: NAME" and the description, or
    /// the completion notice and an empty line. While the career runs, the
    /// ladder must not be empty.
    pub fn hud_lines(&self) -> (r: (String, String))
        requires
            !self.all_complete ==> self.objectives.len() > 0,
        ensures
            self.all_complete ==> r.0@ == "CAREER COMPLETE!"@ && r.1@ == Seq::<char>::empty(),
            !self.all_complete ==> {
                let i = shown_index(self);
                &&& r.0@ == decimal((i + 1) as nat) + "/"@ + decimal(self.objectives.len() as nat)
                    + ": "@ + self.objectives@[i].name@
                &&& r.1@ == self.objectives@[i].description@
            },
    {
        if self.all_complete {
            return (String::from_str("CAREER COMPLETE!"), String::new());
        }
        let total = self.objectives.len();
        let idx = if self.current_idx < total { self.current_idx } else { total - 1 };
        let mut line = String::new();
        append_decimal(&mut line, (idx + 1) as u64);
        line.append("/");
        append_decimal(&mut line, total as u64);
        line.append(": ");
        line.append(self.objectives[idx].name.as_str());
        (line, self.objectives[idx].description.clone())
    }
}

/// The career after one frame of evaluation, as a relation between the
/// state before (`c0`, `x0`, `e0`) and after (`c1`, `x1`, `e1`).
pub open spec fn career_step(
    c0: &CareerState, x0: XpState, e0: CareerEdges, obs: CareerObservation,
    c1: &CareerState, x1: XpState, e1: CareerEdges,
) -> bool {
    if c0.all_complete {
        &&& c1.objectives@ == c0.objectives@
        &&& c1.current_idx == c0.current_idx
        &&& c1.all_complete
        &&& x1 == x0
        &&& e1 == e0
    } else if c0.current_idx >= c0.objectives.len() {
        &&& c1.objectives@ == c0.objectives@
        &&& c1.current_idx == c0.current_idx
        &&& c1.all_complete
        &&& x1 == x0
        &&& e1 == e0
    } else {
        let idx = c0.current_idx as int;
        let obj = c0.objectives@[idx];
        let met = objective_met(obj.kind, obs, e0);
        &&& e1 == edges_after(obj.kind, obs, e0)
        &&& if met {
            &&& c1.objectives@ == c0.objectives@.update(idx, completed_objective(obj))
            &&& c1.current_idx == idx + 1
            &&& c1.all_complete == (idx + 1 >= c0.objectives.len())
            &&& x1.total_xp == clamp_add(x0.total_xp, obj.xp_reward as int)
            &&& x1.session_xp == clamp_add(x0.session_xp, obj.xp_reward as int)
            &&& x1.last_gain == x0.last_gain
        } else {
            &&& c1.objectives@ == c0.objectives@
            &&& c1.current_idx == c0.current_idx
            &&& c1.all_complete == c0.all_complete
            &&& x1 == x0
        }
    }
}


/// What each kind of objective asks, in terms of the observation alone:
/// a level, gem count, top speed or airtime objective is met exactly when
/// its own reading is present and reaches the objective's number, whatever
/// the other readings and the edge memory say; a course objective needs a
/// completion under the time that was not already seen last frame, and a
/// race objective a first place in a finished race not already seen.
pub proof fn lemma_objective_readings(kind: ObjectiveKind, obs: CareerObservation, e: CareerEdges)
    ensures
        kind matches ObjectiveKind::ReachLevel { level } ==>
            (objective_met(kind, obs, e) <==> (obs.level is Some && obs.level.unwrap() >= level)),
        kind matches ObjectiveKind::CollectGems { count } ==>
            (objective_met(kind, obs, e) <==> (obs.gems is Some && obs.gems.unwrap() >= count)),
        kind matches ObjectiveKind::TopSpeed { mph } ==>
            (objective_met(kind, obs, e) <==> (obs.top_speed_mph is Some && obs.top_speed_mph.unwrap() >= mph)),
        kind matches ObjectiveKind::Airtime { seconds } ==>
            (objective_met(kind, obs, e) <==> (obs.max_air_whole_s is Some && obs.max_air_whole_s.unwrap() >= seconds)),
        kind matches ObjectiveKind::CourseUnder { seconds } ==>
            (objective_met(kind, obs, e) <==> (!e.prev_course_completed && obs.course is Some
                && obs.course.unwrap().completed && obs.course.unwrap().run_time_whole_s < seconds)),
        kind is WinRace ==>
            (objective_met(kind, obs, e) <==> (!e.prev_race_finished && obs.race is Some
                && obs.race.unwrap().finished && obs.race.unwrap().player_first)),
{
}

/// A threshold objective depends on its own reading only: two observations
/// that agree on that reading (and any edge memories) give the same answer,
/// and a larger reading never turns a met objective into an unmet one.
pub proof fn lemma_objective_own_reading(
    kind: ObjectiveKind,
    o1: CareerObservation,
    o2: CareerObservation,
    e1: CareerEdges,
    e2: CareerEdges,
)
    ensures
        kind is TopSpeed && o1.top_speed_mph == o2.top_speed_mph ==>
            objective_met(kind, o1, e1) == objective_met(kind, o2, e2),
        kind is TopSpeed && o1.top_speed_mph is Some && o2.top_speed_mph is Some
            && o1.top_speed_mph.unwrap() <= o2.top_speed_mph.unwrap() && objective_met(kind, o1, e1) ==>
            objective_met(kind, o2, e2),
        kind is Airtime && o1.max_air_whole_s == o2.max_air_whole_s ==>
            objective_met(kind, o1, e1) == objective_met(kind, o2, e2),
        kind is CollectGems && o1.gems == o2.gems ==>
            objective_met(kind, o1, e1) == objective_met(kind, o2, e2),
        kind is ReachLevel && o1.level == o2.level ==>
            objective_met(kind, o1, e1) == objective_met(kind, o2, e2),
{
}

/// One frame on a top-speed rung: with a top speed at or above the rung's
/// number the rung is completed, its reward is added to both totals
/// (saturating) and the ladder moves on; below it, or with no reading,
/// nothing changes.
pub proof fn lemma_top_speed_frame(
    c0: &CareerState, x0: XpState, e0: CareerEdges, obs: CareerObservation,
    c1: &CareerState, x1: XpState, e1: CareerEdges, mph: u32,
)
    requires
        career_step(c0, x0, e0, obs, c1, x1, e1),
        !c0.all_complete,
        c0.current_idx < c0.objectives.len(),
        c0.objectives@[c0.current_idx as int].kind == (ObjectiveKind::TopSpeed { mph }),
    ensures
        (obs.top_speed_mph is Some && obs.top_speed_mph.unwrap() >= mph) ==> {
            &&& c1.current_idx == c0.current_idx + 1
            &&& c1.objectives@[c0.current_idx as int].completed
            &&& x1.total_xp == if x0.total_xp + c0.objectives@[c0.current_idx as int].xp_reward > u64::MAX {
                    u64::MAX as int
                } else {
                    x0.total_xp + c0.objectives@[c0.current_idx as int].xp_reward
                }
            &&& x1.session_xp == if x0.session_xp + c0.objectives@[c0.current_idx as int].xp_reward > u64::MAX {
                    u64::MAX as int
                } else {
                    x0.session_xp + c0.objectives@[c0.current_idx as int].xp_reward
                }
        },
        !(obs.top_speed_mph is Some && obs.top_speed_mph.unwrap() >= mph) ==> {
            &&& c1.current_idx == c0.current_idx
            &&& c1.objectives@ == c0.objectives@
            &&& x1 == x0
        },
{
}

/// The number an objective of this kind is measured against, if any.
pub open spec fn objective_number(kind: ObjectiveKind) -> Option<u32> {
    match kind {
        ObjectiveKind::CourseUnder { seconds } => Some(seconds),
        ObjectiveKind::WinRace => None,
        ObjectiveKind::CollectGems { count } => Some(count),
        ObjectiveKind::TopSpeed { mph } => Some(mph),
        ObjectiveKind::Airtime { seconds } => Some(seconds),
        ObjectiveKind::ReachLevel { level } => Some(level),
    }
}

/// Each rung's description states the number its objective is measured
/// against (the level, seconds, gem count or speed).
pub proof fn lemma_ladder_texts_state_number(i: int)
    requires
        0 <= i < LADDER_LEN,
    ensures
        objective_number(ladder_kind(i)) is Some ==>
            mentions(ladder_description(i), decimal(objective_number(ladder_kind(i)).unwrap() as nat)),
{
    reveal_with_fuel(decimal, 3);
    if i == 0 {
        reveal_strlit("Reach progression level 2");
        assert(ladder_description(i).subrange(24, 25) =~= decimal(2));
        lemma_mentions_at(ladder_description(i), decimal(2), 24);
    } else if i == 1 {
        reveal_strlit("Finish the course in under 90 seconds");
        assert(ladder_description(i).subrange(27, 29) =~= decimal(90));
        lemma_mentions_at(ladder_description(i), decimal(90), 27);
    } else if i == 2 {
        reveal_strlit("Collect 5 gems");
        assert(ladder_description(i).subrange(8, 9) =~= decimal(5));
        lemma_mentions_at(ladder_description(i), decimal(5), 8);
    } else if i == 3 {
        reveal_strlit("Hit a top speed of 50 mph");
        assert(ladder_description(i).subrange(19, 21) =~= decimal(50));
        lemma_mentions_at(ladder_description(i), decimal(50), 19);
    } else if i == 4 {
        reveal_strlit("Get airborne for 2 seconds in a single jump");
        assert(ladder_description(i).subrange(17, 18) =~= decimal(2));
        lemma_mentions_at(ladder_description(i), decimal(2), 17);
    } else if i == 5 {
        reveal_strlit("Finish the course in under 60 seconds");
        assert(ladder_description(i).subrange(27, 29) =~= decimal(60));
        lemma_mentions_at(ladder_description(i), decimal(60), 27);
    } else if i == 7 {
        reveal_strlit("Reach progression level 10");
        assert(ladder_description(i).subrange(24, 26) =~= decimal(10));
        lemma_mentions_at(ladder_description(i), decimal(10), 24);
    }
}

/// The ladder only moves forward: one frame advances by at most one rung,
/// changes no objective but the current one, never un-completes the
/// career, and never takes XP away.
pub proof fn lemma_career_forward(
    c0: &CareerState, x0: XpState, e0: CareerEdges, obs: CareerObservation,
    c1: &CareerState, x1: XpState, e1: CareerEdges,
)
    requires
        career_step(c0, x0, e0, obs, c1, x1, e1),
    ensures
        c0.current_idx <= c1.current_idx <= c0.current_idx + 1,
        c1.objectives@.len() == c0.objectives@.len(),
        forall|i: int| 0 <= i < c0.objectives@.len() && i != c0.current_idx
            ==> #[trigger] c1.objectives@[i] == c0.objectives@[i],
        c0.all_complete ==> c1.all_complete,
        x1.total_xp >= x0.total_xp,
        x1.session_xp >= x0.session_xp,
{
}

/// An objective's reward is paid in the frame it is met, and the next frame
/// looks at the following objective: an objective is paid at most once.
pub proof fn lemma_reward_once(
    c0: &CareerState, x0: XpState, e0: CareerEdges, obs: CareerObservation,
    c1: &CareerState, x1: XpState, e1: CareerEdges,
)
    requires
        career_step(c0, x0, e0, obs, c1, x1, e1),
        !c0.all_complete,
        c0.current_idx < c0.objectives.len(),
        x1 != x0,
    ensures
        c1.current_idx == c0.current_idx + 1,
        c1.objectives@[c0.current_idx as int].completed,
{
}

fn check_objective(kind: ObjectiveKind, obs: &CareerObservation, edges: &mut CareerEdges) -> (met: bool)
    ensures
        met == objective_met(kind, *obs, *old(edges)),
        *final(edges) == edges_after(kind, *obs, *old(edges)),
{
    match kind {
        ObjectiveKind::ReachLevel { level } => match obs.level {
            Some(l) => l >= level,
            None => false,
        },
        ObjectiveKind::CourseUnder { seconds } => {
            let now = match obs.course {
                Some(c) => c.completed && c.run_time_whole_s < seconds,
                None => false,
            };
            let rising = now && !edges.prev_course_completed;
            edges.prev_course_completed = match obs.course {
                Some(c) => c.completed,
                None => false,
            };
            rising
        },
        ObjectiveKind::WinRace => {
            let won = match obs.race {
                Some(r) => r.finished && r.player_first,
                None => false,
            };
            let rising = won && !edges.prev_race_finished;
            edges.prev_race_finished = match obs.race {
                Some(r) => r.finished,
                None => false,
            };
            rising
        },
        ObjectiveKind::CollectGems { count } => match obs.gems {
            Some(g) => g >= count,
            None => false,
        },
        ObjectiveKind::TopSpeed { mph } => match obs.top_speed_mph {
            Some(s) => s >= mph,
            None => false,
        },
        ObjectiveKind::Airtime { seconds } => match obs.max_air_whole_s {
            Some(a) => a >= seconds,
            None => false,
        },
    }
}

/// One frame of the career: checks the current objective against what the
/// game reports and, when it is met, marks it complete, pays its reward
/// and moves on to the next one.
pub fn evaluate_career(
    career: &mut CareerState,
    xp: &mut XpState,
    obs: &CareerObservation,
    edges: &mut CareerEdges,
)
    ensures
        career_step(&*old(career), *old(xp), *old(edges), *obs, &*final(career), *final(xp), *final(edges)),
{
    if career.all_complete {
        return;
    }
    let idx = career.current_idx;
    if idx >= career.objectives.len() {
        career.all_complete = true;
        return;
    }
    let kind = career.objectives[idx].kind;
    let xp_reward = career.objectives[idx].xp_reward;
    let met = check_objective(kind, obs, edges);
    if met {
        let mut obj = career.objectives.remove(idx);
        obj.completed = true;
        career.objectives.insert(idx, obj);
        proof {
            assert(career.objectives@ =~= old(career).objectives@.update(
                idx as int,
                completed_objective(old(career).objectives@[idx as int]),
            ));
        }
        xp.add_reward(xp_reward);
        career.current_idx = idx + 1;
        if career.current_idx >= career.objectives.len() {
            career.all_complete = true;
        }
    }
}

} // verus!

use skoffroad::xp::{format_xp, popup_text, XpState, XpCursor, GameEventKind, event_delta};
use skoffroad::career::{
    CareerState, CareerObservation, CareerEdges, CourseObservation, RaceObservation,
    ObjectiveKind, evaluate_career,
};
use skoffroad::daily::{build_daily_challenge, DailyKind, DailyStats};
use skoffroad::challenges::{kind_description, challenge_kind, ChallengesState, CHALLENGE_REWARD_XP};
use skoffroad::drift::{DriftMeterState, DriftMemory, DriftTier};

fn no_obs() -> CareerObservation {
    CareerObservation {
        level: None,
        course: None,
        race: None,
        gems: None,
        top_speed_mph: None,
        max_air_whole_s: None,
    }
}

#[test]
fn format_xp_groups_thousands() {
    assert_eq!(format_xp(12450), "12,450");
    assert_eq!(format_xp(0), "0");
    assert_eq!(format_xp(999), "999");
    assert_eq!(format_xp(1000), "1,000");
    assert_eq!(format_xp(1234567), "1,234,567");
    assert_eq!(format_xp(u64::MAX), "18,446,744,073,709,551,615");
}

#[test]
fn format_xp_without_commas_is_decimal() {
    for n in [0u64, 7, 42, 1000, 65536, 987654321, u64::MAX] {
        assert_eq!(format_xp(n).replace(',', ""), n.to_string());
    }
}

#[test]
fn apply_delta_saturates_both_ways() {
    let mut s = XpState::new();
    s.apply_delta(-10);
    assert_eq!((s.total_xp, s.session_xp, s.last_gain), (0, 0, -10));
    s.apply_delta(50);
    assert_eq!((s.total_xp, s.session_xp, s.last_gain), (50, 50, 50));
    s.total_xp = u64::MAX - 5;
    s.apply_delta(100);
    assert_eq!(s.total_xp, u64::MAX);
    assert_eq!(s.session_xp, 150);
}

#[test]
fn award_pays_each_event_once() {
    let mut s = XpState::new();
    let mut c = XpCursor::new();
    let log = vec![GameEventKind::DistanceMilestone, GameEventKind::HardImpact, GameEventKind::Airtime];
    c.award(&mut s, Some(&log), Some(2), None, Some(1));
    // 50 - 10 + 30 events, two wheelies of 40, one waypoint of 100
    assert_eq!(s.total_xp, 50 - 10 + 30 + 80 + 100);
    let after = s;
    c.award(&mut s, Some(&log), Some(2), None, Some(1));
    assert_eq!(s, after);
    assert_eq!(c.processed, 3);
}

#[test]
fn event_deltas_match_table() {
    assert_eq!(event_delta(GameEventKind::DistanceMilestone), 50);
    assert_eq!(event_delta(GameEventKind::SpeedMilestone), 20);
    assert_eq!(event_delta(GameEventKind::HardImpact), -10);
    assert_eq!(event_delta(GameEventKind::BigTilt), -5);
    assert_eq!(event_delta(GameEventKind::BrakeStop), 10);
    assert_eq!(event_delta(GameEventKind::Airtime), 30);
}

#[test]
fn career_ladder_is_standard() {
    let c = CareerState::with_objectives();
    assert_eq!(c.objectives.len(), 8);
    assert_eq!(c.objectives[0].name, "FIRST DRIVE");
    assert_eq!(c.objectives[0].kind, ObjectiveKind::ReachLevel { level: 2 });
    assert_eq!(c.objectives[6].kind, ObjectiveKind::WinRace);
    assert_eq!(c.objectives[7].xp_reward, 800);
    assert_eq!(c.objectives[4].description, "Get airborne for 2 seconds in a single jump");
    assert_eq!(c.current_idx, 0);
    assert!(!c.all_complete);
}

#[test]
fn career_advances_and_pays() {
    let mut c = CareerState::with_objectives();
    let mut xp = XpState::new();
    let mut edges = CareerEdges { prev_course_completed: false, prev_race_finished: false };
    let mut obs = no_obs();
    evaluate_career(&mut c, &mut xp, &obs, &mut edges);
    assert_eq!(c.current_idx, 0);
    obs.level = Some(2);
    evaluate_career(&mut c, &mut xp, &obs, &mut edges);
    assert_eq!(c.current_idx, 1);
    assert!(c.objectives[0].completed);
    assert_eq!(xp.total_xp, 100);
    assert_eq!(xp.session_xp, 100);
    assert_eq!(xp.last_gain, 0);
}

#[test]
fn career_course_needs_a_fresh_completion() {
    let mut c = CareerState::with_objectives();
    c.current_idx = 1; // QUICK COURSE: under 90 s
    let mut xp = XpState::new();
    let mut edges = CareerEdges { prev_course_completed: true, prev_race_finished: false };
    let mut obs = no_obs();
    obs.course = Some(CourseObservation { completed: true, run_time_whole_s: 80 });
    evaluate_career(&mut c, &mut xp, &obs, &mut edges);
    assert_eq!(c.current_idx, 1, "a completion seen last frame is no rising edge");
    obs.course = Some(CourseObservation { completed: false, run_time_whole_s: 0 });
    evaluate_career(&mut c, &mut xp, &obs, &mut edges);
    assert!(!edges.prev_course_completed);
    obs.course = Some(CourseObservation { completed: true, run_time_whole_s: 90 });
    evaluate_career(&mut c, &mut xp, &obs, &mut edges);
    assert_eq!(c.current_idx, 1, "90 s is not under 90 s");
    obs.course = Some(CourseObservation { completed: false, run_time_whole_s: 0 });
    evaluate_career(&mut c, &mut xp, &obs, &mut edges);
    obs.course = Some(CourseObservation { completed: true, run_time_whole_s: 89 });
    evaluate_career(&mut c, &mut xp, &obs, &mut edges);
    assert_eq!(c.current_idx, 2);
    assert_eq!(xp.total_xp, 200);
}

#[test]
fn career_race_win_and_completion() {
    let mut c = CareerState::with_objectives();
    c.current_idx = 6;
    let mut xp = XpState::new();
    let mut edges = CareerEdges { prev_course_completed: false, prev_race_finished: false };
    let mut obs = no_obs();
    obs.race = Some(RaceObservation { finished: true, player_first: false });
    evaluate_career(&mut c, &mut xp, &obs, &mut edges);
    assert_eq!(c.current_idx, 6);
    assert!(edges.prev_race_finished);
    obs.race = Some(RaceObservation { finished: false, player_first: true });
    evaluate_career(&mut c, &mut xp, &obs, &mut edges);
    obs.race = Some(RaceObservation { finished: true, player_first: true });
    evaluate_career(&mut c, &mut xp, &obs, &mut edges);
    assert_eq!(c.current_idx, 7);
    obs.level = Some(10);
    evaluate_career(&mut c, &mut xp, &obs, &mut edges);
    assert_eq!(c.current_idx, 8);
    assert!(c.all_complete);
    assert_eq!(xp.total_xp, 500 + 800);
    let before = xp;
    evaluate_career(&mut c, &mut xp, &obs, &mut edges);
    assert_eq!(xp, before);
}

#[test]
fn daily_picks_challenge_by_day() {
    let d = build_daily_challenge(0);
    assert_eq!(d.today_seed, 0);
    assert_eq!(d.challenge.kind, DailyKind::DriveDistanceKm);
    assert_eq!(d.challenge.name, "Drive 5 km");
    assert_eq!(d.challenge.target, 5);
    assert_eq!(d.challenge.xp_reward, 500);
    let d = build_daily_challenge(86400 * 3 + 86399);
    assert_eq!(d.today_seed, 3);
    assert_eq!(d.challenge.kind, DailyKind::CollectGems);
    assert_eq!(d.challenge.xp_reward, 350);
    let d = build_daily_challenge(86400 * 9);
    assert_eq!(d.challenge.kind, DailyKind::DoWheelies);
    assert_eq!(build_daily_challenge(86400 * 14).challenge.kind, build_daily_challenge(86400 * 9).challenge.kind);
}

#[test]
fn daily_completes_once() {
    let mut d = build_daily_challenge(86400 * 2); // reach 70 mph, 300 XP
    let mut xp = XpState::new();
    let stats = DailyStats { distance_km: 9, total_air_s: 0, top_speed_mph: 69, gems: 0, wheelies: 0 };
    d.track_progress(&stats);
    assert_eq!(d.progress_whole, 69);
    assert!(!d.complete_check(&mut xp));
    let stats = DailyStats { top_speed_mph: 70, ..stats };
    d.track_progress(&stats);
    assert!(d.complete_check(&mut xp));
    assert_eq!((xp.total_xp, xp.session_xp, xp.last_gain), (300, 300, 300));
    assert!(d.completed_today);
    assert!(!d.complete_check(&mut xp));
    let stats = DailyStats { top_speed_mph: 5, ..stats };
    d.track_progress(&stats);
    assert_eq!(d.progress_whole, 70);
    assert_eq!(xp.total_xp, 300);
}

#[test]
fn challenge_texts_and_kinds() {
    assert_eq!(kind_description(0), "Reach 60 mph");
    assert_eq!(kind_description(1), "1.5s air in one jump");
    assert_eq!(kind_description(4), "Hit 80 mph");
    assert_eq!(kind_description(5), "Unknown");
    assert_eq!(challenge_kind(0), 0);
    assert_eq!(challenge_kind(13), 3);
    assert_eq!(challenge_kind(u32::MAX), u32::MAX % 5);
}

#[test]
fn challenge_pays_once_and_times_out() {
    let mut ch = ChallengesState::new();
    let mut xp = XpState::new();
    assert!(!ch.track(&mut xp, true, false), "no run, no reward");
    ch.start(2);
    assert!(!ch.track(&mut xp, false, false));
    assert!(ch.track(&mut xp, true, false));
    assert_eq!(xp.total_xp, CHALLENGE_REWARD_XP as u64);
    assert_eq!(xp.last_gain, 150);
    assert!(!ch.track(&mut xp, true, false));
    assert!(ch.active);
    assert!(!ch.track(&mut xp, true, true));
    assert!(!ch.active);
    assert_eq!(xp.total_xp, 150);
}

#[test]
fn drift_pays_on_clean_end() {
    let mut d = DriftMeterState::new();
    let mut mem = DriftMemory { was_drifting: false, last_log_len: 0 };
    let mut xp = XpState::new();
    let log: Vec<GameEventKind> = Vec::new();
    d.tick(true, 40);
    assert_eq!(d.check_drift_end(&mut mem, Some(&log), &mut xp), None);
    d.tick(true, 30);
    assert_eq!(d.current_score, 70);
    assert_eq!(d.check_drift_end(&mut mem, Some(&log), &mut xp), None);
    d.tick(false, 0);
    assert_eq!(d.check_drift_end(&mut mem, Some(&log), &mut xp), Some(70));
    assert_eq!(d.current_score, 0);
    assert_eq!((xp.total_xp, xp.last_gain), (70, 70));
}

#[test]
fn drift_small_score_pays_nothing() {
    let mut d = DriftMeterState::new();
    let mut mem = DriftMemory { was_drifting: false, last_log_len: 0 };
    let mut xp = XpState::new();
    d.tick(true, 50);
    d.check_drift_end(&mut mem, None, &mut xp);
    d.tick(false, 0);
    assert_eq!(d.check_drift_end(&mut mem, None, &mut xp), None);
    assert_eq!(d.current_score, 0);
    assert_eq!(xp.total_xp, 0);
}

#[test]
fn drift_impact_wipes_meter() {
    let mut d = DriftMeterState::new();
    let mut mem = DriftMemory { was_drifting: false, last_log_len: 1 };
    let mut xp = XpState::new();
    let mut log = vec![GameEventKind::HardImpact];
    d.tick(true, 500);
    d.check_drift_end(&mut mem, Some(&log), &mut xp);
    assert_eq!(d.current_score, 500, "the impact was already seen");
    log.push(GameEventKind::BrakeStop);
    log.push(GameEventKind::HardImpact);
    d.check_drift_end(&mut mem, Some(&log), &mut xp);
    assert_eq!(d.current_score, 0);
    assert!(!d.drift_active);
    assert_eq!(mem.last_log_len, 3);
    assert_eq!(xp.total_xp, 0);
}

#[test]
fn drift_hud_tiers_and_label() {
    let mut d = DriftMeterState::new();
    assert_eq!(d.tier(), DriftTier::Green);
    d.current_score = 100;
    assert_eq!(d.tier(), DriftTier::Yellow);
    d.current_score = 599;
    assert_eq!(d.tier(), DriftTier::Orange);
    d.current_score = 600;
    assert_eq!(d.tier(), DriftTier::Red);
    assert_eq!(d.label(), "DRIFT 600");
    assert!(d.hud_visible(false));
    d.current_score = 0;
    assert!(!d.hud_visible(false));
    assert!(d.hud_visible(true));
}

#[test]
fn drift_tick_saturates() {
    let mut d = DriftMeterState::new();
    d.tick(true, u32::MAX - 1);
    d.tick(true, 10);
    assert_eq!(d.current_score, u32::MAX);
    d.tick(false, 10);
    assert!(!d.drift_active);
    assert_eq!(d.current_score, u32::MAX);
}

#[test]
fn xp_popup_texts() {
    assert_eq!(popup_text(30).as_deref(), Some("+30 XP"));
    assert_eq!(popup_text(-10).as_deref(), Some("-10 XP"));
    assert_eq!(popup_text(0), None);
    assert_eq!(popup_text(i32::MAX).as_deref(), Some("+2147483647 XP"));
    assert_eq!(popup_text(i32::MIN).as_deref(), Some("-2147483648 XP"));
}

#[test]
fn career_hud_lines() {
    let mut c = CareerState::with_objectives();
    let (a, b) = c.hud_lines();
    assert_eq!(a, "1/8: FIRST DRIVE");
    assert_eq!(b, "Reach progression level 2");
    c.current_idx = 7;
    assert_eq!(c.hud_lines().0, "8/8: RANK UP");
    c.current_idx = 8;
    assert_eq!(c.hud_lines().0, "8/8: RANK UP");
    c.all_complete = true;
    assert_eq!(c.hud_lines(), ("CAREER COMPLETE!".to_string(), String::new()));
}

#[test]
fn daily_name_line() {
    let mut d = build_daily_challenge(86400);
    assert_eq!(d.name_line(), "Total 15 s of airtime");
    d.completed_today = true;
    assert_eq!(d.name_line(), "[X] COMPLETE -- +400 XP");
}

#[test]
fn apply_delta_takes_every_delta() {
    let mut s = XpState::new();
    s.total_xp = 5;
    s.session_xp = 5;
    s.apply_delta(-10);
    assert_eq!((s.total_xp, s.session_xp, s.last_gain), (0, 0, -10));
    s.total_xp = 3_000_000_000;
    s.apply_delta(i32::MIN);
    assert_eq!(s.total_xp, 3_000_000_000 - 2_147_483_648);
    assert_eq!(s.session_xp, 0);
    assert_eq!(s.last_gain, i32::MIN);
}

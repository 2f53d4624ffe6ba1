use skoffroad::modes::{
    AssistsState, DiffLockState, DriveModeState, CameraModesState, CameraMode, AccessibilityState,
    MenuKeys, AxlePush, onoff, BloomPpState, PostFxAction, post_fx_step,
};
use skoffroad::overlays::{line_kind, LineKind, ChangelogState, CreditsState, OverlayAction};
use skoffroad::world::{CanyonState, CanyonAction, PathFollower, PuffQueue, MAX_PUFFS, compass_label, pillar_seed, cull_decals, MAX_DECALS, prop_count, GraphicsQuality};
use skoffroad::demolition::{DemolitionState, keep_placing};
use skoffroad::rng::{lcg_step, lcg_advance, lcg_pair, jitter_bits, flock_bits, scatter_hash, CrateLcg};

#[test]
fn assists_cycle_through_four_modes() {
    let mut a = AssistsState::new();
    assert_eq!(a.label(), "ASSISTS: OFF");
    a.cycle();
    assert_eq!(a.label(), "ASSISTS: TC");
    a.cycle();
    assert_eq!(a.label(), "ASSISTS: AR");
    a.cycle();
    assert_eq!(a.label(), "ASSISTS: TC+AR");
    a.cycle();
    assert_eq!(a, AssistsState::new());
}

#[test]
fn diff_lock_cycle_and_names() {
    let mut d = DiffLockState::new();
    assert_eq!((d.name(), d.indicator()), ("OPEN", "DIFF: OPEN"));
    d.cycle();
    assert_eq!((d.name(), d.indicator()), ("REAR", "DIFF: REAR"));
    d.cycle();
    assert_eq!((d.name(), d.indicator()), ("FULL", "DIFF: FULL"));
    d.cycle();
    assert_eq!(d, DiffLockState::new());
    let mut odd = DiffLockState { front_locked: true, rear_locked: false };
    assert_eq!(odd.name(), "FRONT");
    assert_eq!(odd.indicator(), "DIFF: FULL");
    odd.cycle();
    assert_eq!(odd, DiffLockState::new());
}

#[test]
fn diff_lock_pushes_grounded_locked_axles() {
    let rear = DiffLockState { front_locked: false, rear_locked: true };
    let wheels = vec![(0u32, true), (1, true), (2, false), (3, true)];
    assert_eq!(rear.axle_push(true, &wheels), AxlePush { front: false, rear: true });
    assert_eq!(rear.axle_push(false, &wheels), AxlePush { front: false, rear: false });
    let full = DiffLockState { front_locked: true, rear_locked: true };
    let airborne_front = vec![(0u32, false), (1, false), (2, true), (3, false), (7, true)];
    assert_eq!(full.axle_push(true, &airborne_front), AxlePush { front: false, rear: true });
    assert_eq!(DiffLockState::new().axle_push(true, &wheels), AxlePush { front: false, rear: false });
}

#[test]
fn drive_mode_toggles() {
    let mut m = DriveModeState::new();
    assert_eq!(m.indicator(), "DRIVE: 4WD");
    assert!(!m.counter_force_applies(true));
    m.toggle();
    assert_eq!(m.indicator(), "DRIVE: 2WD");
    assert!(m.counter_force_applies(true));
    assert!(!m.counter_force_applies(false));
}

#[test]
fn camera_modes_cycle_through_five() {
    let mut c = CameraModesState::new();
    let labels = ["CAM: Chase", "CAM: Wheel FL", "CAM: Wheel FR", "CAM: First Person", "CAM: Free Orbit"];
    for l in labels {
        assert_eq!(c.label(), l);
        c.cycle();
    }
    assert_eq!(c.mode, CameraMode::Chase);
}

#[test]
fn accessibility_menu() {
    let mut a = AccessibilityState::new();
    let enter = MenuKeys { up: false, down: false, enter: true };
    let down = MenuKeys { up: false, down: true, enter: false };
    a.cycle_options(enter);
    assert!(!a.colorblind, "closed menu ignores keys");
    a.toggle();
    a.cycle_options(enter);
    assert!(a.colorblind);
    a.cycle_options(down);
    a.cycle_options(enter);
    assert!(a.reduce_motion);
    a.cycle_options(down);
    a.cycle_options(down);
    assert_eq!(a.selected_row, 2);
    assert_eq!(a.hud_scale_percent(), 100);
    a.cycle_options(enter);
    assert_eq!(a.hud_scale_percent(), 125);
    a.cycle_options(enter);
    assert_eq!(a.hud_scale_percent(), 150);
    a.cycle_options(enter);
    assert_eq!(a.hud_scale_percent(), 100);
    a.cycle_options(MenuKeys { up: true, down: false, enter: false });
    assert_eq!(a.selected_row, 1);
    assert_eq!(onoff(true), "ON");
    assert_eq!(onoff(false), "OFF");
}

#[test]
fn changelog_lines_and_keys() {
    assert_eq!(line_kind("--- v0.4.19 ---"), LineKind::Header);
    assert_eq!(line_kind(""), LineKind::Spacer);
    assert_eq!(line_kind("* Credits roll (K)"), LineKind::Body);
    assert_eq!(line_kind("--"), LineKind::Body);
    let mut c = ChangelogState::new();
    assert_eq!(c.handle_keys(false, true), OverlayAction::Unchanged);
    assert_eq!(c.handle_keys(true, true), OverlayAction::Unchanged);
    assert_eq!(c.handle_keys(true, false), OverlayAction::Toggled);
    assert!(c.open);
    c.scroll(40, true, false);
    assert_eq!(c.scroll_y, 30);
    for _ in 0..40 {
        c.scroll(40, true, false);
    }
    assert_eq!(c.scroll_y, 40 * 24 - 320);
    c.scroll(40, false, true);
    assert_eq!(c.scroll_y, 40 * 24 - 320 - 30);
    assert_eq!(c.handle_keys(false, true), OverlayAction::Closed);
    assert!(!c.open);
    assert_eq!(c.scroll_y, 0);
    c.scroll(40, true, false);
    assert_eq!(c.scroll_y, 0, "a closed panel does not scroll");
}

#[test]
fn changelog_short_content_never_scrolls() {
    let mut c = ChangelogState::new();
    c.handle_keys(true, false);
    c.scroll(10, true, false);
    assert_eq!(c.scroll_y, 0);
}

#[test]
fn credits_ignore_shift_k() {
    let mut c = CreditsState::new();
    assert_eq!(c.handle_keys(true, true, false), OverlayAction::Unchanged);
    assert_eq!(c.handle_keys(false, true, false), OverlayAction::Toggled);
    assert!(c.open);
    assert_eq!(c.handle_keys(false, false, true), OverlayAction::Closed);
    assert!(!c.open);
}

#[test]
fn canyon_spawns_once_per_visit() {
    let mut c = CanyonState::new();
    assert_eq!(c.step(false), CanyonAction::Nothing);
    assert_eq!(c.step(true), CanyonAction::Spawn);
    assert_eq!(c.step(true), CanyonAction::Nothing);
    assert_eq!(c.step(false), CanyonAction::Despawn);
    assert_eq!(c.step(false), CanyonAction::Nothing);
    assert_eq!(pillar_seed(3, 5), 3005);
}

#[test]
fn path_follower_counts_laps() {
    let mut f = PathFollower::new();
    f.advance(3, true);
    f.advance(3, false);
    assert_eq!((f.current_idx, f.lap), (1, 0));
    f.advance(3, true);
    f.advance(3, true);
    assert_eq!((f.current_idx, f.lap), (0, 1));
    f.advance(1, true);
    assert_eq!((f.current_idx, f.lap), (0, 1));
}

#[test]
fn puff_queue_keeps_newest() {
    let mut q = PuffQueue::new();
    for id in 0..MAX_PUFFS as u64 {
        assert!(q.push_capped(id).is_empty());
    }
    assert_eq!(q.push_capped(100), vec![0u64]);
    assert_eq!(q.ids.len(), MAX_PUFFS);
    assert_eq!(q.ids.front(), Some(&1));
    assert_eq!(q.ids.back(), Some(&100));
    q.retain_live(&vec![1, 5, 100, 999]);
    assert_eq!(q.ids.len(), MAX_PUFFS - 3);
    assert_eq!(q.ids.front(), Some(&2));
    assert!(!q.ids.contains(&5));
}

#[test]
fn compass_points() {
    assert_eq!(compass_label(0), "N");
    assert_eq!(compass_label(22), "N");
    assert_eq!(compass_label(23), "NE");
    assert_eq!(compass_label(90), "E");
    assert_eq!(compass_label(180), "S");
    assert_eq!(compass_label(225), "SW");
    assert_eq!(compass_label(270), "W");
    assert_eq!(compass_label(300), "NW");
    assert_eq!(compass_label(337), "NW");
    assert_eq!(compass_label(338), "N");
    assert_eq!(compass_label(360), "N");
}

#[test]
fn demolition_rounds() {
    let mut d = DemolitionState::new();
    assert!(d.toggle());
    d.set_placed(30);
    d.smash();
    d.smash();
    assert_eq!((d.score, d.crates_remaining), (200, 28));
    assert!(d.can_smash(true));
    assert!(!d.toggle());
    assert_eq!((d.score, d.crates_remaining), (0, 0));
    d.smash();
    assert_eq!((d.score, d.crates_remaining), (100, 0));
    assert!(keep_placing(29, 3999));
    assert!(!keep_placing(30, 0));
    assert!(!keep_placing(0, 4000));
}

#[test]
fn generators_match_reference_values() {
    assert_eq!(lcg_step(0), 1013904223);
    assert_eq!(lcg_step(1), 1015568748);
    assert_eq!(lcg_step(u32::MAX), 1013904223u32.wrapping_sub(1664525));
    let mut s = 0u32;
    assert_eq!(lcg_advance(&mut s), 1013904223);
    assert_eq!(s, 1013904223);
    assert_eq!(lcg_advance(&mut s), 1013904223u32.wrapping_mul(1664525).wrapping_add(1013904223));
    let mixed = 3u32.wrapping_mul(374761393).wrapping_add(2u32.wrapping_mul(668265263));
    assert_eq!(lcg_pair(3, 2), lcg_step(mixed));
    let mut c = CrateLcg::new(0xDE10_5EED);
    let expect = ((0xDE10_5EEDu64.wrapping_mul(1_664_525).wrapping_add(1_013_904_223)) & 0xFFFF_FFFF) as u32;
    assert_eq!(c.next_u32(), expect);
}

fn reference_jitter(i: u32) -> u32 {
    let mut v = i.wrapping_mul(2654435761).wrapping_add(0xDEAD);
    v ^= v >> 16;
    v = v.wrapping_mul(0x45d9f3b);
    v ^= v >> 16;
    v
}

fn reference_flock(seed: u32) -> u32 {
    let mut v = seed.wrapping_mul(1664525).wrapping_add(1013904223);
    v ^= v >> 16;
    v = v.wrapping_mul(0x45d9f3b);
    v ^= v >> 16;
    v
}

fn reference_scatter(a: i32, b: i32, salt: u32) -> u32 {
    let mut v = (a as u32).wrapping_mul(374761393).wrapping_add((b as u32).wrapping_mul(668265263)).wrapping_add(salt);
    v ^= v >> 13;
    v = v.wrapping_mul(1274126177);
    v ^= v >> 16;
    v
}

#[test]
fn hashes_match_wrapping_reference() {
    for i in [0u32, 1, 77, 12345, u32::MAX] {
        assert_eq!(jitter_bits(i), reference_jitter(i));
        assert_eq!(flock_bits(i), reference_flock(i));
    }
    for (a, b, salt) in [(0, 0, 0u32), (-5, 7, 3), (i32::MIN, i32::MAX, u32::MAX), (100, -100, 42)] {
        assert_eq!(scatter_hash(a, b, salt), reference_scatter(a, b, salt));
    }
    assert_eq!(scatter_hash(0, 0, 2), 2548279585);
    let upper = (0..64u32).filter(|s| scatter_hash(3, -7, *s) >= 0x8000_0000).count();
    assert!(upper > 0, "the hash reaches the upper half of its range");
}

#[test]
fn prop_counts_by_tier() {
    assert_eq!(prop_count(GraphicsQuality::Low, 5), 3);
    assert_eq!(prop_count(GraphicsQuality::Low, 4), 2);
    assert_eq!(prop_count(GraphicsQuality::Low, 1), 1);
    assert_eq!(prop_count(GraphicsQuality::Low, 0), 1);
    assert_eq!(prop_count(GraphicsQuality::Medium, 7), 7);
    assert_eq!(prop_count(GraphicsQuality::High, 5), 8);
    assert_eq!(prop_count(GraphicsQuality::High, 4), 6);
    for n in 0..200usize {
        for (q, m) in [(GraphicsQuality::Low, 0.5f32), (GraphicsQuality::Medium, 1.0), (GraphicsQuality::High, 1.5)] {
            assert_eq!(prop_count(q, n), ((n as f32 * m).round() as usize).max(1));
        }
    }
}

#[test]
fn accessibility_row_texts() {
    let mut a = AccessibilityState::new();
    assert_eq!(a.row_text(0), "> Colorblind mode: OFF");
    assert_eq!(a.row_text(1), "  Reduce motion: OFF");
    assert_eq!(a.row_text(2), "  HUD scale: 1.00x");
    a.toggle();
    a.cycle_options(MenuKeys { up: false, down: true, enter: true });
    assert_eq!(a.row_text(1), "> Reduce motion: ON");
    a.cycle_options(MenuKeys { up: false, down: true, enter: true });
    assert_eq!(a.row_text(2), "> HUD scale: 1.25x");
    a.cycle_options(MenuKeys { up: false, down: false, enter: true });
    assert_eq!(a.row_text(2), "> HUD scale: 1.50x");
}

#[test]
fn bloom_toggle_and_apply() {
    let mut b = BloomPpState::new();
    b.handle_keys(true, true, false);
    assert!(b.enabled);
    b.handle_keys(true, false, false);
    assert!(!b.enabled);
    let mut last = None;
    assert_eq!(post_fx_step(&mut last, true, true, false), PostFxAction::Nothing);
    assert_eq!(last, Some(true));
    assert_eq!(post_fx_step(&mut last, true, true, true), PostFxAction::Nothing);
    assert_eq!(post_fx_step(&mut last, false, true, true), PostFxAction::RemoveBloom);
    assert_eq!(post_fx_step(&mut last, true, true, true), PostFxAction::InsertBloom);
    let mut fresh = None;
    assert_eq!(post_fx_step(&mut fresh, true, false, true), PostFxAction::RemoveBloom);
}

#[test]
fn decal_cull_removes_faded_then_oldest() {
    let (plan, n) = cull_decals(&vec![true, false, false]);
    assert_eq!(plan, vec![true, false, false]);
    assert_eq!(n, 1);
    let total = MAX_DECALS as usize + 3;
    let mut faded = vec![false; total];
    faded[1] = true;
    let (plan, n) = cull_decals(&faded);
    assert_eq!(n, 3);
    assert_eq!(&plan[0..4], &[true, true, true, false]);
    assert!(plan[4..].iter().all(|c| !c));
}

#[test]
fn demolition_stats_text() {
    let mut d = DemolitionState::new();
    d.toggle();
    d.set_placed(30);
    d.smash();
    assert_eq!(d.stats_text(), "Score: 100  Crates: 29/30");
}

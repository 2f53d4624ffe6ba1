use vstd::prelude::*;

verus! {

// ---- Driver assists ----------------------------------------------------------

/// Driver assists: traction control and auto-righting.
#[derive(Clone, Copy, Debug, PartialEq, Eq, Structural)]
pub struct AssistsState {
    pub traction_control: bool,
    pub auto_right: bool,
}

/// Off -> TC -> AR -> TC+AR -> Off.
pub open spec fn assists_next(s: AssistsState) -> AssistsState {
    match (s.traction_control, s.auto_right) {
        (false, false) => AssistsState { traction_control: true, auto_right: false },
        (true, false) => AssistsState { traction_control: false, auto_right: true },
        (false, true) => AssistsState { traction_control: true, auto_right: true },
        (true, true) => AssistsState { traction_control: false, auto_right: false },
    }
}

pub open spec fn spec_assists_label(s: AssistsState) -> Seq<char> {
    match (s.traction_control, s.auto_right) {
        (true, true) => "ASSISTS: TC+AR"@,
        (true, false) => "ASSISTS: TC"@,
        (false, true) => "ASSISTS: AR"@,
        (false, false) => "ASSISTS: OFF"@,
    }
}

impl AssistsState {
    pub fn new() -> (r: AssistsState)
        ensures
            r == (AssistsState { traction_control: false, auto_right: false }),
    {
        AssistsState { traction_control: false, auto_right: false }
    }

    /// The Y key: steps to the next assist mode.
    pub fn cycle(&mut self)
        ensures
            *final(self) == assists_next(*old(self)),
    {
        let next = match (self.traction_control, self.auto_right) {
            (false, false) => (true, false),
            (true, false) => (false, true),
            (false, true) => (true, true),
            (true, true) => (false, false),
        };
        self.traction_control = next.0;
        self.auto_right = next.1;
    }

    /// The HUD text for the current mode.
    pub fn label(&self) -> (r: &'static str)
        ensures
            r@ == spec_assists_label(*self),
    {
        match (self.traction_control, self.auto_right) {
            (true, true) => "ASSISTS: TC+AR",
            (true, false) => "ASSISTS: TC",
            (false, true) => "ASSISTS: AR",
            (false, false) => "ASSISTS: OFF",
        }
    }
}

/// Four presses of the assists key bring every mode back to itself, and no
/// fewer do.
pub proof fn lemma_assists_cycle(s: AssistsState)
    ensures
        assists_next(assists_next(assists_next(assists_next(s)))) == s,
        assists_next(s) != s,
        assists_next(assists_next(s)) != s,
        assists_next(assists_next(assists_next(s))) != s,
{
}

// ---- Differential locks --------------------------------------------------------

/// Which axles have their differential locked.
#[derive(Clone, Copy, Debug, PartialEq, Eq, Structural)]
pub struct DiffLockState {
    pub front_locked: bool,
    pub rear_locked: bool,
}

/// OPEN -> REAR -> FULL -> OPEN; any other state resets to OPEN.
pub open spec fn diff_next(s: DiffLockState) -> DiffLockState {
    match (s.front_locked, s.rear_locked) {
        (false, false) => DiffLockState { front_locked: false, rear_locked: true },
        (false, true) => DiffLockState { front_locked: true, rear_locked: true },
        _ => DiffLockState { front_locked: false, rear_locked: false },
    }
}

pub open spec fn spec_diff_name(s: DiffLockState) -> Seq<char> {
    match (s.front_locked, s.rear_locked) {
        (false, false) => "OPEN"@,
        (false, true) => "REAR"@,
        (true, true) => "FULL"@,
        (true, false) => "FRONT"@,
    }
}

pub open spec fn spec_diff_indicator(s: DiffLockState) -> Seq<char> {
    match (s.front_locked, s.rear_locked) {
        (false, false) => "DIFF: OPEN"@,
        (false, true) => "DIFF: REAR"@,
        _ => "DIFF: FULL"@,
    }
}

/// Which locked axles get the extra push, given which of their wheels
/// touch the ground (wheels 0 and 1 are the front axle, 2 and 3 the rear).
#[derive(Clone, Copy, Debug, PartialEq, Eq, Structural)]
pub struct AxlePush {
    pub front: bool,
    pub rear: bool,
}

impl DiffLockState {
    pub fn new() -> (r: DiffLockState)
        ensures
            r == (DiffLockState { front_locked: false, rear_locked: false }),
    {
        DiffLockState { front_locked: false, rear_locked: false }
    }

    /// The J key: steps to the next lock setting.
    pub fn cycle(&mut self)
        ensures
            *final(self) == diff_next(*old(self)),
    {
        *self = match (self.front_locked, self.rear_locked) {
            (false, false) => DiffLockState { front_locked: false, rear_locked: true },
            (false, true) => DiffLockState { front_locked: true, rear_locked: true },
            _ => DiffLockState { front_locked: false, rear_locked: false },
        };
    }

    /// The name of the setting, as logged.
    pub fn name(&self) -> (r: &'static str)
        ensures
            r@ == spec_diff_name(*self),
    {
        match (self.front_locked, self.rear_locked) {
            (false, false) => "OPEN",
            (false, true) => "REAR",
            (true, true) => "FULL",
            (true, false) => "FRONT",
        }
    }

    /// The HUD text for the setting.
    pub fn indicator(&self) -> (r: &'static str)
        ensures
            r@ == spec_diff_indicator(*self),
    {
        match (self.front_locked, self.rear_locked) {
            (false, false) => "DIFF: OPEN",
            (false, true) => "DIFF: REAR",
            _ => "DIFF: FULL",
        }
    }

    /// Which axles receive extra drive force: a locked axle with at least
    /// one grounded wheel, and only while the throttle is applied.
    pub fn axle_push(&self, throttle: bool, wheels: &Vec<(u32, bool)>) -> (r: AxlePush)
        ensures
            r.front == (throttle && self.front_locked
                && exists|i: int| 0 <= i < wheels.len() && (#[trigger] wheels@[i]).1
                    && (wheels@[i].0 == 0 || wheels@[i].0 == 1)),
            r.rear == (throttle && self.rear_locked
                && exists|i: int| 0 <= i < wheels.len() && (#[trigger] wheels@[i]).1
                    && (wheels@[i].0 == 2 || wheels@[i].0 == 3)),
    {
        if !self.front_locked && !self.rear_locked {
            return AxlePush { front: false, rear: false };
        }
        if !throttle {
            return AxlePush { front: false, rear: false };
        }
        let mut front_any = false;
        let mut rear_any = false;
        let mut i: usize = 0;
        while i < wheels.len()
            invariant
                i <= wheels.len(),
                front_any == exists|j: int| 0 <= j < i && (#[trigger] wheels@[j]).1
                    && (wheels@[j].0 == 0 || wheels@[j].0 == 1),
                rear_any == exists|j: int| 0 <= j < i && (#[trigger] wheels@[j]).1
                    && (wheels@[j].0 == 2 || wheels@[j].0 == 3),
            decreases wheels.len() - i,
        {
            let (index, grounded) = wheels[i];
            if index == 0 || index == 1 {
                if grounded {
                    front_any = true;
                }
            } else if index == 2 || index == 3 {
                if grounded {
                    rear_any = true;
                }
            }
            i = i + 1;
        }
        AxlePush { front: self.front_locked && front_any, rear: self.rear_locked && rear_any }
    }
}

/// From OPEN, three presses of the lock key come back to OPEN, passing
/// through REAR and FULL; a state off the cycle rejoins it at OPEN.
pub proof fn lemma_diff_cycle(s: DiffLockState)
    ensures
        s == (DiffLockState { front_locked: false, rear_locked: false }) ==> {
            &&& diff_next(s) == (DiffLockState { front_locked: false, rear_locked: true })
            &&& diff_next(diff_next(s)) == (DiffLockState { front_locked: true, rear_locked: true })
            &&& diff_next(diff_next(diff_next(s))) == s
        },
        s.front_locked && !s.rear_locked ==> diff_next(s) == (DiffLockState { front_locked: false, rear_locked: false }),
        !(s.front_locked && !s.rear_locked) ==> diff_next(diff_next(diff_next(s))) == s,
{
}

// ---- Drive mode ----------------------------------------------------------------

/// 4WD or rear-wheel drive.
#[derive(Clone, Copy, Debug, PartialEq, Eq, Structural)]
pub struct DriveModeState {
    pub four_wheel_drive: bool,
}

impl DriveModeState {
    /// The game starts in 4WD.
    pub fn new() -> (r: DriveModeState)
        ensures
            r.four_wheel_drive,
    {
        DriveModeState { four_wheel_drive: true }
    }

    /// The 4 key: switches between 4WD and 2WD.
    pub fn toggle(&mut self)
        ensures
            final(self).four_wheel_drive == !old(self).four_wheel_drive,
    {
        self.four_wheel_drive = !self.four_wheel_drive;
    }

    /// The HUD text.
    pub fn indicator(&self) -> (r: &'static str)
        ensures
            r@ == if self.four_wheel_drive { "DRIVE: 4WD"@ } else { "DRIVE: 2WD"@ },
    {
        if self.four_wheel_drive {
            "DRIVE: 4WD"
        } else {
            "DRIVE: 2WD"
        }
    }

    /// Whether the front-wheel counter-force applies: in 2WD under forward
    /// throttle.
    pub fn counter_force_applies(&self, forward_throttle: bool) -> (r: bool)
        ensures
            r == (!self.four_wheel_drive && forward_throttle),
    {
        !self.four_wheel_drive && forward_throttle
    }
}

// ---- Camera modes ----------------------------------------------------------------

#[derive(Clone, Copy, Debug, PartialEq, Eq, Structural)]
pub enum CameraMode {
    Chase,
    WheelFL,
    WheelFR,
    FirstPerson,
    FreeOrbit,
}

pub open spec fn camera_next(m: CameraMode) -> CameraMode {
    match m {
        CameraMode::Chase => CameraMode::WheelFL,
        CameraMode::WheelFL => CameraMode::WheelFR,
        CameraMode::WheelFR => CameraMode::FirstPerson,
        CameraMode::FirstPerson => CameraMode::FreeOrbit,
        CameraMode::FreeOrbit => CameraMode::Chase,
    }
}

pub open spec fn spec_camera_label(m: CameraMode) -> Seq<char> {
    match m {
        CameraMode::Chase => "CAM: Chase"@,
        CameraMode::WheelFL => "CAM: Wheel FL"@,
        CameraMode::WheelFR => "CAM: Wheel FR"@,
        CameraMode::FirstPerson => "CAM: First Person"@,
        CameraMode::FreeOrbit => "CAM: Free Orbit"@,
    }
}

/// The camera perspective in use.
#[derive(Clone, Copy, Debug, PartialEq, Eq, Structural)]
pub struct CameraModesState {
    pub mode: CameraMode,
}

impl CameraModesState {
    pub fn new() -> (r: CameraModesState)
        ensures
            r.mode == CameraMode::Chase,
    {
        CameraModesState { mode: CameraMode::Chase }
    }

    /// The V key: steps to the next perspective.
    pub fn cycle(&mut self)
        ensures
            final(self).mode == camera_next(old(self).mode),
    {
        self.mode = match self.mode {
            CameraMode::Chase => CameraMode::WheelFL,
            CameraMode::WheelFL => CameraMode::WheelFR,
            CameraMode::WheelFR => CameraMode::FirstPerson,
            CameraMode::FirstPerson => CameraMode::FreeOrbit,
            CameraMode::FreeOrbit => CameraMode::Chase,
        };
    }

    /// The HUD text.
    pub fn label(&self) -> (r: &'static str)
        ensures
            r@ == spec_camera_label(self.mode),
    {
        match self.mode {
            CameraMode::Chase => "CAM: Chase",
            CameraMode::WheelFL => "CAM: Wheel FL",
            CameraMode::WheelFR => "CAM: Wheel FR",
            CameraMode::FirstPerson => "CAM: First Person",
            CameraMode::FreeOrbit => "CAM: Free Orbit",
        }
    }
}

/// Five presses of the camera key bring every perspective back to itself,
/// and no fewer do.
pub proof fn lemma_camera_cycle(m: CameraMode)
    ensures
        camera_next(camera_next(camera_next(camera_next(camera_next(m))))) == m,
        camera_next(m) != m,
        camera_next(camera_next(m)) != m,
        camera_next(camera_next(camera_next(m))) != m,
        camera_next(camera_next(camera_next(camera_next(m)))) != m,
{
}

// ---- Accessibility ---------------------------------------------------------------

/// The number of HUD scale steps (1.00x, 1.25x, 1.50x).
pub const SCALE_STEP_COUNT: usize = 3;

/// Accessibility settings and the state of their menu. The HUD scale is
/// kept as a step index; `hud_scale_percent` gives its size.
#[derive(Clone, Copy, Debug, PartialEq, Eq, Structural)]
pub struct AccessibilityState {
    pub colorblind: bool,
    pub reduce_motion: bool,
    pub hud_scale_step: usize,
    pub selected_row: usize,
    pub open: bool,
}

/// The menu keys pressed in one frame.
#[derive(Clone, Copy, Debug, PartialEq, Eq, Structural)]
pub struct MenuKeys {
    pub up: bool,
    pub down: bool,
    pub enter: bool,
}

pub open spec fn spec_hud_scale_percent(step: usize) -> u32 {
    if step == 1 {
        125
    } else if step == 2 {
        150
    } else {
        100
    }
}

/// The step after `step`; an unknown step counts as the first.
pub open spec fn scale_next(step: usize) -> usize {
    if step < SCALE_STEP_COUNT {
        ((step + 1) % (SCALE_STEP_COUNT as int)) as usize
    } else {
        1
    }
}

/// The menu after one frame of key presses: Up and Down move the
/// selection within the three rows, Enter acts on the selected row.
pub open spec fn menu_step(s: AccessibilityState, k: MenuKeys) -> AccessibilityState {
    if !s.open {
        s
    } else {
        let r1 = if k.up { if s.selected_row == 0 { 0 } else { (s.selected_row - 1) as usize } } else { s.selected_row };
        let r2 = if k.down { if r1 + 1 <= 2 { (r1 + 1) as usize } else { 2 } } else { r1 };
        AccessibilityState {
            colorblind: if k.enter && r2 == 0 { !s.colorblind } else { s.colorblind },
            reduce_motion: if k.enter && r2 == 1 { !s.reduce_motion } else { s.reduce_motion },
            hud_scale_step: if k.enter && r2 == 2 { scale_next(s.hud_scale_step) } else { s.hud_scale_step },
            selected_row: r2,
            open: s.open,
        }
    }
}

impl AccessibilityState {
    pub open spec fn wf(self) -> bool {
        self.selected_row <= 2
    }

    pub fn new() -> (r: AccessibilityState)
        ensures
            r == (AccessibilityState {
                colorblind: false,
                reduce_motion: false,
                hud_scale_step: 0,
                selected_row: 0,
                open: false,
            }),
            r.wf(),
    {
        AccessibilityState { colorblind: false, reduce_motion: false, hud_scale_step: 0, selected_row: 0, open: false }
    }

    /// The 0 key: opens or closes the menu.
    pub fn toggle(&mut self)
        ensures
            *final(self) == (AccessibilityState { open: !old(self).open, ..*old(self) }),
    {
        self.open = !self.open;
    }

    /// One frame of menu input; nothing happens while the menu is closed.
    pub fn cycle_options(&mut self, keys: MenuKeys)
        requires
            old(self).wf(),
        ensures
            *final(self) == menu_step(*old(self), keys),
            final(self).wf(),
    {
        if !self.open {
            return;
        }
        if keys.up {
            self.selected_row = self.selected_row.saturating_sub(1);
        }
        if keys.down {
            let r = self.selected_row + 1;
            self.selected_row = if r < 2 { r } else { 2 };
        }
        if keys.enter {
            if self.selected_row == 0 {
                self.colorblind = !self.colorblind;
            } else if self.selected_row == 1 {
                self.reduce_motion = !self.reduce_motion;
            } else if self.selected_row == 2 {
                let cur = if self.hud_scale_step < SCALE_STEP_COUNT { self.hud_scale_step } else { 0 };
                self.hud_scale_step = (cur + 1) % SCALE_STEP_COUNT;
            }
        }
    }

    /// The HUD size in percent for the current scale step.
    pub fn hud_scale_percent(&self) -> (r: u32)
        ensures
            r == spec_hud_scale_percent(self.hud_scale_step),
    {
        if self.hud_scale_step == 1 {
            125
        } else if self.hud_scale_step == 2 {
            150
        } else {
            100
        }
    }
}

pub open spec fn spec_onoff(v: bool) -> Seq<char> {
    if v { "ON"@ } else { "OFF"@ }
}

pub open spec fn spec_scale_text(step: usize) -> Seq<char> {
    if step == 1 {
        "1.25x"@
    } else if step == 2 {
        "1.50x"@
    } else {
        "1.00x"@
    }
}

/// The text of menu row `row` (0 colour-blind, 1 reduce motion, 2 HUD
/// scale), marked with "> " when selected.
pub open spec fn spec_row_text(s: AccessibilityState, row: usize) -> Seq<char> {
    let prefix = if s.selected_row == row { "> "@ } else { "  "@ };
    if row == 0 {
        prefix + "Colorblind mode: "@ + spec_onoff(s.colorblind)
    } else if row == 1 {
        prefix + "Reduce motion: "@ + spec_onoff(s.reduce_motion)
    } else {
        prefix + "HUD scale: "@ + spec_scale_text(s.hud_scale_step)
    }
}

impl AccessibilityState {
    pub fn row_text(&self, row: usize) -> (r: String)
        requires
            row <= 2,
        ensures
            r@ == spec_row_text(*self, row),
    {
        let mut s = if self.selected_row == row { String::from_str("> ") } else { String::from_str("  ") };
        if row == 0 {
            s.append("Colorblind mode: ");
            s.append(onoff(self.colorblind));
        } else if row == 1 {
            s.append("Reduce motion: ");
            s.append(onoff(self.reduce_motion));
        } else {
            s.append("HUD scale: ");
            let t = if self.hud_scale_step == 1 {
                "1.25x"
            } else if self.hud_scale_step == 2 {
                "1.50x"
            } else {
                "1.00x"
            };
            s.append(t);
        }
        s
    }
}

/// "ON" or "OFF".
pub fn onoff(v: bool) -> (r: &'static str)
    ensures
        r@ == spec_onoff(v),
{
    if v {
        "ON"
    } else {
        "OFF"
    }
}

/// Three presses of Enter on the scale row bring the HUD scale back to
/// where it was.
pub proof fn lemma_scale_cycle(step: usize)
    requires
        step < SCALE_STEP_COUNT,
    ensures
        scale_next(scale_next(scale_next(step))) == step,
{
}

// ---- Bloom post-processing ----------------------------------------------------

/// Whether bloom is wanted; it starts on.
#[derive(Clone, Copy, Debug, PartialEq, Eq, Structural)]
pub struct BloomPpState {
    pub enabled: bool,
}

/// What the post-processing step does to the camera.
#[derive(Clone, Copy, Debug, PartialEq, Eq, Structural)]
pub enum PostFxAction {
    Nothing,
    RemoveBloom,
    InsertBloom,
}

pub open spec fn spec_post_fx(last: Option<bool>, enabled: bool, bloom_allowed: bool, camera: bool) -> (Option<bool>, PostFxAction) {
    if last == Some(enabled) {
        (last, PostFxAction::Nothing)
    } else if !camera {
        (Some(enabled), PostFxAction::Nothing)
    } else if !bloom_allowed || !enabled {
        (Some(enabled), PostFxAction::RemoveBloom)
    } else {
        (Some(enabled), PostFxAction::InsertBloom)
    }
}

impl BloomPpState {
    pub fn new() -> (r: BloomPpState)
        ensures
            r.enabled,
    {
        BloomPpState { enabled: true }
    }

    /// J without Shift or Ctrl switches bloom (Shift+J and Ctrl+J belong
    /// to other features).
    pub fn handle_keys(&mut self, j: bool, shift: bool, ctrl: bool)
        ensures
            final(self).enabled == (old(self).enabled != (j && !shift && !ctrl)),
    {
        if j && !shift && !ctrl {
            self.enabled = !self.enabled;
        }
    }
}

/// Applies bloom to the camera when the setting changed since the last
/// application (`last`): bloom is removed when the graphics tier does not
/// allow it or it is switched off, and inserted otherwise. The setting
/// counts as applied even when there is no camera yet.
pub fn post_fx_step(last: &mut Option<bool>, enabled: bool, bloom_allowed: bool, camera: bool) -> (a: PostFxAction)
    ensures
        (*final(last), a) == spec_post_fx(*old(last), enabled, bloom_allowed, camera),
{
    let changed = match *last {
        Some(prev) => prev != enabled,
        None => true,
    };
    if !changed {
        return PostFxAction::Nothing;
    }
    *last = Some(enabled);
    if !camera {
        return PostFxAction::Nothing;
    }
    if !bloom_allowed || !enabled {
        PostFxAction::RemoveBloom
    } else {
        PostFxAction::InsertBloom
    }
}

} // verus!

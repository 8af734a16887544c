//! The pressure-click state machine.
//!
//! Each trackpad sample moves the click state through its stages:
//! `0` idle, `1` normal click held, `2` force click held, `3` force released
//! while the normal click is still held, `4` normal click released and
//! waiting for the pressure to fall to the re-arm threshold.
//!
//! `click_step` decides, from the state and one sample, the next state and
//! the ordered list of effects (log lines, virtual mouse keys, haptic
//! reports, pauses and time stamps) that the caller carries out. Whatever
//! depends on clocks or on floating-point geometry reaches the step as a
//! boolean of the sample.

use vstd::prelude::*;
use crate::buttons::{BTN_LEFT, button_for_touch_count, spec_button_for_touch_count};

verus! {

/// The integer and boolean settings that the click state machine reads.
#[derive(Clone, Copy, Debug)]
pub struct ClickSettings {
    pub normal_threshold: i32,
    pub force_threshold: i32,
    pub double_click_force_threshold: i32,
    pub reset_threshold: i32,
    pub rearm_threshold: i32,
    pub force_rearm_threshold: i32,
    pub normal_release_threshold: i32,
    pub release_drop: i32,
    pub drag_release_enabled: bool,
    pub drag_release_threshold: i32,
    pub input_enabled: bool,
    pub force_button: Option<u16>,
    /// Whether a one-finger left click may be held back (a positive
    /// `input.pending_left_ms`).
    pub pending_left_enabled: bool,
    /// Whether a pause separates a force release from a normal release in
    /// the same sample (a positive `release.stacked_release_gap_ms`).
    pub stacked_release_gap_enabled: bool,
}

/// The click state carried from one sample to the next.
#[derive(Clone, Copy, Debug, PartialEq, Eq, Structural)]
pub struct ClickState {
    pub stage: u8,
    pub normal_up_pending: bool,
    pub force_up_pending: bool,
    pub force_rearmed: bool,
    pub double_click_force_guard: bool,
    pub pending_normal_button: Option<u16>,
    pub normal_click_touch_count: usize,
    pub click_drag_active: bool,
    pub peak_after_down: i32,
}

/// One trackpad sample as the click state machine sees it.
#[derive(Clone, Copy, Debug)]
pub struct ClickSample {
    /// The highest pressure among the fingers down (0 with none).
    pub pressure: i32,
    /// The number of fingers down.
    pub touch_count: usize,
    /// The last click haptic is more recent than `release.lockout_ms`.
    pub lockout_active: bool,
    /// The pressure fell at least at `release.rate` since the last sample.
    pub rate_release: bool,
    /// The centroid moved at least `drag_release.movement` since the click.
    pub drag_movement_reached: bool,
    /// A one-finger click now would follow a normal release within
    /// `clicks.double_click_window_ms` (a positive window).
    pub double_click_window_open: bool,
    /// At least `clicks.min_gap_ms` passed since the last click haptic down.
    pub gap_elapsed: bool,
    /// A force release before this sample lies within
    /// `release.suppress_normal_up_after_force_ms`.
    pub recent_force_release: bool,
    /// A force release in this very sample lies within that window.
    pub fresh_release_suppresses: bool,
    /// The centroid moved at least `input.pending_left_motion` (a positive
    /// distance) since a held-back left click began.
    pub pending_motion_reached: bool,
}

/// What `should_fire_release` decides for a held force click.
#[derive(Clone, Copy, Debug, PartialEq, Eq, Structural)]
pub enum ReleaseDecision {
    Hold,
    Threshold,
    Drop,
    Rate,
}

/// Why a force click was released.
#[derive(Clone, Copy, Debug, PartialEq, Eq, Structural)]
pub enum ForceReleaseReason {
    Threshold,
    Drop,
    Rate,
    Reset,
}

/// Why the stage returned to idle.
#[derive(Clone, Copy, Debug, PartialEq, Eq, Structural)]
pub enum RearmCause {
    NormalRelease,
    ForceUpperRelease,
    Reset,
}

/// Why a held-back left click was pressed after all.
#[derive(Clone, Copy, Debug, PartialEq, Eq, Structural)]
pub enum PendingReason {
    NormalRelease,
    ForceUpperRelease,
    Reset,
    Motion,
    Timeout,
}

/// Why a held-back left click was dropped.
#[derive(Clone, Copy, Debug, PartialEq, Eq, Structural)]
pub enum CancelReason {
    ForceClick,
    Exit,
}

/// Which haptic report to send.
#[derive(Clone, Copy, Debug, PartialEq, Eq, Structural)]
pub enum HapticKind {
    NormalDown,
    NormalUp,
    ForceDown,
    ForceUp,
}

/// A log line of the click state machine.
#[allow(inconsistent_fields)]
#[derive(Clone, Copy, Debug, PartialEq, Eq, Structural)]
pub enum ClickNote {
    ClickDragActive,
    NormalRelease { pressure: i32, peak: i32, threshold: i32 },
    ForceRelease { pressure: i32, peak: i32, reason: ForceReleaseReason },
    NormalReleaseAfterForce { pressure: i32, reset: bool, suppressed: bool },
    ReArmed { pressure: i32, cause: RearmCause },
    NormalClick {
        pressure: i32,
        button: u16,
        fingers: usize,
        deferred: bool,
        force_threshold: i32,
        double_click_guard: bool,
    },
    ForceClick { pressure: i32, threshold: i32, re_force: bool },
    ForceReArmed { pressure: i32 },
    PendingLeftDown { reason: PendingReason },
    PendingLeftCancel { reason: CancelReason },
}

/// One effect that the caller carries out, in order.
#[derive(Clone, Copy, Debug, PartialEq, Eq, Structural)]
pub enum ClickAction {
    Note(ClickNote),
    /// Press the normal button on the virtual mouse.
    MouseNormalDown { button: u16 },
    /// Release the normal button on the virtual mouse.
    MouseNormalUp,
    /// Press the force button on the virtual mouse.
    MouseForceDown,
    /// Release the force button on the virtual mouse.
    MouseForceUp,
    /// Send a haptic report.
    Haptic(HapticKind),
    /// Sleep `release.stacked_release_gap_ms`.
    StackedReleasePause,
    /// Remember now as the time of the last force release.
    ForceReleaseTime,
    /// Remember now as the time of the last normal release and forget the
    /// motion state of the click.
    NormalReleaseTime,
    /// A normal click begins with this many fingers; when `deferred`, its
    /// left button waits for a deadline or for motion.
    ArmNormal { touch_count: usize, deferred: bool },
    /// Remember the centroid as the start of a click drag (left clicks only).
    ClickDragStart { left: bool },
}

/// The state before any sample.
pub open spec fn spec_initial_click_state() -> ClickState {
    ClickState {
        stage: 0,
        normal_up_pending: false,
        force_up_pending: false,
        force_rearmed: false,
        double_click_force_guard: false,
        pending_normal_button: None,
        normal_click_touch_count: 0,
        click_drag_active: false,
        peak_after_down: 0,
    }
}

/// The consistency of a click state that every step keeps.
pub open spec fn click_state_wf(st: ClickState) -> bool {
    &&& st.stage <= 4
    &&& st.force_up_pending == (st.stage == 2)
    &&& st.normal_up_pending == (1 <= st.stage <= 3)
    &&& st.pending_normal_button is Some ==> st.stage == 1
    &&& st.force_rearmed ==> st.stage == 3
    &&& st.stage == 0 ==> st.peak_after_down == 0
    &&& st.click_drag_active ==> st.normal_up_pending
    &&& st.double_click_force_guard ==> st.normal_up_pending
}

/// The release decision: at or below the reset threshold always; otherwise
/// not during the lockout; then on a drop from the peak of at least `drop`;
/// then on a fast enough fall.
pub open spec fn spec_should_fire_release(
    pressure: i32,
    reset_threshold: i32,
    drop: i32,
    peak_after_down: i32,
    lockout_active: bool,
    rate_release: bool,
) -> ReleaseDecision {
    if pressure <= reset_threshold {
        ReleaseDecision::Threshold
    } else if lockout_active {
        ReleaseDecision::Hold
    } else if peak_after_down > 0 && peak_after_down - pressure >= drop {
        ReleaseDecision::Drop
    } else if rate_release {
        ReleaseDecision::Rate
    } else {
        ReleaseDecision::Hold
    }
}

/// The force threshold in effect: the double-click one while the guard is set.
pub open spec fn spec_active_force_threshold(s: ClickSettings, st: ClickState) -> i32 {
    if st.double_click_force_guard {
        s.double_click_force_threshold
    } else {
        s.force_threshold
    }
}

/// The pressure at or below which a normal click is released: the drag
/// release threshold once the click became a drag.
pub open spec fn spec_normal_release_threshold(s: ClickSettings, st: ClickState) -> i32 {
    if st.click_drag_active {
        s.drag_release_threshold
    } else {
        s.normal_release_threshold
    }
}

/// Whether a normal click's button is held back so that a force click can
/// replace it: only a one-finger left click, with input enabled, a positive
/// hold-back time and a force button other than left.
pub open spec fn spec_should_defer_normal_input(s: ClickSettings, button: u16, touch_count: nat) -> bool {
    &&& s.input_enabled
    &&& s.pending_left_enabled
    &&& button == BTN_LEFT
    &&& touch_count == 1
    &&& s.force_button is Some
    &&& s.force_button != Some(BTN_LEFT)
}

pub open spec fn force_release_reason(d: ReleaseDecision) -> ForceReleaseReason {
    match d {
        ReleaseDecision::Drop => ForceReleaseReason::Drop,
        ReleaseDecision::Rate => ForceReleaseReason::Rate,
        _ => ForceReleaseReason::Threshold,
    }
}

/// Presses a held-back left click, if there is one.
pub open spec fn sp_commit_pending(t: (ClickState, Seq<ClickAction>), reason: PendingReason) -> (ClickState, Seq<ClickAction>) {
    match t.0.pending_normal_button {
        Some(b) => (
            ClickState { pending_normal_button: None, ..t.0 },
            t.1.push(ClickAction::Note(ClickNote::PendingLeftDown { reason })).push(
                ClickAction::MouseNormalDown { button: b },
            ),
        ),
        None => t,
    }
}

/// Drops a held-back left click, if there is one.
pub open spec fn sp_cancel_pending(t: (ClickState, Seq<ClickAction>), reason: CancelReason) -> (ClickState, Seq<ClickAction>) {
    if t.0.pending_normal_button is Some {
        (
            ClickState { pending_normal_button: None, ..t.0 },
            t.1.push(ClickAction::Note(ClickNote::PendingLeftCancel { reason })),
        )
    } else {
        t
    }
}

/// Ends the bookkeeping of a released normal click.
pub open spec fn sp_record_normal_release(t: (ClickState, Seq<ClickAction>)) -> (ClickState, Seq<ClickAction>) {
    (
        ClickState {
            double_click_force_guard: false,
            normal_click_touch_count: 0,
            click_drag_active: false,
            ..t.0
        },
        t.1.push(ClickAction::NormalReleaseTime),
    )
}

/// A held left click becomes a drag once the centroid moved far enough.
pub open spec fn sp_update_click_drag(s: ClickSettings, st: ClickState, reached: bool) -> (ClickState, Seq<ClickAction>) {
    if !s.drag_release_enabled || st.click_drag_active || !st.normal_up_pending || st.stage != 1 || !reached {
        (st, Seq::empty())
    } else {
        (
            ClickState { click_drag_active: true, ..st },
            seq![ClickAction::Note(ClickNote::ClickDragActive)],
        )
    }
}

/// First phase: release of a held normal click (stage 1) or of a held force
/// click (stage 2). The boolean tells whether a force click was released.
pub open spec fn sp_release_phase(
    s: ClickSettings,
    t: (ClickState, Seq<ClickAction>),
    pressure: i32,
    normal_release: bool,
    threshold: i32,
    release: ReleaseDecision,
) -> ((ClickState, Seq<ClickAction>), bool) {
    let st = t.0;
    if st.stage == 1 && st.normal_up_pending && normal_release {
        let t1 = (
            st,
            t.1.push(
                ClickAction::Note(
                    ClickNote::NormalRelease { pressure, peak: st.peak_after_down, threshold },
                ),
            ),
        );
        let t2 = sp_commit_pending(t1, PendingReason::NormalRelease);
        let t3 = (
            ClickState { normal_up_pending: false, stage: 4, ..t2.0 },
            t2.1.push(ClickAction::MouseNormalUp).push(ClickAction::Haptic(HapticKind::NormalUp)),
        );
        (sp_record_normal_release(t3), false)
    } else if st.stage == 2 && st.force_up_pending && release != ReleaseDecision::Hold {
        (
            (
                ClickState { force_up_pending: false, stage: 3, force_rearmed: false, ..st },
                t.1.push(
                    ClickAction::Note(
                        ClickNote::ForceRelease {
                            pressure,
                            peak: st.peak_after_down,
                            reason: force_release_reason(release),
                        },
                    ),
                ).push(ClickAction::MouseForceUp).push(ClickAction::Haptic(HapticKind::ForceUp)).push(
                    ClickAction::ForceReleaseTime,
                ),
            ),
            true,
        )
    } else {
        (t, false)
    }
}

/// Whether the normal-up haptic is left out: a force release lies within
/// the suppression window (one in this sample when `forced`).
pub open spec fn sp_suppress(x: ClickSample, forced: bool) -> bool {
    if forced {
        x.fresh_release_suppresses
    } else {
        x.recent_force_release
    }
}

/// Releases the normal click that stayed held under a force click.
pub open spec fn sp_release_after_force(
    s: ClickSettings,
    t: (ClickState, Seq<ClickAction>),
    pressure: i32,
    forced: bool,
    suppressed: bool,
    reset: bool,
) -> (ClickState, Seq<ClickAction>) {
    let a1 = if forced && !suppressed && s.stacked_release_gap_enabled {
        t.1.push(ClickAction::StackedReleasePause)
    } else {
        t.1
    };
    let a2 = a1.push(ClickAction::Note(ClickNote::NormalReleaseAfterForce { pressure, reset, suppressed }));
    let t3 = sp_commit_pending(
        (t.0, a2),
        if reset { PendingReason::Reset } else { PendingReason::ForceUpperRelease },
    );
    let a4 = t3.1.push(ClickAction::MouseNormalUp);
    let a5 = if !suppressed { a4.push(ClickAction::Haptic(HapticKind::NormalUp)) } else { a4 };
    sp_record_normal_release((ClickState { normal_up_pending: false, ..t3.0 }, a5))
}

/// Stage 3 with the normal click released: back to idle.
pub open spec fn sp_force_upper_release(
    s: ClickSettings,
    t: (ClickState, Seq<ClickAction>),
    x: ClickSample,
    forced: bool,
) -> (ClickState, Seq<ClickAction>) {
    let t1 = sp_release_after_force(s, t, x.pressure, forced, sp_suppress(x, forced), false);
    (
        ClickState {
            stage: 0,
            force_up_pending: false,
            force_rearmed: false,
            peak_after_down: 0,
            ..t1.0
        },
        t1.1.push(ClickAction::Note(ClickNote::ReArmed { pressure: x.pressure, cause: RearmCause::ForceUpperRelease })),
    )
}

/// Pressure at or below the reset threshold: releases what is held and
/// returns to idle unless a normal click stays held.
pub open spec fn sp_reset_phase(
    s: ClickSettings,
    t: (ClickState, Seq<ClickAction>),
    x: ClickSample,
    forced: bool,
    normal_release: bool,
) -> (ClickState, Seq<ClickAction>) {
    let st = t.0;
    let p = x.pressure;
    let (t1, forced1) = if st.stage == 2 && st.force_up_pending {
        (
            (
                ClickState { force_up_pending: false, stage: 3, force_rearmed: false, ..st },
                t.1.push(
                    ClickAction::Note(
                        ClickNote::ForceRelease {
                            pressure: p,
                            peak: st.peak_after_down,
                            reason: ForceReleaseReason::Reset,
                        },
                    ),
                ).push(ClickAction::MouseForceUp).push(ClickAction::Haptic(HapticKind::ForceUp)).push(
                    ClickAction::ForceReleaseTime,
                ),
            ),
            true,
        )
    } else {
        (t, forced)
    };
    let t2 = if t1.0.normal_up_pending && normal_release {
        sp_release_after_force(s, t1, p, forced1, sp_suppress(x, forced1), true)
    } else {
        t1
    };
    if t2.0.normal_up_pending {
        t2
    } else {
        let a3 = if t2.0.stage != 0 {
            t2.1.push(ClickAction::Note(ClickNote::ReArmed { pressure: p, cause: RearmCause::Reset }))
        } else {
            t2.1
        };
        (
            ClickState {
                stage: 0,
                force_up_pending: false,
                force_rearmed: false,
                peak_after_down: 0,
                ..t2.0
            },
            a3,
        )
    }
}

/// Idle with the pressure at the normal threshold: a normal click begins.
pub open spec fn sp_normal_click(s: ClickSettings, t: (ClickState, Seq<ClickAction>), x: ClickSample) -> (ClickState, Seq<ClickAction>) {
    let p = x.pressure;
    let button = spec_button_for_touch_count(x.touch_count as nat);
    let guard = x.touch_count == 1 && x.double_click_window_open;
    let st1 = ClickState { double_click_force_guard: guard, ..t.0 };
    let deferred = spec_should_defer_normal_input(s, button, x.touch_count as nat);
    let a1 = t.1.push(
        ClickAction::Note(
            ClickNote::NormalClick {
                pressure: p,
                button,
                fingers: x.touch_count,
                deferred,
                force_threshold: spec_active_force_threshold(s, st1),
                double_click_guard: guard,
            },
        ),
    );
    let st2 = ClickState { normal_click_touch_count: x.touch_count, ..st1 };
    let a2 = a1.push(ClickAction::ArmNormal { touch_count: x.touch_count, deferred });
    let st3 = if deferred { ClickState { pending_normal_button: Some(button), ..st2 } } else { st2 };
    let a3 = if deferred { a2 } else { a2.push(ClickAction::MouseNormalDown { button }) };
    (
        ClickState {
            stage: 1,
            normal_up_pending: true,
            force_up_pending: false,
            click_drag_active: false,
            peak_after_down: p,
            ..st3
        },
        a3.push(ClickAction::Haptic(HapticKind::NormalDown)).push(
            ClickAction::ClickDragStart { left: button == BTN_LEFT },
        ),
    )
}

/// Any other sample: force clicks, force re-arming and the running peak.
pub open spec fn sp_press_phase(s: ClickSettings, t: (ClickState, Seq<ClickAction>), x: ClickSample) -> (ClickState, Seq<ClickAction>) {
    let st = t.0;
    let p = x.pressure;
    let thr = spec_active_force_threshold(s, st);
    let force_gap = x.gap_elapsed || st.pending_normal_button is Some;
    if st.stage == 1 && force_gap && p >= thr {
        let a1 = t.1.push(ClickAction::Note(ClickNote::ForceClick { pressure: p, threshold: thr, re_force: false }));
        let t2 = sp_cancel_pending((st, a1), CancelReason::ForceClick);
        (
            ClickState {
                stage: 2,
                force_up_pending: true,
                force_rearmed: false,
                peak_after_down: p,
                ..t2.0
            },
            t2.1.push(ClickAction::MouseForceDown).push(ClickAction::Haptic(HapticKind::ForceDown)),
        )
    } else if st.stage == 3 && !st.force_rearmed && p <= s.force_rearm_threshold {
        (
            ClickState { force_rearmed: true, peak_after_down: p, ..st },
            t.1.push(ClickAction::Note(ClickNote::ForceReArmed { pressure: p })),
        )
    } else if st.stage == 3 && st.force_rearmed && x.gap_elapsed && p >= thr {
        (
            ClickState {
                stage: 2,
                force_up_pending: true,
                force_rearmed: false,
                peak_after_down: p,
                ..st
            },
            t.1.push(ClickAction::Note(ClickNote::ForceClick { pressure: p, threshold: thr, re_force: true })).push(
                ClickAction::MouseForceDown,
            ).push(ClickAction::Haptic(HapticKind::ForceDown)),
        )
    } else if st.stage == 1 || st.stage == 2 {
        (
            ClickState {
                peak_after_down: if p > st.peak_after_down { p } else { st.peak_after_down },
                ..st
            },
            t.1,
        )
    } else {
        t
    }
}

/// A held-back left click is pressed once the fingers moved far enough.
pub open spec fn sp_motion_commit(t: (ClickState, Seq<ClickAction>), motion_reached: bool) -> (ClickState, Seq<ClickAction>) {
    if t.0.stage == 1 && motion_reached {
        sp_commit_pending(t, PendingReason::Motion)
    } else {
        t
    }
}

/// The next state and the ordered effects of one sample.
pub open spec fn spec_click_step(s: ClickSettings, st0: ClickState, x: ClickSample) -> (ClickState, Seq<ClickAction>) {
    let p = x.pressure;
    let t0 = sp_update_click_drag(s, st0, x.drag_movement_reached);
    let release = spec_should_fire_release(
        p,
        s.reset_threshold,
        s.release_drop,
        t0.0.peak_after_down,
        x.lockout_active,
        x.rate_release,
    );
    let threshold = spec_normal_release_threshold(s, t0.0);
    let normal_release = p <= threshold;
    let (t1, forced) = sp_release_phase(s, t0, p, normal_release, threshold, release);
    let st = t1.0;
    if st.stage == 4 && p <= s.rearm_threshold {
        (
            ClickState { stage: 0, peak_after_down: 0, ..st },
            t1.1.push(ClickAction::Note(ClickNote::ReArmed { pressure: p, cause: RearmCause::NormalRelease })),
        )
    } else if st.stage == 3 && st.normal_up_pending && normal_release {
        sp_force_upper_release(s, t1, x, forced)
    } else if p <= s.reset_threshold {
        sp_reset_phase(s, t1, x, forced, normal_release)
    } else if st.stage == 0 && p >= s.normal_threshold {
        sp_normal_click(s, t1, x)
    } else {
        sp_motion_commit(sp_press_phase(s, t1, x), x.pending_motion_reached)
    }
}

// ---------------------------------------------------------------------------
// Executable code
// ---------------------------------------------------------------------------

impl ClickState {
    /// The idle state before any sample.
    pub fn new() -> (st: ClickState)
        ensures
            st == spec_initial_click_state(),
            click_state_wf(st),
    {
        ClickState {
            stage: 0,
            normal_up_pending: false,
            force_up_pending: false,
            force_rearmed: false,
            double_click_force_guard: false,
            pending_normal_button: None,
            normal_click_touch_count: 0,
            click_drag_active: false,
            peak_after_down: 0,
        }
    }
}

impl Default for ClickState {
    fn default() -> (st: ClickState)
        ensures
            st == spec_initial_click_state(),
    {
        ClickState::new()
    }
}

/// Decides whether a held force click is released, and why.
pub fn should_fire_release(
    pressure: i32,
    reset_threshold: i32,
    drop: i32,
    peak_after_down: i32,
    lockout_active: bool,
    rate_release: bool,
) -> (d: ReleaseDecision)
    ensures
        d == spec_should_fire_release(pressure, reset_threshold, drop, peak_after_down, lockout_active, rate_release),
{
    if pressure <= reset_threshold {
        return ReleaseDecision::Threshold;
    }
    if lockout_active {
        return ReleaseDecision::Hold;
    }
    if peak_after_down > 0 && (peak_after_down as i64) - (pressure as i64) >= drop as i64 {
        return ReleaseDecision::Drop;
    }
    if rate_release {
        return ReleaseDecision::Rate;
    }
    ReleaseDecision::Hold
}

/// The force threshold in effect for the current click.
pub fn active_force_threshold(s: &ClickSettings, st: &ClickState) -> (thr: i32)
    ensures
        thr == spec_active_force_threshold(*s, *st),
{
    if st.double_click_force_guard {
        s.double_click_force_threshold
    } else {
        s.force_threshold
    }
}

/// The release threshold of the current normal click.
pub fn normal_release_threshold_for_current_click(s: &ClickSettings, st: &ClickState) -> (thr: i32)
    ensures
        thr == spec_normal_release_threshold(*s, *st),
{
    if st.click_drag_active {
        s.drag_release_threshold
    } else {
        s.normal_release_threshold
    }
}

/// Whether a left click is being held back.
pub fn pending_normal_active(st: &ClickState) -> (active: bool)
    ensures
        active == (st.pending_normal_button is Some),
{
    st.pending_normal_button.is_some()
}

/// Whether the normal click's button is held back for a possible force click.
pub fn should_defer_normal_input(s: &ClickSettings, button: u16, touch_count: usize) -> (defer: bool)
    ensures
        defer == spec_should_defer_normal_input(*s, button, touch_count as nat),
{
    let force_not_left = match s.force_button {
        Some(b) => b != BTN_LEFT,
        None => false,
    };
    s.input_enabled && s.pending_left_enabled && button == BTN_LEFT && touch_count == 1 && force_not_left
}

/// Forgets a held-back left click.
pub fn clear_pending_normal_input(st: &mut ClickState)
    ensures
        *final(st) == (ClickState { pending_normal_button: None, ..*old(st) }),
{
    st.pending_normal_button = None;
}

/// Presses a held-back left click, if there is one: a log line, then the
/// button press on the virtual mouse.
pub fn commit_pending_normal_input(st: &mut ClickState, acts: &mut Vec<ClickAction>, reason: PendingReason)
    ensures
        (*final(st), final(acts)@) == sp_commit_pending((*old(st), old(acts)@), reason),
{
    match st.pending_normal_button {
        Some(b) => {
            acts.push(ClickAction::Note(ClickNote::PendingLeftDown { reason }));
            clear_pending_normal_input(st);
            acts.push(ClickAction::MouseNormalDown { button: b });
        },
        None => {},
    }
}

/// Drops a held-back left click, if there is one, with a log line.
pub fn cancel_pending_normal_input(st: &mut ClickState, acts: &mut Vec<ClickAction>, reason: CancelReason)
    ensures
        (*final(st), final(acts)@) == sp_cancel_pending((*old(st), old(acts)@), reason),
{
    if st.pending_normal_button.is_some() {
        acts.push(ClickAction::Note(ClickNote::PendingLeftCancel { reason }));
        clear_pending_normal_input(st);
    }
}

/// Ends the bookkeeping of a released normal click.
pub fn record_normal_release(st: &mut ClickState, acts: &mut Vec<ClickAction>)
    ensures
        (*final(st), final(acts)@) == sp_record_normal_release((*old(st), old(acts)@)),
{
    acts.push(ClickAction::NormalReleaseTime);
    st.double_click_force_guard = false;
    st.normal_click_touch_count = 0;
    st.click_drag_active = false;
}

/// Marks a held left click as a drag once it moved far enough.
pub fn update_click_drag_state(s: &ClickSettings, st: &mut ClickState, acts: &mut Vec<ClickAction>, reached: bool)
    ensures
        (*final(st), final(acts)@) == ({
            let u = sp_update_click_drag(*s, *old(st), reached);
            (u.0, old(acts)@ + u.1)
        }),
{
    if !s.drag_release_enabled || st.click_drag_active || !st.normal_up_pending || st.stage != 1 || !reached {
        assert(old(acts)@ + Seq::<ClickAction>::empty() =~= old(acts)@);
        return;
    }
    st.click_drag_active = true;
    acts.push(ClickAction::Note(ClickNote::ClickDragActive));
    assert(old(acts)@ + seq![ClickAction::Note(ClickNote::ClickDragActive)] =~= acts@);
}

fn release_phase(
    s: &ClickSettings,
    st: &mut ClickState,
    acts: &mut Vec<ClickAction>,
    pressure: i32,
    normal_release: bool,
    threshold: i32,
    release: ReleaseDecision,
) -> (forced: bool)
    ensures
        ((*final(st), final(acts)@), forced) == sp_release_phase(*s, (*old(st), old(acts)@), pressure, normal_release, threshold, release),
{
    if st.stage == 1 && st.normal_up_pending && normal_release {
        acts.push(
            ClickAction::Note(ClickNote::NormalRelease { pressure, peak: st.peak_after_down, threshold }),
        );
        commit_pending_normal_input(st, acts, PendingReason::NormalRelease);
        acts.push(ClickAction::MouseNormalUp);
        acts.push(ClickAction::Haptic(HapticKind::NormalUp));
        st.normal_up_pending = false;
        st.stage = 4;
        record_normal_release(st, acts);
        false
    } else if st.stage == 2 && st.force_up_pending && !matches!(release, ReleaseDecision::Hold) {
        let reason = match release {
            ReleaseDecision::Drop => ForceReleaseReason::Drop,
            ReleaseDecision::Rate => ForceReleaseReason::Rate,
            _ => ForceReleaseReason::Threshold,
        };
        acts.push(ClickAction::Note(ClickNote::ForceRelease { pressure, peak: st.peak_after_down, reason }));
        acts.push(ClickAction::MouseForceUp);
        acts.push(ClickAction::Haptic(HapticKind::ForceUp));
        st.force_up_pending = false;
        st.stage = 3;
        st.force_rearmed = false;
        acts.push(ClickAction::ForceReleaseTime);
        true
    } else {
        false
    }
}

fn release_after_force(
    s: &ClickSettings,
    st: &mut ClickState,
    acts: &mut Vec<ClickAction>,
    pressure: i32,
    forced: bool,
    suppressed: bool,
    reset: bool,
)
    ensures
        (*final(st), final(acts)@) == sp_release_after_force(*s, (*old(st), old(acts)@), pressure, forced, suppressed, reset),
{
    if forced && !suppressed && s.stacked_release_gap_enabled {
        acts.push(ClickAction::StackedReleasePause);
    }
    acts.push(ClickAction::Note(ClickNote::NormalReleaseAfterForce { pressure, reset, suppressed }));
    let reason = if reset { PendingReason::Reset } else { PendingReason::ForceUpperRelease };
    commit_pending_normal_input(st, acts, reason);
    acts.push(ClickAction::MouseNormalUp);
    if !suppressed {
        acts.push(ClickAction::Haptic(HapticKind::NormalUp));
    }
    st.normal_up_pending = false;
    record_normal_release(st, acts);
}

fn suppress(x: &ClickSample, forced: bool) -> (r: bool)
    ensures
        r == sp_suppress(*x, forced),
{
    if forced {
        x.fresh_release_suppresses
    } else {
        x.recent_force_release
    }
}

fn force_upper_release(s: &ClickSettings, st: &mut ClickState, acts: &mut Vec<ClickAction>, x: &ClickSample, forced: bool)
    ensures
        (*final(st), final(acts)@) == sp_force_upper_release(*s, (*old(st), old(acts)@), *x, forced),
{
    let sup = suppress(x, forced);
    release_after_force(s, st, acts, x.pressure, forced, sup, false);
    acts.push(ClickAction::Note(ClickNote::ReArmed { pressure: x.pressure, cause: RearmCause::ForceUpperRelease }));
    st.stage = 0;
    st.force_up_pending = false;
    st.force_rearmed = false;
    st.peak_after_down = 0;
}

fn reset_phase(
    s: &ClickSettings,
    st: &mut ClickState,
    acts: &mut Vec<ClickAction>,
    x: &ClickSample,
    forced: bool,
    normal_release: bool,
)
    ensures
        (*final(st), final(acts)@) == sp_reset_phase(*s, (*old(st), old(acts)@), *x, forced, normal_release),
{
    let p = x.pressure;
    let mut forced1 = forced;
    if st.stage == 2 && st.force_up_pending {
        acts.push(
            ClickAction::Note(
                ClickNote::ForceRelease { pressure: p, peak: st.peak_after_down, reason: ForceReleaseReason::Reset },
            ),
        );
        acts.push(ClickAction::MouseForceUp);
        acts.push(ClickAction::Haptic(HapticKind::ForceUp));
        st.force_up_pending = false;
        st.stage = 3;
        forced1 = true;
        st.force_rearmed = false;
        acts.push(ClickAction::ForceReleaseTime);
    }
    if st.normal_up_pending && normal_release {
        let sup = suppress(x, forced1);
        release_after_force(s, st, acts, p, forced1, sup, true);
    }
    if st.normal_up_pending {
        return;
    }
    if st.stage != 0 {
        acts.push(ClickAction::Note(ClickNote::ReArmed { pressure: p, cause: RearmCause::Reset }));
    }
    st.stage = 0;
    st.force_up_pending = false;
    st.force_rearmed = false;
    st.peak_after_down = 0;
}

/// Begins a normal click: the held-back or pressed button, then the
/// bookkeeping of the click's fingers.
pub fn arm_normal_input(
    s: &ClickSettings,
    st: &mut ClickState,
    acts: &mut Vec<ClickAction>,
    button: u16,
    touch_count: usize,
) -> (deferred: bool)
    ensures
        deferred == spec_should_defer_normal_input(*s, button, touch_count as nat),
        *final(st) == (if deferred {
            ClickState { normal_click_touch_count: touch_count, pending_normal_button: Some(button), ..*old(st) }
        } else {
            ClickState { normal_click_touch_count: touch_count, ..*old(st) }
        }),
        final(acts)@ == (if deferred {
            old(acts)@.push(ClickAction::ArmNormal { touch_count, deferred })
        } else {
            old(acts)@.push(ClickAction::ArmNormal { touch_count, deferred }).push(ClickAction::MouseNormalDown { button })
        }),
{
    st.normal_click_touch_count = touch_count;
    let deferred = should_defer_normal_input(s, button, touch_count);
    acts.push(ClickAction::ArmNormal { touch_count, deferred });
    if deferred {
        st.pending_normal_button = Some(button);
        return true;
    }
    acts.push(ClickAction::MouseNormalDown { button });
    false
}

fn normal_click(s: &ClickSettings, st: &mut ClickState, acts: &mut Vec<ClickAction>, x: &ClickSample)
    ensures
        (*final(st), final(acts)@) == sp_normal_click(*s, (*old(st), old(acts)@), *x),
{
    let p = x.pressure;
    let button = button_for_touch_count(x.touch_count);
    st.double_click_force_guard = x.touch_count == 1 && x.double_click_window_open;
    let deferred_input = should_defer_normal_input(s, button, x.touch_count);
    let thr = active_force_threshold(s, st);
    acts.push(
        ClickAction::Note(
            ClickNote::NormalClick {
                pressure: p,
                button,
                fingers: x.touch_count,
                deferred: deferred_input,
                force_threshold: thr,
                double_click_guard: st.double_click_force_guard,
            },
        ),
    );
    arm_normal_input(s, st, acts, button, x.touch_count);
    acts.push(ClickAction::Haptic(HapticKind::NormalDown));
    st.stage = 1;
    st.normal_up_pending = true;
    st.force_up_pending = false;
    acts.push(ClickAction::ClickDragStart { left: button == BTN_LEFT });
    st.click_drag_active = false;
    st.peak_after_down = p;
}

fn press_phase(s: &ClickSettings, st: &mut ClickState, acts: &mut Vec<ClickAction>, x: &ClickSample)
    ensures
        (*final(st), final(acts)@) == sp_press_phase(*s, (*old(st), old(acts)@), *x),
{
    let p = x.pressure;
    let force_threshold = active_force_threshold(s, st);
    let force_gap_elapsed = x.gap_elapsed || pending_normal_active(st);
    if st.stage == 1 && force_gap_elapsed && p >= force_threshold {
        acts.push(ClickAction::Note(ClickNote::ForceClick { pressure: p, threshold: force_threshold, re_force: false }));
        cancel_pending_normal_input(st, acts, CancelReason::ForceClick);
        acts.push(ClickAction::MouseForceDown);
        acts.push(ClickAction::Haptic(HapticKind::ForceDown));
        st.stage = 2;
        st.force_up_pending = true;
        st.force_rearmed = false;
        st.peak_after_down = p;
    } else if st.stage == 3 && !st.force_rearmed && p <= s.force_rearm_threshold {
        acts.push(ClickAction::Note(ClickNote::ForceReArmed { pressure: p }));
        st.force_rearmed = true;
        st.peak_after_down = p;
    } else if st.stage == 3 && st.force_rearmed && x.gap_elapsed && p >= force_threshold {
        acts.push(ClickAction::Note(ClickNote::ForceClick { pressure: p, threshold: force_threshold, re_force: true }));
        acts.push(ClickAction::MouseForceDown);
        acts.push(ClickAction::Haptic(HapticKind::ForceDown));
        st.stage = 2;
        st.force_up_pending = true;
        st.force_rearmed = false;
        st.peak_after_down = p;
    } else if st.stage == 1 || st.stage == 2 {
        if p > st.peak_after_down {
            st.peak_after_down = p;
        }
    }
}

/// Presses a held-back left click once the fingers moved far enough.
pub fn maybe_commit_pending_for_motion(st: &mut ClickState, acts: &mut Vec<ClickAction>, motion_reached: bool)
    ensures
        (*final(st), final(acts)@) == sp_motion_commit((*old(st), old(acts)@), motion_reached),
{
    if st.stage == 1 && motion_reached {
        commit_pending_normal_input(st, acts, PendingReason::Motion);
    }
}

/// Moves the click state through one sample: the next state and the ordered
/// effects for the caller to carry out. The caller then runs the motion
/// haptics and remembers the sample's pressure.
pub fn click_step(s: &ClickSettings, state: &ClickState, x: &ClickSample) -> (res: (ClickState, Vec<ClickAction>))
    ensures
        (res.0, res.1@) == spec_click_step(*s, *state, *x),
        click_state_wf(*state) ==> click_state_wf(res.0),
{
    let mut st = *state;
    let mut acts: Vec<ClickAction> = Vec::new();
    let p = x.pressure;
    update_click_drag_state(s, &mut st, &mut acts, x.drag_movement_reached);
    assert(Seq::<ClickAction>::empty() + sp_update_click_drag(*s, *state, x.drag_movement_reached).1
        =~= sp_update_click_drag(*s, *state, x.drag_movement_reached).1);
    let release = should_fire_release(
        p,
        s.reset_threshold,
        s.release_drop,
        st.peak_after_down,
        x.lockout_active,
        x.rate_release,
    );
    let threshold = normal_release_threshold_for_current_click(s, &st);
    let normal_release = p <= threshold;
    let forced = release_phase(s, &mut st, &mut acts, p, normal_release, threshold, release);
    if st.stage == 4 && p <= s.rearm_threshold {
        acts.push(ClickAction::Note(ClickNote::ReArmed { pressure: p, cause: RearmCause::NormalRelease }));
        st.stage = 0;
        st.peak_after_down = 0;
    } else if st.stage == 3 && st.normal_up_pending && normal_release {
        force_upper_release(s, &mut st, &mut acts, x, forced);
    } else if p <= s.reset_threshold {
        reset_phase(s, &mut st, &mut acts, x, forced, normal_release);
    } else if st.stage == 0 && p >= s.normal_threshold {
        normal_click(s, &mut st, &mut acts, x);
    } else {
        press_phase(s, &mut st, &mut acts, x);
        maybe_commit_pending_for_motion(&mut st, &mut acts, x.pending_motion_reached);
    }
    proof {
        if click_state_wf(*state) {
            lemma_click_step_keeps_wf(*s, *state, *x);
        }
    }
    (st, acts)
}

/// Every step keeps the consistency of the click state: the stage stays
/// within idle..re-arm, a force click is held exactly in stage 2, a normal
/// click exactly in stages 1 to 3, a held-back left click only in stage 1,
/// a force re-arm only in stage 3, the peak is zero when idle, and the drag
/// and double-click marks belong to a held normal click.
pub proof fn lemma_click_step_keeps_wf(s: ClickSettings, st: ClickState, x: ClickSample)
    requires
        click_state_wf(st),
    ensures
        click_state_wf(spec_click_step(s, st, x).0),
{
}

} // verus!

verus! {

/// At or below the reset threshold no force click stays held: a held force
/// click is released and none begins.
pub proof fn lemma_reset_releases_force(s: ClickSettings, st: ClickState, x: ClickSample)
    requires
        click_state_wf(st),
        x.pressure <= s.reset_threshold,
    ensures
        !spec_click_step(s, st, x).0.force_up_pending,
        spec_click_step(s, st, x).0.stage != 2,
{
}

/// Idle stays idle, with no effect at all, while the pressure stays below
/// the normal threshold.
pub proof fn lemma_idle_below_normal_threshold(s: ClickSettings, st: ClickState, x: ClickSample)
    requires
        click_state_wf(st),
        st.stage == 0,
        x.pressure < s.normal_threshold,
    ensures
        spec_click_step(s, st, x).0 == st,
        spec_click_step(s, st, x).1 == Seq::<ClickAction>::empty(),
{
}

/// From idle, a pressure at the normal threshold (and above the reset
/// threshold) starts a normal click: it emits the button for the number of
/// fingers (held back instead when a force click may replace a one-finger
/// left click) and the normal-down haptic.
pub proof fn lemma_normal_click_button(s: ClickSettings, st: ClickState, x: ClickSample)
    requires
        click_state_wf(st),
        st.stage == 0,
        x.pressure >= s.normal_threshold,
        x.pressure > s.reset_threshold,
    ensures
        ({
            let (n, acts) = spec_click_step(s, st, x);
            let b = spec_button_for_touch_count(x.touch_count as nat);
            &&& n.stage == 1
            &&& n.normal_up_pending
            &&& n.peak_after_down == x.pressure
            &&& acts.contains(ClickAction::Haptic(HapticKind::NormalDown))
            &&& if spec_should_defer_normal_input(s, b, x.touch_count as nat) {
                &&& n.pending_normal_button == Some(b)
                &&& !acts.contains(ClickAction::MouseNormalDown { button: b })
            } else {
                acts.contains(ClickAction::MouseNormalDown { button: b })
            }
        }),
{
    let (n, acts) = spec_click_step(s, st, x);
    let b = spec_button_for_touch_count(x.touch_count as nat);
    if spec_should_defer_normal_input(s, b, x.touch_count as nat) {
        assert(acts[2] == ClickAction::Haptic(HapticKind::NormalDown));
        assert forall|i: int| 0 <= i < acts.len() implies acts[i] != ClickAction::MouseNormalDown { button: b } by {
            assert(acts.len() == 4);
        }
    } else {
        assert(acts[3] == ClickAction::Haptic(HapticKind::NormalDown));
        assert(acts[2] == ClickAction::MouseNormalDown { button: b });
    }
}

/// While a click is held (a normal click in stage 1 or a force click in
/// stage 2) and the pressure stays above the reset threshold, a sample that
/// leaves the stage as it was raises the peak to the highest pressure seen:
/// the new peak is the larger of the old peak and the pressure.
pub proof fn lemma_peak_tracks_pressure(s: ClickSettings, st: ClickState, x: ClickSample)
    requires
        click_state_wf(st),
        st.stage == 1 || st.stage == 2,
        x.pressure > s.reset_threshold,
        spec_click_step(s, st, x).0.stage == st.stage,
    ensures
        spec_click_step(s, st, x).0.peak_after_down == (if x.pressure > st.peak_after_down {
            x.pressure
        } else {
            st.peak_after_down
        }),
{
}

/// A held force click whose pressure falls at least the release drop below
/// its peak (above the reset threshold, outside the lockout) is released for
/// that drop: the first effect reports the release with its pressure, the
/// peak and the reason `Drop`, the force button goes up, and no force click
/// stays held.
pub proof fn lemma_drop_releases_force(s: ClickSettings, st: ClickState, x: ClickSample)
    requires
        click_state_wf(st),
        st.stage == 2,
        x.pressure > s.reset_threshold,
        !x.lockout_active,
        st.peak_after_down > 0,
        st.peak_after_down - x.pressure >= s.release_drop,
    ensures
        ({
            let (n, acts) = spec_click_step(s, st, x);
            &&& !n.force_up_pending
            &&& n.stage != 2
            &&& acts.len() > 0
            &&& acts[0] == ClickAction::Note(
                ClickNote::ForceRelease {
                    pressure: x.pressure,
                    peak: st.peak_after_down,
                    reason: ForceReleaseReason::Drop,
                },
            )
            &&& acts.contains(ClickAction::MouseForceUp)
        }),
{
    let (n, acts) = spec_click_step(s, st, x);
    assert(acts[1] == ClickAction::MouseForceUp);
}

/// Over two samples of a held force click: when the first keeps it held and
/// the second falls at least the release drop below the first's (positive)
/// pressure, above the reset threshold and outside the lockout, the second
/// releases the force click for that drop, reporting a peak at least the
/// first pressure.
pub proof fn lemma_force_releases_after_drop_from_peak(
    s: ClickSettings,
    st: ClickState,
    x1: ClickSample,
    x2: ClickSample,
)
    requires
        click_state_wf(st),
        st.stage == 2,
        x1.pressure > s.reset_threshold,
        x1.pressure > 0,
        spec_click_step(s, st, x1).0.stage == 2,
        x2.pressure > s.reset_threshold,
        !x2.lockout_active,
        x1.pressure - x2.pressure >= s.release_drop,
    ensures
        ({
            let mid = spec_click_step(s, st, x1).0;
            let (n, acts) = spec_click_step(s, mid, x2);
            &&& mid.peak_after_down >= x1.pressure
            &&& !n.force_up_pending
            &&& acts.len() > 0
            &&& acts[0] == ClickAction::Note(
                ClickNote::ForceRelease {
                    pressure: x2.pressure,
                    peak: mid.peak_after_down,
                    reason: ForceReleaseReason::Drop,
                },
            )
        }),
{
    let mid = spec_click_step(s, st, x1).0;
    lemma_peak_tracks_pressure(s, st, x1);
    lemma_click_step_keeps_wf(s, st, x1);
    lemma_drop_releases_force(s, mid, x2);
}

/// A force click begins only from a held normal click (stage 1) or a
/// re-armed force release (stage 3), only at or above the force threshold in
/// effect and above the reset threshold, and it sends the force-down haptic.
pub proof fn lemma_force_click_needs_threshold(s: ClickSettings, st: ClickState, x: ClickSample)
    requires
        click_state_wf(st),
        st.stage != 2,
        spec_click_step(s, st, x).0.stage == 2,
    ensures
        st.stage == 1 || st.stage == 3,
        x.pressure >= spec_active_force_threshold(s, st),
        x.pressure > s.reset_threshold,
        spec_click_step(s, st, x).1.contains(ClickAction::Haptic(HapticKind::ForceDown)),
{
    let (n, acts) = spec_click_step(s, st, x);
    let last = acts.len() - 1;
    assert(acts[last] == ClickAction::Haptic(HapticKind::ForceDown));
}

} // verus!

verus! {

/// The effects when the daemon stops: a held force click is released, then
/// a held normal click (dropping a held-back left click first).
pub open spec fn spec_exit_actions(st: ClickState) -> Seq<ClickAction> {
    let a1 = if st.force_up_pending {
        seq![ClickAction::MouseForceUp, ClickAction::Haptic(HapticKind::ForceUp)]
    } else {
        Seq::<ClickAction>::empty()
    };
    if st.normal_up_pending {
        let a2 = if st.pending_normal_button is Some {
            a1.push(ClickAction::Note(ClickNote::PendingLeftCancel { reason: CancelReason::Exit }))
        } else {
            a1
        };
        a2.push(ClickAction::MouseNormalUp).push(ClickAction::Haptic(HapticKind::NormalUp))
    } else {
        a1
    }
}

/// The effects that release whatever is held when the daemon stops.
pub fn exit_actions(st: &ClickState) -> (acts: Vec<ClickAction>)
    ensures
        acts@ == spec_exit_actions(*st),
{
    let mut acts: Vec<ClickAction> = Vec::new();
    if st.force_up_pending {
        acts.push(ClickAction::MouseForceUp);
        acts.push(ClickAction::Haptic(HapticKind::ForceUp));
    }
    if st.normal_up_pending {
        if st.pending_normal_button.is_some() {
            acts.push(ClickAction::Note(ClickNote::PendingLeftCancel { reason: CancelReason::Exit }));
        }
        acts.push(ClickAction::MouseNormalUp);
        acts.push(ClickAction::Haptic(HapticKind::NormalUp));
    }
    assert(acts@ =~= spec_exit_actions(*st));
    acts
}

} // verus!

use force_touch::buttons::{BTN_LEFT, BTN_RIGHT};
use force_touch::click::{
    CancelReason, ClickAction, ClickNote, ClickSample, ClickSettings, ClickState, ForceReleaseReason, HapticKind,
    PendingReason, RearmCause, ReleaseDecision, active_force_threshold, click_step, exit_actions,
    should_fire_release, commit_pending_normal_input,
};
use force_touch::settings::{Config, click_settings};

fn defaults() -> ClickSettings {
    click_settings(&Config::default(), true, true)
}

fn sample(pressure: i32, touch_count: usize) -> ClickSample {
    ClickSample {
        pressure,
        touch_count,
        lockout_active: false,
        rate_release: false,
        drag_movement_reached: false,
        double_click_window_open: false,
        gap_elapsed: true,
        recent_force_release: false,
        fresh_release_suppresses: true,
        pending_motion_reached: false,
    }
}

#[test]
fn release_decisions() {
    assert_eq!(should_fire_release(35, 35, 18, 100, true, true), ReleaseDecision::Threshold);
    assert_eq!(should_fire_release(80, 35, 18, 100, true, true), ReleaseDecision::Hold);
    assert_eq!(should_fire_release(80, 35, 18, 100, false, false), ReleaseDecision::Drop);
    assert_eq!(should_fire_release(90, 35, 18, 100, false, true), ReleaseDecision::Rate);
    assert_eq!(should_fire_release(90, 35, 18, 100, false, false), ReleaseDecision::Hold);
    assert_eq!(should_fire_release(90, 35, 18, 0, false, false), ReleaseDecision::Hold);
}

#[test]
fn two_finger_click_emits_right_button() {
    let s = defaults();
    let st = ClickState::new();
    let (st, acts) = click_step(&s, &st, &sample(80, 2));
    assert_eq!(
        acts,
        vec![
            ClickAction::Note(ClickNote::NormalClick {
                pressure: 80,
                button: BTN_RIGHT,
                fingers: 2,
                deferred: false,
                force_threshold: 165,
                double_click_guard: false,
            }),
            ClickAction::ArmNormal { touch_count: 2, deferred: false },
            ClickAction::MouseNormalDown { button: BTN_RIGHT },
            ClickAction::Haptic(HapticKind::NormalDown),
            ClickAction::ClickDragStart { left: false },
        ]
    );
    assert_eq!(st.stage, 1);
    assert!(st.normal_up_pending);
    assert_eq!(st.peak_after_down, 80);

    let (st, acts) = click_step(&s, &st, &sample(50, 2));
    assert_eq!(
        acts,
        vec![
            ClickAction::Note(ClickNote::NormalRelease { pressure: 50, peak: 80, threshold: 60 }),
            ClickAction::MouseNormalUp,
            ClickAction::Haptic(HapticKind::NormalUp),
            ClickAction::NormalReleaseTime,
            ClickAction::Note(ClickNote::ReArmed { pressure: 50, cause: RearmCause::NormalRelease }),
        ]
    );
    assert_eq!(st, ClickState::new());
}

#[test]
fn three_finger_click_is_middle() {
    let (_, acts) = click_step(&defaults(), &ClickState::new(), &sample(70, 3));
    assert!(acts.contains(&ClickAction::MouseNormalDown { button: 0x112 }));
}

#[test]
fn below_normal_threshold_nothing_happens() {
    let (st, acts) = click_step(&defaults(), &ClickState::new(), &sample(69, 1));
    assert!(acts.is_empty());
    assert_eq!(st, ClickState::new());
}

#[test]
fn force_click_replaces_held_back_left_click() {
    let s = defaults();
    let (st, acts) = click_step(&s, &ClickState::new(), &sample(80, 1));
    assert_eq!(
        acts,
        vec![
            ClickAction::Note(ClickNote::NormalClick {
                pressure: 80,
                button: BTN_LEFT,
                fingers: 1,
                deferred: true,
                force_threshold: 165,
                double_click_guard: false,
            }),
            ClickAction::ArmNormal { touch_count: 1, deferred: true },
            ClickAction::Haptic(HapticKind::NormalDown),
            ClickAction::ClickDragStart { left: true },
        ]
    );
    assert_eq!(st.pending_normal_button, Some(BTN_LEFT));

    let mut x = sample(170, 1);
    x.gap_elapsed = false;
    let (st, acts) = click_step(&s, &st, &x);
    assert_eq!(
        acts,
        vec![
            ClickAction::Note(ClickNote::ForceClick { pressure: 170, threshold: 165, re_force: false }),
            ClickAction::Note(ClickNote::PendingLeftCancel { reason: CancelReason::ForceClick }),
            ClickAction::MouseForceDown,
            ClickAction::Haptic(HapticKind::ForceDown),
        ]
    );
    assert_eq!(st.stage, 2);
    assert!(st.force_up_pending);
    assert_eq!(st.pending_normal_button, None);

    let (st, acts) = click_step(&s, &st, &sample(150, 1));
    assert_eq!(
        acts,
        vec![
            ClickAction::Note(ClickNote::ForceRelease { pressure: 150, peak: 170, reason: ForceReleaseReason::Drop }),
            ClickAction::MouseForceUp,
            ClickAction::Haptic(HapticKind::ForceUp),
            ClickAction::ForceReleaseTime,
        ]
    );
    assert_eq!(st.stage, 3);

    let (st, acts) = click_step(&s, &st, &sample(20, 1));
    assert_eq!(
        acts,
        vec![
            ClickAction::Note(ClickNote::NormalReleaseAfterForce { pressure: 20, reset: false, suppressed: false }),
            ClickAction::MouseNormalUp,
            ClickAction::Haptic(HapticKind::NormalUp),
            ClickAction::NormalReleaseTime,
            ClickAction::Note(ClickNote::ReArmed { pressure: 20, cause: RearmCause::ForceUpperRelease }),
        ]
    );
    assert_eq!(st, ClickState::new());
}

#[test]
fn held_back_left_click_commits_on_release() {
    let s = defaults();
    let (st, _) = click_step(&s, &ClickState::new(), &sample(80, 1));
    let (st, acts) = click_step(&s, &st, &sample(40, 1));
    assert_eq!(
        acts,
        vec![
            ClickAction::Note(ClickNote::NormalRelease { pressure: 40, peak: 80, threshold: 60 }),
            ClickAction::Note(ClickNote::PendingLeftDown { reason: PendingReason::NormalRelease }),
            ClickAction::MouseNormalDown { button: BTN_LEFT },
            ClickAction::MouseNormalUp,
            ClickAction::Haptic(HapticKind::NormalUp),
            ClickAction::NormalReleaseTime,
            ClickAction::Note(ClickNote::ReArmed { pressure: 40, cause: RearmCause::NormalRelease }),
        ]
    );
    assert_eq!(st.stage, 0);
}

#[test]
fn held_back_left_click_commits_on_motion() {
    let s = defaults();
    let (st, _) = click_step(&s, &ClickState::new(), &sample(80, 1));
    let mut x = sample(90, 1);
    x.pending_motion_reached = true;
    let (st, acts) = click_step(&s, &st, &x);
    assert_eq!(
        acts,
        vec![
            ClickAction::Note(ClickNote::PendingLeftDown { reason: PendingReason::Motion }),
            ClickAction::MouseNormalDown { button: BTN_LEFT },
        ]
    );
    assert_eq!(st.pending_normal_button, None);
    assert_eq!(st.peak_after_down, 90);
}

#[test]
fn pending_timeout_commits() {
    let s = defaults();
    let (mut st, _) = click_step(&s, &ClickState::new(), &sample(80, 1));
    let mut acts = Vec::new();
    commit_pending_normal_input(&mut st, &mut acts, PendingReason::Timeout);
    assert_eq!(
        acts,
        vec![
            ClickAction::Note(ClickNote::PendingLeftDown { reason: PendingReason::Timeout }),
            ClickAction::MouseNormalDown { button: BTN_LEFT },
        ]
    );
    let mut again = Vec::new();
    commit_pending_normal_input(&mut st, &mut again, PendingReason::Timeout);
    assert!(again.is_empty());
}

#[test]
fn reset_releases_force_and_normal() {
    let s = defaults();
    let (st, _) = click_step(&s, &ClickState::new(), &sample(80, 2));
    let (st, _) = click_step(&s, &st, &sample(200, 2));
    assert_eq!(st.stage, 2);
    let mut x = sample(10, 2);
    x.fresh_release_suppresses = true;
    let (st, acts) = click_step(&s, &st, &x);
    assert_eq!(
        acts,
        vec![
            ClickAction::Note(ClickNote::ForceRelease { pressure: 10, peak: 200, reason: ForceReleaseReason::Threshold }),
            ClickAction::MouseForceUp,
            ClickAction::Haptic(HapticKind::ForceUp),
            ClickAction::ForceReleaseTime,
            ClickAction::Note(ClickNote::NormalReleaseAfterForce { pressure: 10, reset: false, suppressed: true }),
            ClickAction::MouseNormalUp,
            ClickAction::NormalReleaseTime,
            ClickAction::Note(ClickNote::ReArmed { pressure: 10, cause: RearmCause::ForceUpperRelease }),
        ]
    );
    assert_eq!(st, ClickState::new());
}

#[test]
fn stacked_release_pause_when_not_suppressed() {
    let s = defaults();
    let (st, _) = click_step(&s, &ClickState::new(), &sample(80, 2));
    let (st, _) = click_step(&s, &st, &sample(200, 2));
    let mut x = sample(10, 2);
    x.fresh_release_suppresses = false;
    let (_, acts) = click_step(&s, &st, &x);
    assert_eq!(acts[4], ClickAction::StackedReleasePause);
    assert!(acts.contains(&ClickAction::Haptic(HapticKind::NormalUp)));
}

#[test]
fn force_rearm_and_reforce() {
    let s = defaults();
    let (st, _) = click_step(&s, &ClickState::new(), &sample(80, 2));
    let (st, _) = click_step(&s, &st, &sample(200, 2));
    let (st, _) = click_step(&s, &st, &sample(150, 2));
    assert_eq!(st.stage, 3);
    let (st, acts) = click_step(&s, &st, &sample(120, 2));
    assert_eq!(acts, vec![ClickAction::Note(ClickNote::ForceReArmed { pressure: 120 })]);
    assert!(st.force_rearmed);
    let (st, acts) = click_step(&s, &st, &sample(170, 2));
    assert_eq!(
        acts,
        vec![
            ClickAction::Note(ClickNote::ForceClick { pressure: 170, threshold: 165, re_force: true }),
            ClickAction::MouseForceDown,
            ClickAction::Haptic(HapticKind::ForceDown),
        ]
    );
    assert_eq!(st.stage, 2);
}

#[test]
fn double_click_guard_raises_force_threshold() {
    let s = defaults();
    let mut x = sample(80, 1);
    x.double_click_window_open = true;
    let (st, acts) = click_step(&s, &ClickState::new(), &x);
    assert!(st.double_click_force_guard);
    assert_eq!(active_force_threshold(&s, &st), 220);
    assert!(matches!(acts[0], ClickAction::Note(ClickNote::NormalClick { force_threshold: 220, double_click_guard: true, .. })));
    let (st, _) = click_step(&s, &st, &sample(200, 1));
    assert_eq!(st.stage, 1);
    assert_eq!(st.peak_after_down, 200);
}

#[test]
fn drag_release_uses_lower_threshold() {
    let s = defaults();
    let (st, _) = click_step(&s, &ClickState::new(), &sample(80, 2));
    let mut x = sample(50, 2);
    x.drag_movement_reached = true;
    let (st, acts) = click_step(&s, &st, &x);
    assert_eq!(acts, vec![ClickAction::Note(ClickNote::ClickDragActive)]);
    assert!(st.click_drag_active);
    assert_eq!(st.stage, 1);
    let (st, acts) = click_step(&s, &st, &sample(30, 2));
    assert_eq!(acts[0], ClickAction::Note(ClickNote::NormalRelease { pressure: 30, peak: 80, threshold: 30 }));
    assert_eq!(st.stage, 0);
}

#[test]
fn exit_releases_everything() {
    let s = defaults();
    let (st, _) = click_step(&s, &ClickState::new(), &sample(80, 2));
    let (st, _) = click_step(&s, &st, &sample(200, 2));
    assert_eq!(
        exit_actions(&st),
        vec![
            ClickAction::MouseForceUp,
            ClickAction::Haptic(HapticKind::ForceUp),
            ClickAction::MouseNormalUp,
            ClickAction::Haptic(HapticKind::NormalUp),
        ]
    );
    let (held, _) = click_step(&s, &ClickState::new(), &sample(80, 1));
    assert_eq!(
        exit_actions(&held),
        vec![
            ClickAction::Note(ClickNote::PendingLeftCancel { reason: CancelReason::Exit }),
            ClickAction::MouseNormalUp,
            ClickAction::Haptic(HapticKind::NormalUp),
        ]
    );
    assert!(exit_actions(&ClickState::new()).is_empty());
}

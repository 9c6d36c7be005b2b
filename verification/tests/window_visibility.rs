use respondent_lib::window_visibility::{
    now_ms, should_handle_windows_numpad_enter, ShowAction, should_wake_from_key_event, ToggleAction,
    VisibilityDebounce, HC_ACTION, WM_KEYDOWN, WM_SYSKEYDOWN,
};

const VK_RETURN_CODE: u32 = 0x0d;
const LLKHF_EXTENDED_FLAG: u32 = 0x01;
const LLKHF_UP_FLAG: u32 = 0x80;

#[test]
fn hide_request_is_ignored_immediately_after_show() {
    let mut debounce = VisibilityDebounce::new();
    debounce.mark_windows_shown();
    assert!(debounce.should_ignore_hide_request());
}

#[test]
fn windows_wake_shortcut_accepts_only_numpad_enter_key_down() {
    assert!(should_handle_windows_numpad_enter(
        VK_RETURN_CODE,
        LLKHF_EXTENDED_FLAG
    ));
    assert!(!should_handle_windows_numpad_enter(VK_RETURN_CODE, 0));
    assert!(!should_handle_windows_numpad_enter(
        VK_RETURN_CODE,
        LLKHF_EXTENDED_FLAG | LLKHF_UP_FLAG
    ));
}

#[test]
fn debounce_windows_are_three_hundred_ms() {
    let mut d = VisibilityDebounce::new();
    d.mark_windows_shown_at(10_000);
    assert!(d.should_ignore_hide_request_at(10_000));
    assert!(d.should_ignore_hide_request_at(10_299));
    assert!(!d.should_ignore_hide_request_at(10_300));
    assert!(d.should_ignore_hide_request_at(5));
    d.mark_windows_hidden_at(20_000);
    assert!(d.should_ignore_show_request_at(20_299));
    assert!(!d.should_ignore_show_request_at(20_300));
    assert!(!d.should_ignore_hide_request_at(20_000));
}

#[test]
fn fresh_debounce_ignores_nothing_at_current_time() {
    let d = VisibilityDebounce::new();
    assert!(!d.should_ignore_show_request());
    assert!(!d.should_ignore_hide_request());
    assert!(now_ms() > 1_600_000_000_000);
}

#[test]
fn toggle_plan_follows_visibility_and_debounce() {
    let mut d = VisibilityDebounce::new();
    assert_eq!(d.plan_toggle_at(false, 1_000), ToggleAction::ShowMain);
    assert_eq!(d.plan_toggle_at(true, 1_000), ToggleAction::HideAll);
    d.mark_windows_shown_at(1_000);
    assert_eq!(d.plan_toggle_at(true, 1_100), ToggleAction::KeepShown);
    assert_eq!(d.plan_toggle_at(true, 1_300), ToggleAction::HideAll);
    assert_eq!(d.plan_toggle_at(false, 1_100), ToggleAction::ShowMain);
}

#[test]
fn keyboard_hook_wakes_only_for_numpad_enter_presses() {
    assert!(should_wake_from_key_event(HC_ACTION, true, WM_KEYDOWN, 0x0d, 0x01));
    assert!(should_wake_from_key_event(HC_ACTION, true, WM_SYSKEYDOWN, 0x0d, 0x01));
    assert!(!should_wake_from_key_event(HC_ACTION, false, WM_KEYDOWN, 0x0d, 0x01));
    assert!(!should_wake_from_key_event(1, true, WM_KEYDOWN, 0x0d, 0x01));
    assert!(!should_wake_from_key_event(HC_ACTION, true, 0x0101, 0x0d, 0x01));
    assert!(!should_wake_from_key_event(HC_ACTION, true, WM_KEYDOWN, 0x0e, 0x01));
    assert!(!should_wake_from_key_event(HC_ACTION, true, WM_KEYDOWN, 0x0d, 0x00));
}

#[test]
fn show_plan_checks_debounce_before_visibility() {
    let mut d = VisibilityDebounce::new();
    d.mark_windows_hidden_at(5_000);
    assert_eq!(d.plan_show_at(false, 5_100), ShowAction::Ignore);
    assert_eq!(d.plan_show_at(true, 5_100), ShowAction::Ignore);
    assert_eq!(d.plan_show_at(true, 5_300), ShowAction::AlreadyVisible);
    assert_eq!(d.plan_show_at(false, 5_300), ShowAction::Show);
}

#[test]
fn toggle_reports_the_visibility_it_leaves() {
    let mut d = VisibilityDebounce::new();
    d.mark_windows_hidden_at(8_000);
    assert_eq!(d.plan_toggle_at(false, 8_100), ToggleAction::ShowMain);
    assert!(!d.toggled_visibility_at(false, 8_100));
    assert!(d.toggled_visibility_at(false, 8_400));
    d.mark_windows_shown_at(9_000);
    assert!(d.toggled_visibility_at(true, 9_100));
    assert!(!d.toggled_visibility_at(true, 9_300));
}

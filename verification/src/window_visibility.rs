//! When the overlay window is shown or hidden: debouncing of show and hide
//! requests, the toggle decision, and which key events wake the window.

use vstd::prelude::*;
use crate::clock::unix_millis;

verus! {

/// A show request this soon (in ms) after the windows were hidden is ignored.
pub const SHOW_DEBOUNCE_MS: u64 = 300;

/// A hide request this soon (in ms) after the main window was shown is ignored.
pub const HIDE_DEBOUNCE_MS: u64 = 300;

/// The Win32 virtual-key code of the Enter keys.
pub const VK_RETURN: u32 = 0x0d;

/// The Win32 low-level keyboard flag of an extended key (numpad Enter).
pub const LLKHF_EXTENDED: u32 = 0x01;

/// The Win32 low-level keyboard flag of a key release.
pub const LLKHF_UP: u32 = 0x80;

/// The Win32 hook code of an event that the hook must process.
pub const HC_ACTION: i32 = 0;

/// The Win32 message of a key press.
pub const WM_KEYDOWN: usize = 0x0100;

/// The Win32 message of a key press with Alt held or no window focused.
pub const WM_SYSKEYDOWN: usize = 0x0104;

/// Milliseconds since the Unix epoch, as a `u64`; `0` when the clock is set
/// before the epoch. Nothing is stated of the value: it is the time.
pub fn now_ms() -> u64 {
    match unix_millis() {
        Some(ms) => ms as u64,
        None => 0,
    }
}

/// When the windows were last hidden and last shown.
pub struct VisibilityDebounce {
    last_hide_ms: u64,
    last_show_ms: u64,
}

/// The mathematical value of a [`VisibilityDebounce`].
pub struct VisibilityTimes {
    pub last_hide_ms: int,
    pub last_show_ms: int,
}

impl View for VisibilityDebounce {
    type V = VisibilityTimes;

    closed spec fn view(&self) -> VisibilityTimes {
        VisibilityTimes {
            last_hide_ms: self.last_hide_ms as int,
            last_show_ms: self.last_show_ms as int,
        }
    }
}

/// Milliseconds from `since` to `now`, or `0` when `now` is earlier.
pub open spec fn elapsed_ms(now: int, since: int) -> int {
    if now > since {
        now - since
    } else {
        0
    }
}

/// A show request at `now` is ignored while the last hide is under
/// [`SHOW_DEBOUNCE_MS`] old.
pub open spec fn ignores_show(t: VisibilityTimes, now: int) -> bool {
    elapsed_ms(now, t.last_hide_ms) < SHOW_DEBOUNCE_MS
}

/// A hide request at `now` is ignored while the last show is under
/// [`HIDE_DEBOUNCE_MS`] old.
pub open spec fn ignores_hide(t: VisibilityTimes, now: int) -> bool {
    elapsed_ms(now, t.last_show_ms) < HIDE_DEBOUNCE_MS
}

/// What toggling the main window does.
#[derive(Debug, Clone, Copy, PartialEq, Eq)]
pub enum ToggleAction {
    /// The window was shown too recently: it stays shown.
    KeepShown,
    /// Hide every window.
    HideAll,
    /// Show the main window.
    ShowMain,
}

/// What a request to show the main window does.
#[derive(Debug, Clone, Copy, PartialEq, Eq)]
pub enum ShowAction {
    /// The windows were hidden too recently: the request is ignored.
    Ignore,
    /// The main window is already visible: nothing to do.
    AlreadyVisible,
    /// Show and focus the main window.
    Show,
}

/// What a show request does at `now` when the main window's visibility is
/// `visible`: the debounce comes first, then the visibility.
pub open spec fn show_action(t: VisibilityTimes, visible: bool, now: int) -> ShowAction {
    if ignores_show(t, now) {
        ShowAction::Ignore
    } else if visible {
        ShowAction::AlreadyVisible
    } else {
        ShowAction::Show
    }
}

/// What toggling does when the main window's visibility is `visible`.
pub open spec fn toggle_action(t: VisibilityTimes, visible: bool, now: int) -> ToggleAction {
    if visible {
        if ignores_hide(t, now) {
            ToggleAction::KeepShown
        } else {
            ToggleAction::HideAll
        }
    } else {
        ToggleAction::ShowMain
    }
}

/// Whether the main window is visible after a toggle at `now` from
/// visibility `visible`: a visible window stays visible only when the hide is
/// debounced; a hidden one becomes visible unless the show is debounced.
pub open spec fn toggled_visibility(t: VisibilityTimes, visible: bool, now: int) -> bool {
    if visible {
        ignores_hide(t, now)
    } else {
        !ignores_show(t, now)
    }
}

impl VisibilityDebounce {
    /// No show or hide recorded yet.
    pub fn new() -> (r: Self)
        ensures
            r@ == (VisibilityTimes { last_hide_ms: 0, last_show_ms: 0 }),
    {
        VisibilityDebounce { last_hide_ms: 0, last_show_ms: 0 }
    }

    /// Records that the windows were hidden at `now`.
    pub fn mark_windows_hidden_at(&mut self, now: u64)
        ensures
            final(self)@ == (VisibilityTimes { last_hide_ms: now as int, ..old(self)@ }),
    {
        self.last_hide_ms = now;
    }

    /// Records that the main window was shown at `now`.
    pub fn mark_windows_shown_at(&mut self, now: u64)
        ensures
            final(self)@ == (VisibilityTimes { last_show_ms: now as int, ..old(self)@ }),
    {
        self.last_show_ms = now;
    }

    /// Records that the windows were hidden now, by the wall clock, and
    /// returns the time read, which is the recorded hide time.
    pub fn mark_windows_hidden(&mut self) -> (now: u64)
        ensures
            final(self)@ == (VisibilityTimes { last_hide_ms: now as int, ..old(self)@ }),
    {
        let now = now_ms();
        self.mark_windows_hidden_at(now);
        now
    }

    /// Records that the main window was shown now, by the wall clock, and
    /// returns the time read, which is the recorded show time.
    pub fn mark_windows_shown(&mut self) -> (now: u64)
        ensures
            final(self)@ == (VisibilityTimes { last_show_ms: now as int, ..old(self)@ }),
    {
        let now = now_ms();
        self.mark_windows_shown_at(now);
        now
    }

    /// Whether a show request at `now` is to be ignored.
    pub fn should_ignore_show_request_at(&self, now: u64) -> (r: bool)
        ensures
            r == ignores_show(self@, now as int),
    {
        now.saturating_sub(self.last_hide_ms) < SHOW_DEBOUNCE_MS
    }

    /// Whether a hide request at `now` is to be ignored.
    pub fn should_ignore_hide_request_at(&self, now: u64) -> (r: bool)
        ensures
            r == ignores_hide(self@, now as int),
    {
        now.saturating_sub(self.last_show_ms) < HIDE_DEBOUNCE_MS
    }

    /// Whether a show request now, by the wall clock, is to be ignored.
    /// Nothing is stated of the answer beyond what
    /// [`Self::should_ignore_show_request_at`] says for the time read.
    pub fn should_ignore_show_request(&self) -> bool {
        self.should_ignore_show_request_at(now_ms())
    }

    /// Whether a hide request now, by the wall clock, is to be ignored.
    /// Nothing is stated of the answer beyond what
    /// [`Self::should_ignore_hide_request_at`] says for the time read.
    pub fn should_ignore_hide_request(&self) -> bool {
        self.should_ignore_hide_request_at(now_ms())
    }

    /// What a show request does at `now`, given whether the main window is visible.
    pub fn plan_show_at(&self, visible: bool, now: u64) -> (r: ShowAction)
        ensures
            r == show_action(self@, visible, now as int),
    {
        if self.should_ignore_show_request_at(now) {
            ShowAction::Ignore
        } else if visible {
            ShowAction::AlreadyVisible
        } else {
            ShowAction::Show
        }
    }

    /// The visibility a toggle at `now` reports: whether the main window is
    /// visible afterwards.
    pub fn toggled_visibility_at(&self, visible: bool, now: u64) -> (r: bool)
        ensures
            r == toggled_visibility(self@, visible, now as int),
    {
        if visible {
            self.should_ignore_hide_request_at(now)
        } else {
            !self.should_ignore_show_request_at(now)
        }
    }

    /// What toggling the main window does at `now`, given whether it is visible.
    pub fn plan_toggle_at(&self, visible: bool, now: u64) -> (r: ToggleAction)
        ensures
            r == toggle_action(self@, visible, now as int),
    {
        if visible {
            if self.should_ignore_hide_request_at(now) {
                ToggleAction::KeepShown
            } else {
                ToggleAction::HideAll
            }
        } else {
            ToggleAction::ShowMain
        }
    }
}

/// A hide request within [`HIDE_DEBOUNCE_MS`] after a show is ignored, and
/// one at least that long after it is not.
pub proof fn hide_is_debounced_after_show(t: VisibilityTimes, shown_at: int, now: int)
    requires
        shown_at >= 0,
    ensures
        now < shown_at + HIDE_DEBOUNCE_MS ==> ignores_hide(
            VisibilityTimes { last_show_ms: shown_at, ..t },
            now,
        ),
        now >= shown_at + HIDE_DEBOUNCE_MS ==> !ignores_hide(
            VisibilityTimes { last_show_ms: shown_at, ..t },
            now,
        ),
{
}

/// A show request within [`SHOW_DEBOUNCE_MS`] after a hide is ignored, and
/// one at least that long after it is not.
pub proof fn show_is_debounced_after_hide(t: VisibilityTimes, hidden_at: int, now: int)
    requires
        hidden_at >= 0,
    ensures
        now < hidden_at + SHOW_DEBOUNCE_MS ==> ignores_show(
            VisibilityTimes { last_hide_ms: hidden_at, ..t },
            now,
        ),
        now >= hidden_at + SHOW_DEBOUNCE_MS ==> !ignores_show(
            VisibilityTimes { last_hide_ms: hidden_at, ..t },
            now,
        ),
{
}

/// Right after the windows are hidden at `hidden_at`, a show request at that
/// same time is ignored, whether or not the main window is visible; right
/// after the main window is shown at `shown_at`, a hide request then is
/// ignored and a toggle keeps the window shown.
pub proof fn requests_at_the_recorded_time_are_debounced(
    t: VisibilityTimes,
    hidden_at: int,
    shown_at: int,
    visible: bool,
)
    requires
        hidden_at >= 0,
        shown_at >= 0,
    ensures
        ignores_show(VisibilityTimes { last_hide_ms: hidden_at, ..t }, hidden_at),
        show_action(VisibilityTimes { last_hide_ms: hidden_at, ..t }, visible, hidden_at)
            == ShowAction::Ignore,
        ignores_hide(VisibilityTimes { last_show_ms: shown_at, ..t }, shown_at),
        toggle_action(VisibilityTimes { last_show_ms: shown_at, ..t }, true, shown_at)
            == ToggleAction::KeepShown,
{
}

/// A toggle of a hidden main window asks to show it, and the show happens
/// unless the windows were hidden within [`SHOW_DEBOUNCE_MS`]; a toggle of a
/// visible one hides it unless it was shown within [`HIDE_DEBOUNCE_MS`].
pub proof fn toggle_of_hidden_window_shows_unless_debounced(t: VisibilityTimes, now: int)
    ensures
        toggle_action(t, false, now) == ToggleAction::ShowMain,
        show_action(t, false, now) == ShowAction::Show <==> !ignores_show(t, now),
        toggle_action(t, true, now) == ToggleAction::KeepShown <==> ignores_hide(t, now),
{
}

/// The visibility a toggle reports is what its action leaves: shown when it
/// keeps the window, hidden when it hides all windows, and, when it asks to
/// show the window, shown exactly when the show is carried out.
pub proof fn toggle_reports_resulting_visibility(t: VisibilityTimes, visible: bool, now: int)
    ensures
        toggled_visibility(t, visible, now) == match toggle_action(t, visible, now) {
            ToggleAction::KeepShown => true,
            ToggleAction::HideAll => false,
            ToggleAction::ShowMain => show_action(t, false, now) == ShowAction::Show,
        },
{
}

/// A key event wakes the window when it is numpad Enter going down: the Enter
/// key code with the extended flag set and the key-up flag clear.
pub open spec fn is_numpad_enter_down(vk_code: u32, flags: u32) -> bool {
    vk_code == VK_RETURN && flags & LLKHF_EXTENDED != 0 && flags & LLKHF_UP == 0
}

/// Whether a low-level keyboard event is numpad Enter going down.
pub fn should_handle_windows_numpad_enter(vk_code: u32, flags: u32) -> (r: bool)
    ensures
        r == is_numpad_enter_down(vk_code, flags),
{
    vk_code == VK_RETURN && flags & LLKHF_EXTENDED != 0 && flags & LLKHF_UP == 0
}

/// Whether the keyboard hook wakes the window for an event: the hook must
/// process it, the wake shortcut must be enabled, the message must be a key
/// press, and the key numpad Enter going down.
pub open spec fn hook_wakes(
    code: i32,
    enabled: bool,
    message: usize,
    vk_code: u32,
    flags: u32,
) -> bool {
    &&& code == HC_ACTION
    &&& enabled
    &&& (message == WM_KEYDOWN || message == WM_SYSKEYDOWN)
    &&& is_numpad_enter_down(vk_code, flags)
}

/// Decides whether the keyboard hook wakes the window for an event.
pub fn should_wake_from_key_event(
    code: i32,
    enabled: bool,
    message: usize,
    vk_code: u32,
    flags: u32,
) -> (r: bool)
    ensures
        r == hook_wakes(code, enabled, message, vk_code, flags),
{
    code == HC_ACTION && enabled && (message == WM_KEYDOWN || message == WM_SYSKEYDOWN)
        && should_handle_windows_numpad_enter(vk_code, flags)
}

} // verus!

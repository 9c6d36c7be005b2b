//! Window appearance settings: opacity, blur and colour theme, kept within
//! the ranges the overlay window supports.

use vstd::prelude::*;
use vstd::string::*;

verus! {

/// Name of the event that announces new appearance settings to the webviews.
pub const APPEARANCE_SETTINGS_EVENT: &'static str = "appearance-settings-changed";

/// Lowest window opacity, in percent.
pub const MIN_WINDOW_OPACITY: u8 = 55;

/// Highest window opacity, in percent.
pub const MAX_WINDOW_OPACITY: u8 = 92;

/// Lowest background blur radius.
pub const MIN_WINDOW_BLUR: u8 = 8;

/// Highest background blur radius.
pub const MAX_WINDOW_BLUR: u8 = 32;

/// How the overlay window looks.
#[derive(Debug, Clone, PartialEq, Eq)]
pub struct AppearanceSettings {
    pub window_opacity: u8,
    pub window_blur: u8,
    pub appearance_theme: String,
}

/// The mathematical value of [`AppearanceSettings`].
pub struct AppearanceModel {
    pub window_opacity: int,
    pub window_blur: int,
    pub appearance_theme: Seq<char>,
}

impl View for AppearanceSettings {
    type V = AppearanceModel;

    open spec fn view(&self) -> AppearanceModel {
        AppearanceModel {
            window_opacity: self.window_opacity as int,
            window_blur: self.window_blur as int,
            appearance_theme: self.appearance_theme@,
        }
    }
}

/// `v` brought into `lo..=hi`.
pub open spec fn clamp_int(v: int, lo: int, hi: int) -> int {
    if v < lo {
        lo
    } else if v > hi {
        hi
    } else {
        v
    }
}

/// The theme name that a requested theme stands for: `"light"` stays, anything else is `"dark"`.
pub open spec fn theme_for(requested: Seq<char>) -> Seq<char> {
    if requested == "light"@ {
        "light"@
    } else {
        "dark"@
    }
}

/// What `normalize_appearance_settings` makes of `s`.
pub open spec fn normalized_appearance(s: AppearanceModel) -> AppearanceModel {
    AppearanceModel {
        window_opacity: clamp_int(
            s.window_opacity,
            MIN_WINDOW_OPACITY as int,
            MAX_WINDOW_OPACITY as int,
        ),
        window_blur: clamp_int(s.window_blur, MIN_WINDOW_BLUR as int, MAX_WINDOW_BLUR as int),
        appearance_theme: theme_for(s.appearance_theme),
    }
}

/// Settings within the supported ranges, with a known theme.
pub open spec fn is_normalized_appearance(s: AppearanceModel) -> bool {
    &&& MIN_WINDOW_OPACITY <= s.window_opacity <= MAX_WINDOW_OPACITY
    &&& MIN_WINDOW_BLUR <= s.window_blur <= MAX_WINDOW_BLUR
    &&& (s.appearance_theme == "light"@ || s.appearance_theme == "dark"@)
}

/// The settings used when nothing valid was stored.
pub open spec fn default_appearance() -> AppearanceModel {
    AppearanceModel { window_opacity: 72, window_blur: 24, appearance_theme: "dark"@ }
}

impl Default for AppearanceSettings {
    fn default() -> (r: Self)
        ensures
            r@ == default_appearance(),
    {
        AppearanceSettings {
            window_opacity: 72,
            window_blur: 24,
            appearance_theme: String::from_str("dark"),
        }
    }
}

fn clamp_u8(v: u8, lo: u8, hi: u8) -> (r: u8)
    requires
        lo <= hi,
    ensures
        r as int == clamp_int(v as int, lo as int, hi as int),
{
    if v < lo {
        lo
    } else if v > hi {
        hi
    } else {
        v
    }
}

/// Clamps opacity and blur into their supported ranges and maps any theme
/// other than `"light"` to `"dark"`.
pub fn normalize_appearance_settings(settings: AppearanceSettings) -> (r: AppearanceSettings)
    ensures
        r@ == normalized_appearance(settings@),
{
    let light = String::from_str("light");
    let theme = if settings.appearance_theme == light {
        String::from_str("light")
    } else {
        String::from_str("dark")
    };
    AppearanceSettings {
        window_opacity: clamp_u8(settings.window_opacity, MIN_WINDOW_OPACITY, MAX_WINDOW_OPACITY),
        window_blur: clamp_u8(settings.window_blur, MIN_WINDOW_BLUR, MAX_WINDOW_BLUR),
        appearance_theme: theme,
    }
}

/// The settings to start from, given what could be read back from storage:
/// the stored settings normalized, or the defaults when nothing could be read.
fn load_settings(stored: Option<AppearanceSettings>) -> (r: AppearanceSettings)
    ensures
        r@ == match stored {
            Some(s) => normalized_appearance(s@),
            None => default_appearance(),
        },
        is_normalized_appearance(r@),
{
    match stored {
        Some(s) => {
            proof {
                normalized_appearance_is_normalized(s@);
            }
            normalize_appearance_settings(s)
        },
        None => {
            proof {
                default_appearance_is_normalized();
            }
            AppearanceSettings::default()
        },
    }
}

/// The current appearance settings of the running application, together with
/// the file they are kept in.
pub struct AppearanceSettingsStore {
    path: String,
    settings: AppearanceSettings,
}

impl AppearanceSettingsStore {
    #[verifier::type_invariant]
    spec fn inv(self) -> bool {
        is_normalized_appearance(self.settings@)
    }

    /// The settings the store holds.
    pub closed spec fn current(self) -> AppearanceModel {
        self.settings@
    }

    /// The file the settings are kept in.
    pub closed spec fn location(self) -> Seq<char> {
        self.path@
    }

    /// Opens the store kept at `path`, starting from `stored`, the settings
    /// read back from that file (`None` when it is missing or unreadable).
    pub fn open(path: String, stored: Option<AppearanceSettings>) -> (r: Self)
        ensures
            r.location() == path@,
            r.current() == match stored {
                Some(s) => normalized_appearance(s@),
                None => default_appearance(),
            },
    {
        let settings = load_settings(stored);
        AppearanceSettingsStore { path, settings }
    }

    /// A copy of the current settings.
    pub fn get(&self) -> (r: AppearanceSettings)
        ensures
            r@ == self.current(),
            is_normalized_appearance(r@),
    {
        proof {
            use_type_invariant(self);
        }
        AppearanceSettings {
            window_opacity: self.settings.window_opacity,
            window_blur: self.settings.window_blur,
            appearance_theme: self.settings.appearance_theme.clone(),
        }
    }

    /// The file the settings are kept in.
    pub fn path(&self) -> (r: &str)
        ensures
            r@ == self.location(),
    {
        self.path.as_str()
    }

    /// Makes the normalized form of `settings` current and returns it.
    pub fn publish(&mut self, settings: AppearanceSettings) -> (r: AppearanceSettings)
        ensures
            r@ == normalized_appearance(settings@),
            final(self).current() == r@,
            final(self).location() == old(self).location(),
    {
        let normalized = normalize_appearance_settings(settings);
        proof {
            normalized_appearance_is_normalized(settings@);
        }
        let stored = AppearanceSettings {
            window_opacity: normalized.window_opacity,
            window_blur: normalized.window_blur,
            appearance_theme: normalized.appearance_theme.clone(),
        };
        self.settings = stored;
        normalized
    }
}

/// Normalized settings lie within the supported ranges and name a known theme.
pub proof fn normalized_appearance_is_normalized(s: AppearanceModel)
    ensures
        is_normalized_appearance(normalized_appearance(s)),
{
}

/// Settings that are already within range are left as they are.
pub proof fn normalize_keeps_normalized(s: AppearanceModel)
    requires
        is_normalized_appearance(s),
    ensures
        normalized_appearance(s) == s,
{
    reveal_strlit("light");
    reveal_strlit("dark");
    assert("dark"@[0] != "light"@[0]);
    assert("dark"@ != "light"@);
}

/// Normalizing twice gives what normalizing once gives.
pub proof fn normalize_appearance_idempotent(s: AppearanceModel)
    ensures
        normalized_appearance(normalized_appearance(s)) == normalized_appearance(s),
{
    normalized_appearance_is_normalized(s);
    normalize_keeps_normalized(normalized_appearance(s));
}

/// The defaults are within the supported ranges.
pub proof fn default_appearance_is_normalized()
    ensures
        is_normalized_appearance(default_appearance()),
{
    reveal_strlit("dark");
}

} // verus!

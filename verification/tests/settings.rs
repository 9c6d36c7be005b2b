use respondent_lib::appearance_settings::{
    normalize_appearance_settings, AppearanceSettings, AppearanceSettingsStore,
};
use respondent_lib::reply_style_settings::{
    normalize_reply_style_settings, ReplyStyleSettings, ReplyStyleSettingsStore,
    MAX_USER_PROMPT_CHARS,
};

fn appearance(opacity: u8, blur: u8, theme: &str) -> AppearanceSettings {
    AppearanceSettings {
        window_opacity: opacity,
        window_blur: blur,
        appearance_theme: theme.into(),
    }
}

#[test]
fn normalize_clamps_and_validates_theme() {
    assert_eq!(
        normalize_appearance_settings(AppearanceSettings {
            window_opacity: 10,
            window_blur: 99,
            appearance_theme: "neon".into(),
        }),
        AppearanceSettings {
            window_opacity: 55,
            window_blur: 32,
            appearance_theme: "dark".into(),
        }
    );
}

#[test]
fn normalize_keeps_in_range_values_and_light_theme() {
    assert_eq!(
        normalize_appearance_settings(appearance(80, 10, "light")),
        appearance(80, 10, "light")
    );
    assert_eq!(
        normalize_appearance_settings(appearance(255, 0, "Light")),
        appearance(92, 8, "dark")
    );
    assert_eq!(
        normalize_appearance_settings(appearance(55, 32, "dark")),
        appearance(55, 32, "dark")
    );
}

#[test]
fn normalize_appearance_twice_is_normalize_once() {
    for (o, b, t) in [(0u8, 0u8, "x"), (60, 20, "light"), (200, 200, "dark"), (92, 9, "")] {
        let once = normalize_appearance_settings(appearance(o, b, t));
        let twice = normalize_appearance_settings(once.clone());
        assert_eq!(once, twice);
    }
}

#[test]
fn appearance_defaults() {
    assert_eq!(AppearanceSettings::default(), appearance(72, 24, "dark"));
}

#[test]
fn appearance_store_opens_with_normalized_or_default_settings() {
    let store = AppearanceSettingsStore::open("appearance.json".into(), None);
    assert_eq!(store.get(), appearance(72, 24, "dark"));
    assert_eq!(store.path(), "appearance.json");
    let store = AppearanceSettingsStore::open("a.json".into(), Some(appearance(99, 1, "light")));
    assert_eq!(store.get(), appearance(92, 8, "light"));
}

#[test]
fn appearance_publish_is_read_back_normalized() {
    let mut store = AppearanceSettingsStore::open("appearance.json".into(), None);
    let published = store.publish(appearance(1, 50, "sepia"));
    assert_eq!(published, appearance(55, 32, "dark"));
    assert_eq!(store.get(), published);
    let published = store.publish(appearance(70, 12, "light"));
    assert_eq!(store.get(), appearance(70, 12, "light"));
    assert_eq!(published, store.get());
}

#[test]
fn normalize_trims_and_rejects_overlong_prompt() {
    assert_eq!(
        normalize_reply_style_settings(ReplyStyleSettings {
            user_prompt: "  detailed  ".into(),
        })
        .expect("valid"),
        ReplyStyleSettings {
            user_prompt: "detailed".into(),
        }
    );

    let overlong = "x".repeat(MAX_USER_PROMPT_CHARS + 1);
    assert!(normalize_reply_style_settings(ReplyStyleSettings {
        user_prompt: overlong,
    })
    .is_err());
}

#[test]
fn prompt_limit_counts_characters_after_trimming() {
    let at_limit = format!("  {}\n", "字".repeat(MAX_USER_PROMPT_CHARS));
    let normalized = normalize_reply_style_settings(ReplyStyleSettings { user_prompt: at_limit })
        .expect("exactly at the limit");
    assert_eq!(normalized.user_prompt.chars().count(), MAX_USER_PROMPT_CHARS);

    let err = normalize_reply_style_settings(ReplyStyleSettings {
        user_prompt: "字".repeat(MAX_USER_PROMPT_CHARS + 1),
    })
    .unwrap_err();
    assert_eq!(err, "回复风格提示词不能超过 2000 字符");
}

#[test]
fn prompt_trim_removes_unicode_whitespace() {
    let normalized = normalize_reply_style_settings(ReplyStyleSettings {
        user_prompt: "\u{3000}\t be brief \u{2003}\u{85}\n".into(),
    })
    .unwrap();
    assert_eq!(normalized.user_prompt, "be brief");
    let blank = normalize_reply_style_settings(ReplyStyleSettings {
        user_prompt: " \u{a0}\r\n".into(),
    })
    .unwrap();
    assert_eq!(blank.user_prompt, "");
}

#[test]
fn reply_style_store_saves_only_valid_prompts() {
    let mut store = ReplyStyleSettingsStore::with_settings(ReplyStyleSettings {
        user_prompt: " warm ".into(),
    });
    assert_eq!(store.get().user_prompt, "warm");
    assert_eq!(store.path(), "reply-style-test.json");

    let saved = store
        .save(ReplyStyleSettings { user_prompt: " formal\n".into() })
        .expect("valid");
    assert_eq!(saved.user_prompt, "formal");
    assert_eq!(store.get().user_prompt, "formal");

    assert!(store
        .save(ReplyStyleSettings { user_prompt: "y".repeat(MAX_USER_PROMPT_CHARS + 5) })
        .is_err());
    assert_eq!(store.get().user_prompt, "formal");
}

#[test]
fn reply_style_store_falls_back_to_empty_prompt() {
    let store = ReplyStyleSettingsStore::with_settings(ReplyStyleSettings {
        user_prompt: "z".repeat(MAX_USER_PROMPT_CHARS + 1),
    });
    assert_eq!(store.get(), ReplyStyleSettings::default());
    let store = ReplyStyleSettingsStore::open("r.json".into(), None);
    assert_eq!(store.get().user_prompt, "");
    let store = ReplyStyleSettingsStore::open(
        "r.json".into(),
        Some(ReplyStyleSettings { user_prompt: "\tshort answers ".into() }),
    );
    assert_eq!(store.get().user_prompt, "short answers");
}

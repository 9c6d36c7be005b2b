//! The user's reply-style prompt: free text that shapes the suggested replies,
//! kept trimmed and within a length limit.

use vstd::prelude::*;
use vstd::string::*;
use crate::text::{is_blank_seq, lemma_trim_idempotent, trim, trim_seq};

verus! {

/// Most characters a reply-style prompt may hold once trimmed.
pub const MAX_USER_PROMPT_CHARS: usize = 2000;

/// The file name a store made by [`ReplyStyleSettingsStore::with_settings`] reports.
pub const TEST_SETTINGS_FILE: &'static str = "reply-style-test.json";

/// The reply-style preferences the user entered.
#[derive(Debug, Clone, PartialEq, Eq)]
pub struct ReplyStyleSettings {
    pub user_prompt: String,
}

impl View for ReplyStyleSettings {
    type V = Seq<char>;

    open spec fn view(&self) -> Seq<char> {
        self.user_prompt@
    }
}

impl Default for ReplyStyleSettings {
    fn default() -> (r: Self)
        ensures
            r@ == Seq::<char>::empty(),
    {
        ReplyStyleSettings { user_prompt: String::new() }
    }
}

/// The message returned for a prompt that is too long.
pub open spec fn overlong_prompt_message() -> Seq<char> {
    "回复风格提示词不能超过 2000 字符"@
}

/// A prompt is acceptable when its trimmed form is within the limit.
pub open spec fn prompt_fits(prompt: Seq<char>) -> bool {
    trim_seq(prompt).len() <= MAX_USER_PROMPT_CHARS
}

/// A stored prompt is trimmed and within the limit.
pub open spec fn is_normalized_prompt(prompt: Seq<char>) -> bool {
    trim_seq(prompt) == prompt && prompt.len() <= MAX_USER_PROMPT_CHARS
}

/// Trims the prompt; refuses it when the trimmed prompt is longer than
/// [`MAX_USER_PROMPT_CHARS`] characters.
pub fn normalize_reply_style_settings(settings: ReplyStyleSettings) -> (r: Result<
    ReplyStyleSettings,
    String,
>)
    ensures
        r is Ok <==> prompt_fits(settings@),
        r matches Ok(s) ==> s@ == trim_seq(settings@),
        r matches Err(e) ==> e@ == overlong_prompt_message(),
{
    let trimmed = trim(settings.user_prompt.as_str());
    if trimmed.unicode_len() > MAX_USER_PROMPT_CHARS {
        return Err(String::from_str("回复风格提示词不能超过 2000 字符"));
    }
    Ok(ReplyStyleSettings { user_prompt: String::from_str(trimmed) })
}

/// The prompt to start from, given what could be read back from storage:
/// the stored settings if they normalize, the empty prompt otherwise.
fn load_settings(stored: Option<ReplyStyleSettings>) -> (r: ReplyStyleSettings)
    ensures
        r@ == match stored {
            Some(s) => if prompt_fits(s@) {
                trim_seq(s@)
            } else {
                Seq::<char>::empty()
            },
            None => Seq::<char>::empty(),
        },
        is_normalized_prompt(r@),
{
    proof {
        lemma_empty_prompt_normalized();
    }
    match stored {
        Some(s) => {
            proof {
                lemma_trim_idempotent(s@);
            }
            match normalize_reply_style_settings(s) {
                Ok(n) => n,
                Err(_) => ReplyStyleSettings::default(),
            }
        },
        None => ReplyStyleSettings::default(),
    }
}

/// The empty prompt is normalized.
pub proof fn lemma_empty_prompt_normalized()
    ensures
        is_normalized_prompt(Seq::<char>::empty()),
{
    assert(trim_seq(Seq::<char>::empty()) == Seq::<char>::empty());
}

/// The reply-style settings in use, together with the file they are kept in.
pub struct ReplyStyleSettingsStore {
    path: String,
    settings: ReplyStyleSettings,
}

impl ReplyStyleSettingsStore {
    #[verifier::type_invariant]
    spec fn inv(self) -> bool {
        is_normalized_prompt(self.settings@)
    }

    /// The prompt the store holds.
    pub closed spec fn current(self) -> Seq<char> {
        self.settings@
    }

    /// The file the settings are kept in.
    pub closed spec fn location(self) -> Seq<char> {
        self.path@
    }

    /// Opens the store kept at `path`, starting from `stored`, the settings
    /// read back from that file (`None` when it is missing or unreadable).
    pub fn open(path: String, stored: Option<ReplyStyleSettings>) -> (r: Self)
        ensures
            r.location() == path@,
            r.current() == match stored {
                Some(s) => if prompt_fits(s@) {
                    trim_seq(s@)
                } else {
                    Seq::<char>::empty()
                },
                None => Seq::<char>::empty(),
            },
    {
        let settings = load_settings(stored);
        ReplyStyleSettingsStore { path, settings }
    }

    /// A store holding `settings` normalized, or the empty prompt when they do
    /// not normalize; it reports the file [`TEST_SETTINGS_FILE`].
    pub fn with_settings(settings: ReplyStyleSettings) -> (r: Self)
        ensures
            r.location() == TEST_SETTINGS_FILE@,
            r.current() == if prompt_fits(settings@) {
                trim_seq(settings@)
            } else {
                Seq::<char>::empty()
            },
    {
        let settings = load_settings(Some(settings));
        ReplyStyleSettingsStore { path: String::from_str(TEST_SETTINGS_FILE), settings }
    }

    /// A copy of the current settings.
    pub fn get(&self) -> (r: ReplyStyleSettings)
        ensures
            r@ == self.current(),
            is_normalized_prompt(r@),
    {
        proof {
            use_type_invariant(self);
        }
        ReplyStyleSettings { user_prompt: self.settings.user_prompt.clone() }
    }

    /// The file the settings are kept in.
    pub fn path(&self) -> (r: &str)
        ensures
            r@ == self.location(),
    {
        self.path.as_str()
    }

    /// Normalizes `settings`; when that succeeds they become current and are
    /// returned, otherwise the store is left as it was and the error returned.
    pub fn save(&mut self, settings: ReplyStyleSettings) -> (r: Result<ReplyStyleSettings, String>)
        ensures
            r is Ok <==> prompt_fits(settings@),
            r matches Ok(s) ==> s@ == trim_seq(settings@) && final(self).current() == s@,
            r matches Err(e) ==> e@ == overlong_prompt_message() && final(self).current()
                == old(self).current(),
            final(self).location() == old(self).location(),
    {
        proof {
            lemma_trim_idempotent(settings@);
        }
        let normalized = normalize_reply_style_settings(settings);
        match normalized {
            Ok(n) => {
                self.settings = ReplyStyleSettings { user_prompt: n.user_prompt.clone() };
                Ok(n)
            },
            Err(e) => Err(e),
        }
    }
}

/// Normalizing a normalized prompt gives it back unchanged.
pub proof fn normalize_prompt_idempotent(prompt: Seq<char>)
    requires
        prompt_fits(prompt),
    ensures
        prompt_fits(trim_seq(prompt)),
        trim_seq(trim_seq(prompt)) == trim_seq(prompt),
        is_normalized_prompt(trim_seq(prompt)),
{
    lemma_trim_idempotent(prompt);
}

/// A blank prompt normalizes to the empty prompt.
pub proof fn blank_prompt_normalizes_to_empty(prompt: Seq<char>)
    requires
        is_blank_seq(prompt),
    ensures
        prompt_fits(prompt),
        trim_seq(prompt) == Seq::<char>::empty(),
{
    assert(trim_seq(prompt) =~= Seq::<char>::empty());
}

} // verus!

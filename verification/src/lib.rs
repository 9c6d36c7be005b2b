//! Core logic of the Respondent live meeting assistant: settings
//! normalization, prompt and request construction, reply-stream state
//! handling, audio frame bookkeeping and window-visibility decisions.

pub mod channel;
pub mod clock;
pub mod text;
pub mod appearance_settings;
pub mod reply_style_settings;
pub mod llm;
pub mod window_visibility;
pub mod audio;
pub mod asr;
pub mod commands;
pub mod session;
pub mod telemetry;

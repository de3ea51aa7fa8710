//! Real-time dictation core: hotkey edges, audio trimming, the recognizer's
//! sample ring, the session state machine, the paste protocol, the model
//! catalogue and its installs, and settings migration, with their contracts.

pub mod text;
pub mod shortcut;
pub mod hotkey;
pub mod x11keys;
pub mod vad;
pub mod audio;
pub mod asr;
pub mod session;
pub mod pipeline;
pub mod warmup;
pub mod injector;
pub mod events;
pub mod models;
pub mod catalog;
pub mod download;
pub mod globs;
pub mod digest;
pub mod ct2;
pub mod settings;
pub mod updater;

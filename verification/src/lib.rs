//! Core logic of a push-to-talk dictation agent.
//!
//! The crate covers the three subsystems that carry the hard logic: the
//! audio capture pipeline (format policy, voice-activity detection,
//! batching), the streaming transport framing (PCM framing, URL and JSON
//! construction, event classification), and transcript reconciliation
//! (partial rewrites, commit resolution, the bounded injection queue).
//! Device access, sockets and keystroke synthesis live outside the crate;
//! every decision they act on is computed and verified here.

pub mod audio;
pub mod commit;
pub mod dispatch;
pub mod metrics;
pub mod network;
pub mod permissions;
pub mod reconcile;
pub mod settings;
pub mod storage;
pub mod text;
pub mod transcript;
pub mod util;

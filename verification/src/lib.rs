//! The session and playback-control core of a voice-channel media bot: the
//! per-guild session registry and playback queue, the join arbitration and
//! auto-leave policies, the metadata client's quota handling, and the codecs
//! of the upstream wire formats. The chat gateway, the voice transport and
//! the HTTP transport are external collaborators around this crate.

pub mod arbiter;
pub mod bool_string;
pub mod commands;
pub mod iso_duration;
pub mod metadata;
pub mod monitor;
pub mod queue;
pub mod rate_limit;
pub mod session;
pub mod text;
pub mod youtube;
pub mod yt_api;
pub mod yt_url;

//! Upcoming security competitions from the CTFtime feed: decoding of feed
//! records, the policy that picks which events to announce, and the webhook
//! attachments that announce them.

pub mod announce;
pub mod decode;
pub mod event;
pub mod mattermost_hook_api;
pub mod text;
pub mod time;

pub use announce::{announcement, announcement_at};
pub use decode::{decode_events, string_empty_as_none, DecodeError, RawEvent};
pub use event::{format_duration, Config, CtfEvent, CtfFormat, CtfRestrictions, CtfTeam, BASE_URL};
pub use time::Timestamp;

//! A terminal mail reader's list browser: a cursor and a scroll window over
//! an ordered list of messages, moved by vim-style commands.
use vstd::prelude::*;

pub mod address;
pub mod config;
pub mod controller;
pub mod date;
pub mod detail;
pub mod display;
pub mod envelope;
pub mod header_date;
pub mod inbox;
pub mod keys;
pub mod viewport;
pub mod viewport_laws;

pub use address::NameAddr;
pub use config::{Config, GmailConfig};
pub use controller::{App, Email, ViewMode};
pub use date::{format_date, MailDate};
pub use detail::DetailViewport;
pub use display::clip;
pub use envelope::{RawAddress, RawEnvelope};
pub use header_date::parse_date_from_header;
pub use inbox::{body_from_text, decode_message, emails_from_messages, recent_range, sort_newest_first, RawMessage};
pub use keys::{Command, Key, KeyInput};
pub use viewport::{ListViewport, Motion};

verus! {

} // verus!

use vstd::prelude::*;

verus! {

/// Settings of a session.
#[derive(Clone, Debug)]
pub struct Config {
    pub gmail: GmailConfig,
}

/// Credentials for the IMAP account.
#[derive(Clone, Debug)]
pub struct GmailConfig {
    pub username: String,
    pub app_password: String,
}

} // verus!

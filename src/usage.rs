//! The canonical usage record: one snapshot of an account's quota windows.

use vstd::prelude::*;

verus! {

/// The authentication channel that produced, or failed to produce, a snapshot.
#[derive(Debug, Clone, Copy, PartialEq, Eq, Structural)]
pub enum UsageSource {
    ChatGptWeb,
    OpenAiApiKey,
    Unknown,
}

impl Default for UsageSource {
    fn default() -> (r: Self)
        ensures
            r == UsageSource::Unknown,
    {
        UsageSource::Unknown
    }
}

/// An absolute UTC instant: whole seconds since the Unix epoch and the
/// nanoseconds past that second.
#[derive(Debug, Clone, Copy, PartialEq, Eq, Structural)]
pub struct UtcInstant {
    pub secs: i64,
    pub nanos: u32,
}

/// Consumption within one rolling window, in minutes; absent counts are zero.
#[derive(Debug, Clone, Copy, PartialEq, Eq, Structural)]
pub struct WindowUsage {
    pub used_minutes: u32,
    pub limit_minutes: u32,
    /// When the window resets, if the service said so in a readable form.
    pub reset_at: Option<UtcInstant>,
}

/// The best-effort snapshot of one query; either window may be missing.
#[derive(Debug, Clone, PartialEq, Eq)]
pub struct UsageInfo {
    pub plan: Option<String>,
    pub five_hour: Option<WindowUsage>,
    pub weekly: Option<WindowUsage>,
    pub source: UsageSource,
}

/// Why a query produced no snapshot.
#[derive(Debug, Clone, PartialEq, Eq)]
pub enum UsageError {
    /// No identity is available.
    NotLoggedIn,
    /// API-key accounts have no quota endpoint: a policy, not a failure.
    UnsupportedForAuthMode,
    /// Every attempt failed; the text of the last failure.
    Message(String),
}

/// The text of an error, for logs.
pub open spec fn error_text(e: UsageError) -> Seq<char> {
    match e {
        UsageError::NotLoggedIn => "not logged in"@,
        UsageError::UnsupportedForAuthMode => "API key usage endpoint not implemented"@,
        UsageError::Message(m) => m@,
    }
}

impl UsageError {
    /// The text of this error, for logs.
    pub fn message(&self) -> (r: String)
        ensures
            r@ == error_text(*self),
    {
        match self {
            UsageError::NotLoggedIn => String::from_str("not logged in"),
            UsageError::UnsupportedForAuthMode => String::from_str(
                "API key usage endpoint not implemented",
            ),
            UsageError::Message(m) => m.clone(),
        }
    }
}

} // verus!

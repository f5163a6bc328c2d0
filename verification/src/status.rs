//! Transient status messages with time-based fading. Time enters as a
//! millisecond reading supplied by the caller.

use vstd::prelude::*;

verus! {

/// How long a status message stays fully visible, in milliseconds.
pub const STATUS_FADE_MS: u64 = 3000;

/// How long a status message lives in all, in milliseconds.
pub const STATUS_EXPIRE_MS: u64 = 5000;

/// A status-bar message and the time it was posted.
pub struct StatusMessage {
    pub text: String,
    pub created_at_ms: u64,
}

/// The age of a message posted at `created` when the clock reads `now`;
/// a clock that moved backwards counts as no age at all.
pub open spec fn spec_age_ms(created: u64, now: u64) -> int {
    if now >= created {
        now - created
    } else {
        0
    }
}

impl StatusMessage {
    /// Posts a message at the given clock reading.
    pub fn new(text: String, now_ms: u64) -> (r: Self)
        ensures
            r.text == text,
            r.created_at_ms == now_ms,
    {
        StatusMessage { text, created_at_ms: now_ms }
    }

    /// The message's age in milliseconds at the given clock reading.
    pub fn age_ms(&self, now_ms: u64) -> (r: u64)
        ensures
            r == spec_age_ms(self.created_at_ms, now_ms),
    {
        if now_ms >= self.created_at_ms {
            now_ms - self.created_at_ms
        } else {
            0
        }
    }

    /// Whether the message has begun to fade out.
    pub fn should_fade(&self, now_ms: u64) -> (r: bool)
        ensures
            r == (spec_age_ms(self.created_at_ms, now_ms) > STATUS_FADE_MS),
    {
        self.age_ms(now_ms) > STATUS_FADE_MS
    }

    /// Whether the message's lifetime is over.
    pub fn is_expired(&self, now_ms: u64) -> (r: bool)
        ensures
            r == (spec_age_ms(self.created_at_ms, now_ms) > STATUS_EXPIRE_MS),
    {
        self.age_ms(now_ms) > STATUS_EXPIRE_MS
    }
}

} // verus!

use crate::db::InsertEntry;
use vstd::math::min;
use vstd::prelude::*;

verus! {

/// An entry as submitted by a client.
#[derive(Debug)]
pub struct Entry {
    pub text: String,
    pub extension: Option<String>,
    pub filename: Option<String>,
    pub expires: Option<u32>,
    pub burn_after_reading: Option<bool>,
    pub password: Option<String>,
}

/// Where a client finds the entry it just submitted.
#[derive(Debug)]
pub struct RedirectResponse {
    pub path: String,
}

/// The expiry to store: the requested one, capped by `max` where a cap is
/// configured; with a cap, an entry without a requested expiry gets the cap.
pub open spec fn capped_expiry(expires: Option<u32>, max: Option<u32>) -> Option<u32> {
    match (expires, max) {
        (_, None) => expires,
        (None, Some(m)) => Some(m),
        (Some(v), Some(m)) => Some(min(v as int, m as int) as u32),
    }
}

/// Caps a requested expiry by the configured maximum.
pub fn cap_expiry(expires: Option<u32>, max: Option<u32>) -> (r: Option<u32>)
    ensures
        r == capped_expiry(expires, max),
{
    match max {
        None => expires,
        Some(m) => match expires {
            None => Some(m),
            Some(v) => Some(if v < m { v } else { m }),
        },
    }
}

impl Entry {
    /// The entry to store, with its expiry capped by `max_expiration`.
    pub fn into_insert_entry(self, max_expiration: Option<u32>) -> (r: InsertEntry)
        ensures
            r.text == self.text,
            r.extension == self.extension,
            r.expires == capped_expiry(self.expires, max_expiration),
            r.burn_after_reading == self.burn_after_reading,
            r.uid is None,
    {
        InsertEntry {
            text: self.text,
            extension: self.extension,
            expires: cap_expiry(self.expires, max_expiration),
            burn_after_reading: self.burn_after_reading,
            uid: None,
        }
    }
}

} // verus!

//! The metadata kept for one stored image.

use vstd::prelude::*;

verus! {

/// One row of the metadata table: which image, and when it came in.
/// A record is written once and deleted once; it is never updated.
#[derive(Clone, Copy, PartialEq, Eq, Debug, Structural)]
pub struct PhotoRecord {
    /// The image's identifier, a UUID held as its 128-bit value.
    pub id: u128,
    /// Seconds since the Unix epoch, UTC, at which the upload was accepted.
    pub uploaded_at: i64,
}

impl PhotoRecord {
    /// Whether the record is older than `deadline`.
    pub open spec fn expired_before(self, deadline: i64) -> bool {
        self.uploaded_at < deadline
    }

    /// Whether the record is older than `deadline`. A record stamped at
    /// the deadline itself is still kept.
    pub fn is_expired(&self, deadline: i64) -> (expired: bool)
        ensures
            expired == self.expired_before(deadline),
    {
        self.uploaded_at < deadline
    }
}

} // verus!

//! The bucket record derived from a foreign bucket descriptor.

use vstd::prelude::*;

use crate::error::is_internal;
use crate::error::Error;
use crate::time::Timestamp;

verus! {

/// Contains information about a specific bucket.
#[derive(Debug)]
pub struct Bucket {
    /// Name of the bucket.
    pub name: String,
    /// Unix Epoch time when the bucket was created.
    pub created_at: Timestamp,
}

impl Bucket {
    /// Builds the bucket record from the parts read off a foreign bucket
    /// descriptor: the bucket's name as decoded from the foreign bytes,
    /// where `Err` carries the decode failure's description, and the
    /// creation instant in whole seconds since the Unix Epoch time.
    ///
    /// A name that is not validly encoded text violates an internal
    /// assumption about the foreign backend, so it yields an internal
    /// error rather than a recoverable one.
    pub fn from_foreign_parts(name: Result<String, String>, created: u64) -> (res: Result<
        Bucket,
        Error,
    >)
        ensures
            match res {
                Ok(b) => {
                    &&& name matches Ok(n) && b.name@ == n@
                    &&& b.created_at.spec_secs() == created
                    &&& b.created_at.spec_nanos() == 0
                },
                Err(e) => {
                    &&& name is Err
                    &&& is_internal(
                        e,
                        "invalid bucket name because it contains invalid UTF-8 characters"@,
                    )
                    &&& e matches Error::Internal(d) && name matches Err(cause) && d.inner
                        matches Some(m) && m@ == cause@
                },
            },
    {
        match name {
            Ok(n) => Ok(Bucket { name: n, created_at: Timestamp::new(created, 0) }),
            Err(cause) => Err(
                Error::new_internal_with_inner(
                    "invalid bucket name because it contains invalid UTF-8 characters",
                    cause.as_str(),
                ),
            ),
        }
    }
}

} // verus!

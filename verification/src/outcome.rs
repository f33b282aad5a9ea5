//! The guard that validates every dual-outcome value returned across the
//! foreign-call boundary before either of its slots is read.

use vstd::prelude::*;

use crate::error::is_internal;
use crate::error::is_uplink;
use crate::error::Error;
use crate::error::Uplink;

verus! {

/// The fatal message for a dual-outcome value with neither slot populated.
pub const DUAL_BOTH_EMPTY_MSG: &'static str = "invalid dual-outcome value returned by the foreign boundary, the value and error slots are both empty";

/// The fatal message for a dual-outcome value with both slots populated.
pub const DUAL_BOTH_POPULATED_MSG: &'static str = "invalid dual-outcome value returned by the foreign boundary, the value and error slots are both populated";

/// A dual-outcome value as the foreign boundary hands it back: a value
/// slot and an error slot, of which exactly one must be populated.
pub struct DualOutcome<V> {
    /// The success slot.
    pub value: Option<V>,
    /// The error slot.
    pub error: Option<Uplink>,
}

impl<V> DualOutcome<V> {
    /// Valid: exactly one of the two slots is populated.
    pub open spec fn is_valid(&self) -> bool {
        self.value is Some <==> self.error is None
    }

    /// Validates the exactly-one-of-two-outcomes invariant and translates
    /// the outcome into a local success or failure. A populated error slot
    /// becomes a foreign backend error; a malformed value, with both slots
    /// populated or neither, is a fatal internal contract violation and
    /// never a recoverable or silently accepted outcome.
    pub fn into_result(self) -> (res: Result<V, Error>)
        ensures
            res is Ok <==> (self.value is Some && self.error is None),
            match res {
                Ok(v) => self.value == Some(v),
                Err(e) => {
                    if self.is_valid() {
                        self.error matches Some(u) && is_uplink(e, u)
                    } else if self.value is Some {
                        is_internal(e, DUAL_BOTH_POPULATED_MSG@)
                    } else {
                        is_internal(e, DUAL_BOTH_EMPTY_MSG@)
                    }
                },
            },
    {
        match (self.value, self.error) {
            (Some(v), None) => Ok(v),
            (None, Some(u)) => Err(Error::Uplink(u)),
            (Some(_), Some(_)) => Err(Error::new_internal(DUAL_BOTH_POPULATED_MSG)),
            (None, None) => Err(Error::new_internal(DUAL_BOTH_EMPTY_MSG)),
        }
    }
}

} // verus!

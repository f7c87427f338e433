use vstd::prelude::*;

use super::common::{Unvalidated, Validated};
use crate::errors::InvalidParameter;

verus! {

/// The parameters of a query for the order lists of the account, past and
/// present.
#[derive(Debug, Clone)]
pub struct AllOrderListsSpec<S = Unvalidated> {
    /// The order list ID to start from; excludes a time range.
    pub from_id: Option<u64>,
    /// The start of the time range in milliseconds.
    pub start_time: Option<u64>,
    /// The end of the time range in milliseconds.
    pub end_time: Option<u64>,
    /// How many order lists to return (default 500, 1 to 1000).
    pub limit: Option<u32>,
    /// Whether `build` has checked the parameters.
    pub state: S,
}

impl<S> AllOrderListsSpec<S> {
    /// `self` and `other` hold the same parameters.
    pub open spec fn same_parameters<T>(&self, other: &AllOrderListsSpec<T>) -> bool {
        &&& self.from_id == other.from_id
        &&& self.start_time == other.start_time
        &&& self.end_time == other.end_time
        &&& self.limit == other.limit
    }

    /// The limit lies in 1..=1000; a time range starts before it ends and spans at
    /// most 24 hours; `from_id` excludes the time range.
    pub open spec fn validation(&self) -> Result<(), InvalidParameter> {
        if self.limit matches Some(limit) && (limit == 0 || limit > 1000) {
            Err(InvalidParameter::Range { parameter: "limit", min: 1, max: 1000 })
        } else if self.start_time matches Some(start) && self.end_time matches Some(end) && start >= end {
            Err(
                InvalidParameter::Invalid {
                    parameter: "start_time",
                    reason: "must be less than end_time",
                },
            )
        } else if self.start_time matches Some(start) && self.end_time matches Some(end) && end - start > 86400000 {
            Err(
                InvalidParameter::Invalid {
                    parameter: "start_time/end_time",
                    reason: "time range cannot be longer than 24 hours",
                },
            )
        } else if self.from_id is Some && (self.start_time is Some || self.end_time is Some) {
            Err(
                InvalidParameter::Invalid {
                    parameter: "from_id",
                    reason: "cannot be used with start_time or end_time",
                },
            )
        } else {
            Ok(())
        }
    }
}

impl AllOrderListsSpec<Unvalidated> {
    /// The query with no parameter.
    pub fn new() -> (r: Self)
        ensures
            r.from_id is None,
            r.start_time is None,
            r.end_time is None,
            r.limit is None,
    {
        AllOrderListsSpec {
            from_id: None,
            start_time: None,
            end_time: None,
            limit: None,
            state: Unvalidated,
        }
    }

    /// Starts from the order list `from_id`.
    pub fn with_from_id(self, from_id: u64) -> (r: Self)
        ensures
            r == (AllOrderListsSpec { from_id: Some(from_id), ..self }),
    {
        AllOrderListsSpec { from_id: Some(from_id), ..self }
    }

    /// Sets the start of the time range.
    pub fn with_start_time(self, start_time: u64) -> (r: Self)
        ensures
            r == (AllOrderListsSpec { start_time: Some(start_time), ..self }),
    {
        AllOrderListsSpec { start_time: Some(start_time), ..self }
    }

    /// Sets the end of the time range.
    pub fn with_end_time(self, end_time: u64) -> (r: Self)
        ensures
            r == (AllOrderListsSpec { end_time: Some(end_time), ..self }),
    {
        AllOrderListsSpec { end_time: Some(end_time), ..self }
    }

    /// Sets how many order lists to return.
    pub fn with_limit(self, limit: u32) -> (r: Self)
        ensures
            r == (AllOrderListsSpec { limit: Some(limit), ..self }),
    {
        AllOrderListsSpec { limit: Some(limit), ..self }
    }

    /// Checks the parameters as `validation` states; on success the
    /// same parameters come back as a validated specification.
    pub fn build(self) -> (r: Result<AllOrderListsSpec<Validated>, InvalidParameter>)
        ensures
            match self.validation() {
                Ok(_) => r matches Ok(v) && self.same_parameters(&v),
                Err(e) => r == Err::<AllOrderListsSpec<Validated>, InvalidParameter>(e),
            },
            r matches Ok(v) ==> v.validation() is Ok,
    {
        if let Err(e) = self.validate() {
            return Err(e);
        }
        Ok(AllOrderListsSpec {
            from_id: self.from_id,
            start_time: self.start_time,
            end_time: self.end_time,
            limit: self.limit,
            state: Validated,
        })
    }

    fn validate(&self) -> (r: Result<(), InvalidParameter>)
        ensures
            r == self.validation(),
    {
        if let Some(limit) = self.limit {
            if limit == 0 || limit > 1000 {
                return Err(InvalidParameter::Range { parameter: "limit", min: 1, max: 1000 });
            }
        }
        if let (Some(start), Some(end)) = (self.start_time, self.end_time) {
            if start >= end {
                return Err(
                    InvalidParameter::Invalid {
                        parameter: "start_time",
                        reason: "must be less than end_time",
                    },
                );
            }
            if end - start > 86400000 {
                return Err(
                    InvalidParameter::Invalid {
                        parameter: "start_time/end_time",
                        reason: "time range cannot be longer than 24 hours",
                    },
                );
            }
        }
        if self.from_id.is_some() && (self.start_time.is_some() || self.end_time.is_some()) {
            return Err(
                InvalidParameter::Invalid {
                    parameter: "from_id",
                    reason: "cannot be used with start_time or end_time",
                },
            );
        }
        Ok(())
    }
}

impl Default for AllOrderListsSpec<Unvalidated> {
    fn default() -> (r: Self)
        ensures
            r.from_id is None,
            r.start_time is None,
            r.end_time is None,
            r.limit is None,
    {
        Self::new()
    }
}

} // verus!

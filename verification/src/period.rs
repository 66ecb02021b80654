//! Where a game stands: the period record that the feeds attach to a game.

use crate::error::DecodeError;
use crate::json::{Json, JsonValue};
use vstd::prelude::*;

verus! {

/// Where a game stands: the period being played and how the feed classes it.
#[derive(Debug, Clone, Copy, PartialEq, Eq, Structural)]
pub struct Period {
    pub current: usize,
    /// The feed's `type` of the period.
    pub kind: usize,
    pub max_regular: usize,
    pub is_halftime: Option<bool>,
    pub is_end_of_period: Option<bool>,
}

/// Whether a value has the shape of a period record: counts `current`, `type`
/// and `maxRegular`; where present and not `null`, booleans `isHalftime` and
/// `isEndOfPeriod`.
pub open spec fn period_ok(j: JsonValue) -> bool {
    &&& j.count_at("current"@) is Some
    &&& j.count_at("type"@) is Some
    &&& j.count_at("maxRegular"@) is Some
    &&& j.optional_bool_at("isHalftime"@) is Some
    &&& j.optional_bool_at("isEndOfPeriod"@) is Some
}

/// The period record that a value of that shape holds.
pub open spec fn period_of(j: JsonValue) -> Period {
    Period {
        current: j.count_at("current"@)->0,
        kind: j.count_at("type"@)->0,
        max_regular: j.count_at("maxRegular"@)->0,
        is_halftime: j.optional_bool_at("isHalftime"@)->0,
        is_end_of_period: j.optional_bool_at("isEndOfPeriod"@)->0,
    }
}

/// Whether `j` has a member `key` with the shape of a period record.
pub open spec fn period_at_ok(j: JsonValue, key: Seq<char>) -> bool {
    j.member(key) matches Some(p) && period_ok(p)
}

impl Period {
    /// Decodes a period record.
    pub fn from_json(json: &Json) -> (period: Result<Period, DecodeError>)
        ensures
            match period {
                Ok(p) => period_ok(json@) && p == period_of(json@),
                Err(e) => e == DecodeError::Shape && !period_ok(json@),
            },
    {
        Ok(
            Period {
                current: json.count_at("current")?,
                kind: json.count_at("type")?,
                max_regular: json.count_at("maxRegular")?,
                is_halftime: json.optional_bool_at("isHalftime")?,
                is_end_of_period: json.optional_bool_at("isEndOfPeriod")?,
            },
        )
    }

    /// Decodes the period record stored under `key`.
    pub fn at(json: &Json, key: &str) -> (period: Result<Period, DecodeError>)
        ensures
            match period {
                Ok(p) => period_at_ok(json@, key@) && p == period_of(json@.member(key@)->0),
                Err(e) => e == DecodeError::Shape && !period_at_ok(json@, key@),
            },
    {
        match json.get(key) {
            Some(p) => Period::from_json(p),
            None => Err(DecodeError::Shape),
        }
    }
}

} // verus!

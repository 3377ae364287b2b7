//! Settings of the service.

use crate::text::parse_i64;
use vstd::prelude::*;

verus! {

/// The lifetime of a token where none is configured, in hours.
pub const DEFAULT_EXPIRE_HOURS: i64 = 24;

/// The lifetime of a token, in hours, as the setting `JWT_EXPIRE_HOURS` has
/// it. A setting that is there and is no `i64` is an error, `None`.
pub fn expire_hours(setting: Option<&str>) -> (hours: Option<i64>)
    ensures
        match setting {
            None => hours == Some(DEFAULT_EXPIRE_HOURS),
            Some(text) => match hours {
                Some(h) => crate::text::integer_value(text@) == Some(h as int),
                None => match crate::text::integer_value(text@) {
                    Some(v) => v < i64::MIN || v > i64::MAX,
                    None => true,
                },
            },
        },
{
    match setting {
        Some(text) => parse_i64(text),
        None => Some(DEFAULT_EXPIRE_HOURS),
    }
}

} // verus!

//! The date whose games are shown.

use vstd::prelude::*;

verus! {

/// The current local date as `yyyymmdd`, from `chrono::Local::now` and
/// `DateTime::format` with `%Y%m%d`. The answer depends on the clock and the
/// time zone of the machine, so nothing is promised of it.
#[verifier::external_body]
pub fn today() -> String {
    chrono::Local::now().format("%Y%m%d").to_string()
}

/// The date to show: the one asked for, or `today` where none was.
pub fn date_or(asked: Option<&str>, today: String) -> (date: String)
    ensures
        date@ == match asked {
            Some(d) => d@,
            None => today@,
        },
{
    match asked {
        Some(d) => d.to_owned(),
        None => today,
    }
}

/// The date to show: the one asked for, or the current local date where none
/// was.
pub fn date_or_today(asked: Option<&str>) -> (date: String)
    ensures
        asked matches Some(d) ==> date@ == d@,
{
    match asked {
        Some(d) => d.to_owned(),
        None => today(),
    }
}

} // verus!

use vstd::prelude::*;
use crate::response::{STATION_NOT_FOUND, DEFAULT_STATION_NOT_FOUND, NO_MEASUREMENTS};

verus! {

/// Why a request is answered with a failure.
#[derive(Debug)]
pub enum Refusal {
    /// The requested station is not on record.
    StationNotFound,
    /// The default station is not on record or could not be read.
    DefaultStationNotFound,
    /// No measurement is on record to work on.
    NoMeasurements,
    /// The store failed; the text is its error message.
    StoreError(String),
}

/// The message a refusal is answered with.
pub open spec fn refusal_message(r: Refusal) -> Seq<char> {
    match r {
        Refusal::StationNotFound => STATION_NOT_FOUND@,
        Refusal::DefaultStationNotFound => DEFAULT_STATION_NOT_FOUND@,
        Refusal::NoMeasurements => NO_MEASUREMENTS@,
        Refusal::StoreError(e) => e@,
    }
}

impl Refusal {
    /// The message this refusal is answered with.
    pub fn message(&self) -> (res: String)
        ensures
            res@ == refusal_message(*self),
    {
        proof {
            broadcast use vstd::string::to_string_from_display_ensures_for_str;
        }
        match self {
            Refusal::StationNotFound => STATION_NOT_FOUND.to_string(),
            Refusal::DefaultStationNotFound => DEFAULT_STATION_NOT_FOUND.to_string(),
            Refusal::NoMeasurements => NO_MEASUREMENTS.to_string(),
            Refusal::StoreError(e) => e.clone(),
        }
    }
}

} // verus!

//! Verified core of the gnomon shadow-measurement backend: the parts of the
//! service that decide, apart from the floating-point optics, what a request
//! is answered, what is stored and broadcast and in which order, which time
//! range a query covers, which identifier a measurement is stored under, and
//! when a shadow-deviation alert may fire.

pub mod instant;
pub mod response;
pub mod refusal;
pub mod alert_gate;
pub mod time_range;
pub mod ids;
pub mod flows;
pub mod live_feed;

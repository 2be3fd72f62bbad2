use vstd::prelude::*;

verus! {

/// Message answered when a requested station is not on record.
pub const STATION_NOT_FOUND: &'static str = "Station not found";

/// Message answered when the default station is not on record or cannot be read.
pub const DEFAULT_STATION_NOT_FOUND: &'static str = "Default station not found";

/// Message answered when no measurement is on record to analyse.
pub const NO_MEASUREMENTS: &'static str = "No measurements available";

/// The envelope of every API answer: a success carries data and no error, a
/// failure carries an error message and no data.
#[derive(Debug, Clone)]
pub struct ApiResponse<T> {
    pub success: bool,
    pub data: Option<T>,
    pub error: Option<String>,
}

/// `r` is the success envelope carrying `data`.
pub open spec fn is_ok_with<T>(r: ApiResponse<T>, data: T) -> bool {
    &&& r.success
    &&& r.data == Some(data)
    &&& r.error.is_none()
}

/// `r` is the failure envelope carrying the message `msg`.
pub open spec fn is_err_with<T>(r: ApiResponse<T>, msg: Seq<char>) -> bool {
    &&& !r.success
    &&& r.data.is_none()
    &&& r.error matches Some(e) && e@ == msg
}

/// The answer to a read from the store: its data where the read succeeded,
/// else the store's error message.
pub open spec fn answers_read<T>(r: ApiResponse<T>, read: Result<T, String>) -> bool {
    match read {
        Ok(data) => is_ok_with(r, data),
        Err(e) => is_err_with(r, e@),
    }
}

/// The answer to a lookup of one record: the record where it was found, the
/// message `missing` where it was not, the store's error message where the
/// read failed.
pub open spec fn answers_lookup<T>(r: ApiResponse<T>, read: Result<Option<T>, String>, missing: Seq<char>) -> bool {
    match read {
        Ok(Some(data)) => is_ok_with(r, data),
        Ok(None) => is_err_with(r, missing),
        Err(e) => is_err_with(r, e@),
    }
}

impl<T> ApiResponse<T> {
    /// A successful answer carrying `data`.
    pub fn ok(data: T) -> (res: Self)
        ensures
            is_ok_with(res, data),
    {
        ApiResponse { success: true, data: Some(data), error: None }
    }

    /// A failed answer carrying the message `msg`.
    pub fn err(msg: &str) -> (res: Self)
        ensures
            is_err_with(res, msg@),
    {
        proof {
            broadcast use vstd::string::to_string_from_display_ensures_for_str;
        }
        ApiResponse { success: false, data: None, error: Some(msg.to_string()) }
    }

    /// The answer to a read from the store.
    pub fn from_read(read: Result<T, String>) -> (res: Self)
        ensures
            answers_read(res, read),
    {
        match read {
            Ok(data) => Self::ok(data),
            Err(e) => Self::err(e.as_str()),
        }
    }

    /// The answer to a lookup of one record, with `missing` as the message
    /// where the record is not on record.
    pub fn from_lookup(read: Result<Option<T>, String>, missing: &str) -> (res: Self)
        ensures
            answers_lookup(res, read, missing@),
    {
        match read {
            Ok(Some(data)) => Self::ok(data),
            Ok(None) => Self::err(missing),
            Err(e) => Self::err(e.as_str()),
        }
    }
}

/// Every answer built from a read is consistent: it succeeds exactly when it
/// carries data, and exactly when it carries no error message.
pub proof fn law_answers_are_consistent<T>(r: ApiResponse<T>, read: Result<Option<T>, String>, missing: Seq<char>)
    requires
        answers_lookup(r, read, missing),
    ensures
        r.success <==> r.data is Some,
        r.success <==> r.error is None,
        r.success <==> (read matches Ok(Some(_))),
{
}

/// Same for an answer to a read of a whole collection: it succeeds exactly
/// when the read did, and then carries exactly what was read.
pub proof fn law_read_answers_are_consistent<T>(r: ApiResponse<T>, read: Result<T, String>)
    requires
        answers_read(r, read),
    ensures
        r.success <==> r.data is Some,
        r.success <==> r.error is None,
        r.success <==> read is Ok,
        read matches Ok(d) ==> r.data == Some(d),
{
}

} // verus!

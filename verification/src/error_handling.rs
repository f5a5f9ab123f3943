//! Classification of storage-layer failures.
//!
//! A failure coming back from the storage layer either carries a
//! database-native error descriptor (message and SQLSTATE code) or it does
//! not. The first kind is surfaced to the client as a conflict with the
//! database's own message and code; the second is an opaque internal fault
//! whose cause is never forwarded.

use vstd::prelude::*;

use crate::Message;
use crate::MessageModel;

verus! {

/// The plain-value content of a database-native error descriptor: the
/// human-readable message and the SQLSTATE class/subclass code.
pub struct DbErrorInfo {
    pub message: String,
    pub code: String,
}

/// The mathematical content of a `DbErrorInfo`.
pub struct DbErrorModel {
    pub message: Seq<char>,
    pub code: Seq<char>,
}

impl View for DbErrorInfo {
    type V = DbErrorModel;

    open spec fn view(&self) -> DbErrorModel {
        DbErrorModel { message: self.message@, code: self.code@ }
    }
}

/// The fixed client-visible text of an unclassified internal fault.
pub open spec fn internal_error_text() -> Seq<char> {
    "INTERNAL SERVER ERROR"@
}

/// Classifies a storage failure. A failure that carries a database-native
/// error descriptor is a conflict: status 409, the database's message, and
/// its SQLSTATE code. Any other failure is an internal fault: status 500 and
/// a fixed generic message that leaks nothing of the cause.
pub fn internal_error(err: Option<DbErrorInfo>) -> (r: (u16, Message))
    ensures
        err matches Some(info) ==> {
            &&& r.0 == 409
            &&& r.1@.message == info@.message
            &&& r.1@.sqlstate == Some(info@.code)
        },
        err is None ==> {
            &&& r.0 == 500
            &&& r.1@.message == internal_error_text()
            &&& r.1@.sqlstate is None
        },
{
    match err {
        Some(info) => (
            409,
            Message { message: info.message, sqlstate: Some(info.code) },
        ),
        None => (
            500,
            Message { message: "INTERNAL SERVER ERROR".to_owned(), sqlstate: None },
        ),
    }
}

} // verus!

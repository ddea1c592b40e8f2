//! The record type the browser lists.
//!
//! A record is one row of the read-only data source: a stable row
//! identifier, an optional session identifier, a displayable name and a
//! timestamp. The data source itself (opening it, running its queries,
//! persisting the side-document) stays outside the library and hands
//! records over as plain values.
use vstd::prelude::*;

verus! {

/// One browsable record: the header columns of a row of the data
/// source. Immutable once loaded; the whole list is replaced on refresh.
pub struct Header {
    pub rowid: usize,
    pub session_id: Option<usize>,
    pub name: String,
    pub timestamp: String,
}

impl Header {
    /// Builds a record from its four columns.
    pub fn from(rowid: usize, session_id: Option<usize>, name: String, timestamp: String) -> (r:
        Header)
        ensures
            r.rowid == rowid,
            r.session_id == session_id,
            r.name == name,
            r.timestamp == timestamp,
    {
        Header { rowid, session_id, name, timestamp }
    }
}

} // verus!

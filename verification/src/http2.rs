//! The HTTP/2 connection-level parameter record. Each field is either an
//! explicit, version-accurate value or unset, in which case the HTTP/2
//! collaborator keeps its own default.

use vstd::prelude::*;

verus! {

/// The six HTTP/2 settings an identity pins down.
#[derive(Clone, Copy, Debug, PartialEq, Eq)]
pub struct Http2Data {
    pub initial_stream_window_size: Option<u32>,
    pub initial_connection_window_size: Option<u32>,
    pub max_concurrent_streams: Option<u32>,
    pub max_header_list_size: Option<u32>,
    pub header_table_size: Option<u32>,
    pub enable_push: Option<bool>,
}

/// A window size, when set, must fit the protocol's 31-bit bound.
pub open spec fn window_ok(w: Option<u32>) -> bool {
    w matches Some(v) ==> v <= 0x7fff_ffff
}

impl Http2Data {
    /// All set fields lie within the protocol's valid range.
    pub open spec fn valid(&self) -> bool {
        window_ok(self.initial_stream_window_size) && window_ok(
            self.initial_connection_window_size,
        )
    }

    /// Range check, exact on `valid`.
    pub fn is_valid(&self) -> (r: bool)
        ensures
            r == self.valid(),
    {
        let stream_ok = match self.initial_stream_window_size {
            Some(v) => v <= 0x7fff_ffff,
            None => true,
        };
        let conn_ok = match self.initial_connection_window_size {
            Some(v) => v <= 0x7fff_ffff,
            None => true,
        };
        stream_ok && conn_ok
    }
}

} // verus!

//! Connections: the edges of the native graph.

use vstd::prelude::*;

verus! {

/// A reference to an edge between two units of the native graph. The native
/// graph owns the edge and drops it when either end is removed or
/// disconnected; this value carries no obligation to release anything, and
/// nothing here tells whether the edge still exists.
#[derive(Debug, PartialEq, Eq)]
pub struct DspConnection {
    connection: usize,
}

impl View for DspConnection {
    type V = usize;

    /// The native handle of the edge.
    closed spec fn view(&self) -> usize {
        self.connection
    }
}

/// The connection with the given native handle.
pub fn from_ptr(connection: usize) -> (c: DspConnection)
    ensures
        c@ == connection,
{
    DspConnection { connection }
}

/// The native handle of a connection.
pub fn get_ffi(connection: &DspConnection) -> (handle: usize)
    ensures
        handle == connection@,
{
    connection.connection
}

} // verus!

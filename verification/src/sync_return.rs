//! The synchronous result envelope: the immediate, boundary-safe encoding of
//! a synchronous call's outcome.

use vstd::prelude::*;

verus! {

/// The payload of a synchronous return: a wire-encoded byte buffer, or
/// nothing.
#[derive(Clone, Debug, PartialEq, Eq)]
pub struct WireSyncReturnData(pub Option<Vec<u8>>);

/// The envelope returned synchronously across the boundary.
///
/// The boundary layer hands the buffer's memory off as a pointer and length;
/// here the buffer is held by value, and an absent buffer stands for the
/// null, zero-length form.  If `success` is true the buffer encodes the
/// successful payload; if false, the buffer (when present) encodes a textual
/// failure description.
#[derive(Debug, PartialEq, Eq)]
pub struct WireSyncReturnStruct {
    /// The transferred buffer, if any.
    pub data: Option<Vec<u8>>,
    /// Whether the call succeeded.
    pub success: bool,
}

/// Seals a payload and a success flag into the envelope, unchanged.
pub fn wire_sync_from_data(data: WireSyncReturnData, success: bool) -> (r: WireSyncReturnStruct)
    ensures
        r.data == data.0,
        r.success == success,
{
    WireSyncReturnStruct { data: data.0, success }
}

/// The last-resort envelope: no payload, and not a success.
///
/// The outermost containment scope returns it when even the reporting path
/// fails; the simplest possible value is the one least likely to fail again.
pub fn wire_sync_fallback() -> (r: WireSyncReturnStruct)
    ensures
        r.data is None,
        !r.success,
{
    WireSyncReturnStruct { data: None, success: false }
}

} // verus!

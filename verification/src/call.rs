//! Call descriptors: the metadata that classifies one call.

use vstd::prelude::*;

verus! {

/// The types of return values for a particular call.
#[derive(Copy, Clone, Debug, PartialEq, Eq, Structural)]
pub enum FfiCallMode {
    /// The default mode: a single result, delivered later over the
    /// notification channel.
    Normal,
    /// An immediate same-call result; no channel and no worker is used.
    Sync,
    /// Zero or more results, delivered over the notification channel.
    Stream,
}

/// An opaque handle to the notification channel bound to one call.
///
/// The engine never looks inside a port; it only routes notifications to it.
/// The boundary layer maps the identifier to a real channel.
#[derive(Copy, Clone, Debug, PartialEq, Eq, Structural)]
pub struct MessagePort(pub i64);

/// A successful result after conversion to its boundary-safe transport form.
///
/// The wire encoding itself is outside this engine; a converted value is
/// carried through as an opaque byte buffer.
#[derive(Clone, Debug, PartialEq, Eq)]
pub struct TransportValue(pub Vec<u8>);

/// Supporting information to identify a function's operating mode.
#[derive(Clone, Debug)]
pub struct WrapInfo {
    /// The notification channel. [`None`] if the mode is [`FfiCallMode::Sync`].
    pub port: Option<MessagePort>,
    /// Usually the name of the function.
    pub debug_name: &'static str,
    /// The call mode of this function.
    pub mode: FfiCallMode,
}

impl WrapInfo {
    /// The descriptor invariant: a notification channel is present exactly
    /// when the call does not return synchronously.
    pub open spec fn well_formed(self) -> bool {
        self.port is Some <==> !(self.mode is Sync)
    }
}

} // verus!

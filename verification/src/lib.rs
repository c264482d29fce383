//! An execution and fault-containment engine for calls that arrive over a
//! foreign-function boundary.
//!
//! A call request carries a [`call::WrapInfo`] descriptor naming its return
//! mode and, for asynchronous and stream calls, the notification channel on
//! which results are delivered.  The engine classifies the call, decides where
//! it runs, and normalizes every failure — an ordinary error or a captured
//! fault — into a uniform [`error::Error`] envelope that is safe to hand
//! across the boundary.
//!
//! Execution itself (running user closures under unwind containment, spawning
//! workers, sending on the channel) happens in the unverified shell around
//! this crate.  The shell reports what it observed as plain outcome values
//! ([`outcome::PrepareOutcome`], [`outcome::TaskOutcome`],
//! [`outcome::SyncOutcome`]); every decision taken on those observations —
//! which notification is produced, on which channel, and when a call path is
//! fatal — is made here, under contract.

pub mod call;
pub mod error;
pub mod executor;
pub mod handler;
pub mod laws;
pub mod outcome;
pub mod reporter;
pub mod sync_return;

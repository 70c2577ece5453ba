//! Deterministic state-transition core of a permissioned ledger for
//! carbon-capture devices: a device registry with deposit reservation, an
//! oracle quorum validator for telemetry, a fungible token ledger with
//! conservation guarantees, and balance-weighted governance.
//!
//! Every operation is an atomic unit: it either commits all of its state
//! changes and appends exactly one event, or it returns an error and leaves
//! the state untouched. The sequencing layer, the persistent storage engine
//! and caller authentication are external collaborators: operations receive
//! an explicit caller identity and the current block height as arguments,
//! and all state lives in plain in-memory structures.

pub mod base;
pub mod kv;
pub mod token;
pub mod registry;
pub mod oracle;
pub mod governance;

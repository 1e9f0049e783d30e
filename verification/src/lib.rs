//! A custodial vault for a single compressed non-fungible asset.
//!
//! A vault accepts one asset into custody, mints a fixed supply of fungible
//! ownership shares against it, and releases the asset once the full share
//! supply has been returned and burned.  The vault record, its invariants,
//! the lock/unlock state machine and the byte layout of the custody-transfer
//! instruction are all verified here; the host runtime that executes the
//! actual cross-program calls sits outside this crate and is handed plain
//! values (byte arrays, integers, encoded instruction data).

pub mod encoding;
pub mod operations;
pub mod protocol;
pub mod vault;

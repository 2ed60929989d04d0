//! A certificate lifecycle registry: certificates are keyed by a fingerprint
//! derived from their immutable fields, issued once, transferred, renewed,
//! revoked for good, and verified against the clock and a signature check.

use vstd::prelude::*;

pub mod certificate;
pub mod error;
pub mod fingerprint;
pub mod owner;
pub mod registry;
pub mod root;
pub mod store;
pub mod verification;

verus! {

/// A principal of the host environment: a caller, an issuer, an administrator.
pub type AccountId = u64;

/// A principal that is a deployed contract rather than an account.
pub type ContractId = u64;

/// A point in time as the host's clock gives it.
pub type Timestamp = u64;

} // verus!

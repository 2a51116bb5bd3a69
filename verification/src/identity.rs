//! Identifiers of users, as the `uuid` crate makes them.
//!
//! Nothing in this module is proved: it tells Verus that the type exists and
//! that a fresh identifier can be asked for.

use vstd::prelude::*;

verus! {

/// `uuid::Uuid`, a 128-bit identifier. Verified code carries a value of it
/// around without looking inside.
#[verifier::external_type_specification]
#[verifier::external_body]
pub struct ExUuid(uuid::Uuid);

/// `uuid::Uuid::new_v4` draws 128 bits from the operating system's random
/// source and stamps the version and variant on them. Two calls may return
/// different values, so nothing is claimed about the value returned. The call
/// panics if the operating system cannot supply random bytes.
pub assume_specification[ uuid::Uuid::new_v4 ]() -> (id: uuid::Uuid);

} // verus!

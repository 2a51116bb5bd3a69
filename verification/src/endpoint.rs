//! Where the service listens and under which paths it answers.

use vstd::prelude::*;

verus! {

/// The path that serves the greeting, on `GET`.
pub const ROOT_PATH: &'static str = "/";

/// The path that creates a user, on `POST`.
pub const USERS_PATH: &'static str = "/users";

/// The port that the service listens on.
pub const PORT: u16 = 3000;

/// Returns the IPv4 address and the port that the service binds to: the
/// loopback address and the fixed port.
pub fn listen_address() -> (address: ([u8; 4], u16))
    ensures
        address.0@ == seq![127u8, 0u8, 0u8, 1u8],
        address.1 == PORT,
{
    ([127, 0, 0, 1], PORT)
}

} // verus!

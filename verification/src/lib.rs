//! Adding and removing IPv4 addresses on network interfaces through the
//! kernel's route netlink protocol, as spoken by libnl.
//!
//! Nothing in this crate touches the native library. Every native call is a
//! value of [`libnl::native::Call`] that the caller performs, and what the call
//! returned comes back as a [`libnl::native::Reply`]. What is decided between
//! two calls (which call comes next, which handle must be released, which error
//! a status stands for) is decided here, and proved.
//!
//! [`socket`] and [`address`] hold the three operations: a socket is
//! initialized, an address is added, an address is removed. [`runs`] says what
//! each of them does from its first call to its last, and [`ledger`] that
//! none of them loses a native object or releases one twice.

pub mod address;
pub mod error;
pub mod ledger;
pub mod libnl;
pub mod runs;
pub mod socket;

//! The native objects of libnl (socket, address value, route address), the
//! calls that are made of them, and the errors that those calls end in.

pub mod error;
pub mod native;
pub mod nl_addr;
pub mod nl_sock;
pub mod rtnl_addr;

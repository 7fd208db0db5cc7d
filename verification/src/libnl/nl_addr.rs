//! The native address value: an address family and the bytes of an address.

use vstd::prelude::*;
use vstd::slice::slice_to_vec;

use crate::libnl::error::Error;
use crate::libnl::native::{Call, CallView};

verus! {

/// The address families that an address value can be built for.
#[derive(Debug, Clone, Copy, PartialEq, Eq)]
pub enum AddrFamily {
    IPv4,
}

impl AddrFamily {
    /// The number by which the native library knows the family: 2 for IPv4.
    pub open spec fn code_spec(self) -> i32 {
        match self {
            AddrFamily::IPv4 => 2i32,
        }
    }

    /// The number by which the native library knows the family.
    pub fn code(&self) -> (code: i32)
        ensures
            code == self.code_spec(),
    {
        match self {
            AddrFamily::IPv4 => 2,
        }
    }
}

/// An address value that the native library has built. It is the only owner
/// of its handle until it is attached to a route address or put.
#[derive(Debug, PartialEq, Eq)]
pub struct NlAddr {
    pub nl_addr: usize,
}

impl NlAddr {
    /// The handle is not the null pointer.
    pub open spec fn wf(self) -> bool {
        self.nl_addr != 0
    }

    /// The address value behind `nl_addr`, the pointer that the call of
    /// [`nl_addr_build`] returned. There is none behind the null pointer.
    pub fn new(nl_addr: usize) -> (built: Result<NlAddr, Error>)
        ensures
            nl_addr == 0 ==> built == Err::<NlAddr, Error>(Error::NlAddrAllocationFailed),
            nl_addr != 0 ==> built == Ok::<NlAddr, Error>(NlAddr { nl_addr }),
            built matches Ok(nl_addr) ==> nl_addr.wf(),
    {
        if nl_addr == 0 {
            return Err(Error::NlAddrAllocationFailed);
        }
        Ok(NlAddr { nl_addr })
    }

    /// Gives the address value up: the call that releases its handle.
    pub fn put(self) -> (call: Call)
        ensures
            call@ == (CallView::NlAddrPut { nl_addr: self.nl_addr }),
    {
        nl_addr_put(self.nl_addr)
    }
}

/// The call that builds an address value of `family` from a copy of `bytes`.
pub fn nl_addr_build(family: AddrFamily, bytes: &[u8]) -> (call: Call)
    ensures
        call@ == (CallView::NlAddrBuild { family: family.code_spec(), bytes: bytes@ }),
{
    Call::NlAddrBuild { family: family.code(), bytes: slice_to_vec(bytes) }
}

/// The call that releases the address value behind `nl_addr`.
pub fn nl_addr_put(nl_addr: usize) -> (call: Call)
    ensures
        call@ == (CallView::NlAddrPut { nl_addr }),
{
    Call::NlAddrPut { nl_addr }
}

} // verus!

//! What a native call can fail with.

use vstd::prelude::*;
use vstd::string::*;

verus! {

/// A status other than zero, as a native call returned it.
#[derive(Debug, Clone, Copy, PartialEq, Eq)]
pub struct NetlinkError(pub i32);

impl NetlinkError {
    /// The text of this error: the native library's words for the status,
    /// closed by a full stop.
    pub open spec fn message_spec(self, geterror: Seq<char>) -> Seq<char> {
        geterror + "."@
    }

    /// The text of this error. `geterror` is what the native library's
    /// `nl_geterror` gives for the status `self.0`.
    pub fn message(&self, geterror: &str) -> (text: String)
        ensures
            text@ == self.message_spec(geterror@),
    {
        let mut text = String::from_str(geterror);
        text.append(".");
        text
    }

    /// A fixed description, the same for every status.
    pub fn description(&self) -> (text: &'static str)
        ensures
            text@ == "libnl function end up with a non-zero return code"@,
    {
        "libnl function end up with a non-zero return code"
    }
}

/// The ways in which work on a native object fails.
#[derive(Debug, Clone, Copy, PartialEq, Eq)]
pub enum Error {
    /// `nl_addr_build` returned a null pointer.
    NlAddrAllocationFailed,
    /// `nl_socket_alloc` returned a null pointer.
    NlSockAllocationFailed,
    /// `nl_connect` returned the status held.
    NlSockConnectionFailed(NetlinkError),
    /// `rtnl_addr_add` returned the status held.
    RtnlAddrAdditionFailed(NetlinkError),
    /// `rtnl_addr_set_local` returned the status held.
    RtnlAddrFailedToSetLocal(NetlinkError),
    /// `rtnl_addr_delete` returned the status held.
    RtnlAddrRemovalFailed(NetlinkError),
    /// `rtnl_addr_alloc` returned a null pointer.
    RtnlAddrAllocationFailed,
}

impl Error {
    /// The native status behind this error, where there is one: a failed
    /// allocation has none.
    pub open spec fn cause_spec(self) -> Option<NetlinkError> {
        match self {
            Error::NlAddrAllocationFailed => None,
            Error::NlSockAllocationFailed => None,
            Error::NlSockConnectionFailed(err) => Some(err),
            Error::RtnlAddrAdditionFailed(err) => Some(err),
            Error::RtnlAddrFailedToSetLocal(err) => Some(err),
            Error::RtnlAddrRemovalFailed(err) => Some(err),
            Error::RtnlAddrAllocationFailed => None,
        }
    }

    /// What went wrong, without the native status.
    pub open spec fn description_spec(self) -> Seq<char> {
        match self {
            Error::NlAddrAllocationFailed => "nl_addr allocation failed"@,
            Error::NlSockAllocationFailed => "nl_sock allocation failed"@,
            Error::NlSockConnectionFailed(_) => "nl_sock connection failed"@,
            Error::RtnlAddrAdditionFailed(_) => "rtnl_addr addition failed"@,
            Error::RtnlAddrFailedToSetLocal(_) => "rtnl_addr failed to set local"@,
            Error::RtnlAddrRemovalFailed(_) => "rtnl_addr removal failed"@,
            Error::RtnlAddrAllocationFailed => "rtnl_addr allocation failed"@,
        }
    }

    /// The text of this error. For a failed allocation it is fixed; for a
    /// status it is what failed, a colon, and the text of the status.
    pub open spec fn message_spec(self, geterror: Seq<char>) -> Seq<char> {
        match self {
            Error::NlAddrAllocationFailed =>
                "nl_addr allocation failed (returned null pointer)."@,
            Error::NlSockAllocationFailed =>
                "nl_sock allocation failed (returned null pointer)."@,
            Error::NlSockConnectionFailed(err) =>
                "nl_sock connection failed: "@ + err.message_spec(geterror),
            Error::RtnlAddrAdditionFailed(err) =>
                "rtnl_addr addition failed: "@ + err.message_spec(geterror),
            Error::RtnlAddrFailedToSetLocal(err) =>
                "rtnl_addr failed to set local: "@ + err.message_spec(geterror),
            Error::RtnlAddrRemovalFailed(err) =>
                "rtnl_addr removal failed: "@ + err.message_spec(geterror),
            Error::RtnlAddrAllocationFailed =>
                "rtnl_addr allocation failed (returned null pointer)."@,
        }
    }

    /// The native status behind this error, where there is one.
    pub fn cause(&self) -> (cause: Option<&NetlinkError>)
        ensures
            match cause {
                Some(err) => self.cause_spec() == Some(*err),
                None => self.cause_spec().is_none(),
            },
    {
        match self {
            Error::NlAddrAllocationFailed => None,
            Error::NlSockAllocationFailed => None,
            Error::NlSockConnectionFailed(err) => Some(err),
            Error::RtnlAddrAdditionFailed(err) => Some(err),
            Error::RtnlAddrFailedToSetLocal(err) => Some(err),
            Error::RtnlAddrRemovalFailed(err) => Some(err),
            Error::RtnlAddrAllocationFailed => None,
        }
    }

    /// What went wrong, without the native status.
    pub fn description(&self) -> (text: &'static str)
        ensures
            text@ == self.description_spec(),
    {
        match self {
            Error::NlAddrAllocationFailed => "nl_addr allocation failed",
            Error::NlSockAllocationFailed => "nl_sock allocation failed",
            Error::NlSockConnectionFailed(_) => "nl_sock connection failed",
            Error::RtnlAddrAdditionFailed(_) => "rtnl_addr addition failed",
            Error::RtnlAddrFailedToSetLocal(_) => "rtnl_addr failed to set local",
            Error::RtnlAddrRemovalFailed(_) => "rtnl_addr removal failed",
            Error::RtnlAddrAllocationFailed => "rtnl_addr allocation failed",
        }
    }

    /// The text of this error. `geterror` is what the native library's
    /// `nl_geterror` gives for the status of `cause`; where `cause` is `None`
    /// it is not read.
    pub fn message(&self, geterror: &str) -> (text: String)
        ensures
            text@ == self.message_spec(geterror@),
    {
        match self {
            Error::NlAddrAllocationFailed => String::from_str(
                "nl_addr allocation failed (returned null pointer).",
            ),
            Error::NlSockAllocationFailed => String::from_str(
                "nl_sock allocation failed (returned null pointer).",
            ),
            Error::NlSockConnectionFailed(err) => prefixed(
                "nl_sock connection failed: ",
                err.message(geterror),
            ),
            Error::RtnlAddrAdditionFailed(err) => prefixed(
                "rtnl_addr addition failed: ",
                err.message(geterror),
            ),
            Error::RtnlAddrFailedToSetLocal(err) => prefixed(
                "rtnl_addr failed to set local: ",
                err.message(geterror),
            ),
            Error::RtnlAddrRemovalFailed(err) => prefixed(
                "rtnl_addr removal failed: ",
                err.message(geterror),
            ),
            Error::RtnlAddrAllocationFailed => String::from_str(
                "rtnl_addr allocation failed (returned null pointer).",
            ),
        }
    }
}

/// `rest` with `prefix` put before it.
pub fn prefixed(prefix: &str, rest: String) -> (text: String)
    ensures
        text@ == prefix@ + rest@,
{
    let mut text = String::from_str(prefix);
    text.append(rest.as_str());
    text
}

} // verus!

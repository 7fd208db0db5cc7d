//! What the operations on a socket fail with: the error of the native layer,
//! under the name of the operation that met it.

use vstd::prelude::*;

use crate::libnl::error::prefixed;

verus! {

/// The failure of one of the three operations, with its cause.
#[derive(Debug, Clone, Copy, PartialEq, Eq)]
pub enum Error {
    AddressAdditionFailed(crate::libnl::error::Error),
    AddressRemovalFailed(crate::libnl::error::Error),
    SocketInitializationFailed(crate::libnl::error::Error),
}

impl Error {
    /// The error of the native layer that this one wraps.
    pub open spec fn cause_spec(self) -> crate::libnl::error::Error {
        match self {
            Error::AddressAdditionFailed(err) => err,
            Error::AddressRemovalFailed(err) => err,
            Error::SocketInitializationFailed(err) => err,
        }
    }

    /// The text of this error: the operation that failed, a colon, and the
    /// text of the cause.
    pub open spec fn message_spec(self, geterror: Seq<char>) -> Seq<char> {
        match self {
            Error::AddressAdditionFailed(err) =>
                "Address addition failed: "@ + err.message_spec(geterror),
            Error::AddressRemovalFailed(err) =>
                "Address removal failed: "@ + err.message_spec(geterror),
            Error::SocketInitializationFailed(err) =>
                "Socket initialization failed: "@ + err.message_spec(geterror),
        }
    }

    /// The error of the native layer that this one wraps.
    pub fn cause(&self) -> (cause: Option<&crate::libnl::error::Error>)
        ensures
            cause matches Some(err) && *err == self.cause_spec(),
    {
        match self {
            Error::AddressAdditionFailed(err) => Some(err),
            Error::AddressRemovalFailed(err) => Some(err),
            Error::SocketInitializationFailed(err) => Some(err),
        }
    }

    /// What went wrong: the description of the cause.
    pub fn description(&self) -> (text: &'static str)
        ensures
            text@ == self.cause_spec().description_spec(),
    {
        match self {
            Error::AddressAdditionFailed(err) => err.description(),
            Error::AddressRemovalFailed(err) => err.description(),
            Error::SocketInitializationFailed(err) => err.description(),
        }
    }

    /// The text of this error. `geterror` is what the native library's
    /// `nl_geterror` gives for the status behind the cause; where there is no
    /// status it is not read.
    pub fn message(&self, geterror: &str) -> (text: String)
        ensures
            text@ == self.message_spec(geterror@),
    {
        match self {
            Error::AddressAdditionFailed(err) => prefixed(
                "Address addition failed: ",
                err.message(geterror),
            ),
            Error::AddressRemovalFailed(err) => prefixed(
                "Address removal failed: ",
                err.message(geterror),
            ),
            Error::SocketInitializationFailed(err) => prefixed(
                "Socket initialization failed: ",
                err.message(geterror),
            ),
        }
    }
}

} // verus!

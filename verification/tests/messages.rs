use netman::error::Error;
use netman::libnl::error::Error as NativeError;
use netman::libnl::error::{prefixed, NetlinkError};

#[test]
fn get_libnl_error_message() {
    assert_eq!(
        NetlinkError(2).message("Interrupted system call"),
        "Interrupted system call."
    );
}

#[test]
fn netlink_error_description_is_fixed() {
    assert_eq!(
        NetlinkError(2).description(),
        "libnl function end up with a non-zero return code"
    );
    assert_eq!(
        NetlinkError(-31).description(),
        "libnl function end up with a non-zero return code"
    );
}

#[test]
fn prefixed_puts_the_prefix_first() {
    assert_eq!(prefixed("a: ", String::from("b.")), "a: b.");
    assert_eq!(prefixed("", String::from("b.")), "b.");
    assert_eq!(prefixed("a: ", String::new()), "a: ");
}

#[test]
fn allocation_failures_have_fixed_messages() {
    assert_eq!(
        NativeError::NlAddrAllocationFailed.message("ignored"),
        "nl_addr allocation failed (returned null pointer)."
    );
    assert_eq!(
        NativeError::NlSockAllocationFailed.message("ignored"),
        "nl_sock allocation failed (returned null pointer)."
    );
    assert_eq!(
        NativeError::RtnlAddrAllocationFailed.message("ignored"),
        "rtnl_addr allocation failed (returned null pointer)."
    );
}

#[test]
fn status_failures_carry_the_native_text() {
    assert_eq!(
        NativeError::NlSockConnectionFailed(NetlinkError(2)).message("Interrupted system call"),
        "nl_sock connection failed: Interrupted system call."
    );
    assert_eq!(
        NativeError::RtnlAddrAdditionFailed(NetlinkError(-31)).message("No such device"),
        "rtnl_addr addition failed: No such device."
    );
    assert_eq!(
        NativeError::RtnlAddrFailedToSetLocal(NetlinkError(-15)).message("Address family mismatch"),
        "rtnl_addr failed to set local: Address family mismatch."
    );
    assert_eq!(
        NativeError::RtnlAddrRemovalFailed(NetlinkError(-19)).message("Invalid address for specified address family"),
        "rtnl_addr removal failed: Invalid address for specified address family."
    );
}

#[test]
fn native_descriptions() {
    assert_eq!(NativeError::NlAddrAllocationFailed.description(), "nl_addr allocation failed");
    assert_eq!(NativeError::NlSockAllocationFailed.description(), "nl_sock allocation failed");
    assert_eq!(
        NativeError::NlSockConnectionFailed(NetlinkError(1)).description(),
        "nl_sock connection failed"
    );
    assert_eq!(
        NativeError::RtnlAddrAdditionFailed(NetlinkError(1)).description(),
        "rtnl_addr addition failed"
    );
    assert_eq!(
        NativeError::RtnlAddrFailedToSetLocal(NetlinkError(1)).description(),
        "rtnl_addr failed to set local"
    );
    assert_eq!(
        NativeError::RtnlAddrRemovalFailed(NetlinkError(1)).description(),
        "rtnl_addr removal failed"
    );
    assert_eq!(NativeError::RtnlAddrAllocationFailed.description(), "rtnl_addr allocation failed");
}

#[test]
fn native_causes() {
    assert_eq!(NativeError::NlAddrAllocationFailed.cause(), None);
    assert_eq!(NativeError::NlSockAllocationFailed.cause(), None);
    assert_eq!(NativeError::RtnlAddrAllocationFailed.cause(), None);
    assert_eq!(
        NativeError::NlSockConnectionFailed(NetlinkError(7)).cause(),
        Some(&NetlinkError(7))
    );
    assert_eq!(
        NativeError::RtnlAddrAdditionFailed(NetlinkError(-6)).cause(),
        Some(&NetlinkError(-6))
    );
    assert_eq!(
        NativeError::RtnlAddrFailedToSetLocal(NetlinkError(-15)).cause(),
        Some(&NetlinkError(-15))
    );
    assert_eq!(
        NativeError::RtnlAddrRemovalFailed(NetlinkError(-19)).cause(),
        Some(&NetlinkError(-19))
    );
}

#[test]
fn operation_messages_name_the_operation() {
    let cause = NativeError::RtnlAddrAdditionFailed(NetlinkError(-31));
    assert_eq!(
        Error::AddressAdditionFailed(cause).message("No such device"),
        "Address addition failed: rtnl_addr addition failed: No such device."
    );
    let cause = NativeError::RtnlAddrRemovalFailed(NetlinkError(-19));
    assert_eq!(
        Error::AddressRemovalFailed(cause).message("Invalid address for specified address family"),
        "Address removal failed: rtnl_addr removal failed: Invalid address for specified address family."
    );
    assert_eq!(
        Error::SocketInitializationFailed(NativeError::NlSockAllocationFailed).message(""),
        "Socket initialization failed: nl_sock allocation failed (returned null pointer)."
    );
}

#[test]
fn operation_errors_describe_and_give_their_cause() {
    let cause = NativeError::NlSockConnectionFailed(NetlinkError(3));
    let error = Error::SocketInitializationFailed(cause);
    assert_eq!(error.description(), "nl_sock connection failed");
    assert_eq!(error.cause(), Some(&cause));
    let cause = NativeError::RtnlAddrAllocationFailed;
    assert_eq!(Error::AddressAdditionFailed(cause).description(), "rtnl_addr allocation failed");
    assert_eq!(Error::AddressAdditionFailed(cause).cause(), Some(&cause));
    assert_eq!(Error::AddressRemovalFailed(cause).description(), "rtnl_addr allocation failed");
    assert_eq!(Error::AddressRemovalFailed(cause).cause(), Some(&cause));
}

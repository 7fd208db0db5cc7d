use netman::address::{Addresses, IPv4Address, Ipv4Addr};
use netman::error::Error;
use netman::libnl::error::Error as NativeError;
use netman::libnl::error::NetlinkError;
use netman::libnl::native::{Call, Machine, Reply, Step};
use netman::libnl::nl_sock::{NlSock, Opening};
use netman::socket::{Initializing, Socket};

fn drive<M: Machine>(
    first: Step<M, M::Output>,
    answer: impl Fn(&Call) -> Reply,
) -> (Vec<Call>, M::Output) {
    let mut calls = Vec::new();
    let mut step = first;
    loop {
        match step {
            Step::Done(result) => return (calls, result),
            Step::Call(call, state) => {
                let reply = answer(&call);
                assert!(call.answered_by(&reply));
                calls.push(call);
                step = state.resume(reply);
            }
        }
    }
}

/// A native library in which every call succeeds, and which allocates its
/// sockets at `nl_sock`.
fn working(nl_sock: usize) -> impl Fn(&Call) -> Reply {
    move |call| match call {
        Call::NlSocketAlloc => Reply::Handle(nl_sock),
        Call::RtnlAddrAlloc => Reply::Handle(0x2000),
        Call::NlAddrBuild { .. } => Reply::Handle(0x3000),
        Call::NlConnect { .. }
        | Call::RtnlAddrSetLocal { .. }
        | Call::RtnlAddrAdd { .. }
        | Call::RtnlAddrDelete { .. } => Reply::Status(0),
        _ => Reply::Void,
    }
}

#[test]
fn socket_initialize() {
    let (calls, socket) = drive(Socket::new(), working(0x1000));
    assert!(socket.is_ok());
    assert_eq!(
        socket,
        Ok(Socket {
            nl_sock: NlSock { nl_sock: 0x1000 }
        })
    );
    assert_eq!(
        calls,
        vec![
            Call::NlSocketAlloc,
            Call::NlConnect {
                nl_sock: 0x1000,
                protocol: 0
            }
        ]
    );
}

#[test]
fn socket_when_the_kernel_is_out_of_reach() {
    let (calls, socket) = drive(Socket::new(), |call| match call {
        Call::NlSocketAlloc => Reply::Handle(0x1000),
        Call::NlConnect { .. } => Reply::Status(-1),
        _ => Reply::Void,
    });
    assert!(matches!(socket, Err(Error::SocketInitializationFailed(_))));
    assert_eq!(
        socket,
        Err(Error::SocketInitializationFailed(
            NativeError::NlSockConnectionFailed(NetlinkError(-1))
        ))
    );
    assert_eq!(
        calls,
        vec![
            Call::NlSocketAlloc,
            Call::NlConnect {
                nl_sock: 0x1000,
                protocol: 0
            },
            Call::NlSocketFree { nl_sock: 0x1000 },
        ]
    );
}

#[test]
fn socket_that_is_not_allocated() {
    let (calls, socket) = drive(Socket::new(), |call| match call {
        Call::NlSocketAlloc => Reply::Handle(0),
        _ => Reply::Void,
    });
    assert_eq!(
        socket,
        Err(Error::SocketInitializationFailed(
            NativeError::NlSockAllocationFailed
        ))
    );
    assert_eq!(calls, vec![Call::NlSocketAlloc]);
}

#[test]
fn initialization_begins_with_the_allocation() {
    assert_eq!(
        Socket::new(),
        Step::Call(
            Call::NlSocketAlloc,
            Initializing {
                opening: Opening::Allocating
            }
        )
    );
}

#[test]
fn opened_wraps_the_native_socket_or_its_failure() {
    assert_eq!(
        Socket::opened(Ok(NlSock { nl_sock: 5 })),
        Ok(Socket {
            nl_sock: NlSock { nl_sock: 5 }
        })
    );
    assert_eq!(
        Socket::opened(Err(NativeError::NlSockAllocationFailed)),
        Err(Error::SocketInitializationFailed(
            NativeError::NlSockAllocationFailed
        ))
    );
}

#[test]
fn a_socket_is_closed_then_freed() {
    let socket = Socket {
        nl_sock: NlSock { nl_sock: 0x1000 },
    };
    let (close, free) = socket.close();
    assert_eq!(close, Call::NlClose { nl_sock: 0x1000 });
    assert_eq!(free, Call::NlSocketFree { nl_sock: 0x1000 });
}

#[test]
fn two_sockets_do_not_touch_each_other() {
    let (_, one) = drive(Socket::new(), working(0x1000));
    let (_, other) = drive(Socket::new(), working(0x1800));
    let one = one.unwrap();
    let other = other.unwrap();
    assert_ne!(one, other);
    let address = IPv4Address::new()
        .set_ifindex(1)
        .set_local(Ipv4Addr::new(192, 168, 0, 1))
        .set_prefixlen(24);
    let (before, added) = drive(other.add_address(address), working(0));
    assert_eq!(added, Ok(()));
    let (close, free) = one.close();
    assert_eq!(close, Call::NlClose { nl_sock: 0x1000 });
    assert_eq!(free, Call::NlSocketFree { nl_sock: 0x1000 });
    let (after, added) = drive(other.add_address(address), working(0));
    assert_eq!(added, Ok(()));
    assert_eq!(before, after);
    assert!(after.contains(&Call::RtnlAddrAdd {
        nl_sock: 0x1800,
        rtnl_addr: 0x2000,
        flags: 0
    }));
    for call in after.iter() {
        assert!(!matches!(
            call,
            Call::RtnlAddrAdd {
                nl_sock: 0x1000,
                ..
            } | Call::RtnlAddrDelete {
                nl_sock: 0x1000,
                ..
            }
        ));
    }
}

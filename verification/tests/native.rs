use netman::libnl::error::{Error, NetlinkError};
use netman::libnl::native::{Call, Machine, Reply, Step};
use netman::libnl::nl_addr::{nl_addr_build, nl_addr_put, AddrFamily, NlAddr};
use netman::libnl::nl_sock::{
    nl_close, nl_connect, nl_socket_alloc, nl_socket_free, NlSock, Opening,
};
use netman::libnl::rtnl_addr::{
    rtnl_addr_add, rtnl_addr_added, rtnl_addr_alloc, rtnl_addr_delete, rtnl_addr_deleted,
    rtnl_addr_put, rtnl_addr_set_family, rtnl_addr_set_ifindex, rtnl_addr_set_local,
    rtnl_addr_set_prefixlen, Mode, RtnlAddr, Submitting,
};

/// Performs the calls of an operation on a native library that answers each
/// call as `answer` says, and gives the calls made and the result.
fn drive<M: Machine>(
    first: Step<M, M::Output>,
    answer: impl Fn(&Call) -> Reply,
) -> (Vec<Call>, M::Output) {
    let mut calls = Vec::new();
    let mut step = first;
    loop {
        match step {
            Step::Done(result) => return (calls, result),
            Step::Call(call, state) => {
                let reply = answer(&call);
                assert!(call.answered_by(&reply));
                calls.push(call);
                step = state.resume(reply);
            }
        }
    }
}

#[test]
fn nl_addr() {
    let call = nl_addr_build(AddrFamily::IPv4, &[10u8, 10u8, 10u8, 0u8]);
    assert_eq!(
        call,
        Call::NlAddrBuild {
            family: 2,
            bytes: vec![10u8, 10u8, 10u8, 0u8]
        }
    );
    let nl_addr = NlAddr::new(0x5000);
    assert!(nl_addr.is_ok());
}

#[test]
fn nl_addr_from_null_is_an_allocation_failure() {
    assert_eq!(NlAddr::new(0), Err(Error::NlAddrAllocationFailed));
    assert_eq!(NlAddr::new(1), Ok(NlAddr { nl_addr: 1 }));
    assert_eq!(
        NlAddr::new(usize::MAX),
        Ok(NlAddr {
            nl_addr: usize::MAX
        })
    );
}

#[test]
fn nl_addr_build_copies_any_bytes() {
    assert_eq!(
        nl_addr_build(AddrFamily::IPv4, &[]),
        Call::NlAddrBuild {
            family: 2,
            bytes: vec![]
        }
    );
    assert_eq!(
        nl_addr_build(AddrFamily::IPv4, &[1, 2, 3, 4, 5, 6]),
        Call::NlAddrBuild {
            family: 2,
            bytes: vec![1, 2, 3, 4, 5, 6]
        }
    );
}

#[test]
fn nl_addr_is_put_by_its_handle() {
    let nl_addr = NlAddr::new(0x5000).unwrap();
    assert_eq!(nl_addr.put(), Call::NlAddrPut { nl_addr: 0x5000 });
    assert_eq!(nl_addr_put(7), Call::NlAddrPut { nl_addr: 7 });
}

#[test]
fn ipv4_is_family_two() {
    assert_eq!(AddrFamily::IPv4.code(), 2);
}

#[test]
fn nl_sock_initialize() {
    let (calls, nl_sock) = drive(NlSock::new(), |call| match call {
        Call::NlSocketAlloc => Reply::Handle(0x1000),
        Call::NlConnect { .. } => Reply::Status(0),
        _ => Reply::Void,
    });
    assert!(nl_sock.is_ok());
    assert_eq!(nl_sock, Ok(NlSock { nl_sock: 0x1000 }));
    assert_eq!(
        calls,
        vec![
            Call::NlSocketAlloc,
            Call::NlConnect {
                nl_sock: 0x1000,
                protocol: 0
            }
        ]
    );
}

#[test]
fn nl_sock_that_is_not_allocated_makes_no_other_call() {
    let (calls, nl_sock) = drive(NlSock::new(), |call| match call {
        Call::NlSocketAlloc => Reply::Handle(0),
        Call::NlConnect { .. } => Reply::Status(0),
        _ => Reply::Void,
    });
    assert_eq!(nl_sock, Err(Error::NlSockAllocationFailed));
    assert_eq!(calls, vec![Call::NlSocketAlloc]);
}

#[test]
fn nl_sock_that_does_not_connect_is_freed() {
    let (calls, nl_sock) = drive(NlSock::new(), |call| match call {
        Call::NlSocketAlloc => Reply::Handle(0x1000),
        Call::NlConnect { .. } => Reply::Status(-4),
        _ => Reply::Void,
    });
    assert_eq!(
        nl_sock,
        Err(Error::NlSockConnectionFailed(NetlinkError(-4)))
    );
    assert_eq!(
        calls,
        vec![
            Call::NlSocketAlloc,
            Call::NlConnect {
                nl_sock: 0x1000,
                protocol: 0
            },
            Call::NlSocketFree { nl_sock: 0x1000 },
        ]
    );
}

#[test]
fn opening_step_by_step() {
    let step = NlSock::new();
    assert_eq!(step, Step::Call(Call::NlSocketAlloc, Opening::Allocating));
    let step = Opening::Allocating.resume(Reply::Handle(9));
    assert_eq!(
        step,
        Step::Call(
            Call::NlConnect {
                nl_sock: 9,
                protocol: 0
            },
            Opening::Connecting { nl_sock: 9 }
        )
    );
    let step = Opening::Connecting { nl_sock: 9 }.resume(Reply::Status(i32::MIN));
    assert_eq!(
        step,
        Step::Call(
            Call::NlSocketFree { nl_sock: 9 },
            Opening::Freeing {
                nl_sock: 9,
                rc: i32::MIN
            }
        )
    );
    let step = Opening::Freeing {
        nl_sock: 9,
        rc: i32::MIN,
    }
    .resume(Reply::Void);
    assert_eq!(
        step,
        Step::Done(Err(Error::NlSockConnectionFailed(NetlinkError(i32::MIN))))
    );
}

#[test]
fn nl_sock_is_closed_then_freed() {
    let (close, free) = NlSock { nl_sock: 0x1000 }.close();
    assert_eq!(close, Call::NlClose { nl_sock: 0x1000 });
    assert_eq!(free, Call::NlSocketFree { nl_sock: 0x1000 });
}

#[test]
fn socket_calls() {
    assert_eq!(nl_socket_alloc(), Call::NlSocketAlloc);
    assert_eq!(nl_socket_free(3), Call::NlSocketFree { nl_sock: 3 });
    assert_eq!(
        nl_connect(3),
        Call::NlConnect {
            nl_sock: 3,
            protocol: 0
        }
    );
    assert_eq!(nl_close(3), Call::NlClose { nl_sock: 3 });
}

#[test]
fn rtnl_addr() {
    let mut rtnl_addr = RtnlAddr::new(0x2000).unwrap();
    let set_ifindex = rtnl_addr.set_ifindex(1);
    let set_prefixlen = rtnl_addr.set_prefixlen(24);
    let build = nl_addr_build(AddrFamily::IPv4, &[10u8, 10u8, 10u8, 0u8]);
    let nl_addr = NlAddr::new(0x3000).unwrap();
    rtnl_addr.set_local(nl_addr, 0).unwrap();
    assert_eq!(
        set_ifindex,
        Call::RtnlAddrSetIfindex {
            rtnl_addr: 0x2000,
            ifindex: 1
        }
    );
    assert_eq!(
        set_prefixlen,
        Call::RtnlAddrSetPrefixlen {
            rtnl_addr: 0x2000,
            prefixlen: 24
        }
    );
    assert_eq!(
        build,
        Call::NlAddrBuild {
            family: 2,
            bytes: vec![10u8, 10u8, 10u8, 0u8]
        }
    );
    assert_eq!(
        rtnl_addr,
        RtnlAddr {
            rtnl_addr: 0x2000,
            family: None,
            ifindex: Some(1),
            prefixlen: Some(24),
            local: Some(NlAddr { nl_addr: 0x3000 }),
        }
    );
}

#[test]
fn rtnl_addr_from_null_is_an_allocation_failure() {
    assert_eq!(RtnlAddr::new(0), Err(Error::RtnlAddrAllocationFailed));
    assert_eq!(
        RtnlAddr::new(8),
        Ok(RtnlAddr {
            rtnl_addr: 8,
            family: None,
            ifindex: None,
            prefixlen: None,
            local: None
        })
    );
}

#[test]
fn rtnl_addr_setters_note_what_they_set() {
    let mut rtnl_addr = RtnlAddr::new(8).unwrap();
    assert_eq!(
        rtnl_addr.set_family(AddrFamily::IPv4),
        Call::RtnlAddrSetFamily {
            rtnl_addr: 8,
            family: 2
        }
    );
    assert_eq!(rtnl_addr.family, Some(AddrFamily::IPv4));
    assert_eq!(
        rtnl_addr.set_ifindex(-1),
        Call::RtnlAddrSetIfindex {
            rtnl_addr: 8,
            ifindex: -1
        }
    );
    assert_eq!(rtnl_addr.ifindex, Some(-1));
    assert_eq!(
        rtnl_addr.set_ifindex(5),
        Call::RtnlAddrSetIfindex {
            rtnl_addr: 8,
            ifindex: 5
        }
    );
    assert_eq!(rtnl_addr.ifindex, Some(5));
    assert_eq!(
        rtnl_addr.set_prefixlen(32),
        Call::RtnlAddrSetPrefixlen {
            rtnl_addr: 8,
            prefixlen: 32
        }
    );
    assert_eq!(rtnl_addr.prefixlen, Some(32));
    assert_eq!(rtnl_addr.rtnl_addr, 8);
    assert_eq!(rtnl_addr.local, None);
}

#[test]
fn set_local_that_fails_gives_the_address_value_back() {
    let mut rtnl_addr = RtnlAddr::new(8).unwrap();
    rtnl_addr.set_ifindex(2);
    let nl_addr = NlAddr::new(9).unwrap();
    let attached = rtnl_addr.set_local(nl_addr, -15);
    assert_eq!(
        attached,
        Err((
            Error::RtnlAddrFailedToSetLocal(NetlinkError(-15)),
            NlAddr { nl_addr: 9 }
        ))
    );
    assert_eq!(
        rtnl_addr,
        RtnlAddr {
            rtnl_addr: 8,
            family: None,
            ifindex: Some(2),
            prefixlen: None,
            local: None
        }
    );
}

#[test]
fn rtnl_addr_is_put_by_its_handle() {
    let mut rtnl_addr = RtnlAddr::new(8).unwrap();
    rtnl_addr.set_local(NlAddr::new(9).unwrap(), 0).unwrap();
    assert_eq!(rtnl_addr.put(), Call::RtnlAddrPut { rtnl_addr: 8 });
}

#[test]
fn record_calls() {
    assert_eq!(rtnl_addr_alloc(), Call::RtnlAddrAlloc);
    assert_eq!(rtnl_addr_put(4), Call::RtnlAddrPut { rtnl_addr: 4 });
    assert_eq!(
        rtnl_addr_set_ifindex(4, 7),
        Call::RtnlAddrSetIfindex {
            rtnl_addr: 4,
            ifindex: 7
        }
    );
    assert_eq!(
        rtnl_addr_set_prefixlen(4, 16),
        Call::RtnlAddrSetPrefixlen {
            rtnl_addr: 4,
            prefixlen: 16
        }
    );
    assert_eq!(
        rtnl_addr_set_local(4, 5),
        Call::RtnlAddrSetLocal {
            rtnl_addr: 4,
            local: 5
        }
    );
    assert_eq!(
        rtnl_addr_set_family(4, 2),
        Call::RtnlAddrSetFamily {
            rtnl_addr: 4,
            family: 2
        }
    );
    assert_eq!(
        rtnl_addr_add(3, 4),
        Call::RtnlAddrAdd {
            nl_sock: 3,
            rtnl_addr: 4,
            flags: 0
        }
    );
    assert_eq!(
        rtnl_addr_delete(3, 4),
        Call::RtnlAddrDelete {
            nl_sock: 3,
            rtnl_addr: 4,
            flags: 0
        }
    );
}

#[test]
fn a_status_stands_for_success_or_for_the_error_of_the_transaction() {
    assert_eq!(rtnl_addr_added(0), Ok(()));
    assert_eq!(
        rtnl_addr_added(-31),
        Err(Error::RtnlAddrAdditionFailed(NetlinkError(-31)))
    );
    assert_eq!(
        rtnl_addr_added(1),
        Err(Error::RtnlAddrAdditionFailed(NetlinkError(1)))
    );
    assert_eq!(rtnl_addr_deleted(0), Ok(()));
    assert_eq!(
        rtnl_addr_deleted(-19),
        Err(Error::RtnlAddrRemovalFailed(NetlinkError(-19)))
    );
}

#[test]
fn add_submits_and_puts() {
    let nl_sock = NlSock { nl_sock: 0x1000 };
    let rtnl_addr = RtnlAddr::new(0x2000).unwrap();
    let (calls, result) = drive(rtnl_addr.add(&nl_sock), |call| match call {
        Call::RtnlAddrAdd { .. } => Reply::Status(0),
        _ => Reply::Void,
    });
    assert_eq!(result, Ok(()));
    assert_eq!(
        calls,
        vec![
            Call::RtnlAddrAdd {
                nl_sock: 0x1000,
                rtnl_addr: 0x2000,
                flags: 0
            },
            Call::RtnlAddrPut { rtnl_addr: 0x2000 },
        ]
    );
}

#[test]
fn add_that_fails_still_puts() {
    let nl_sock = NlSock { nl_sock: 0x1000 };
    let rtnl_addr = RtnlAddr::new(0x2000).unwrap();
    let (calls, result) = drive(rtnl_addr.add(&nl_sock), |call| match call {
        Call::RtnlAddrAdd { .. } => Reply::Status(-6),
        _ => Reply::Void,
    });
    assert_eq!(
        result,
        Err(Error::RtnlAddrAdditionFailed(NetlinkError(-6)))
    );
    assert_eq!(calls.len(), 2);
    assert_eq!(calls[1], Call::RtnlAddrPut { rtnl_addr: 0x2000 });
}

#[test]
fn delete_submits_and_puts() {
    let nl_sock = NlSock { nl_sock: 0x1000 };
    let rtnl_addr = RtnlAddr::new(0x2000).unwrap();
    let (calls, result) = drive(rtnl_addr.delete(&nl_sock), |call| match call {
        Call::RtnlAddrDelete { .. } => Reply::Status(-19),
        _ => Reply::Void,
    });
    assert_eq!(
        result,
        Err(Error::RtnlAddrRemovalFailed(NetlinkError(-19)))
    );
    assert_eq!(
        calls,
        vec![
            Call::RtnlAddrDelete {
                nl_sock: 0x1000,
                rtnl_addr: 0x2000,
                flags: 0
            },
            Call::RtnlAddrPut { rtnl_addr: 0x2000 },
        ]
    );
}

#[test]
fn submit_goes_by_its_mode() {
    let rtnl_addr = RtnlAddr::new(2).unwrap();
    match rtnl_addr.submit(1, Mode::Delete) {
        Step::Call(call, Submitting::Sent { nl_sock, mode, .. }) => {
            assert_eq!(
                call,
                Call::RtnlAddrDelete {
                    nl_sock: 1,
                    rtnl_addr: 2,
                    flags: 0
                }
            );
            assert_eq!(nl_sock, 1);
            assert_eq!(mode, Mode::Delete);
        }
        other => panic!("{:?}", other),
    }
}

#[test]
fn each_call_is_answered_by_its_kind_of_reply() {
    let handles = [
        Call::NlSocketAlloc,
        Call::NlAddrBuild {
            family: 2,
            bytes: vec![1, 2, 3, 4],
        },
        Call::RtnlAddrAlloc,
    ];
    let statuses = [
        Call::NlConnect {
            nl_sock: 1,
            protocol: 0,
        },
        Call::RtnlAddrSetLocal {
            rtnl_addr: 1,
            local: 2,
        },
        Call::RtnlAddrAdd {
            nl_sock: 1,
            rtnl_addr: 2,
            flags: 0,
        },
        Call::RtnlAddrDelete {
            nl_sock: 1,
            rtnl_addr: 2,
            flags: 0,
        },
    ];
    let voids = [
        Call::NlSocketFree { nl_sock: 1 },
        Call::NlClose { nl_sock: 1 },
        Call::NlAddrPut { nl_addr: 1 },
        Call::RtnlAddrPut { rtnl_addr: 1 },
        Call::RtnlAddrSetIfindex {
            rtnl_addr: 1,
            ifindex: 1,
        },
        Call::RtnlAddrSetPrefixlen {
            rtnl_addr: 1,
            prefixlen: 1,
        },
        Call::RtnlAddrSetFamily {
            rtnl_addr: 1,
            family: 2,
        },
    ];
    for call in handles.iter() {
        assert!(call.answered_by(&Reply::Handle(0)));
        assert!(!call.answered_by(&Reply::Status(0)));
        assert!(!call.answered_by(&Reply::Void));
    }
    for call in statuses.iter() {
        assert!(!call.answered_by(&Reply::Handle(0)));
        assert!(call.answered_by(&Reply::Status(-1)));
        assert!(!call.answered_by(&Reply::Void));
    }
    for call in voids.iter() {
        assert!(!call.answered_by(&Reply::Handle(1)));
        assert!(!call.answered_by(&Reply::Status(0)));
        assert!(call.answered_by(&Reply::Void));
    }
}

#[test]
fn a_reply_holds_a_handle_or_a_status() {
    assert_eq!(Reply::Handle(5).handle(), 5);
    assert_eq!(Reply::Status(5).handle(), 0);
    assert_eq!(Reply::Void.handle(), 0);
    assert_eq!(Reply::Status(-5).status(), -5);
    assert_eq!(Reply::Handle(5).status(), 0);
    assert_eq!(Reply::Void.status(), 0);
}

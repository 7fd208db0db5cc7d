//! What holds of whole runs of the operations, whatever the native library
//! answers.

use vstd::prelude::*;

use crate::address::{failed_spec, IPv4Address, Ipv4Addr, Materializing, Transaction};
use crate::error::Error;
use crate::libnl::native::{run, run_keeps, run_with_reply, CallView, Machine, Reply, Run, StepView};
use crate::libnl::nl_addr::{AddrFamily, NlAddr};
use crate::libnl::nl_sock::{NlSock, Opening};
use crate::libnl::rtnl_addr::{Mode, RtnlAddr, Submitting};
use crate::socket::{Initializing, Socket};

verus! {

/// The making of a route address never reaches for a socket: whatever the
/// native library answers, none of its calls is a transaction, nor any other
/// call on a socket.
pub proof fn materializing_needs_no_socket(address: IPv4Address, replies: Seq<Reply>)
    ensures
        forall|i: int|
            0 <= i < run(Materializing::begin(address), replies).calls.len() ==> (
            #[trigger] run(Materializing::begin(address), replies).calls[i]).nl_sock().is_none(),
{
    run_keeps(
        Materializing::begin(address),
        replies,
        |state: Materializing| true,
        |call: CallView| call.nl_sock().is_none(),
    );
}

/// No null pointer is ever attached: whatever the native library answers, a
/// call of `rtnl_addr_set_local` in the making of a route address names an
/// address value that was built.
pub proof fn materializing_attaches_no_null(address: IPv4Address, replies: Seq<Reply>)
    ensures
        forall|i: int|
            0 <= i < run(Materializing::begin(address), replies).calls.len() ==> (
            #[trigger] run(Materializing::begin(address), replies).calls[i] matches CallView::RtnlAddrSetLocal {
                rtnl_addr,
                local,
            } ==> rtnl_addr != 0 && local != 0),
{
    run_keeps(
        Materializing::begin(address),
        replies,
        |state: Materializing| state.wf(),
        |call: CallView|
            call matches CallView::RtnlAddrSetLocal { rtnl_addr, local } ==> rtnl_addr != 0 && local
                != 0,
    );
}

/// An operation keeps to its socket: whatever the native library answers, a
/// call of the operation that is made on a socket is made on the one that
/// the operation was begun on.
pub proof fn transaction_keeps_to_its_socket(
    nl_sock: usize,
    mode: Mode,
    address: IPv4Address,
    replies: Seq<Reply>,
)
    ensures
        forall|i: int|
            0 <= i < run(Transaction::begin(nl_sock, mode, address), replies).calls.len() ==> (
            #[trigger] run(Transaction::begin(nl_sock, mode, address), replies).calls[i].nl_sock()
                matches Some(other) ==> other == nl_sock),
{
    run_keeps(
        Transaction::begin(nl_sock, mode, address),
        replies,
        |state: Transaction|
            match state {
                Transaction::Materializing { nl_sock: held, .. } => held == nl_sock,
                Transaction::Submitting {
                    submitting: Submitting::Sent { nl_sock: held, .. },
                    ..
                } => held == nl_sock,
                Transaction::Submitting { .. } => true,
            },
        |call: CallView| call.nl_sock() matches Some(other) ==> other == nl_sock,
    );
}

/// Two sockets do not touch each other. The calls that end the one are made
/// on it and not on the other, and no operation on the other makes a call on
/// the one, before or after: what an operation does is a matter of its own
/// socket, of the description and of the replies alone.
pub proof fn sockets_are_apart(
    one: Socket,
    other: Socket,
    mode: Mode,
    address: IPv4Address,
    replies: Seq<Reply>,
)
    requires
        one.nl_sock.nl_sock != other.nl_sock.nl_sock,
    ensures
        forall|i: int|
            0 <= i < one.closing().len() ==> (#[trigger] one.closing()[i]).nl_sock() == Some(
                one.nl_sock.nl_sock,
            ),
        forall|i: int|
            0 <= i < run(
                Transaction::begin(other.nl_sock.nl_sock, mode, address),
                replies,
            ).calls.len() ==> (#[trigger] run(
                Transaction::begin(other.nl_sock.nl_sock, mode, address),
                replies,
            ).calls[i]).nl_sock() != Some(one.nl_sock.nl_sock),
{
    transaction_keeps_to_its_socket(other.nl_sock.nl_sock, mode, address, replies);
}

/// What the native library returns, in the course of one operation, to the
/// calls that return something.
pub struct Answers {
    /// The pointer that `nl_socket_alloc` returns.
    pub nl_sock: usize,
    /// The status that `nl_connect` returns.
    pub connect: i32,
    /// The pointer that `rtnl_addr_alloc` returns.
    pub rtnl_addr: usize,
    /// The pointer that `nl_addr_build` returns.
    pub nl_addr: usize,
    /// The status that `rtnl_addr_set_local` returns.
    pub set_local: i32,
    /// The status that `rtnl_addr_add` or `rtnl_addr_delete` returns.
    pub submit: i32,
}

impl Answers {
    /// The reply to `call`.
    pub open spec fn to(self, call: CallView) -> Reply {
        match call {
            CallView::NlSocketAlloc => Reply::Handle(self.nl_sock),
            CallView::NlConnect { .. } => Reply::Status(self.connect),
            CallView::RtnlAddrAlloc => Reply::Handle(self.rtnl_addr),
            CallView::NlAddrBuild { .. } => Reply::Handle(self.nl_addr),
            CallView::RtnlAddrSetLocal { .. } => Reply::Status(self.set_local),
            CallView::RtnlAddrAdd { .. } => Reply::Status(self.submit),
            CallView::RtnlAddrDelete { .. } => Reply::Status(self.submit),
            _ => Reply::Void,
        }
    }

    /// The replies to `calls`, in their order.
    pub open spec fn to_all(self, calls: Seq<CallView>) -> Seq<Reply> {
        calls.map_values(|call: CallView| self.to(call))
    }
}

/// The calls that set in the record behind `rtnl_addr` what `address` says
/// of the interface index and of the prefix length, after the family.
pub open spec fn settings(address: IPv4Address, rtnl_addr: usize) -> Seq<CallView> {
    seq![CallView::RtnlAddrSetFamily { rtnl_addr, family: 2 }] + (match address.ifindex {
        Some(ifindex) => seq![CallView::RtnlAddrSetIfindex { rtnl_addr, ifindex }],
        None => Seq::empty(),
    }) + (match address.prefixlen {
        Some(prefixlen) => seq![
            CallView::RtnlAddrSetPrefixlen { rtnl_addr, prefixlen: prefixlen as i32 },
        ],
        None => Seq::empty(),
    })
}

/// The record behind `rtnl_addr` once these are set, with no local address
/// yet.
pub open spec fn configured(address: IPv4Address, rtnl_addr: usize) -> RtnlAddr {
    RtnlAddr {
        rtnl_addr,
        family: Some(AddrFamily::IPv4),
        ifindex: address.ifindex,
        prefixlen: match address.prefixlen {
            Some(prefixlen) => Some(prefixlen as i32),
            None => None,
        },
        local: None,
    }
}

/// The calls that see to the local address of `address`: none where it has
/// none. Else the address value is built from its four octets. Where none is
/// built, the record is put. Where one is, it is attached, and where that
/// fails, it is put and then the record.
pub open spec fn attaching(address: IPv4Address, answers: Answers) -> Seq<CallView> {
    match address.local {
        None => Seq::empty(),
        Some(local) => if answers.nl_addr == 0 {
            seq![
                CallView::NlAddrBuild { family: 2, bytes: local.octets_spec() },
                CallView::RtnlAddrPut { rtnl_addr: answers.rtnl_addr },
            ]
        } else if answers.set_local != 0 {
            seq![
                CallView::NlAddrBuild { family: 2, bytes: local.octets_spec() },
                CallView::RtnlAddrSetLocal {
                    rtnl_addr: answers.rtnl_addr,
                    local: answers.nl_addr,
                },
                CallView::NlAddrPut { nl_addr: answers.nl_addr },
                CallView::RtnlAddrPut { rtnl_addr: answers.rtnl_addr },
            ]
        } else {
            seq![
                CallView::NlAddrBuild { family: 2, bytes: local.octets_spec() },
                CallView::RtnlAddrSetLocal {
                    rtnl_addr: answers.rtnl_addr,
                    local: answers.nl_addr,
                },
            ]
        },
    }
}

/// What the making of a route address of `address` ends with: the first
/// failure among the allocation of the record, the building of the address
/// value and its attachment, the latter two only where `address` has a local
/// address; without a failure, the record with all that `address` says.
pub open spec fn materialized(address: IPv4Address, answers: Answers) -> Result<
    RtnlAddr,
    crate::libnl::error::Error,
> {
    if answers.rtnl_addr == 0 {
        Err(crate::libnl::error::Error::RtnlAddrAllocationFailed)
    } else if address.local.is_none() {
        Ok(configured(address, answers.rtnl_addr))
    } else if answers.nl_addr == 0 {
        Err(crate::libnl::error::Error::NlAddrAllocationFailed)
    } else if answers.set_local != 0 {
        Err(
            crate::libnl::error::Error::RtnlAddrFailedToSetLocal(
                crate::libnl::error::NetlinkError(answers.set_local),
            ),
        )
    } else {
        Ok(
            RtnlAddr {
                local: Some(NlAddr { nl_addr: answers.nl_addr }),
                ..configured(address, answers.rtnl_addr)
            },
        )
    }
}

/// All the calls of the making of a route address of `address`: the
/// allocation of the record, and where there is a record, its settings and
/// what sees to the local address.
pub open spec fn materializing(address: IPv4Address, answers: Answers) -> Seq<CallView> {
    if answers.rtnl_addr == 0 {
        seq![CallView::RtnlAddrAlloc]
    } else {
        seq![CallView::RtnlAddrAlloc] + settings(address, answers.rtnl_addr) + attaching(
            address,
            answers,
        )
    }
}

/// A run on the replies to a first call and to further ones is the first
/// call, and then the run on the replies to the further ones.
proof fn run_answered<M: Machine>(answers: Answers, call: CallView, state: M, rest: Seq<CallView>)
    ensures
        run(StepView::Call(call, state), answers.to_all(seq![call] + rest)) == (Run {
            calls: seq![call] + run(state.next(answers.to(call)), answers.to_all(rest)).calls,
            result: run(state.next(answers.to(call)), answers.to_all(rest)).result,
        }),
{
    assert(answers.to_all(seq![call] + rest) =~= seq![answers.to(call)] + answers.to_all(rest));
    run_with_reply(call, state, answers.to(call), answers.to_all(rest));
}

/// What the making ends with once the settings are made in `rtnl_addr`.
spec fn attached(rtnl_addr: RtnlAddr, address: IPv4Address, answers: Answers) -> Result<
    RtnlAddr,
    crate::libnl::error::Error,
> {
    if address.local.is_none() {
        Ok(rtnl_addr)
    } else if answers.nl_addr == 0 {
        Err(crate::libnl::error::Error::NlAddrAllocationFailed)
    } else if answers.set_local != 0 {
        Err(
            crate::libnl::error::Error::RtnlAddrFailedToSetLocal(
                crate::libnl::error::NetlinkError(answers.set_local),
            ),
        )
    } else {
        Ok(RtnlAddr { local: Some(NlAddr { nl_addr: answers.nl_addr }), ..rtnl_addr })
    }
}

/// The run from the point where the local address is all that is left.
proof fn run_of_attaching(rtnl_addr: RtnlAddr, address: IPv4Address, answers: Answers)
    requires
        rtnl_addr.rtnl_addr == answers.rtnl_addr,
    ensures
        run(
            Materializing::after_prefixlen(rtnl_addr, address),
            answers.to_all(attaching(address, answers)),
        ) == (Run {
            calls: attaching(address, answers),
            result: Some(attached(rtnl_addr, address, answers)),
        }),
{
    let none = Seq::<CallView>::empty();
    match address.local {
        None => {
            assert(run(
                Materializing::after_prefixlen(rtnl_addr, address),
                answers.to_all(none),
            ).calls =~= none);
        },
        Some(local) => {
            let build = CallView::NlAddrBuild { family: 2, bytes: local.octets_spec() };
            let set = CallView::RtnlAddrSetLocal {
                rtnl_addr: answers.rtnl_addr,
                local: answers.nl_addr,
            };
            let put_local = CallView::NlAddrPut { nl_addr: answers.nl_addr };
            let put = CallView::RtnlAddrPut { rtnl_addr: answers.rtnl_addr };
            let building = Materializing::Building { rtnl_addr, local };
            let failed = crate::libnl::error::Error::RtnlAddrFailedToSetLocal(
                crate::libnl::error::NetlinkError(answers.set_local),
            );
            if answers.nl_addr == 0 {
                let putting = Materializing::PuttingRecord {
                    handle: answers.rtnl_addr,
                    error: crate::libnl::error::Error::NlAddrAllocationFailed,
                };
                run_answered(answers, build, building, seq![put]);
                run_answered(answers, put, putting, none);
                assert(seq![build] + seq![put] =~= seq![build, put]);
                assert(seq![put] + none =~= seq![put]);
                assert(seq![build] + (seq![put] + none) =~= seq![build, put]);
            } else {
                let attaching = Materializing::Attaching {
                    rtnl_addr,
                    nl_addr: NlAddr { nl_addr: answers.nl_addr },
                };
                if answers.set_local != 0 {
                    let putting_local = Materializing::PuttingLocal {
                        rtnl_addr,
                        handle: answers.nl_addr,
                        error: failed,
                    };
                    let putting = Materializing::PuttingRecord {
                        handle: answers.rtnl_addr,
                        error: failed,
                    };
                    run_answered(answers, build, building, seq![set, put_local, put]);
                    run_answered(answers, set, attaching, seq![put_local, put]);
                    run_answered(answers, put_local, putting_local, seq![put]);
                    run_answered(answers, put, putting, none);
                    assert(seq![put] + none =~= seq![put]);
                    assert(seq![put_local] + seq![put] =~= seq![put_local, put]);
                    assert(seq![set] + seq![put_local, put] =~= seq![set, put_local, put]);
                    assert(seq![build] + seq![set, put_local, put] =~= seq![
                        build,
                        set,
                        put_local,
                        put,
                    ]);
                } else {
                    run_answered(answers, build, building, seq![set]);
                    run_answered(answers, set, attaching, none);
                    assert(seq![set] + none =~= seq![set]);
                    assert(seq![build] + seq![set] =~= seq![build, set]);
                }
            }
        },
    }
}

/// The making of a route address, whole. Whatever the native library answers
/// to the calls that return something, the making of a route address of
/// `address` hands out the calls of `materializing` in their order, and with
/// the reply to the last of them it ends with `materialized`.
pub proof fn materializing_runs(address: IPv4Address, answers: Answers)
    ensures
        run(
            Materializing::begin(address),
            answers.to_all(materializing(address, answers)),
        ) == (Run {
            calls: materializing(address, answers),
            result: Some(materialized(address, answers)),
        }),
{
    let none = Seq::<CallView>::empty();
    let alloc = CallView::RtnlAddrAlloc;
    let allocating = Materializing::Allocating { address };
    if answers.rtnl_addr == 0 {
        run_answered(answers, alloc, allocating, none);
        assert(seq![alloc] + none =~= seq![alloc]);
    } else {
        let rtnl_addr = answers.rtnl_addr;
        let last = attaching(address, answers);
        let family = CallView::RtnlAddrSetFamily { rtnl_addr, family: 2 };
        let with_family = RtnlAddr { family: Some(AddrFamily::IPv4), ..RtnlAddr::empty(rtnl_addr) };
        let with_ifindex = RtnlAddr { ifindex: address.ifindex, ..with_family };
        let with_prefixlen = configured(address, rtnl_addr);
        run_of_attaching(with_prefixlen, address, answers);
        let of_prefixlen = match address.prefixlen {
            Some(prefixlen) => seq![
                CallView::RtnlAddrSetPrefixlen { rtnl_addr, prefixlen: prefixlen as i32 },
            ] + last,
            None => last,
        };
        assert(run(
            Materializing::after_ifindex(with_ifindex, address),
            answers.to_all(of_prefixlen),
        ) == (Run { calls: of_prefixlen, result: Some(materialized(address, answers)) })) by {
            if let Some(prefixlen) = address.prefixlen {
                run_answered(
                    answers,
                    CallView::RtnlAddrSetPrefixlen { rtnl_addr, prefixlen: prefixlen as i32 },
                    Materializing::Prefixlen { rtnl_addr: with_prefixlen, address },
                    last,
                );
            }
        }
        let of_ifindex = match address.ifindex {
            Some(ifindex) => seq![CallView::RtnlAddrSetIfindex { rtnl_addr, ifindex }]
                + of_prefixlen,
            None => of_prefixlen,
        };
        assert(run(
            Materializing::after_family(with_family, address),
            answers.to_all(of_ifindex),
        ) == (Run { calls: of_ifindex, result: Some(materialized(address, answers)) })) by {
            if let Some(ifindex) = address.ifindex {
                run_answered(
                    answers,
                    CallView::RtnlAddrSetIfindex { rtnl_addr, ifindex },
                    Materializing::Ifindex { rtnl_addr: with_ifindex, address },
                    of_prefixlen,
                );
            }
        }
        run_answered(answers, family, Materializing::Family { rtnl_addr: with_family, address }, of_ifindex);
        run_answered(answers, alloc, allocating, seq![family] + of_ifindex);
        assert(materializing(address, answers) =~= seq![alloc] + (seq![family] + of_ifindex));
    }
}

/// All the calls of an operation on the socket behind `nl_sock`: those of the
/// making of the route address, and where that ends with a record, the
/// transaction and the call that puts the record.
pub open spec fn transacting(
    nl_sock: usize,
    mode: Mode,
    address: IPv4Address,
    answers: Answers,
) -> Seq<CallView> {
    materializing(address, answers) + (match materialized(address, answers) {
        Ok(_) => seq![
            mode.call(nl_sock, answers.rtnl_addr),
            CallView::RtnlAddrPut { rtnl_addr: answers.rtnl_addr },
        ],
        Err(_) => Seq::empty(),
    })
}

/// What an operation ends with: the failure to make the route address, or
/// else what the status of the transaction stands for; a failure under the
/// name of the operation.
pub open spec fn transacted(mode: Mode, address: IPv4Address, answers: Answers) -> Result<
    (),
    Error,
> {
    match materialized(address, answers) {
        Err(err) => Err(failed_spec(mode, err)),
        Ok(_) => match mode.result(answers.submit) {
            Ok(()) => Ok(()),
            Err(err) => Err(failed_spec(mode, err)),
        },
    }
}

/// The run of an operation while the route address is made is the run of the
/// making, and it goes on from what the making ends with.
proof fn run_of_making(
    nl_sock: usize,
    mode: Mode,
    step: StepView<Materializing, Result<RtnlAddr, crate::libnl::error::Error>>,
    replies: Seq<Reply>,
    rest: Seq<Reply>,
)
    requires
        run(step, replies).result is Some,
        run(step, replies).calls.len() == replies.len(),
    ensures
        run(Transaction::after_materializing(nl_sock, mode, step), replies + rest) == ({
            let made = run(step, replies);
            let then = run(
                Transaction::after_materializing(
                    nl_sock,
                    mode,
                    StepView::Done(made.result.unwrap()),
                ),
                rest,
            );
            Run { calls: made.calls + then.calls, result: then.result }
        }),
    decreases replies.len(),
{
    let made = run(step, replies);
    let then = run(
        Transaction::after_materializing(nl_sock, mode, StepView::Done(made.result.unwrap())),
        rest,
    );
    match step {
        StepView::Done(_) => {
            assert(replies + rest =~= rest);
            assert(made.calls + then.calls =~= then.calls);
        },
        StepView::Call(call, state) => {
            let after = state.next(replies[0]);
            run_of_making(nl_sock, mode, after, replies.drop_first(), rest);
            assert((replies + rest).drop_first() =~= replies.drop_first() + rest);
            assert((replies + rest)[0] == replies[0]);
            let inner = run(after, replies.drop_first());
            assert(made.calls + then.calls =~= seq![call] + (inner.calls + then.calls));
        },
    }
}

/// An operation, whole. Whatever the native library answers to the calls
/// that return something, adding or removing `address` on the socket behind
/// `nl_sock` hands out the calls of `transacting` in their order, and with
/// the reply to the last of them it ends with `transacted`.
pub proof fn transaction_runs(nl_sock: usize, mode: Mode, address: IPv4Address, answers: Answers)
    ensures
        run(
            Transaction::begin(nl_sock, mode, address),
            answers.to_all(transacting(nl_sock, mode, address, answers)),
        ) == (Run {
            calls: transacting(nl_sock, mode, address, answers),
            result: Some(transacted(mode, address, answers)),
        }),
{
    let none = Seq::<CallView>::empty();
    let making = materializing(address, answers);
    let last = match materialized(address, answers) {
        Ok(_) => seq![
            mode.call(nl_sock, answers.rtnl_addr),
            CallView::RtnlAddrPut { rtnl_addr: answers.rtnl_addr },
        ],
        Err(_) => none,
    };
    materializing_runs(address, answers);
    assert(answers.to_all(making + last) =~= answers.to_all(making) + answers.to_all(last));
    run_of_making(
        nl_sock,
        mode,
        Materializing::begin(address),
        answers.to_all(making),
        answers.to_all(last),
    );
    assert(Transaction::after_materializing(nl_sock, mode, Materializing::begin(address))
        == Transaction::begin(nl_sock, mode, address));
    match materialized(address, answers) {
        Ok(rtnl_addr) => {
            let submit = mode.call(nl_sock, answers.rtnl_addr);
            let put = CallView::RtnlAddrPut { rtnl_addr: answers.rtnl_addr };
            let sent = Submitting::Sent { rtnl_addr, nl_sock, mode };
            run_answered(
                answers,
                submit,
                Transaction::Submitting { mode, submitting: sent },
                seq![put],
            );
            run_answered(
                answers,
                put,
                Transaction::Submitting {
                    mode,
                    submitting: Submitting::Putting {
                        handle: answers.rtnl_addr,
                        mode,
                        rc: answers.submit,
                    },
                },
                none,
            );
            assert(seq![put] + none =~= seq![put]);
            assert(seq![submit] + seq![put] =~= seq![submit, put]);
        },
        Err(_) => {
            assert(making + none =~= making);
        },
    }
}

/// All the calls of the initialization of a socket: the allocation; where
/// there is a socket, its connection; and where that fails, the call that
/// frees the socket.
pub open spec fn initializing(answers: Answers) -> Seq<CallView> {
    if answers.nl_sock == 0 {
        seq![CallView::NlSocketAlloc]
    } else if answers.connect == 0 {
        seq![
            CallView::NlSocketAlloc,
            CallView::NlConnect { nl_sock: answers.nl_sock, protocol: 0 },
        ]
    } else {
        seq![
            CallView::NlSocketAlloc,
            CallView::NlConnect { nl_sock: answers.nl_sock, protocol: 0 },
            CallView::NlSocketFree { nl_sock: answers.nl_sock },
        ]
    }
}

/// What the initialization of a socket ends with: the failure to allocate or
/// to connect as `SocketInitializationFailed`, or else the socket.
pub open spec fn initialized(answers: Answers) -> Result<Socket, Error> {
    if answers.nl_sock == 0 {
        Err(Error::SocketInitializationFailed(crate::libnl::error::Error::NlSockAllocationFailed))
    } else if answers.connect == 0 {
        Ok(Socket { nl_sock: NlSock { nl_sock: answers.nl_sock } })
    } else {
        Err(
            Error::SocketInitializationFailed(
                crate::libnl::error::Error::NlSockConnectionFailed(
                    crate::libnl::error::NetlinkError(answers.connect),
                ),
            ),
        )
    }
}

/// The initialization of a socket, whole. Whatever the native library
/// answers, it hands out the calls of `initializing` in their order, and with
/// the reply to the last of them it ends with `initialized`.
pub proof fn initializing_runs(answers: Answers)
    ensures
        run(Initializing::begin(), answers.to_all(initializing(answers))) == (Run {
            calls: initializing(answers),
            result: Some(initialized(answers)),
        }),
{
    let none = Seq::<CallView>::empty();
    let alloc = CallView::NlSocketAlloc;
    let connect = CallView::NlConnect { nl_sock: answers.nl_sock, protocol: 0 };
    let free = CallView::NlSocketFree { nl_sock: answers.nl_sock };
    let allocating = Initializing { opening: Opening::Allocating };
    let connecting = Initializing { opening: Opening::Connecting { nl_sock: answers.nl_sock } };
    let freeing = Initializing {
        opening: Opening::Freeing { nl_sock: answers.nl_sock, rc: answers.connect },
    };
    if answers.nl_sock == 0 {
        run_answered(answers, alloc, allocating, none);
        assert(seq![alloc] + none =~= seq![alloc]);
    } else if answers.connect == 0 {
        run_answered(answers, alloc, allocating, seq![connect]);
        run_answered(answers, connect, connecting, none);
        assert(seq![connect] + none =~= seq![connect]);
        assert(seq![alloc] + seq![connect] =~= seq![alloc, connect]);
    } else {
        run_answered(answers, alloc, allocating, seq![connect, free]);
        run_answered(answers, connect, connecting, seq![free]);
        run_answered(answers, free, freeing, none);
        assert(seq![free] + none =~= seq![free]);
        assert(seq![connect] + seq![free] =~= seq![connect, free]);
        assert(seq![alloc] + seq![connect, free] =~= seq![alloc, connect, free]);
    }
}

/// A description with all three fields becomes a record with all of them
/// where the native library allocates both objects and attaches the one to
/// the other; and nothing on the way, nor the call that puts the record
/// afterwards, is a transaction.
pub proof fn materializing_a_full_description(
    ifindex: i32,
    prefixlen: u8,
    local: Ipv4Addr,
    answers: Answers,
)
    requires
        prefixlen <= 32,
        answers.rtnl_addr != 0,
        answers.nl_addr != 0,
        answers.set_local == 0,
    ensures
        ({
            let address = IPv4Address::empty().with_ifindex(ifindex).with_prefixlen(
                prefixlen,
            ).with_local(local);
            let rtnl_addr = RtnlAddr {
                rtnl_addr: answers.rtnl_addr,
                family: Some(AddrFamily::IPv4),
                ifindex: Some(ifindex),
                prefixlen: Some(prefixlen as i32),
                local: Some(NlAddr { nl_addr: answers.nl_addr }),
            };
            &&& run(Materializing::begin(address), answers.to_all(materializing(address, answers)))
                == (Run {
                calls: materializing(address, answers),
                result: Some(Ok::<RtnlAddr, crate::libnl::error::Error>(rtnl_addr)),
            })
            &&& rtnl_addr.wf()
            &&& materializing(address, answers) + seq![
                CallView::RtnlAddrPut { rtnl_addr: rtnl_addr.rtnl_addr },
            ] == seq![
                CallView::RtnlAddrAlloc,
                CallView::RtnlAddrSetFamily { rtnl_addr: answers.rtnl_addr, family: 2 },
                CallView::RtnlAddrSetIfindex { rtnl_addr: answers.rtnl_addr, ifindex },
                CallView::RtnlAddrSetPrefixlen {
                    rtnl_addr: answers.rtnl_addr,
                    prefixlen: prefixlen as i32,
                },
                CallView::NlAddrBuild { family: 2, bytes: local.octets_spec() },
                CallView::RtnlAddrSetLocal {
                    rtnl_addr: answers.rtnl_addr,
                    local: answers.nl_addr,
                },
                CallView::RtnlAddrPut { rtnl_addr: answers.rtnl_addr },
            ]
        }),
{
    let address = IPv4Address::empty().with_ifindex(ifindex).with_prefixlen(prefixlen).with_local(
        local,
    );
    materializing_runs(address, answers);
}

/// Where no address value is built, none is attached: the making puts the
/// record and fails, and `rtnl_addr_set_local` is not among its calls.
pub proof fn nothing_built_nothing_attached(address: IPv4Address, answers: Answers)
    requires
        answers.rtnl_addr != 0,
        address.local is Some,
        answers.nl_addr == 0,
    ensures
        materialized(address, answers) == Err::<RtnlAddr, crate::libnl::error::Error>(
            crate::libnl::error::Error::NlAddrAllocationFailed,
        ),
        materializing(address, answers).last() == (CallView::RtnlAddrPut {
            rtnl_addr: answers.rtnl_addr,
        }),
        forall|i: int|
            0 <= i < materializing(address, answers).len() ==> !(#[trigger] materializing(
                address,
                answers,
            )[i] is RtnlAddrSetLocal),
{
}

/// To remove an address, the index of its interface is enough: a description
/// with neither prefix length nor local address becomes a record whenever one
/// is allocated, with the family and the index set in it, and what the
/// removal ends with is a matter of the transaction alone.
pub proof fn removal_needs_the_index_alone(nl_sock: usize, ifindex: i32, answers: Answers)
    requires
        answers.rtnl_addr != 0,
    ensures
        ({
            let address = IPv4Address::empty().with_ifindex(ifindex);
            &&& materialized(address, answers) == Ok::<RtnlAddr, crate::libnl::error::Error>(
                RtnlAddr {
                    rtnl_addr: answers.rtnl_addr,
                    family: Some(AddrFamily::IPv4),
                    ifindex: Some(ifindex),
                    prefixlen: None,
                    local: None,
                },
            )
            &&& transacting(nl_sock, Mode::Delete, address, answers) == seq![
                CallView::RtnlAddrAlloc,
                CallView::RtnlAddrSetFamily { rtnl_addr: answers.rtnl_addr, family: 2 },
                CallView::RtnlAddrSetIfindex { rtnl_addr: answers.rtnl_addr, ifindex },
                CallView::RtnlAddrDelete { nl_sock, rtnl_addr: answers.rtnl_addr, flags: 0 },
                CallView::RtnlAddrPut { rtnl_addr: answers.rtnl_addr },
            ]
            &&& answers.submit == 0 ==> transacted(Mode::Delete, address, answers) == Ok::<
                (),
                Error,
            >(())
            &&& answers.submit != 0 ==> transacted(Mode::Delete, address, answers) == Err::<
                (),
                Error,
            >(
                Error::AddressRemovalFailed(
                    crate::libnl::error::Error::RtnlAddrRemovalFailed(
                        crate::libnl::error::NetlinkError(answers.submit),
                    ),
                ),
            )
        }),
{
}

/// The order in which a description is filled in makes no difference: two
/// setters in either order give the same description, and so the same calls
/// and the same record.
pub proof fn setters_commute(
    address: IPv4Address,
    ifindex: i32,
    prefixlen: u8,
    local: Ipv4Addr,
    answers: Answers,
)
    ensures
        address.with_ifindex(ifindex).with_prefixlen(prefixlen) == address.with_prefixlen(
            prefixlen,
        ).with_ifindex(ifindex),
        address.with_ifindex(ifindex).with_local(local) == address.with_local(local).with_ifindex(
            ifindex,
        ),
        address.with_prefixlen(prefixlen).with_local(local) == address.with_local(
            local,
        ).with_prefixlen(prefixlen),
        materializing(address.with_ifindex(ifindex).with_prefixlen(prefixlen), answers)
            == materializing(address.with_prefixlen(prefixlen).with_ifindex(ifindex), answers),
        materialized(address.with_ifindex(ifindex).with_prefixlen(prefixlen), answers)
            == materialized(address.with_prefixlen(prefixlen).with_ifindex(ifindex), answers),
{
}

} // verus!

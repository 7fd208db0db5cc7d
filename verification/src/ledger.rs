//! The native objects that are alive, and what each call does to them.
//!
//! Every native object has one owner, and is released once. Here that is said
//! of the calls themselves: a call may be made only on objects that are
//! alive, an allocation brings one object to life, and a release ends one.

use vstd::multiset::Multiset;
use vstd::prelude::*;

use crate::address::{IPv4Address, Materializing, Transaction};
use crate::error::Error;
use crate::libnl::native::{run, CallView, Machine, Reply, StepView};
use crate::libnl::nl_sock::Opening;
use crate::libnl::rtnl_addr::{Mode, RtnlAddr, Submitting};
use crate::socket::{Initializing, Socket};

verus! {

/// A native object, by its handle.
pub enum Object {
    /// A socket, from `nl_socket_alloc`.
    Socket(usize),
    /// An address value, from `nl_addr_build`.
    AddressValue(usize),
    /// A route address, from `rtnl_addr_alloc`.
    RouteAddress(usize),
}

/// Whether `call` may be made while the objects of `live` are alive: every
/// object that it is made on is among them. An allocation may always be made.
pub open spec fn admits(live: Multiset<Object>, call: CallView) -> bool {
    match call {
        CallView::NlSocketAlloc => true,
        CallView::NlSocketFree { nl_sock } => live.contains(Object::Socket(nl_sock)),
        CallView::NlConnect { nl_sock, .. } => live.contains(Object::Socket(nl_sock)),
        CallView::NlClose { nl_sock } => live.contains(Object::Socket(nl_sock)),
        CallView::NlAddrBuild { .. } => true,
        CallView::NlAddrPut { nl_addr } => live.contains(Object::AddressValue(nl_addr)),
        CallView::RtnlAddrAlloc => true,
        CallView::RtnlAddrPut { rtnl_addr } => live.contains(Object::RouteAddress(rtnl_addr)),
        CallView::RtnlAddrSetIfindex { rtnl_addr, .. } => live.contains(
            Object::RouteAddress(rtnl_addr),
        ),
        CallView::RtnlAddrSetPrefixlen { rtnl_addr, .. } => live.contains(
            Object::RouteAddress(rtnl_addr),
        ),
        CallView::RtnlAddrSetFamily { rtnl_addr, .. } => live.contains(
            Object::RouteAddress(rtnl_addr),
        ),
        CallView::RtnlAddrSetLocal { rtnl_addr, local } => live.contains(
            Object::RouteAddress(rtnl_addr),
        ) && live.contains(Object::AddressValue(local)),
        CallView::RtnlAddrAdd { nl_sock, rtnl_addr, .. } => live.contains(
            Object::Socket(nl_sock),
        ) && live.contains(Object::RouteAddress(rtnl_addr)),
        CallView::RtnlAddrDelete { nl_sock, rtnl_addr, .. } => live.contains(
            Object::Socket(nl_sock),
        ) && live.contains(Object::RouteAddress(rtnl_addr)),
    }
}

/// The objects that are alive after `call` was answered by `reply`.
///
/// An allocation that returns a pointer other than null brings that object
/// to life. `nl_socket_free`, `nl_addr_put` and `rtnl_addr_put` end the
/// object that they are made on. `rtnl_addr_set_local` with status zero
/// hands the address value to the route address: it is no object of its own
/// any more, and ends with the route address. Every other call leaves the
/// objects as they are.
pub open spec fn effect(live: Multiset<Object>, call: CallView, reply: Reply) -> Multiset<Object> {
    match call {
        CallView::NlSocketAlloc => if reply.handle() != 0 {
            live.insert(Object::Socket(reply.handle()))
        } else {
            live
        },
        CallView::NlAddrBuild { .. } => if reply.handle() != 0 {
            live.insert(Object::AddressValue(reply.handle()))
        } else {
            live
        },
        CallView::RtnlAddrAlloc => if reply.handle() != 0 {
            live.insert(Object::RouteAddress(reply.handle()))
        } else {
            live
        },
        CallView::NlSocketFree { nl_sock } => live.remove(Object::Socket(nl_sock)),
        CallView::NlAddrPut { nl_addr } => live.remove(Object::AddressValue(nl_addr)),
        CallView::RtnlAddrPut { rtnl_addr } => live.remove(Object::RouteAddress(rtnl_addr)),
        CallView::RtnlAddrSetLocal { local, .. } => if reply.status() == 0 {
            live.remove(Object::AddressValue(local))
        } else {
            live
        },
        _ => live,
    }
}

/// The objects that are alive after `calls` were made in their order while
/// those of `live` were alive, and answered by `replies`; `None` where one of
/// the calls was made on an object that was not alive then. A last call
/// without a reply must be admitted too, and has no effect yet.
pub open spec fn audit(live: Multiset<Object>, calls: Seq<CallView>, replies: Seq<Reply>) -> Option<
    Multiset<Object>,
>
    decreases calls.len(),
{
    if calls.len() == 0 {
        Some(live)
    } else if !admits(live, calls[0]) {
        None
    } else if replies.len() == 0 {
        Some(live)
    } else {
        audit(effect(live, calls[0], replies[0]), calls.drop_first(), replies.drop_first())
    }
}

/// The objects that an operation holds at `step`: those of its state where a
/// call is out, and those of its result where it is over.
pub open spec fn held<M: Machine>(
    step: StepView<M, M::Output>,
    holds: spec_fn(M) -> Multiset<Object>,
    yields: spec_fn(M::Output) -> Multiset<Object>,
) -> Multiset<Object> {
    match step {
        StepView::Call(_, state) => holds(state),
        StepView::Done(result) => yields(result),
    }
}

/// Accounting for a run. Let `holds` say which objects each state of an
/// operation holds and `yields` which objects each result holds, and let
/// `kept` hold of the states that the operation passes through. If at every
/// such state the call that is out is admitted by the objects that the state
/// holds beside some others, `rest`, and its effect leaves exactly the
/// objects that the next state or the result holds beside `rest`, then every
/// run is sound: no call is made on an object that is not alive, and a run
/// that is over leaves alive what its result holds, and `rest`.
pub proof fn run_is_accounted<M: Machine>(
    step: StepView<M, M::Output>,
    replies: Seq<Reply>,
    rest: Multiset<Object>,
    kept: spec_fn(M) -> bool,
    holds: spec_fn(M) -> Multiset<Object>,
    yields: spec_fn(M::Output) -> Multiset<Object>,
)
    requires
        step matches StepView::Call(call, state) ==> call == state.pending() && kept(state),
        forall|state: M, reply: Reply|
            kept(state) ==> {
                &&& admits(rest.add(holds(state)), state.pending())
                &&& effect(rest.add(holds(state)), state.pending(), reply) =~= rest.add(
                    held(#[trigger] state.next(reply), holds, yields),
                )
                &&& state.next(reply) matches StepView::Call(_, after) ==> kept(after)
            },
    ensures
        match run(step, replies).result {
            Some(result) => audit(
                rest.add(held(step, holds, yields)),
                run(step, replies).calls,
                replies,
            ) == Some(rest.add(yields(result))),
            None => audit(rest.add(held(step, holds, yields)), run(step, replies).calls, replies)
                is Some,
        },
    decreases replies.len(),
{
    match step {
        StepView::Done(_) => {},
        StepView::Call(call, state) => {
            let live = rest.add(holds(state));
            if replies.len() > 0 {
                let after = state.next(replies[0]);
                let then = run(after, replies.drop_first());
                state.next_is_pending(replies[0]);
                run_is_accounted(after, replies.drop_first(), rest, kept, holds, yields);
                let calls = seq![call] + then.calls;
                assert(calls.drop_first() =~= then.calls);
                assert(effect(live, call, replies[0]) == rest.add(held(after, holds, yields)));
            }
        },
    }
}

impl Opening {
    /// The objects that the opening holds: the socket, once it is allocated.
    pub open spec fn holds(self) -> Multiset<Object> {
        match self {
            Opening::Allocating => Multiset::empty(),
            Opening::Connecting { nl_sock } => Multiset::singleton(Object::Socket(nl_sock)),
            Opening::Freeing { nl_sock, .. } => Multiset::singleton(Object::Socket(nl_sock)),
        }
    }
}

impl Materializing {
    /// The objects that the making holds: the record, once it is allocated,
    /// and the address value from when it is built until it is attached or
    /// put.
    pub open spec fn holds(self) -> Multiset<Object> {
        match self {
            Materializing::Allocating { .. } => Multiset::empty(),
            Materializing::Family { rtnl_addr, .. } => Multiset::singleton(
                Object::RouteAddress(rtnl_addr.rtnl_addr),
            ),
            Materializing::Ifindex { rtnl_addr, .. } => Multiset::singleton(
                Object::RouteAddress(rtnl_addr.rtnl_addr),
            ),
            Materializing::Prefixlen { rtnl_addr, .. } => Multiset::singleton(
                Object::RouteAddress(rtnl_addr.rtnl_addr),
            ),
            Materializing::Building { rtnl_addr, .. } => Multiset::singleton(
                Object::RouteAddress(rtnl_addr.rtnl_addr),
            ),
            Materializing::Attaching { rtnl_addr, nl_addr } => Multiset::singleton(
                Object::RouteAddress(rtnl_addr.rtnl_addr),
            ).insert(Object::AddressValue(nl_addr.nl_addr)),
            Materializing::PuttingLocal { rtnl_addr, handle, .. } => Multiset::singleton(
                Object::RouteAddress(rtnl_addr.rtnl_addr),
            ).insert(Object::AddressValue(handle)),
            Materializing::PuttingRecord { handle, .. } => Multiset::singleton(
                Object::RouteAddress(handle),
            ),
        }
    }
}

impl Submitting {
    /// The objects that the submission holds: the record, until it is put.
    pub open spec fn holds(self) -> Multiset<Object> {
        match self {
            Submitting::Sent { rtnl_addr, .. } => Multiset::singleton(
                Object::RouteAddress(rtnl_addr.rtnl_addr),
            ),
            Submitting::Putting { handle, .. } => Multiset::singleton(Object::RouteAddress(handle)),
        }
    }
}

impl Transaction {
    /// The objects that the operation holds: those of the making, then those
    /// of the submission. The socket is not among them: it is lent.
    pub open spec fn holds(self) -> Multiset<Object> {
        match self {
            Transaction::Materializing { materializing, .. } => materializing.holds(),
            Transaction::Submitting { submitting, .. } => submitting.holds(),
        }
    }

    /// The socket that the operation is made on, while it needs one.
    pub open spec fn nl_sock(self) -> Option<usize> {
        match self {
            Transaction::Materializing { nl_sock, .. } => Some(nl_sock),
            Transaction::Submitting { submitting: Submitting::Sent { nl_sock, .. }, .. } => Some(
                nl_sock,
            ),
            Transaction::Submitting { .. } => None,
        }
    }
}

/// The objects that a route address holds, or the failure to make one: the
/// record where there is one.
pub open spec fn made(result: Result<RtnlAddr, crate::libnl::error::Error>) -> Multiset<Object> {
    match result {
        Ok(rtnl_addr) => Multiset::singleton(Object::RouteAddress(rtnl_addr.rtnl_addr)),
        Err(_) => Multiset::empty(),
    }
}

/// The objects that a socket holds, or the failure to initialize one: the
/// native socket where there is one.
pub open spec fn opened(result: Result<Socket, Error>) -> Multiset<Object> {
    match result {
        Ok(socket) => Multiset::singleton(Object::Socket(socket.nl_sock.nl_sock)),
        Err(_) => Multiset::empty(),
    }
}

/// The initialization of a socket leaks nothing and frees nothing twice.
/// Whatever the native library answers, and whatever else is alive, each call
/// is made on a socket that is alive; and at the end the socket is alive if
/// the initialization ends with it, and nothing new is alive if it fails.
pub proof fn initializing_is_accounted(replies: Seq<Reply>, rest: Multiset<Object>)
    ensures
        match run(Initializing::begin(), replies).result {
            Some(result) => audit(rest, run(Initializing::begin(), replies).calls, replies)
                == Some(rest.add(opened(result))),
            None => audit(rest, run(Initializing::begin(), replies).calls, replies) is Some,
        },
{
    let holds = |state: Initializing| state.opening.holds();
    let yields = |result: Result<Socket, Error>| opened(result);
    assert(rest.add(held(Initializing::begin(), holds, yields)) =~= rest);
    run_is_accounted(
        Initializing::begin(),
        replies,
        rest,
        |state: Initializing| true,
        holds,
        yields,
    );
}

/// The making of a route address leaks nothing and puts nothing twice.
/// Whatever the native library answers, and whatever else is alive, each call
/// is made on objects that are alive; and at the end the record is alive if
/// the making ends with it, and nothing new is alive if it fails: an address
/// value that was built has been handed to the record or put.
pub proof fn materializing_is_accounted(
    address: IPv4Address,
    replies: Seq<Reply>,
    rest: Multiset<Object>,
)
    ensures
        match run(Materializing::begin(address), replies).result {
            Some(result) => audit(rest, run(Materializing::begin(address), replies).calls, replies)
                == Some(rest.add(made(result))),
            None => audit(rest, run(Materializing::begin(address), replies).calls, replies)
                is Some,
        },
{
    let holds = |state: Materializing| state.holds();
    let yields = |result: Result<RtnlAddr, crate::libnl::error::Error>| made(result);
    assert(rest.add(held(Materializing::begin(address), holds, yields)) =~= rest);
    run_is_accounted(
        Materializing::begin(address),
        replies,
        rest,
        |state: Materializing| true,
        holds,
        yields,
    );
}

/// Adding or removing an address leaks nothing and puts nothing twice.
/// Whatever the native library answers, while the socket is alive each call
/// is made on objects that are alive; and at the end, however the operation
/// ends, exactly what was alive before is alive: the record and the address
/// value are gone, and the socket is still there.
pub proof fn transaction_is_accounted(
    nl_sock: usize,
    mode: Mode,
    address: IPv4Address,
    replies: Seq<Reply>,
    live: Multiset<Object>,
)
    requires
        live.contains(Object::Socket(nl_sock)),
    ensures
        match run(Transaction::begin(nl_sock, mode, address), replies).result {
            Some(_) => audit(
                live,
                run(Transaction::begin(nl_sock, mode, address), replies).calls,
                replies,
            ) == Some(live),
            None => audit(
                live,
                run(Transaction::begin(nl_sock, mode, address), replies).calls,
                replies,
            ) is Some,
        },
{
    let holds = |state: Transaction| state.holds();
    let yields = |result: Result<(), Error>| Multiset::<Object>::empty();
    let begin = Transaction::begin(nl_sock, mode, address);
    assert(live.add(held(begin, holds, yields)) =~= live);
    assert(live.add(Multiset::<Object>::empty()) =~= live);
    run_is_accounted(
        begin,
        replies,
        live,
        |state: Transaction| state.nl_sock() matches Some(held) ==> held == nl_sock,
        holds,
        yields,
    );
}

/// The two calls that end a socket are made while it is alive, and leave
/// alive what was alive beside it.
pub proof fn closing_is_accounted(socket: Socket, rest: Multiset<Object>)
    ensures
        audit(
            rest.insert(Object::Socket(socket.nl_sock.nl_sock)),
            socket.closing(),
            seq![Reply::Void, Reply::Void],
        ) == Some(rest),
{
    reveal_with_fuel(audit, 3);
    let nl_sock = socket.nl_sock.nl_sock;
    let live = rest.insert(Object::Socket(nl_sock));
    let calls = socket.closing();
    let replies = seq![Reply::Void, Reply::Void];
    assert(calls.drop_first() =~= seq![CallView::NlSocketFree { nl_sock }]);
    assert(replies.drop_first() =~= seq![Reply::Void]);
    assert(calls.drop_first().drop_first() =~= Seq::<CallView>::empty());
    assert(live.remove(Object::Socket(nl_sock)) =~= rest);
}

/// The call that puts a route address is made while it is alive, and leaves
/// alive what was alive beside it.
pub proof fn putting_is_accounted(rtnl_addr: RtnlAddr, rest: Multiset<Object>)
    ensures
        audit(
            rest.insert(Object::RouteAddress(rtnl_addr.rtnl_addr)),
            seq![CallView::RtnlAddrPut { rtnl_addr: rtnl_addr.rtnl_addr }],
            seq![Reply::Void],
        ) == Some(rest),
{
    reveal_with_fuel(audit, 2);
    let object = Object::RouteAddress(rtnl_addr.rtnl_addr);
    let calls = seq![CallView::RtnlAddrPut { rtnl_addr: rtnl_addr.rtnl_addr }];
    assert(calls.drop_first() =~= Seq::<CallView>::empty());
    assert(rest.insert(object).remove(object) =~= rest);
}

} // verus!

//! The native library as data: the calls that this crate has made of it, and
//! what it answers.
//!
//! A [`Call`] is performed by whoever drives this crate. Handles are the
//! addresses that the native library returned, kept as integers; zero is the
//! null pointer.

use vstd::prelude::*;

verus! {

/// One call of the native library, with its arguments.
#[derive(Debug, PartialEq, Eq)]
pub enum Call {
    /// `nl_socket_alloc()`
    NlSocketAlloc,
    /// `nl_socket_free(nl_sock)`
    NlSocketFree { nl_sock: usize },
    /// `nl_connect(nl_sock, protocol)`
    NlConnect { nl_sock: usize, protocol: u32 },
    /// `nl_close(nl_sock)`
    NlClose { nl_sock: usize },
    /// `nl_addr_build(family, bytes, bytes.len())`
    NlAddrBuild { family: i32, bytes: Vec<u8> },
    /// `nl_addr_put(nl_addr)`
    NlAddrPut { nl_addr: usize },
    /// `rtnl_addr_alloc()`
    RtnlAddrAlloc,
    /// `rtnl_addr_put(rtnl_addr)`
    RtnlAddrPut { rtnl_addr: usize },
    /// `rtnl_addr_set_ifindex(rtnl_addr, ifindex)`
    RtnlAddrSetIfindex { rtnl_addr: usize, ifindex: i32 },
    /// `rtnl_addr_set_prefixlen(rtnl_addr, prefixlen)`
    RtnlAddrSetPrefixlen { rtnl_addr: usize, prefixlen: i32 },
    /// `rtnl_addr_set_local(rtnl_addr, local)`
    RtnlAddrSetLocal { rtnl_addr: usize, local: usize },
    /// `rtnl_addr_set_family(rtnl_addr, family)`
    RtnlAddrSetFamily { rtnl_addr: usize, family: i32 },
    /// `rtnl_addr_add(nl_sock, rtnl_addr, flags)`
    RtnlAddrAdd { nl_sock: usize, rtnl_addr: usize, flags: i32 },
    /// `rtnl_addr_delete(nl_sock, rtnl_addr, flags)`
    RtnlAddrDelete { nl_sock: usize, rtnl_addr: usize, flags: i32 },
}

/// A [`Call`] as contracts see it: the bytes of an address are a sequence.
pub enum CallView {
    NlSocketAlloc,
    NlSocketFree { nl_sock: usize },
    NlConnect { nl_sock: usize, protocol: u32 },
    NlClose { nl_sock: usize },
    NlAddrBuild { family: i32, bytes: Seq<u8> },
    NlAddrPut { nl_addr: usize },
    RtnlAddrAlloc,
    RtnlAddrPut { rtnl_addr: usize },
    RtnlAddrSetIfindex { rtnl_addr: usize, ifindex: i32 },
    RtnlAddrSetPrefixlen { rtnl_addr: usize, prefixlen: i32 },
    RtnlAddrSetLocal { rtnl_addr: usize, local: usize },
    RtnlAddrSetFamily { rtnl_addr: usize, family: i32 },
    RtnlAddrAdd { nl_sock: usize, rtnl_addr: usize, flags: i32 },
    RtnlAddrDelete { nl_sock: usize, rtnl_addr: usize, flags: i32 },
}

impl View for Call {
    type V = CallView;

    open spec fn view(&self) -> CallView {
        match *self {
            Call::NlSocketAlloc => CallView::NlSocketAlloc,
            Call::NlSocketFree { nl_sock } => CallView::NlSocketFree { nl_sock },
            Call::NlConnect { nl_sock, protocol } => CallView::NlConnect { nl_sock, protocol },
            Call::NlClose { nl_sock } => CallView::NlClose { nl_sock },
            Call::NlAddrBuild { family, bytes } => CallView::NlAddrBuild { family, bytes: bytes@ },
            Call::NlAddrPut { nl_addr } => CallView::NlAddrPut { nl_addr },
            Call::RtnlAddrAlloc => CallView::RtnlAddrAlloc,
            Call::RtnlAddrPut { rtnl_addr } => CallView::RtnlAddrPut { rtnl_addr },
            Call::RtnlAddrSetIfindex { rtnl_addr, ifindex } => CallView::RtnlAddrSetIfindex {
                rtnl_addr,
                ifindex,
            },
            Call::RtnlAddrSetPrefixlen { rtnl_addr, prefixlen } => CallView::RtnlAddrSetPrefixlen {
                rtnl_addr,
                prefixlen,
            },
            Call::RtnlAddrSetLocal { rtnl_addr, local } => CallView::RtnlAddrSetLocal {
                rtnl_addr,
                local,
            },
            Call::RtnlAddrSetFamily { rtnl_addr, family } => CallView::RtnlAddrSetFamily {
                rtnl_addr,
                family,
            },
            Call::RtnlAddrAdd { nl_sock, rtnl_addr, flags } => CallView::RtnlAddrAdd {
                nl_sock,
                rtnl_addr,
                flags,
            },
            Call::RtnlAddrDelete { nl_sock, rtnl_addr, flags } => CallView::RtnlAddrDelete {
                nl_sock,
                rtnl_addr,
                flags,
            },
        }
    }
}

/// What a native call returned.
#[derive(Debug, Clone, Copy, PartialEq, Eq)]
pub enum Reply {
    /// Nothing: the native function returns `void`.
    Void,
    /// A pointer, null or not.
    Handle(usize),
    /// A status: zero for success.
    Status(i32),
}

impl Reply {
    /// The pointer that the reply holds; the null pointer where it holds none.
    pub open spec fn spec_handle(&self) -> usize {
        match *self {
            Reply::Handle(handle) => handle,
            _ => 0,
        }
    }

    /// The pointer that the reply holds; the null pointer where it holds none.
    #[verifier::when_used_as_spec(spec_handle)]
    pub fn handle(&self) -> (handle: usize)
        ensures
            handle == self.spec_handle(),
    {
        match *self {
            Reply::Handle(handle) => handle,
            _ => 0,
        }
    }

    /// The status that the reply holds; zero where it holds none.
    pub open spec fn spec_status(&self) -> i32 {
        match *self {
            Reply::Status(rc) => rc,
            _ => 0,
        }
    }

    /// The status that the reply holds; zero where it holds none.
    #[verifier::when_used_as_spec(spec_status)]
    pub fn status(&self) -> (rc: i32)
        ensures
            rc == self.spec_status(),
    {
        match *self {
            Reply::Status(rc) => rc,
            _ => 0,
        }
    }
}

impl CallView {
    /// The socket that the call is made on, where it is made on one.
    pub open spec fn nl_sock(self) -> Option<usize> {
        match self {
            CallView::NlSocketFree { nl_sock } => Some(nl_sock),
            CallView::NlConnect { nl_sock, .. } => Some(nl_sock),
            CallView::NlClose { nl_sock } => Some(nl_sock),
            CallView::RtnlAddrAdd { nl_sock, .. } => Some(nl_sock),
            CallView::RtnlAddrDelete { nl_sock, .. } => Some(nl_sock),
            _ => None,
        }
    }

    /// Whether `reply` is of the kind that this call returns: a handle from the
    /// three allocations, a status from the four calls that can fail, nothing
    /// from the rest.
    pub open spec fn answered_by(self, reply: Reply) -> bool {
        match self {
            CallView::NlSocketAlloc | CallView::NlAddrBuild { .. } | CallView::RtnlAddrAlloc =>
                reply is Handle,
            CallView::NlConnect { .. }
            | CallView::RtnlAddrSetLocal { .. }
            | CallView::RtnlAddrAdd { .. }
            | CallView::RtnlAddrDelete { .. } => reply is Status,
            CallView::NlSocketFree { .. }
            | CallView::NlClose { .. }
            | CallView::NlAddrPut { .. }
            | CallView::RtnlAddrPut { .. }
            | CallView::RtnlAddrSetIfindex { .. }
            | CallView::RtnlAddrSetPrefixlen { .. }
            | CallView::RtnlAddrSetFamily { .. } => reply is Void,
        }
    }
}

impl Call {
    /// Whether `reply` is of the kind that this call returns.
    pub fn answered_by(&self, reply: &Reply) -> (answered: bool)
        ensures
            answered == self@.answered_by(*reply),
    {
        match self {
            Call::NlSocketAlloc | Call::NlAddrBuild { .. } | Call::RtnlAddrAlloc => match reply {
                Reply::Handle(_) => true,
                _ => false,
            },
            Call::NlConnect { .. }
            | Call::RtnlAddrSetLocal { .. }
            | Call::RtnlAddrAdd { .. }
            | Call::RtnlAddrDelete { .. } => match reply {
                Reply::Status(_) => true,
                _ => false,
            },
            Call::NlSocketFree { .. }
            | Call::NlClose { .. }
            | Call::NlAddrPut { .. }
            | Call::RtnlAddrPut { .. }
            | Call::RtnlAddrSetIfindex { .. }
            | Call::RtnlAddrSetPrefixlen { .. }
            | Call::RtnlAddrSetFamily { .. } => match reply {
                Reply::Void => true,
                _ => false,
            },
        }
    }
}

/// Where an operation stands after it was handed a reply: either it wants one
/// more call performed, and `S` holds what awaits the reply to it, or it is
/// over with the result `T`.
#[derive(Debug, PartialEq, Eq)]
pub enum Step<S, T> {
    Call(Call, S),
    Done(T),
}

/// A [`Step`] as contracts see it.
pub enum StepView<S, T> {
    Call(CallView, S),
    Done(T),
}

impl<S, T> View for Step<S, T> {
    type V = StepView<S, T>;

    open spec fn view(&self) -> StepView<S, T> {
        match *self {
            Step::Call(call, state) => StepView::Call(call@, state),
            Step::Done(result) => StepView::Done(result),
        }
    }
}

/// An operation that needs native calls performed on its way: a value of the
/// type is the operation between two calls, with one call out.
pub trait Machine: Sized {
    /// What the operation ends with.
    type Output;

    /// The call that is out, whose reply is awaited.
    spec fn pending(self) -> CallView;

    /// What follows the reply to the call that is out.
    spec fn next(self, reply: Reply) -> StepView<Self, Self::Output>;

    /// Goes on with the operation, given the reply to the call that is out.
    fn resume(self, reply: Reply) -> (step: Step<Self, Self::Output>)
        requires
            self.pending().answered_by(reply),
        ensures
            step@ == self.next(reply),
            step@ matches StepView::Call(call, state) ==> state.pending() == call,
    ;

    /// A call that follows is the call that is out in the state it comes
    /// with.
    proof fn next_is_pending(self, reply: Reply)
        ensures
            self.next(reply) matches StepView::Call(call, state) ==> state.pending() == call,
    ;
}

/// What has come of an operation so far: the calls that it has handed out,
/// the last of them unanswered unless the operation is over, and its result
/// once it is over.
pub struct Run<T> {
    pub calls: Seq<CallView>,
    pub result: Option<T>,
}

/// The run of an operation from `step` on, with `replies` as the answers to
/// its calls in their order. Where the replies run out before the operation
/// is over, the run ends with the call that is left unanswered; replies
/// beyond the end of the operation are not read.
pub open spec fn run<M: Machine>(step: StepView<M, M::Output>, replies: Seq<Reply>) -> Run<
    M::Output,
>
    decreases replies.len(),
{
    match step {
        StepView::Done(result) => Run { calls: Seq::empty(), result: Some(result) },
        StepView::Call(call, state) => if replies.len() == 0 {
            Run { calls: seq![call], result: None }
        } else {
            let rest = run(state.next(replies[0]), replies.drop_first());
            Run { calls: seq![call] + rest.calls, result: rest.result }
        },
    }
}

/// A run on a first reply and further ones is the first call, and then the
/// run on the further ones from what follows the first reply.
pub proof fn run_with_reply<M: Machine>(call: CallView, state: M, reply: Reply, rest: Seq<Reply>)
    ensures
        run(StepView::Call(call, state), seq![reply] + rest) == (Run {
            calls: seq![call] + run(state.next(reply), rest).calls,
            result: run(state.next(reply), rest).result,
        }),
{
    let replies = seq![reply] + rest;
    assert(replies.drop_first() =~= rest);
    assert(replies[0] == reply);
}

/// Induction over a run. Let `good` hold of the call that the run begins
/// with and `kept` of the state that awaits its reply, and let every reply to
/// a state of which `kept` holds lead to a call of which `good` holds and to
/// a state of which `kept` holds again. Then `good` holds of every call of
/// the run, whatever the replies are.
pub proof fn run_keeps<M: Machine>(
    step: StepView<M, M::Output>,
    replies: Seq<Reply>,
    kept: spec_fn(M) -> bool,
    good: spec_fn(CallView) -> bool,
)
    requires
        step matches StepView::Call(call, state) ==> good(call) && kept(state),
        forall|state: M, reply: Reply|
            kept(state) ==> (#[trigger] state.next(reply) matches StepView::Call(call, after)
                ==> good(call) && kept(after)),
    ensures
        forall|i: int|
            0 <= i < run(step, replies).calls.len() ==> good(#[trigger] run(step, replies).calls[i]),
    decreases replies.len(),
{
    match step {
        StepView::Done(_) => {},
        StepView::Call(call, state) => {
            if replies.len() > 0 {
                let after = state.next(replies[0]);
                let rest = run(after, replies.drop_first());
                run_keeps(after, replies.drop_first(), kept, good);
                assert(run(step, replies).calls == seq![call] + rest.calls);
                assert forall|i: int| 0 <= i < run(step, replies).calls.len() implies good(
                    #[trigger] run(step, replies).calls[i],
                ) by {
                    if i > 0 {
                        assert(run(step, replies).calls[i] == rest.calls[i - 1]);
                    }
                }
            }
        },
    }
}

} // verus!

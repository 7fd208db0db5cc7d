//! The native socket, connected to the kernel's route netlink family.

use vstd::prelude::*;

use crate::libnl::error::{Error, NetlinkError};
use crate::libnl::native::{Call, CallView, Machine, Reply, Step, StepView};

verus! {

/// A native socket that is connected. It owns its handle until it is closed.
#[derive(Debug, PartialEq, Eq)]
pub struct NlSock {
    pub nl_sock: usize,
}

/// The opening of a socket, between two native calls.
#[derive(Debug, PartialEq, Eq)]
pub enum Opening {
    /// `nl_socket_alloc` is out.
    Allocating,
    /// The socket is allocated, and `nl_connect` is out.
    Connecting { nl_sock: usize },
    /// `nl_connect` returned `rc`, which is not zero, and `nl_socket_free` is
    /// out.
    Freeing { nl_sock: usize, rc: i32 },
}

impl NlSock {
    /// The handle is not the null pointer.
    pub open spec fn wf(self) -> bool {
        self.nl_sock != 0
    }

    /// Begins to open a socket: the socket is to be allocated first.
    pub fn new() -> (step: Step<Opening, Result<NlSock, Error>>)
        ensures
            step@ == Opening::begin(),
    {
        Step::Call(nl_socket_alloc(), Opening::Allocating)
    }

    /// The two calls that end a socket, in their order: it is closed, then
    /// freed.
    pub fn close(self) -> (calls: (Call, Call))
        ensures
            calls.0@ == (CallView::NlClose { nl_sock: self.nl_sock }),
            calls.1@ == (CallView::NlSocketFree { nl_sock: self.nl_sock }),
    {
        (nl_close(self.nl_sock), nl_socket_free(self.nl_sock))
    }
}

impl Opening {
    /// The opening at its beginning: `nl_socket_alloc` is to be called.
    pub open spec fn begin() -> StepView<Opening, Result<NlSock, Error>> {
        StepView::Call(CallView::NlSocketAlloc, Opening::Allocating)
    }

    /// Every handle held is not the null pointer, and a status held is not
    /// zero.
    pub open spec fn wf(self) -> bool {
        match self {
            Opening::Allocating => true,
            Opening::Connecting { nl_sock } => nl_sock != 0,
            Opening::Freeing { nl_sock, rc } => nl_sock != 0 && rc != 0,
        }
    }
}

impl Machine for Opening {
    type Output = Result<NlSock, Error>;

    open spec fn pending(self) -> CallView {
        match self {
            Opening::Allocating => CallView::NlSocketAlloc,
            Opening::Connecting { nl_sock } => CallView::NlConnect { nl_sock, protocol: 0 },
            Opening::Freeing { nl_sock, .. } => CallView::NlSocketFree { nl_sock },
        }
    }

    /// No socket was allocated: the opening fails, and no call follows. One
    /// was: it is connected. It connected: the opening ends with the socket.
    /// It did not: the socket is freed, and then the opening fails with the
    /// status.
    open spec fn next(self, reply: Reply) -> StepView<Opening, Result<NlSock, Error>> {
        match self {
            Opening::Allocating => if reply.handle() == 0 {
                StepView::Done(Err(Error::NlSockAllocationFailed))
            } else {
                StepView::Call(
                    CallView::NlConnect { nl_sock: reply.handle(), protocol: 0 },
                    Opening::Connecting { nl_sock: reply.handle() },
                )
            },
            Opening::Connecting { nl_sock } => if reply.status() == 0 {
                StepView::Done(Ok(NlSock { nl_sock }))
            } else {
                StepView::Call(
                    CallView::NlSocketFree { nl_sock },
                    Opening::Freeing { nl_sock, rc: reply.status() },
                )
            },
            Opening::Freeing { rc, .. } => StepView::Done(
                Err(Error::NlSockConnectionFailed(NetlinkError(rc))),
            ),
        }
    }

    fn resume(self, reply: Reply) -> (step: Step<Opening, Result<NlSock, Error>>)
        ensures
            self.wf() ==> match step@ {
                StepView::Call(_, state) => state.wf(),
                StepView::Done(Ok(nl_sock)) => nl_sock.wf(),
                StepView::Done(Err(_)) => true,
            },
    {
        match self {
            Opening::Allocating => {
                let nl_sock = reply.handle();
                if nl_sock == 0 {
                    return Step::Done(Err(Error::NlSockAllocationFailed));
                }
                Step::Call(nl_connect(nl_sock), Opening::Connecting { nl_sock })
            },
            Opening::Connecting { nl_sock } => {
                let rc = reply.status();
                if rc == 0 {
                    return Step::Done(Ok(NlSock { nl_sock }));
                }
                Step::Call(nl_socket_free(nl_sock), Opening::Freeing { nl_sock, rc })
            },
            Opening::Freeing { rc, .. } => Step::Done(
                Err(Error::NlSockConnectionFailed(NetlinkError(rc))),
            ),
        }
    }

    proof fn next_is_pending(self, reply: Reply) {
    }
}

/// The call that allocates a socket.
pub fn nl_socket_alloc() -> (call: Call)
    ensures
        call@ == CallView::NlSocketAlloc,
{
    Call::NlSocketAlloc
}

/// The call that frees the socket behind `nl_sock`.
pub fn nl_socket_free(nl_sock: usize) -> (call: Call)
    ensures
        call@ == (CallView::NlSocketFree { nl_sock }),
{
    Call::NlSocketFree { nl_sock }
}

/// The call that connects the socket behind `nl_sock` to the route netlink
/// family, which is protocol 0.
pub fn nl_connect(nl_sock: usize) -> (call: Call)
    ensures
        call@ == (CallView::NlConnect { nl_sock, protocol: 0 }),
{
    Call::NlConnect { nl_sock, protocol: 0 }
}

/// The call that closes the socket behind `nl_sock`.
pub fn nl_close(nl_sock: usize) -> (call: Call)
    ensures
        call@ == (CallView::NlClose { nl_sock }),
{
    Call::NlClose { nl_sock }
}

} // verus!

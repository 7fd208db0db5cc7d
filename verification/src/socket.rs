//! The socket on which addresses are added and removed.

use vstd::prelude::*;

use crate::error::Error;
use crate::libnl::native::{Call, CallView, Machine, Reply, Step, StepView};
use crate::libnl::nl_sock::{NlSock, Opening};

verus! {

/// A connected socket to the kernel's route netlink family.
#[derive(Debug, PartialEq, Eq)]
pub struct Socket {
    pub nl_sock: NlSock,
}

/// The initialization of a [`Socket`], between two native calls.
#[derive(Debug, PartialEq, Eq)]
pub struct Initializing {
    pub opening: Opening,
}

impl Socket {
    /// The handle of the socket is not the null pointer.
    pub open spec fn wf(self) -> bool {
        self.nl_sock.wf()
    }

    /// Begins to initialize a socket: the native socket is to be allocated
    /// first.
    pub fn new() -> (step: Step<Initializing, Result<Socket, Error>>)
        ensures
            step@ == Initializing::begin(),
    {
        match NlSock::new() {
            Step::Call(call, opening) => Step::Call(call, Initializing { opening }),
            Step::Done(opened) => Step::Done(Socket::opened(opened)),
        }
    }

    /// The socket around a native socket that was opened, or the failure to
    /// open one as a failure to initialize.
    pub open spec fn opened_spec(opened: Result<NlSock, crate::libnl::error::Error>) -> Result<
        Socket,
        Error,
    > {
        match opened {
            Ok(nl_sock) => Ok(Socket { nl_sock }),
            Err(err) => Err(Error::SocketInitializationFailed(err)),
        }
    }

    /// The socket around a native socket that was opened, or the failure to
    /// open one as a failure to initialize.
    pub fn opened(opened: Result<NlSock, crate::libnl::error::Error>) -> (socket: Result<
        Socket,
        Error,
    >)
        ensures
            socket == Socket::opened_spec(opened),
    {
        match opened {
            Ok(nl_sock) => Ok(Socket { nl_sock }),
            Err(err) => Err(Error::SocketInitializationFailed(err)),
        }
    }

    /// The two calls that end the socket, in their order: it is closed, then
    /// freed.
    pub open spec fn closing(self) -> Seq<CallView> {
        seq![
            CallView::NlClose { nl_sock: self.nl_sock.nl_sock },
            CallView::NlSocketFree { nl_sock: self.nl_sock.nl_sock },
        ]
    }

    /// The two calls that end the socket, in their order: it is closed, then
    /// freed.
    pub fn close(self) -> (calls: (Call, Call))
        ensures
            seq![calls.0@, calls.1@] == self.closing(),
    {
        self.nl_sock.close()
    }
}

impl Initializing {
    /// The initialization at its beginning: `nl_socket_alloc` is to be
    /// called.
    pub open spec fn begin() -> StepView<Initializing, Result<Socket, Error>> {
        StepView::Call(CallView::NlSocketAlloc, Initializing { opening: Opening::Allocating })
    }

    /// Every handle held is not the null pointer.
    pub open spec fn wf(self) -> bool {
        self.opening.wf()
    }
}

impl Machine for Initializing {
    type Output = Result<Socket, Error>;

    open spec fn pending(self) -> CallView {
        self.opening.pending()
    }

    /// What follows the reply to the call that is out: what follows it in the
    /// opening of the native socket, and at its end the socket, or the error
    /// of the opening as `SocketInitializationFailed`.
    open spec fn next(self, reply: Reply) -> StepView<Initializing, Result<Socket, Error>> {
        match self.opening.next(reply) {
            StepView::Call(call, opening) => StepView::Call(call, Initializing { opening }),
            StepView::Done(opened) => StepView::Done(Socket::opened_spec(opened)),
        }
    }

    fn resume(self, reply: Reply) -> (step: Step<Initializing, Result<Socket, Error>>)
        ensures
            self.wf() ==> match step@ {
                StepView::Call(_, state) => state.wf(),
                StepView::Done(Ok(socket)) => socket.wf(),
                StepView::Done(Err(_)) => true,
            },
    {
        match self.opening.resume(reply) {
            Step::Call(call, opening) => Step::Call(call, Initializing { opening }),
            Step::Done(opened) => Step::Done(Socket::opened(opened)),
        }
    }

    proof fn next_is_pending(self, reply: Reply) {
        self.opening.next_is_pending(reply);
    }
}

} // verus!

//! The native route address: the record of one address of one interface,
//! which is configured field by field and then submitted to the kernel.

use vstd::prelude::*;

use crate::libnl::error::{Error, NetlinkError};
use crate::libnl::native::{Call, CallView, Machine, Reply, Step, StepView};
use crate::libnl::nl_addr::{AddrFamily, NlAddr};
use crate::libnl::nl_sock::NlSock;

verus! {

/// A route address that the native library has allocated, with what has been
/// set in it so far. The native record cannot be read back: the fields beside
/// the handle are this crate's note of what it has asked for.
///
/// An address value that was attached is owned by the record from then on:
/// the one call that releases the record releases it too.
#[derive(Debug, PartialEq, Eq)]
pub struct RtnlAddr {
    pub rtnl_addr: usize,
    pub family: Option<AddrFamily>,
    pub ifindex: Option<i32>,
    pub prefixlen: Option<i32>,
    pub local: Option<NlAddr>,
}

/// The two transactions that a route address can be submitted in.
#[derive(Debug, Clone, Copy, PartialEq, Eq)]
pub enum Mode {
    Add,
    Delete,
}

/// The submission of a route address, between two native calls.
#[derive(Debug, PartialEq, Eq)]
pub enum Submitting {
    /// The transaction is out on the socket `nl_sock`.
    Sent { rtnl_addr: RtnlAddr, nl_sock: usize, mode: Mode },
    /// The transaction returned `rc`, and `rtnl_addr_put` is out.
    Putting { handle: usize, mode: Mode, rc: i32 },
}

impl Mode {
    /// The call that submits the record behind `rtnl_addr` on the socket
    /// behind `nl_sock`, with no flags.
    pub open spec fn call(self, nl_sock: usize, rtnl_addr: usize) -> CallView {
        match self {
            Mode::Add => CallView::RtnlAddrAdd { nl_sock, rtnl_addr, flags: 0 },
            Mode::Delete => CallView::RtnlAddrDelete { nl_sock, rtnl_addr, flags: 0 },
        }
    }

    /// What a transaction ends in, given the status that it returned: zero is
    /// success, another status the error of the transaction.
    pub open spec fn result(self, rc: i32) -> Result<(), Error> {
        if rc == 0 {
            Ok(())
        } else {
            match self {
                Mode::Add => Err(Error::RtnlAddrAdditionFailed(NetlinkError(rc))),
                Mode::Delete => Err(Error::RtnlAddrRemovalFailed(NetlinkError(rc))),
            }
        }
    }
}

impl RtnlAddr {
    /// Neither the handle of the record nor that of an attached address value
    /// is the null pointer.
    pub open spec fn wf(self) -> bool {
        &&& self.rtnl_addr != 0
        &&& self.local matches Some(local) ==> local.wf()
    }

    /// A record behind `rtnl_addr` in which nothing has been set.
    pub open spec fn empty(rtnl_addr: usize) -> RtnlAddr {
        RtnlAddr { rtnl_addr, family: None, ifindex: None, prefixlen: None, local: None }
    }

    /// The route address behind `rtnl_addr`, the pointer that the call of
    /// [`rtnl_addr_alloc`] returned. There is none behind the null pointer.
    pub fn new(rtnl_addr: usize) -> (allocated: Result<RtnlAddr, Error>)
        ensures
            rtnl_addr == 0 ==> allocated == Err::<RtnlAddr, Error>(
                Error::RtnlAddrAllocationFailed,
            ),
            rtnl_addr != 0 ==> allocated == Ok::<RtnlAddr, Error>(RtnlAddr::empty(rtnl_addr)),
            allocated matches Ok(rtnl_addr) ==> rtnl_addr.wf(),
    {
        if rtnl_addr == 0 {
            return Err(Error::RtnlAddrAllocationFailed);
        }
        Ok(RtnlAddr { rtnl_addr, family: None, ifindex: None, prefixlen: None, local: None })
    }

    /// Notes the interface index, and gives the call that sets it.
    pub fn set_ifindex(&mut self, ifindex: i32) -> (call: Call)
        ensures
            call@ == (CallView::RtnlAddrSetIfindex { rtnl_addr: old(self).rtnl_addr, ifindex }),
            *final(self) == (RtnlAddr { ifindex: Some(ifindex), ..*old(self) }),
            old(self).wf() ==> final(self).wf(),
    {
        self.ifindex = Some(ifindex);
        rtnl_addr_set_ifindex(self.rtnl_addr, ifindex)
    }

    /// Notes the prefix length, and gives the call that sets it.
    pub fn set_prefixlen(&mut self, prefixlen: i32) -> (call: Call)
        ensures
            call@ == (CallView::RtnlAddrSetPrefixlen {
                rtnl_addr: old(self).rtnl_addr,
                prefixlen,
            }),
            *final(self) == (RtnlAddr { prefixlen: Some(prefixlen), ..*old(self) }),
            old(self).wf() ==> final(self).wf(),
    {
        self.prefixlen = Some(prefixlen);
        rtnl_addr_set_prefixlen(self.rtnl_addr, prefixlen)
    }

    /// Notes the address family, and gives the call that sets it.
    pub fn set_family(&mut self, family: AddrFamily) -> (call: Call)
        ensures
            call@ == (CallView::RtnlAddrSetFamily {
                rtnl_addr: old(self).rtnl_addr,
                family: family.code_spec(),
            }),
            *final(self) == (RtnlAddr { family: Some(family), ..*old(self) }),
            old(self).wf() ==> final(self).wf(),
    {
        self.family = Some(family);
        rtnl_addr_set_family(self.rtnl_addr, family.code())
    }

    /// Attaches `local` as the local address, given `rc`: the status that the
    /// call of [`rtnl_addr_set_local`] on the two handles returned.
    ///
    /// Status zero: the record owns the address value from now on. Another
    /// status: the record is as it was, and the address value comes back with
    /// the error, for the caller to put.
    pub fn set_local(&mut self, local: NlAddr, rc: i32) -> (attached: Result<(), (Error, NlAddr)>)
        ensures
            rc == 0 ==> attached.is_ok() && *final(self) == (RtnlAddr {
                local: Some(local),
                ..*old(self)
            }),
            rc != 0 ==> attached == Err::<(), (Error, NlAddr)>(
                (Error::RtnlAddrFailedToSetLocal(NetlinkError(rc)), local),
            ) && *final(self) == *old(self),
            old(self).wf() && local.wf() ==> final(self).wf(),
    {
        if rc != 0 {
            return Err((Error::RtnlAddrFailedToSetLocal(NetlinkError(rc)), local));
        }
        self.local = Some(local);
        Ok(())
    }

    /// Submits the record on the socket behind `nl_sock`, for addition or for
    /// removal as `mode` says. The record is given up: after the transaction
    /// it is put, whatever the transaction returned.
    pub fn submit(self, nl_sock: usize, mode: Mode) -> (step: Step<Submitting, Result<(), Error>>)
        ensures
            step@ == StepView::<Submitting, Result<(), Error>>::Call(
                mode.call(nl_sock, self.rtnl_addr),
                Submitting::Sent { rtnl_addr: self, nl_sock, mode },
            ),
    {
        let call = match mode {
            Mode::Add => rtnl_addr_add(nl_sock, self.rtnl_addr),
            Mode::Delete => rtnl_addr_delete(nl_sock, self.rtnl_addr),
        };
        Step::Call(call, Submitting::Sent { rtnl_addr: self, nl_sock, mode })
    }

    /// Submits the record for addition on `nl_sock`, and gives it up.
    pub fn add(self, nl_sock: &NlSock) -> (step: Step<Submitting, Result<(), Error>>)
        ensures
            step@ == StepView::<Submitting, Result<(), Error>>::Call(
                CallView::RtnlAddrAdd {
                    nl_sock: nl_sock.nl_sock,
                    rtnl_addr: self.rtnl_addr,
                    flags: 0,
                },
                Submitting::Sent { rtnl_addr: self, nl_sock: nl_sock.nl_sock, mode: Mode::Add },
            ),
    {
        self.submit(nl_sock.nl_sock, Mode::Add)
    }

    /// Submits the record for removal on `nl_sock`, and gives it up.
    pub fn delete(self, nl_sock: &NlSock) -> (step: Step<Submitting, Result<(), Error>>)
        ensures
            step@ == StepView::<Submitting, Result<(), Error>>::Call(
                CallView::RtnlAddrDelete {
                    nl_sock: nl_sock.nl_sock,
                    rtnl_addr: self.rtnl_addr,
                    flags: 0,
                },
                Submitting::Sent { rtnl_addr: self, nl_sock: nl_sock.nl_sock, mode: Mode::Delete },
            ),
    {
        self.submit(nl_sock.nl_sock, Mode::Delete)
    }

    /// Gives the record up: the call that releases its handle, and with it an
    /// address value that was attached.
    pub fn put(self) -> (call: Call)
        ensures
            call@ == (CallView::RtnlAddrPut { rtnl_addr: self.rtnl_addr }),
    {
        rtnl_addr_put(self.rtnl_addr)
    }
}

impl Submitting {
    /// Every handle held is not the null pointer.
    pub open spec fn wf(self) -> bool {
        match self {
            Submitting::Sent { rtnl_addr, nl_sock, .. } => rtnl_addr.wf() && nl_sock != 0,
            Submitting::Putting { handle, .. } => handle != 0,
        }
    }
}

impl Machine for Submitting {
    type Output = Result<(), Error>;

    open spec fn pending(self) -> CallView {
        match self {
            Submitting::Sent { rtnl_addr, nl_sock, mode } => mode.call(
                nl_sock,
                rtnl_addr.rtnl_addr,
            ),
            Submitting::Putting { handle, .. } => CallView::RtnlAddrPut { rtnl_addr: handle },
        }
    }

    /// What follows the reply to the call that is out: after the transaction
    /// the record is put, and after that the submission ends in what the
    /// status of the transaction stands for.
    open spec fn next(self, reply: Reply) -> StepView<Submitting, Result<(), Error>> {
        match self {
            Submitting::Sent { rtnl_addr, mode, .. } => StepView::Call(
                CallView::RtnlAddrPut { rtnl_addr: rtnl_addr.rtnl_addr },
                Submitting::Putting { handle: rtnl_addr.rtnl_addr, mode, rc: reply.status() },
            ),
            Submitting::Putting { mode, rc, .. } => StepView::Done(mode.result(rc)),
        }
    }

    fn resume(self, reply: Reply) -> (step: Step<Submitting, Result<(), Error>>)
        ensures
            self.wf() ==> (step@ matches StepView::Call(_, state) ==> state.wf()),
    {
        match self {
            Submitting::Sent { rtnl_addr, mode, .. } => {
                let handle = rtnl_addr.rtnl_addr;
                Step::Call(
                    rtnl_addr.put(),
                    Submitting::Putting { handle, mode, rc: reply.status() },
                )
            },
            Submitting::Putting { mode, rc, .. } => Step::Done(
                match mode {
                    Mode::Add => rtnl_addr_added(rc),
                    Mode::Delete => rtnl_addr_deleted(rc),
                },
            ),
        }
    }

    proof fn next_is_pending(self, reply: Reply) {
    }
}

/// What an addition ends in, given the status that `rtnl_addr_add` returned.
pub fn rtnl_addr_added(rc: i32) -> (result: Result<(), Error>)
    ensures
        result == Mode::Add.result(rc),
{
    if rc != 0 {
        return Err(Error::RtnlAddrAdditionFailed(NetlinkError(rc)));
    }
    Ok(())
}

/// What a removal ends in, given the status that `rtnl_addr_delete` returned.
pub fn rtnl_addr_deleted(rc: i32) -> (result: Result<(), Error>)
    ensures
        result == Mode::Delete.result(rc),
{
    if rc != 0 {
        return Err(Error::RtnlAddrRemovalFailed(NetlinkError(rc)));
    }
    Ok(())
}

/// The call that allocates a route address.
pub fn rtnl_addr_alloc() -> (call: Call)
    ensures
        call@ == CallView::RtnlAddrAlloc,
{
    Call::RtnlAddrAlloc
}

/// The call that releases the route address behind `rtnl_addr`.
pub fn rtnl_addr_put(rtnl_addr: usize) -> (call: Call)
    ensures
        call@ == (CallView::RtnlAddrPut { rtnl_addr }),
{
    Call::RtnlAddrPut { rtnl_addr }
}

/// The call that sets the interface index of the route address.
pub fn rtnl_addr_set_ifindex(rtnl_addr: usize, ifindex: i32) -> (call: Call)
    ensures
        call@ == (CallView::RtnlAddrSetIfindex { rtnl_addr, ifindex }),
{
    Call::RtnlAddrSetIfindex { rtnl_addr, ifindex }
}

/// The call that sets the prefix length of the route address.
pub fn rtnl_addr_set_prefixlen(rtnl_addr: usize, prefixlen: i32) -> (call: Call)
    ensures
        call@ == (CallView::RtnlAddrSetPrefixlen { rtnl_addr, prefixlen }),
{
    Call::RtnlAddrSetPrefixlen { rtnl_addr, prefixlen }
}

/// The call that attaches the address value behind `local` to the route
/// address as its local address.
pub fn rtnl_addr_set_local(rtnl_addr: usize, local: usize) -> (call: Call)
    ensures
        call@ == (CallView::RtnlAddrSetLocal { rtnl_addr, local }),
{
    Call::RtnlAddrSetLocal { rtnl_addr, local }
}

/// The call that sets the address family of the route address.
pub fn rtnl_addr_set_family(rtnl_addr: usize, family: i32) -> (call: Call)
    ensures
        call@ == (CallView::RtnlAddrSetFamily { rtnl_addr, family }),
{
    Call::RtnlAddrSetFamily { rtnl_addr, family }
}

/// The call that submits the route address for addition, with no flags.
pub fn rtnl_addr_add(nl_sock: usize, rtnl_addr: usize) -> (call: Call)
    ensures
        call@ == Mode::Add.call(nl_sock, rtnl_addr),
{
    Call::RtnlAddrAdd { nl_sock, rtnl_addr, flags: 0 }
}

/// The call that submits the route address for removal, with no flags.
pub fn rtnl_addr_delete(nl_sock: usize, rtnl_addr: usize) -> (call: Call)
    ensures
        call@ == Mode::Delete.call(nl_sock, rtnl_addr),
{
    Call::RtnlAddrDelete { nl_sock, rtnl_addr, flags: 0 }
}

} // verus!

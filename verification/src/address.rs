//! The description of an IPv4 address on an interface, and how it becomes a
//! native route address that is added or removed on a socket.

use vstd::prelude::*;

use crate::error::Error;
use crate::libnl::native::{CallView, Machine, Reply, Step, StepView};
use crate::libnl::nl_addr::{nl_addr_build, AddrFamily, NlAddr};
use crate::libnl::rtnl_addr::{rtnl_addr_alloc, rtnl_addr_set_local, Mode, RtnlAddr, Submitting};
use crate::socket::Socket;

verus! {

/// An IPv4 address: four octets, the first named first.
#[derive(Debug, Clone, Copy, PartialEq, Eq)]
pub struct Ipv4Addr {
    pub a: u8,
    pub b: u8,
    pub c: u8,
    pub d: u8,
}

impl Ipv4Addr {
    /// The address `a.b.c.d`.
    pub fn new(a: u8, b: u8, c: u8, d: u8) -> (address: Ipv4Addr)
        ensures
            address == (Ipv4Addr { a, b, c, d }),
    {
        Ipv4Addr { a, b, c, d }
    }

    /// The four octets in their order.
    pub open spec fn octets_spec(self) -> Seq<u8> {
        seq![self.a, self.b, self.c, self.d]
    }

    /// The four octets in their order.
    pub fn octets(&self) -> (octets: [u8; 4])
        ensures
            octets@ == self.octets_spec(),
    {
        let octets: [u8; 4] = [self.a, self.b, self.c, self.d];
        assert(octets@ =~= self.octets_spec());
        octets
    }
}

/// What is to be said of an address before it is added or removed: the index
/// of its interface, its prefix length and the address itself, each of them
/// optional. It holds no native object.
#[derive(Debug, Clone, Copy, PartialEq, Eq)]
pub struct IPv4Address {
    pub ifindex: Option<i32>,
    pub prefixlen: Option<u8>,
    pub local: Option<Ipv4Addr>,
}

impl IPv4Address {
    /// A description that says nothing yet.
    pub open spec fn empty() -> IPv4Address {
        IPv4Address { ifindex: None, prefixlen: None, local: None }
    }

    /// This description with the interface index `ifindex`.
    pub open spec fn with_ifindex(self, ifindex: i32) -> IPv4Address {
        IPv4Address { ifindex: Some(ifindex), ..self }
    }

    /// This description with the prefix length `prefixlen`.
    pub open spec fn with_prefixlen(self, prefixlen: u8) -> IPv4Address {
        IPv4Address { prefixlen: Some(prefixlen), ..self }
    }

    /// This description with the local address `address`.
    pub open spec fn with_local(self, address: Ipv4Addr) -> IPv4Address {
        IPv4Address { local: Some(address), ..self }
    }

    /// A description that says nothing yet.
    pub fn new() -> (address: IPv4Address)
        ensures
            address == IPv4Address::empty(),
    {
        IPv4Address { ifindex: None, prefixlen: None, local: None }
    }

    /// Sets the interface index, and leaves the rest as it is.
    pub fn set_ifindex(self, ifindex: i32) -> (address: IPv4Address)
        ensures
            address == self.with_ifindex(ifindex),
    {
        IPv4Address { ifindex: Some(ifindex), prefixlen: self.prefixlen, local: self.local }
    }

    /// Sets the prefix length, and leaves the rest as it is.
    pub fn set_prefixlen(self, prefixlen: u8) -> (address: IPv4Address)
        ensures
            address == self.with_prefixlen(prefixlen),
    {
        IPv4Address { ifindex: self.ifindex, prefixlen: Some(prefixlen), local: self.local }
    }

    /// Sets the local address, and leaves the rest as it is.
    pub fn set_local(self, address: Ipv4Addr) -> (described: IPv4Address)
        ensures
            described == self.with_local(address),
    {
        IPv4Address { ifindex: self.ifindex, prefixlen: self.prefixlen, local: Some(address) }
    }
}

/// The making of a route address from a description, between two native
/// calls.
#[derive(Debug, PartialEq, Eq)]
pub enum Materializing {
    /// `rtnl_addr_alloc` is out.
    Allocating { address: IPv4Address },
    /// The record is allocated, and `rtnl_addr_set_family` is out.
    Family { rtnl_addr: RtnlAddr, address: IPv4Address },
    /// `rtnl_addr_set_ifindex` is out.
    Ifindex { rtnl_addr: RtnlAddr, address: IPv4Address },
    /// `rtnl_addr_set_prefixlen` is out.
    Prefixlen { rtnl_addr: RtnlAddr, address: IPv4Address },
    /// `nl_addr_build` is out, for the address `local`.
    Building { rtnl_addr: RtnlAddr, local: Ipv4Addr },
    /// The address value is built, and `rtnl_addr_set_local` is out.
    Attaching { rtnl_addr: RtnlAddr, nl_addr: NlAddr },
    /// The address value was not attached, and `nl_addr_put` is out on it.
    /// The record is still to be put.
    PuttingLocal { rtnl_addr: RtnlAddr, handle: usize, error: crate::libnl::error::Error },
    /// The making has failed with `error`, and `rtnl_addr_put` is out.
    PuttingRecord { handle: usize, error: crate::libnl::error::Error },
}

impl IPv4Address {
    /// Begins to make a route address of this description: the record is to
    /// be allocated first.
    pub fn alloc_rtnl_addr(self) -> (step: Step<
        Materializing,
        Result<RtnlAddr, crate::libnl::error::Error>,
    >)
        ensures
            step@ == Materializing::begin(self),
    {
        Step::Call(rtnl_addr_alloc(), Materializing::Allocating { address: self })
    }
}

impl Materializing {
    /// The making at its beginning: `rtnl_addr_alloc` is to be called.
    pub open spec fn begin(address: IPv4Address) -> StepView<
        Materializing,
        Result<RtnlAddr, crate::libnl::error::Error>,
    > {
        StepView::Call(CallView::RtnlAddrAlloc, Materializing::Allocating { address })
    }

    /// Every handle held is not the null pointer.
    pub open spec fn wf(self) -> bool {
        match self {
            Materializing::Allocating { .. } => true,
            Materializing::Family { rtnl_addr, .. } => rtnl_addr.wf(),
            Materializing::Ifindex { rtnl_addr, .. } => rtnl_addr.wf(),
            Materializing::Prefixlen { rtnl_addr, .. } => rtnl_addr.wf(),
            Materializing::Building { rtnl_addr, .. } => rtnl_addr.wf(),
            Materializing::Attaching { rtnl_addr, nl_addr } => rtnl_addr.wf() && nl_addr.wf(),
            Materializing::PuttingLocal { rtnl_addr, handle, .. } => rtnl_addr.wf() && handle != 0,
            Materializing::PuttingRecord { handle, .. } => handle != 0,
        }
    }

    /// What follows once the local address is all that is left to see to:
    /// the address value is built where the description has a local address,
    /// and the making ends with the record where it has none.
    pub open spec fn after_prefixlen(rtnl_addr: RtnlAddr, address: IPv4Address) -> StepView<
        Materializing,
        Result<RtnlAddr, crate::libnl::error::Error>,
    > {
        match address.local {
            Some(local) => StepView::Call(
                CallView::NlAddrBuild {
                    family: AddrFamily::IPv4.code_spec(),
                    bytes: local.octets_spec(),
                },
                Materializing::Building { rtnl_addr, local },
            ),
            None => StepView::Done(Ok(rtnl_addr)),
        }
    }

    /// What follows once the interface index is seen to: the prefix length is
    /// set where the description has one.
    pub open spec fn after_ifindex(rtnl_addr: RtnlAddr, address: IPv4Address) -> StepView<
        Materializing,
        Result<RtnlAddr, crate::libnl::error::Error>,
    > {
        match address.prefixlen {
            Some(prefixlen) => StepView::Call(
                CallView::RtnlAddrSetPrefixlen {
                    rtnl_addr: rtnl_addr.rtnl_addr,
                    prefixlen: prefixlen as i32,
                },
                Materializing::Prefixlen {
                    rtnl_addr: RtnlAddr { prefixlen: Some(prefixlen as i32), ..rtnl_addr },
                    address,
                },
            ),
            None => Materializing::after_prefixlen(rtnl_addr, address),
        }
    }

    /// What follows once the family is set: the interface index is set where
    /// the description has one.
    pub open spec fn after_family(rtnl_addr: RtnlAddr, address: IPv4Address) -> StepView<
        Materializing,
        Result<RtnlAddr, crate::libnl::error::Error>,
    > {
        match address.ifindex {
            Some(ifindex) => StepView::Call(
                CallView::RtnlAddrSetIfindex { rtnl_addr: rtnl_addr.rtnl_addr, ifindex },
                Materializing::Ifindex {
                    rtnl_addr: RtnlAddr { ifindex: Some(ifindex), ..rtnl_addr },
                    address,
                },
            ),
            None => Materializing::after_ifindex(rtnl_addr, address),
        }
    }
}

impl Machine for Materializing {
    type Output = Result<RtnlAddr, crate::libnl::error::Error>;

    open spec fn pending(self) -> CallView {
        match self {
            Materializing::Allocating { .. } => CallView::RtnlAddrAlloc,
            Materializing::Family { rtnl_addr, .. } => CallView::RtnlAddrSetFamily {
                rtnl_addr: rtnl_addr.rtnl_addr,
                family: AddrFamily::IPv4.code_spec(),
            },
            Materializing::Ifindex { rtnl_addr, address } => CallView::RtnlAddrSetIfindex {
                rtnl_addr: rtnl_addr.rtnl_addr,
                ifindex: address.ifindex.unwrap(),
            },
            Materializing::Prefixlen { rtnl_addr, address } => CallView::RtnlAddrSetPrefixlen {
                rtnl_addr: rtnl_addr.rtnl_addr,
                prefixlen: address.prefixlen.unwrap() as i32,
            },
            Materializing::Building { local, .. } => CallView::NlAddrBuild {
                family: AddrFamily::IPv4.code_spec(),
                bytes: local.octets_spec(),
            },
            Materializing::Attaching { rtnl_addr, nl_addr } => CallView::RtnlAddrSetLocal {
                rtnl_addr: rtnl_addr.rtnl_addr,
                local: nl_addr.nl_addr,
            },
            Materializing::PuttingLocal { handle, .. } => CallView::NlAddrPut { nl_addr: handle },
            Materializing::PuttingRecord { handle, .. } => CallView::RtnlAddrPut {
                rtnl_addr: handle,
            },
        }
    }

    /// No record was allocated: the making fails, and no call follows. One
    /// was: its family is set to IPv4, then the interface index, the prefix
    /// length and the local address, each where the description has it and
    /// in this order. For the local address an address value is built and
    /// attached. None was built: the record is put, and the making fails;
    /// nothing is attached. It was not attached: the address value is put,
    /// then the record, and the making fails with the status. Else the making
    /// ends with the record.
    open spec fn next(self, reply: Reply) -> StepView<
        Materializing,
        Result<RtnlAddr, crate::libnl::error::Error>,
    > {
        match self {
            Materializing::Allocating { address } => if reply.handle() == 0 {
                StepView::Done(Err(crate::libnl::error::Error::RtnlAddrAllocationFailed))
            } else {
                StepView::Call(
                    CallView::RtnlAddrSetFamily {
                        rtnl_addr: reply.handle(),
                        family: AddrFamily::IPv4.code_spec(),
                    },
                    Materializing::Family {
                        rtnl_addr: RtnlAddr {
                            family: Some(AddrFamily::IPv4),
                            ..RtnlAddr::empty(reply.handle())
                        },
                        address,
                    },
                )
            },
            Materializing::Family { rtnl_addr, address } => Materializing::after_family(
                rtnl_addr,
                address,
            ),
            Materializing::Ifindex { rtnl_addr, address } => Materializing::after_ifindex(
                rtnl_addr,
                address,
            ),
            Materializing::Prefixlen { rtnl_addr, address } => Materializing::after_prefixlen(
                rtnl_addr,
                address,
            ),
            Materializing::Building { rtnl_addr, .. } => if reply.handle() == 0 {
                StepView::Call(
                    CallView::RtnlAddrPut { rtnl_addr: rtnl_addr.rtnl_addr },
                    Materializing::PuttingRecord {
                        handle: rtnl_addr.rtnl_addr,
                        error: crate::libnl::error::Error::NlAddrAllocationFailed,
                    },
                )
            } else {
                StepView::Call(
                    CallView::RtnlAddrSetLocal {
                        rtnl_addr: rtnl_addr.rtnl_addr,
                        local: reply.handle(),
                    },
                    Materializing::Attaching {
                        rtnl_addr,
                        nl_addr: NlAddr { nl_addr: reply.handle() },
                    },
                )
            },
            Materializing::Attaching { rtnl_addr, nl_addr } => if reply.status() == 0 {
                StepView::Done(Ok(RtnlAddr { local: Some(nl_addr), ..rtnl_addr }))
            } else {
                StepView::Call(
                    CallView::NlAddrPut { nl_addr: nl_addr.nl_addr },
                    Materializing::PuttingLocal {
                        rtnl_addr,
                        handle: nl_addr.nl_addr,
                        error: crate::libnl::error::Error::RtnlAddrFailedToSetLocal(
                            crate::libnl::error::NetlinkError(reply.status()),
                        ),
                    },
                )
            },
            Materializing::PuttingLocal { rtnl_addr, error, .. } => StepView::Call(
                CallView::RtnlAddrPut { rtnl_addr: rtnl_addr.rtnl_addr },
                Materializing::PuttingRecord { handle: rtnl_addr.rtnl_addr, error },
            ),
            Materializing::PuttingRecord { error, .. } => StepView::Done(Err(error)),
        }
    }

    fn resume(self, reply: Reply) -> (step: Step<
        Materializing,
        Result<RtnlAddr, crate::libnl::error::Error>,
    >)
        ensures
            self.wf() ==> match step@ {
                StepView::Call(_, state) => state.wf(),
                StepView::Done(Ok(rtnl_addr)) => rtnl_addr.wf(),
                StepView::Done(Err(_)) => true,
            },
    {
        match self {
            Materializing::Allocating { address } => match RtnlAddr::new(reply.handle()) {
                Err(error) => Step::Done(Err(error)),
                Ok(rtnl_addr) => {
                    let mut rtnl_addr = rtnl_addr;
                    let call = rtnl_addr.set_family(AddrFamily::IPv4);
                    Step::Call(call, Materializing::Family { rtnl_addr, address })
                },
            },
            Materializing::Family { rtnl_addr, address } => set_ifindex(rtnl_addr, address),
            Materializing::Ifindex { rtnl_addr, address } => set_prefixlen(rtnl_addr, address),
            Materializing::Prefixlen { rtnl_addr, address } => set_local(rtnl_addr, address),
            Materializing::Building { rtnl_addr, .. } => match NlAddr::new(reply.handle()) {
                Err(error) => {
                    let handle = rtnl_addr.rtnl_addr;
                    Step::Call(
                        rtnl_addr.put(),
                        Materializing::PuttingRecord { handle, error },
                    )
                },
                Ok(nl_addr) => Step::Call(
                    rtnl_addr_set_local(rtnl_addr.rtnl_addr, nl_addr.nl_addr),
                    Materializing::Attaching { rtnl_addr, nl_addr },
                ),
            },
            Materializing::Attaching { rtnl_addr, nl_addr } => {
                let mut rtnl_addr = rtnl_addr;
                match rtnl_addr.set_local(nl_addr, reply.status()) {
                    Ok(()) => Step::Done(Ok(rtnl_addr)),
                    Err((error, nl_addr)) => {
                        let handle = nl_addr.nl_addr;
                        Step::Call(
                            nl_addr.put(),
                            Materializing::PuttingLocal { rtnl_addr, handle, error },
                        )
                    },
                }
            },
            Materializing::PuttingLocal { rtnl_addr, error, .. } => {
                let handle = rtnl_addr.rtnl_addr;
                Step::Call(
                    rtnl_addr.put(),
                    Materializing::PuttingRecord { handle, error },
                )
            },
            Materializing::PuttingRecord { error, .. } => Step::Done(Err(error)),
        }
    }

    proof fn next_is_pending(self, reply: Reply) {
    }
}

/// Sets the interface index in the record where `address` has one, and goes
/// on to the prefix length where it has none.
fn set_ifindex(rtnl_addr: RtnlAddr, address: IPv4Address) -> (step: Step<
    Materializing,
    Result<RtnlAddr, crate::libnl::error::Error>,
>)
    ensures
        step@ == Materializing::after_family(rtnl_addr, address),
{
    match address.ifindex {
        Some(ifindex) => {
            let mut rtnl_addr = rtnl_addr;
            let call = rtnl_addr.set_ifindex(ifindex);
            Step::Call(call, Materializing::Ifindex { rtnl_addr, address })
        },
        None => set_prefixlen(rtnl_addr, address),
    }
}

/// Sets the prefix length in the record where `address` has one, and goes on
/// to the local address where it has none.
fn set_prefixlen(rtnl_addr: RtnlAddr, address: IPv4Address) -> (step: Step<
    Materializing,
    Result<RtnlAddr, crate::libnl::error::Error>,
>)
    ensures
        step@ == Materializing::after_ifindex(rtnl_addr, address),
{
    match address.prefixlen {
        Some(prefixlen) => {
            let mut rtnl_addr = rtnl_addr;
            let call = rtnl_addr.set_prefixlen(prefixlen as i32);
            Step::Call(call, Materializing::Prefixlen { rtnl_addr, address })
        },
        None => set_local(rtnl_addr, address),
    }
}

/// Has the address value built where `address` has a local address, and ends
/// the making where it has none.
fn set_local(rtnl_addr: RtnlAddr, address: IPv4Address) -> (step: Step<
    Materializing,
    Result<RtnlAddr, crate::libnl::error::Error>,
>)
    ensures
        step@ == Materializing::after_prefixlen(rtnl_addr, address),
{
    match address.local {
        Some(local) => {
            let octets = local.octets();
            Step::Call(
                nl_addr_build(AddrFamily::IPv4, octets.as_slice()),
                Materializing::Building { rtnl_addr, local },
            )
        },
        None => Step::Done(Ok(rtnl_addr)),
    }
}

/// The adding or removing of an address on a socket, between two native
/// calls: first the route address is made, then it is submitted.
#[derive(Debug, PartialEq, Eq)]
pub enum Transaction {
    /// The route address is being made, to be submitted on `nl_sock`.
    Materializing { nl_sock: usize, mode: Mode, materializing: Materializing },
    /// The route address is being submitted.
    Submitting { mode: Mode, submitting: Submitting },
}

/// The error of the native layer `err` as the failure of the operation that
/// `mode` names.
pub open spec fn failed_spec(mode: Mode, err: crate::libnl::error::Error) -> Error {
    match mode {
        Mode::Add => Error::AddressAdditionFailed(err),
        Mode::Delete => Error::AddressRemovalFailed(err),
    }
}

/// The error of the native layer `err` as the failure of the operation that
/// `mode` names.
pub fn failed(mode: Mode, err: crate::libnl::error::Error) -> (error: Error)
    ensures
        error == failed_spec(mode, err),
{
    match mode {
        Mode::Add => Error::AddressAdditionFailed(err),
        Mode::Delete => Error::AddressRemovalFailed(err),
    }
}

impl Transaction {
    /// Every handle held is not the null pointer.
    pub open spec fn wf(self) -> bool {
        match self {
            Transaction::Materializing { nl_sock, materializing, .. } => nl_sock != 0
                && materializing.wf(),
            Transaction::Submitting { submitting, .. } => submitting.wf(),
        }
    }

    /// What follows a step of the making: its calls are handed on; the record
    /// that it ends with is submitted on `nl_sock`; the error that it ends
    /// with ends the operation, and nothing is submitted.
    pub open spec fn after_materializing(
        nl_sock: usize,
        mode: Mode,
        step: StepView<Materializing, Result<RtnlAddr, crate::libnl::error::Error>>,
    ) -> StepView<Transaction, Result<(), Error>> {
        match step {
            StepView::Call(call, materializing) => StepView::Call(
                call,
                Transaction::Materializing { nl_sock, mode, materializing },
            ),
            StepView::Done(Ok(rtnl_addr)) => StepView::Call(
                mode.call(nl_sock, rtnl_addr.rtnl_addr),
                Transaction::Submitting {
                    mode,
                    submitting: Submitting::Sent { rtnl_addr, nl_sock, mode },
                },
            ),
            StepView::Done(Err(err)) => StepView::Done(Err(failed_spec(mode, err))),
        }
    }

    /// What follows a step of the submission: its calls are handed on, and
    /// what it ends with ends the operation.
    pub open spec fn after_submitting(
        mode: Mode,
        step: StepView<Submitting, Result<(), crate::libnl::error::Error>>,
    ) -> StepView<Transaction, Result<(), Error>> {
        match step {
            StepView::Call(call, submitting) => StepView::Call(
                call,
                Transaction::Submitting { mode, submitting },
            ),
            StepView::Done(Ok(())) => StepView::Done(Ok(())),
            StepView::Done(Err(err)) => StepView::Done(Err(failed_spec(mode, err))),
        }
    }

    /// The operation at its beginning: the making of the route address at its
    /// beginning.
    pub open spec fn begin(nl_sock: usize, mode: Mode, address: IPv4Address) -> StepView<
        Transaction,
        Result<(), Error>,
    > {
        StepView::Call(
            CallView::RtnlAddrAlloc,
            Transaction::Materializing {
                nl_sock,
                mode,
                materializing: Materializing::Allocating { address },
            },
        )
    }
}

impl Machine for Transaction {
    type Output = Result<(), Error>;

    open spec fn pending(self) -> CallView {
        match self {
            Transaction::Materializing { materializing, .. } => materializing.pending(),
            Transaction::Submitting { submitting, .. } => submitting.pending(),
        }
    }

    /// What follows the reply in the making, or in the submission.
    open spec fn next(self, reply: Reply) -> StepView<Transaction, Result<(), Error>> {
        match self {
            Transaction::Materializing { nl_sock, mode, materializing } =>
                Transaction::after_materializing(nl_sock, mode, materializing.next(reply)),
            Transaction::Submitting { mode, submitting } => Transaction::after_submitting(
                mode,
                submitting.next(reply),
            ),
        }
    }

    fn resume(self, reply: Reply) -> (step: Step<Transaction, Result<(), Error>>)
        ensures
            self.wf() ==> (step@ matches StepView::Call(_, state) ==> state.wf()),
    {
        match self {
            Transaction::Materializing { nl_sock, mode, materializing } => materialized(
                nl_sock,
                mode,
                materializing.resume(reply),
            ),
            Transaction::Submitting { mode, submitting } => submitted(
                mode,
                submitting.resume(reply),
            ),
        }
    }

    proof fn next_is_pending(self, reply: Reply) {
        match self {
            Transaction::Materializing { materializing, .. } => materializing.next_is_pending(reply),
            Transaction::Submitting { submitting, .. } => submitting.next_is_pending(reply),
        }
    }
}

/// Takes a step of the making into the operation.
fn materialized(
    nl_sock: usize,
    mode: Mode,
    step: Step<Materializing, Result<RtnlAddr, crate::libnl::error::Error>>,
) -> (taken: Step<Transaction, Result<(), Error>>)
    ensures
        taken@ == Transaction::after_materializing(nl_sock, mode, step@),
{
    match step {
        Step::Call(call, materializing) => Step::Call(
            call,
            Transaction::Materializing { nl_sock, mode, materializing },
        ),
        Step::Done(Ok(rtnl_addr)) => submitted(mode, rtnl_addr.submit(nl_sock, mode)),
        Step::Done(Err(err)) => Step::Done(Err(failed(mode, err))),
    }
}

/// Takes a step of the submission into the operation.
fn submitted(mode: Mode, step: Step<Submitting, Result<(), crate::libnl::error::Error>>) -> (taken:
    Step<Transaction, Result<(), Error>>)
    ensures
        taken@ == Transaction::after_submitting(mode, step@),
{
    match step {
        Step::Call(call, submitting) => Step::Call(
            call,
            Transaction::Submitting { mode, submitting },
        ),
        Step::Done(Ok(())) => Step::Done(Ok(())),
        Step::Done(Err(err)) => Step::Done(Err(failed(mode, err))),
    }
}

/// Adding and removing addresses.
pub trait Addresses {
    /// Begins to add the address that `address` describes.
    fn add_address(&self, address: IPv4Address) -> Step<Transaction, Result<(), Error>>;

    /// Begins to remove the address that `address` describes.
    fn delete_address(&self, address: IPv4Address) -> Step<Transaction, Result<(), Error>>;
}

impl Addresses for Socket {
    /// Begins to add the address on this socket: a route address is made of
    /// the description and submitted for addition. A failure on the way is an
    /// `AddressAdditionFailed`.
    fn add_address(&self, address: IPv4Address) -> (step: Step<Transaction, Result<(), Error>>)
        ensures
            step@ == Transaction::begin(self.nl_sock.nl_sock, Mode::Add, address),
    {
        materialized(self.nl_sock.nl_sock, Mode::Add, address.alloc_rtnl_addr())
    }

    /// Begins to remove the address on this socket: a route address is made
    /// of the description and submitted for removal. A failure on the way is
    /// an `AddressRemovalFailed`.
    fn delete_address(&self, address: IPv4Address) -> (step: Step<Transaction, Result<(), Error>>)
        ensures
            step@ == Transaction::begin(self.nl_sock.nl_sock, Mode::Delete, address),
    {
        materialized(self.nl_sock.nl_sock, Mode::Delete, address.alloc_rtnl_addr())
    }
}

} // verus!

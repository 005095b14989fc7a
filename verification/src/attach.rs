//! Attaching a program to a socket and detaching it again.
//!
//! The library decides what is asked of the kernel and what its answer
//! means; the caller supplies the function that puts the request to the
//! kernel. Two kernel interfaces are known, and a build selects one of them.

use crate::bpf_base::BPFFProg;
use vstd::prelude::*;

verus! {

/// One request to the kernel about the filter of a socket.
#[derive(Debug, Clone, Copy)]
pub enum KernelCall<'a> {
    /// Set the option `name` at `level` on `socket`. The value handed over
    /// is the descriptor of `payload` with the descriptor's size, or null
    /// with size zero where there is no payload.
    SetOption { socket: i32, level: i32, name: i32, payload: Option<BPFFProg<'a>> },
    /// Issue the control command `request` on `socket`, with the address of
    /// the descriptor of `program` as its argument.
    Control { socket: i32, request: u64, program: BPFFProg<'a> },
}

/// The failure of an attach: the non-zero code that the kernel answered.
#[derive(Debug, Clone, Copy)]
pub struct AttachError {
    code: i32,
}

impl View for AttachError {
    type V = i32;

    closed spec fn view(&self) -> i32 {
        self.code
    }
}

impl AttachError {
    #[verifier::type_invariant]
    spec fn well_formed(self) -> bool {
        self.code != 0
    }

    /// The code that the kernel answered, unchanged.
    pub fn code(&self) -> (code: i32)
        ensures
            code == self@,
            code != 0,
    {
        proof {
            use_type_invariant(self);
        }
        self.code
    }
}

/// The failure of a detach: the non-zero code that the kernel answered.
#[derive(Debug, Clone, Copy)]
pub struct DetachError {
    code: i32,
}

impl View for DetachError {
    type V = i32;

    closed spec fn view(&self) -> i32 {
        self.code
    }
}

impl DetachError {
    #[verifier::type_invariant]
    spec fn well_formed(self) -> bool {
        self.code != 0
    }

    /// The code that the kernel answered, unchanged.
    pub fn code(&self) -> (code: i32)
        ensures
            code == self@,
            code != 0,
    {
        proof {
            use_type_invariant(self);
        }
        self.code
    }
}

/// Whether `outcome` is what an attach reports when the kernel answered `rc`.
pub open spec fn attach_reports(rc: i32, outcome: Result<(), AttachError>) -> bool {
    if rc == 0 {
        outcome is Ok
    } else {
        outcome matches Err(e) && e@ == rc
    }
}

/// Whether `outcome` is what a detach reports when the kernel answered `rc`.
pub open spec fn detach_reports(rc: i32, outcome: Result<(), DetachError>) -> bool {
    if rc == 0 {
        outcome is Ok
    } else {
        outcome matches Err(e) && e@ == rc
    }
}

/// Reads the kernel's answer to an attach: zero is success, anything else
/// is handed on as it came.
pub fn attach_outcome(rc: i32) -> (outcome: Result<(), AttachError>)
    ensures
        attach_reports(rc, outcome),
{
    if rc == 0 {
        Ok(())
    } else {
        Err(AttachError { code: rc })
    }
}

/// Reads the kernel's answer to a detach: zero is success, anything else
/// is handed on as it came.
pub fn detach_outcome(rc: i32) -> (outcome: Result<(), DetachError>)
    ensures
        detach_reports(rc, outcome),
{
    if rc == 0 {
        Ok(())
    } else {
        Err(DetachError { code: rc })
    }
}

/// A kernel interface through which a filter is installed.
pub trait Mechanism {
    /// The request that installs `program` on `socket`.
    spec fn attach_call<'a>(&self, socket: i32, program: BPFFProg<'a>) -> KernelCall<'a>;

    /// Makes the request that installs `program` on `socket`.
    fn attach<'a>(&self, socket: i32, program: BPFFProg<'a>) -> (call: KernelCall<'a>)
        ensures
            call == self.attach_call(socket, program),
    ;
}

/// The socket option interface, with the platform's numbers for the option
/// level and for the two options. It can remove a filter as well.
#[derive(Debug, Clone, Copy)]
pub struct SocketOption {
    pub level: i32,
    pub attach: i32,
    pub detach: i32,
}

impl SocketOption {
    /// The request that removes the filter of `socket`: the detach option
    /// with no payload.
    pub open spec fn detach_call<'a>(&self, socket: i32) -> KernelCall<'a> {
        KernelCall::SetOption { socket, level: self.level, name: self.detach, payload: None }
    }

    /// Makes the request that removes the filter of `socket`.
    pub fn detach<'a>(&self, socket: i32) -> (call: KernelCall<'a>)
        ensures
            call == self.detach_call(socket),
    {
        KernelCall::SetOption { socket, level: self.level, name: self.detach, payload: None }
    }
}

impl Mechanism for SocketOption {
    open spec fn attach_call<'a>(&self, socket: i32, program: BPFFProg<'a>) -> KernelCall<'a> {
        KernelCall::SetOption {
            socket,
            level: self.level,
            name: self.attach,
            payload: Some(program),
        }
    }

    fn attach<'a>(&self, socket: i32, program: BPFFProg<'a>) -> (call: KernelCall<'a>) {
        KernelCall::SetOption {
            socket,
            level: self.level,
            name: self.attach,
            payload: Some(program),
        }
    }
}

/// The device control interface, with the platform's number for the command
/// that sets a filter. It has no command that removes one.
#[derive(Debug, Clone, Copy)]
pub struct DeviceControl {
    pub set_filter: u64,
}

impl Mechanism for DeviceControl {
    open spec fn attach_call<'a>(&self, socket: i32, program: BPFFProg<'a>) -> KernelCall<'a> {
        KernelCall::Control { socket, request: self.set_filter, program }
    }

    fn attach<'a>(&self, socket: i32, program: BPFFProg<'a>) -> (call: KernelCall<'a>) {
        KernelCall::Control { socket, request: self.set_filter, program }
    }
}

/// The operations on a program that involve a socket.
pub trait BPFOperations<'a>: Sized {
    /// The program that is attached.
    spec fn program(self) -> BPFFProg<'a>;

    /// Attaches the program to `socket` through `via`. Exactly one request
    /// is put to `kernel`, and its answer decides the outcome.
    fn attach_filter<M, K>(self, socket: i32, via: &M, kernel: K) -> (outcome: Result<
        (),
        AttachError,
    >) where M: Mechanism, K: FnOnce(KernelCall<'a>) -> i32
        requires
            call_requires(kernel, (via.attach_call(socket, self.program()),)),
        ensures
            exists|rc: i32|
                call_ensures(kernel, (via.attach_call(socket, self.program()),), rc)
                    && attach_reports(rc, outcome),
    ;
}

impl<'a> BPFOperations<'a> for BPFFProg<'a> {
    open spec fn program(self) -> BPFFProg<'a> {
        self
    }

    fn attach_filter<M, K>(self, socket: i32, via: &M, kernel: K) -> (outcome: Result<
        (),
        AttachError,
    >) where M: Mechanism, K: FnOnce(KernelCall<'a>) -> i32 {
        let call = via.attach(socket, self);
        let rc = kernel(call);
        attach_outcome(rc)
    }
}

/// Removes the filter of `socket`. Exactly one request is put to `kernel`,
/// and its answer decides the outcome.
pub fn detach_filter<'a, K>(socket: i32, via: &SocketOption, kernel: K) -> (outcome: Result<
    (),
    DetachError,
>) where K: FnOnce(KernelCall<'a>) -> i32
    requires
        call_requires(kernel, (via.detach_call(socket),)),
    ensures
        exists|rc: i32|
            call_ensures(kernel, (via.detach_call(socket),), rc) && detach_reports(rc, outcome),
{
    let call = via.detach(socket);
    let rc = kernel(call);
    detach_outcome(rc)
}

/// The filter that a socket has, as far as the outcomes of the requests
/// tell: none, or the program that was attached last.
#[derive(Debug, Clone, Copy)]
pub enum FilterState<'a> {
    /// The socket has no filter.
    Unfiltered,
    /// The socket runs this program on every packet.
    Filtered(BPFFProg<'a>),
}

impl<'a> FilterState<'a> {
    /// The state after an attach of `program` that the kernel answered with
    /// `rc`.
    pub open spec fn attached_spec(self, program: BPFFProg<'a>, rc: i32) -> FilterState<'a> {
        if rc == 0 {
            FilterState::Filtered(program)
        } else {
            self
        }
    }

    /// The state after a detach that the kernel answered with `rc`.
    pub open spec fn detached_spec(self, rc: i32) -> FilterState<'a> {
        if rc == 0 {
            FilterState::Unfiltered
        } else {
            self
        }
    }

    /// The state after an attach of `program` that the kernel answered with
    /// `rc`: the program replaces whatever was there, or nothing changes.
    pub fn attached(self, program: BPFFProg<'a>, rc: i32) -> (next: FilterState<'a>)
        ensures
            next == self.attached_spec(program, rc),
    {
        if rc == 0 {
            FilterState::Filtered(program)
        } else {
            self
        }
    }

    /// The state after a detach that the kernel answered with `rc`: the
    /// filter is gone, or nothing changes.
    pub fn detached(self, rc: i32) -> (next: FilterState<'a>)
        ensures
            next == self.detached_spec(rc),
    {
        if rc == 0 {
            FilterState::Unfiltered
        } else {
            self
        }
    }
}

/// An attach that the kernel refused leaves the socket with the filter it
/// had, whatever that was, and with none if it had none.
pub proof fn failed_attach_changes_nothing<'a>(
    before: FilterState<'a>,
    program: BPFFProg<'a>,
    rc: i32,
)
    requires
        rc != 0,
    ensures
        before.attached_spec(program, rc) == before,
{
}

/// An attach that the kernel accepted leaves the socket with the new
/// program alone: nothing of the state before it remains.
pub proof fn attach_replaces<'a>(
    before: FilterState<'a>,
    other: FilterState<'a>,
    program: BPFFProg<'a>,
)
    ensures
        before.attached_spec(program, 0) == FilterState::Filtered(program),
        before.attached_spec(program, 0) == other.attached_spec(program, 0),
{
}

/// A detach that the kernel accepted leaves the socket without a filter,
/// also where it had none, and a second one changes nothing more.
pub proof fn detach_is_idempotent<'a>(before: FilterState<'a>)
    ensures
        before.detached_spec(0) == FilterState::<'a>::Unfiltered,
        FilterState::<'a>::Unfiltered.detached_spec(0) == FilterState::<'a>::Unfiltered,
        before.detached_spec(0).detached_spec(0) == before.detached_spec(0),
{
}

/// A detach that the kernel refused leaves the socket with the filter it
/// had.
pub proof fn failed_detach_changes_nothing<'a>(before: FilterState<'a>, rc: i32)
    requires
        rc != 0,
    ensures
        before.detached_spec(rc) == before,
{
}

} // verus!

//! What the platform is asked to do, and what it replies.

use vstd::prelude::*;

verus! {

/// The register image of a caller, as far as calls are made with it.
#[derive(Clone, Copy, Debug, PartialEq, Eq)]
pub struct CallRegs {
    /// Which call is made: the protocol in the upper half, the call ID in the lower.
    pub rax: u64,
    /// First argument.
    pub rcx: u64,
    /// Second argument.
    pub rdx: u64,
    /// Third argument.
    pub r8: u64,
    /// The privilege level that the caller runs at.
    pub vmpl: u8,
}

/// A piece of work for the platform. Addresses named `gpa` are guest physical, all others are
/// virtual. Each action says which [`Reply`] it is given.
#[derive(Clone, Copy, Debug, PartialEq, Eq)]
pub enum Action {
    /// Look up the address of this CPU's calling area for `vmpl`, 0 if there is none.
    /// Gives [`Reply::Address`].
    FindCallingArea { vmpl: u8 },
    /// Read the call-pending flag of a calling area. Gives [`Reply::Byte`].
    ReadCallPending { ca: u64 },
    /// Look up the address of this CPU's VMSA page for `vmpl`, 0 if there is none.
    /// Gives [`Reply::Address`].
    FindVmsa { vmpl: u8 },
    /// Read the registers that a call is made with. Gives [`Reply::Registers`].
    ReadRegisters { vmsa: u64 },
    /// Set the call-pending flag of a calling area to 0. Gives [`Reply::Done`].
    ClearCallPending { ca: u64 },
    /// Set the caller's RAX to what it would find there if serving its call ended here.
    /// Gives [`Reply::Done`].
    SetRax { vmsa: u64, rax: u64 },
    /// Set the caller's RAX, and its RCX where one is given. Gives [`Reply::Done`].
    Answer { vmsa: u64, rax: u64, rcx: Option<u64> },
    /// Run the guest at `vmpl` until it comes back. Gives [`Reply::Done`].
    RunVmpl { vmpl: u8 },
    /// Map `len` bytes of guest memory at `gpa` as private. Gives [`Reply::Mapped`].
    MapPrivate { gpa: u64, len: u64 },
    /// Find the CPU that has an APIC ID. Gives [`Reply::Cpu`].
    FindCpu { apic_id: u32 },
    /// Flush the translation of one page. Gives [`Reply::Done`].
    FlushPage { va: u64 },
    /// Flush the translations of all guest address spaces on all CPUs, and wait until that is
    /// done. Gives [`Reply::Done`].
    FlushAll,
    /// Keep memory accesses from being moved across this point. Gives [`Reply::Done`].
    Barrier,
    /// Read the VMPL field of a VMSA page. Gives [`Reply::Byte`].
    ReadVmpl { vmsa: u64 },
    /// Read the EFER field of a VMSA page. Gives [`Reply::Word`].
    ReadEfer { vmsa: u64 },
    /// Atomically replace the EFER field of a VMSA page by `new` if it is `current`.
    /// Gives [`Reply::Word`], the value that the field had.
    SwapEfer { vmsa: u64, current: u64, new: u64 },
    /// Adjust the permissions of a page (the RMPADJUST instruction). Gives [`Reply::Status`].
    AdjustPage { va: u64, page_size: u32, attributes: u64 },
    /// Validate a page, or rescind its validation (the PVALIDATE instruction).
    /// Gives [`Reply::Status`].
    ValidatePage { va: u64, page_size: u32, validate: u32 },
    /// Look up the address of a CPU's VMSA page. Gives [`Reply::Address`].
    FindVmsaFor { vmpl: u8, cpu: usize },
    /// Set the address of a CPU's VMSA page, 0 for none. Gives [`Reply::Done`].
    SetVmsaFor { va: u64, vmpl: u8, cpu: usize },
    /// Set the address of a CPU's calling area, 0 for none. Gives [`Reply::Done`].
    SetCallingAreaFor { va: u64, vmpl: u8, cpu: usize },
    /// Set the address of this CPU's calling area. Gives [`Reply::Done`].
    SetCallingArea { va: u64, vmpl: u8 },
    /// Read the head of a list of page validations. Gives [`Reply::Header`].
    ReadHeader { va: u64 },
    /// Write the index of the next page validation into the head of a list.
    /// Gives [`Reply::Done`].
    WriteNext { va: u64, next: u16 },
    /// Read an entry of a list of page validations. Gives [`Reply::Word`].
    ReadEntry { va: u64 },
}

/// What the platform replies to an [`Action`].
#[derive(Clone, Copy, Debug, PartialEq, Eq)]
pub enum Reply {
    /// The work is done.
    Done,
    /// A virtual address, 0 for none.
    Address(u64),
    /// A byte that was read.
    Byte(u8),
    /// A word that was read.
    Word(u64),
    /// The registers that were read.
    Registers(CallRegs),
    /// The virtual address that memory was mapped to, or that it could not be mapped.
    Mapped(Option<u64>),
    /// The number of a CPU, if one was found.
    Cpu(Option<usize>),
    /// What an instruction returned: 0 on success.
    Status(u32),
    /// The head of a list of page validations: its length and the index of the next entry.
    Header { entries: u16, next: u16 },
}

/// `reply` is of the kind that `action` gives.
pub open spec fn fits(action: Action, reply: Reply) -> bool {
    match action {
        Action::FindCallingArea { .. }
        | Action::FindVmsa { .. }
        | Action::FindVmsaFor { .. } => reply is Address,
        Action::ReadCallPending { .. } | Action::ReadVmpl { .. } => reply is Byte,
        Action::ReadEfer { .. }
        | Action::SwapEfer { .. }
        | Action::ReadEntry { .. } => reply is Word,
        Action::ReadRegisters { .. } => reply is Registers,
        Action::MapPrivate { .. } => reply is Mapped,
        Action::FindCpu { .. } => reply is Cpu,
        Action::AdjustPage { .. } | Action::ValidatePage { .. } => reply is Status,
        Action::ReadHeader { .. } => reply is Header,
        _ => reply is Done,
    }
}

/// Whether `reply` is of the kind that `action` gives.
pub fn is_fitting(action: &Action, reply: &Reply) -> (fitting: bool)
    ensures
        fitting == fits(*action, *reply),
{
    match *action {
        Action::FindCallingArea { .. }
        | Action::FindVmsa { .. }
        | Action::FindVmsaFor { .. } => matches!(*reply, Reply::Address(_)),
        Action::ReadCallPending { .. } | Action::ReadVmpl { .. } => matches!(
            *reply,
            Reply::Byte(_)
        ),
        Action::ReadEfer { .. }
        | Action::SwapEfer { .. }
        | Action::ReadEntry { .. } => matches!(*reply, Reply::Word(_)),
        Action::ReadRegisters { .. } => matches!(*reply, Reply::Registers(_)),
        Action::MapPrivate { .. } => matches!(*reply, Reply::Mapped(_)),
        Action::FindCpu { .. } => matches!(*reply, Reply::Cpu(_)),
        Action::AdjustPage { .. } | Action::ValidatePage { .. } => matches!(
            *reply,
            Reply::Status(_)
        ),
        Action::ReadHeader { .. } => matches!(*reply, Reply::Header { .. }),
        _ => matches!(*reply, Reply::Done),
    }
}

/// Which actions a reply can be for, by its kind: addresses are found, bytes and words and heads
/// and registers are read, memory is mapped, a CPU is found by its APIC ID, an instruction gives a
/// status, and whatever else is asked is just done.
pub proof fn law_replies_by_their_kind(action: Action, reply: Reply)
    ensures
        reply is Address ==> (fits(action, reply) <==> action is FindCallingArea
            || action is FindVmsa || action is FindVmsaFor),
        reply is Byte ==> (fits(action, reply) <==> action is ReadCallPending
            || action is ReadVmpl),
        reply is Word ==> (fits(action, reply) <==> action is ReadEfer || action is SwapEfer
            || action is ReadEntry),
        reply is Registers ==> (fits(action, reply) <==> action is ReadRegisters),
        reply is Mapped ==> (fits(action, reply) <==> action is MapPrivate),
        reply is Cpu ==> (fits(action, reply) <==> action is FindCpu),
        reply is Status ==> (fits(action, reply) <==> action is AdjustPage
            || action is ValidatePage),
        reply is Header ==> (fits(action, reply) <==> action is ReadHeader),
        reply is Done ==> (fits(action, reply) <==> action is ClearCallPending || action is SetRax
            || action is Answer || action is RunVmpl || action is FlushPage || action is FlushAll
            || action is Barrier || action is SetVmsaFor || action is SetCallingAreaFor
            || action is SetCallingArea || action is WriteNext),
{
}

} // verus!

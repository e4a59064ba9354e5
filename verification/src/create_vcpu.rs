//! Creating a virtual CPU.

use vstd::prelude::*;

use crate::addr::{is_physical, lemma_alignments, phys_is_aligned, PAGE_SIZE};
use crate::machine::{after, is_run, law_actions_were_pending, Exchange, Machine};
use crate::platform::{fits, Action, Reply};
use crate::protocol::{
    law_svme_is_bit_12, lower_32bits, lower_half, EFER_SVME, SVSM_ERR_INVALID_PARAMETER,
    SVSM_SUCCESS, VMPL1, VMPL_MAX,
};
use crate::vmpl_access::{
    grant_vmpl_access, lemma_revocation_is_level, restrict_vmpl_access, revoke_vmpl_access,
    Access, RMP_4K, VMPL_R, VMPL_RWX, VMPL_VMSA,
};
use crate::vmsa_list::{VmsaInfo, VmsaList};

verus! {

/// The virtual CPU to create: the guest physical address of its VMSA page, its APIC ID, and the
/// addresses that its VMSA page and its calling area are mapped to.
#[derive(Clone, Copy, Debug, PartialEq, Eq)]
pub struct CreateTarget {
    pub gpa: u64,
    pub apic_id: u32,
    pub va: u64,
    pub ca: u64,
}

/// The call that creates a virtual CPU.
#[derive(Clone, Copy, Debug, PartialEq, Eq)]
pub enum CreateVcpu {
    /// The VMSA page is mapped.
    MappingVmsa { gpa: u64, ca_gpa: u64, apic_id: u32 },
    /// The calling area is mapped.
    MappingCa { gpa: u64, ca_gpa: u64, apic_id: u32, va: u64 },
    /// Access to the VMSA page is taken from the guest, so that it cannot tamper with the page
    /// while its fields are checked.
    Revoking { target: CreateTarget, access: Access },
    /// The revocation is ordered before the checks.
    Fencing { target: CreateTarget },
    /// The privilege level in the VMSA page is checked: only VMPL1 is supported.
    ReadingVmpl { target: CreateTarget },
    /// EFER in the VMSA page is checked: its SVME bit must be set.
    ReadingEfer { target: CreateTarget },
    /// The guest may at most read the VMSA page from now on, so that it cannot alter the
    /// privilege level in it.
    Restricting { target: CreateTarget, access: Access },
    /// The page is turned into a VMSA page.
    Marking { target: CreateTarget },
    /// The page is registered, and the CPU with the APIC ID is looked up.
    FindingCpu { target: CreateTarget },
    /// The CPU is given the VMSA page.
    SettingVmsa { target: CreateTarget, cpu: usize },
    /// The CPU is given the calling area.
    SettingCa { target: CreateTarget, cpu: usize },
    /// All translations are flushed, since it is not known where the guest has mapped the page.
    Flushing,
    /// The page is turned back into one that is no VMSA page.
    Undoing { access: Access },
    /// All translations are flushed after an error.
    UndoneFlushing,
    /// The caller is answered with `rax`.
    Finished { rax: u64 },
}

/// Where the call with the arguments `rcx`, `rdx` and `r8` starts.
pub open spec fn create_start(rcx: u64, rdx: u64, r8: u64) -> CreateVcpu {
    if rcx % PAGE_SIZE == 0 && rdx % PAGE_SIZE == 0 {
        CreateVcpu::MappingVmsa { gpa: rcx, ca_gpa: rdx, apic_id: lower_half(r8) as u32 }
    } else {
        CreateVcpu::Finished { rax: SVSM_ERR_INVALID_PARAMETER }
    }
}

/// Starts to create the virtual CPU with the APIC ID in the lower half of `r8`, with its VMSA page
/// at `rcx` and its calling area at `rdx`.
pub fn handle_create_vcpu_request(rcx: u64, rdx: u64, r8: u64) -> (call: CreateVcpu)
    requires
        is_physical(rcx as int),
        is_physical(rdx as int),
    ensures
        call.inv(),
        call == create_start(rcx, rdx, r8),
{
    proof {
        lemma_alignments();
    }
    if !phys_is_aligned(rcx, PAGE_SIZE) || !phys_is_aligned(rdx, PAGE_SIZE) {
        return CreateVcpu::Finished { rax: SVSM_ERR_INVALID_PARAMETER };
    }
    CreateVcpu::MappingVmsa { gpa: rcx, ca_gpa: rdx, apic_id: lower_32bits(r8) }
}

/// The way back from an error, once the VMSA page is mapped at `va`.
pub open spec fn undo_state(va: u64) -> CreateVcpu {
    CreateVcpu::Undoing {
        access: Access::Adjusting {
            va,
            page_size: RMP_4K,
            attributes: VMPL_RWX,
            level: VMPL1,
            end: 2,
        },
    }
}

/// Starts on the way back from an error.
fn undo(va: u64) -> (call: CreateVcpu)
    ensures
        call.inv(),
        call == undo_state(va),
{
    CreateVcpu::Undoing { access: grant_vmpl_access(va, RMP_4K, VMPL1) }
}

impl CreateVcpu {
    /// What the caller's RAX is set to at this point of the call.
    pub open spec fn rax_so_far(self) -> u64 {
        match self {
            CreateVcpu::Finished { rax } => rax,
            _ => SVSM_ERR_INVALID_PARAMETER,
        }
    }

    /// What the caller's RAX is set to at this point of the call.
    pub fn rax(&self) -> (rax: u64)
        ensures
            rax == self.rax_so_far(),
    {
        match *self {
            CreateVcpu::Finished { rax } => rax,
            _ => SVSM_ERR_INVALID_PARAMETER,
        }
    }
}

impl Machine for CreateVcpu {
    open spec fn inv(self) -> bool {
        match self {
            CreateVcpu::Revoking { access, .. }
            | CreateVcpu::Restricting { access, .. }
            | CreateVcpu::Undoing { access } => access.inv() && access is Adjusting,
            _ => true,
        }
    }

    open spec fn pending(self) -> Option<Action> {
        match self {
            CreateVcpu::MappingVmsa { gpa, .. } => Some(
                Action::MapPrivate { gpa, len: PAGE_SIZE },
            ),
            CreateVcpu::MappingCa { ca_gpa, .. } => Some(
                Action::MapPrivate { gpa: ca_gpa, len: PAGE_SIZE },
            ),
            CreateVcpu::Revoking { access, .. }
            | CreateVcpu::Restricting { access, .. }
            | CreateVcpu::Undoing { access } => access.pending(),
            CreateVcpu::Fencing { .. } => Some(Action::Barrier),
            CreateVcpu::ReadingVmpl { target } => Some(Action::ReadVmpl { vmsa: target.va }),
            CreateVcpu::ReadingEfer { target } => Some(Action::ReadEfer { vmsa: target.va }),
            CreateVcpu::Marking { target } => Some(
                Action::AdjustPage {
                    va: target.va,
                    page_size: RMP_4K,
                    attributes: VMPL_VMSA | VMPL1 as u64,
                },
            ),
            CreateVcpu::FindingCpu { target } => Some(Action::FindCpu { apic_id: target.apic_id }),
            CreateVcpu::SettingVmsa { target, cpu } => Some(
                Action::SetVmsaFor { va: target.va, vmpl: VMPL1, cpu },
            ),
            CreateVcpu::SettingCa { target, cpu } => Some(
                Action::SetCallingAreaFor { va: target.ca, vmpl: VMPL1, cpu },
            ),
            CreateVcpu::Flushing | CreateVcpu::UndoneFlushing => Some(Action::FlushAll),
            CreateVcpu::Finished { .. } => None,
        }
    }

    open spec fn defined(self, reply: Reply) -> bool {
        true
    }

    open spec fn next(self, reply: Reply, list: Seq<VmsaInfo>) -> CreateVcpu {
        match self {
            CreateVcpu::MappingVmsa { gpa, ca_gpa, apic_id } => match reply {
                Reply::Mapped(Some(va)) => CreateVcpu::MappingCa { gpa, ca_gpa, apic_id, va },
                _ => CreateVcpu::Finished { rax: SVSM_ERR_INVALID_PARAMETER },
            },
            CreateVcpu::MappingCa { gpa, apic_id, va, .. } => match reply {
                Reply::Mapped(Some(ca)) => CreateVcpu::Revoking {
                    target: CreateTarget { gpa, apic_id, va, ca },
                    access: Access::Adjusting {
                        va,
                        page_size: RMP_4K,
                        attributes: 0,
                        level: VMPL1,
                        end: VMPL_MAX,
                    },
                },
                _ => CreateVcpu::Finished { rax: SVSM_ERR_INVALID_PARAMETER },
            },
            CreateVcpu::Revoking { target, access } => match access.next(reply, list) {
                Access::Finished { status } => if status == 0 {
                    CreateVcpu::Fencing { target }
                } else {
                    undo_state(target.va)
                },
                access => CreateVcpu::Revoking { target, access },
            },
            CreateVcpu::Fencing { target } => CreateVcpu::ReadingVmpl { target },
            CreateVcpu::ReadingVmpl { target } => if reply == Reply::Byte(1) {
                CreateVcpu::ReadingEfer { target }
            } else {
                undo_state(target.va)
            },
            CreateVcpu::ReadingEfer { target } => if reply->Word_0 & EFER_SVME != 0 {
                CreateVcpu::Restricting {
                    target,
                    access: Access::Adjusting {
                        va: target.va,
                        page_size: RMP_4K,
                        attributes: VMPL_R,
                        level: VMPL1,
                        end: 2,
                    },
                }
            } else {
                undo_state(target.va)
            },
            CreateVcpu::Restricting { target, access } => match access.next(reply, list) {
                Access::Finished { status } => if status == 0 {
                    CreateVcpu::Marking { target }
                } else {
                    undo_state(target.va)
                },
                access => CreateVcpu::Restricting { target, access },
            },
            CreateVcpu::Marking { target } => if reply == Reply::Status(0) {
                CreateVcpu::FindingCpu { target }
            } else {
                undo_state(target.va)
            },
            CreateVcpu::FindingCpu { target } => match reply {
                Reply::Cpu(Some(cpu)) => CreateVcpu::SettingVmsa { target, cpu },
                _ => undo_state(target.va),
            },
            CreateVcpu::SettingVmsa { target, cpu } => CreateVcpu::SettingCa { target, cpu },
            CreateVcpu::SettingCa { .. } => CreateVcpu::Flushing,
            CreateVcpu::Flushing => CreateVcpu::Finished { rax: SVSM_SUCCESS },
            CreateVcpu::Undoing { access } => match access.next(reply, list) {
                Access::Finished { .. } => CreateVcpu::UndoneFlushing,
                access => CreateVcpu::Undoing { access },
            },
            CreateVcpu::UndoneFlushing => CreateVcpu::Finished {
                rax: SVSM_ERR_INVALID_PARAMETER,
            },
            CreateVcpu::Finished { .. } => self,
        }
    }

    open spec fn next_list(self, reply: Reply, list: Seq<VmsaInfo>) -> Seq<VmsaInfo> {
        match self {
            CreateVcpu::Marking { target } if reply == Reply::Status(0) => list.push(
                VmsaInfo { gpa: target.gpa, apic_id: target.apic_id },
            ),
            _ => list,
        }
    }

    fn action(&self) -> (action: Option<Action>) {
        match *self {
            CreateVcpu::MappingVmsa { gpa, .. } => Some(
                Action::MapPrivate { gpa, len: PAGE_SIZE },
            ),
            CreateVcpu::MappingCa { ca_gpa, .. } => Some(
                Action::MapPrivate { gpa: ca_gpa, len: PAGE_SIZE },
            ),
            CreateVcpu::Revoking { access, .. }
            | CreateVcpu::Restricting { access, .. }
            | CreateVcpu::Undoing { access } => access.action(),
            CreateVcpu::Fencing { .. } => Some(Action::Barrier),
            CreateVcpu::ReadingVmpl { target } => Some(Action::ReadVmpl { vmsa: target.va }),
            CreateVcpu::ReadingEfer { target } => Some(Action::ReadEfer { vmsa: target.va }),
            CreateVcpu::Marking { target } => Some(
                Action::AdjustPage {
                    va: target.va,
                    page_size: RMP_4K,
                    attributes: VMPL_VMSA | VMPL1 as u64,
                },
            ),
            CreateVcpu::FindingCpu { target } => Some(Action::FindCpu { apic_id: target.apic_id }),
            CreateVcpu::SettingVmsa { target, cpu } => Some(
                Action::SetVmsaFor { va: target.va, vmpl: VMPL1, cpu },
            ),
            CreateVcpu::SettingCa { target, cpu } => Some(
                Action::SetCallingAreaFor { va: target.ca, vmpl: VMPL1, cpu },
            ),
            CreateVcpu::Flushing | CreateVcpu::UndoneFlushing => Some(Action::FlushAll),
            CreateVcpu::Finished { .. } => None,
        }
    }

    fn is_defined(&self, reply: &Reply) -> (is_defined: bool) {
        true
    }

    fn resume(self, reply: Reply, list: &mut VmsaList) -> (after: CreateVcpu) {
        match (self, reply) {
            (CreateVcpu::MappingVmsa { gpa, ca_gpa, apic_id }, Reply::Mapped(Some(va))) => {
                CreateVcpu::MappingCa { gpa, ca_gpa, apic_id, va }
            },
            (CreateVcpu::MappingCa { gpa, apic_id, va, .. }, Reply::Mapped(Some(ca))) => {
                let access: Access = revoke_vmpl_access(va, RMP_4K);
                CreateVcpu::Revoking { target: CreateTarget { gpa, apic_id, va, ca }, access }
            },
            (CreateVcpu::Revoking { target, access }, _) => {
                match access.resume(reply, list) {
                    Access::Finished { status } => {
                        if status != 0 {
                            return undo(target.va);
                        }
                        CreateVcpu::Fencing { target }
                    },
                    access => CreateVcpu::Revoking { target, access },
                }
            },
            (CreateVcpu::Fencing { target }, _) => CreateVcpu::ReadingVmpl { target },
            (CreateVcpu::ReadingVmpl { target }, Reply::Byte(vmpl)) => {
                if vmpl != 1 {
                    return undo(target.va);
                }
                CreateVcpu::ReadingEfer { target }
            },
            (CreateVcpu::ReadingEfer { target }, Reply::Word(efer)) => {
                if efer & EFER_SVME == 0 {
                    return undo(target.va);
                }
                let access: Access = restrict_vmpl_access(target.va, RMP_4K, VMPL1);
                CreateVcpu::Restricting { target, access }
            },
            (CreateVcpu::Restricting { target, access }, _) => {
                match access.resume(reply, list) {
                    Access::Finished { status } => {
                        if status != 0 {
                            return undo(target.va);
                        }
                        CreateVcpu::Marking { target }
                    },
                    access => CreateVcpu::Restricting { target, access },
                }
            },
            (CreateVcpu::Marking { target }, Reply::Status(status)) => {
                if status != 0 {
                    return undo(target.va);
                }
                if !list.add_vmsa(target.gpa, target.apic_id) {
                    return undo(target.va);
                }
                CreateVcpu::FindingCpu { target }
            },
            (CreateVcpu::FindingCpu { target }, Reply::Cpu(found)) => {
                match found {
                    Some(cpu) => CreateVcpu::SettingVmsa { target, cpu },
                    None => undo(target.va),
                }
            },
            (CreateVcpu::SettingVmsa { target, cpu }, _) => CreateVcpu::SettingCa { target, cpu },
            (CreateVcpu::SettingCa { .. }, _) => CreateVcpu::Flushing,
            (CreateVcpu::Flushing, _) => CreateVcpu::Finished { rax: SVSM_SUCCESS },
            (CreateVcpu::Undoing { access }, _) => {
                match access.resume(reply, list) {
                    Access::Finished { .. } => CreateVcpu::UndoneFlushing,
                    access => CreateVcpu::Undoing { access },
                }
            },
            _ => CreateVcpu::Finished { rax: SVSM_ERR_INVALID_PARAMETER },
        }
    }
}

/// The action of the exchange at `i` of a call to create a virtual CPU that meets no error. It
/// uses what earlier exchanges of `log` brought.
pub open spec fn create_script(
    log: Seq<Exchange>,
    gpa: u64,
    ca_gpa: u64,
    apic_id: u32,
    i: int,
) -> Action {
    let va = log[0].reply->Mapped_0->0;
    let ca = log[1].reply->Mapped_0->0;
    let cpu = log[10].reply->Cpu_0->0;
    let page_size = RMP_4K;
    if i == 0 {
        Action::MapPrivate { gpa, len: PAGE_SIZE }
    } else if i == 1 {
        Action::MapPrivate { gpa: ca_gpa, len: PAGE_SIZE }
    } else if i == 2 {
        Action::AdjustPage { va, page_size, attributes: 1 }
    } else if i == 3 {
        Action::AdjustPage { va, page_size, attributes: 2 }
    } else if i == 4 {
        Action::AdjustPage { va, page_size, attributes: 3 }
    } else if i == 5 {
        Action::Barrier
    } else if i == 6 {
        Action::ReadVmpl { vmsa: va }
    } else if i == 7 {
        Action::ReadEfer { vmsa: va }
    } else if i == 8 {
        Action::AdjustPage { va, page_size, attributes: VMPL_R | 1 }
    } else if i == 9 {
        Action::AdjustPage { va, page_size, attributes: VMPL_VMSA | 1 }
    } else if i == 10 {
        Action::FindCpu { apic_id }
    } else if i == 11 {
        Action::SetVmsaFor { va, vmpl: VMPL1, cpu }
    } else if i == 12 {
        Action::SetCallingAreaFor { va: ca, vmpl: VMPL1, cpu }
    } else {
        Action::FlushAll
    }
}

/// The exchange at `i` of the script brought no error.
pub open spec fn create_ok(log: Seq<Exchange>, i: int) -> bool {
    if i == 0 || i == 1 {
        log[i].reply->Mapped_0 is Some
    } else if i == 2 || i == 3 || i == 4 || i == 8 || i == 9 {
        log[i].reply == Reply::Status(0)
    } else if i == 6 {
        log[i].reply == Reply::Byte(1)
    } else if i == 7 {
        log[i].reply->Word_0 & EFER_SVME != 0
    } else if i == 10 {
        log[i].reply->Cpu_0 is Some
    } else {
        true
    }
}

/// The first `count` exchanges of the script brought no error.
pub open spec fn create_ok_until(log: Seq<Exchange>, count: int) -> bool {
    forall|i: int| 0 <= i < count ==> #[trigger] create_ok(log, i)
}

/// The action of the exchange at `i` of a call to create a virtual CPU: the script up to the first
/// error, then giving the guest its page back, then a flush of all translations.
pub open spec fn create_action(
    log: Seq<Exchange>,
    gpa: u64,
    ca_gpa: u64,
    apic_id: u32,
    i: int,
) -> Action {
    if create_ok_until(log, i) {
        create_script(log, gpa, ca_gpa, apic_id, i)
    } else if create_ok_until(log, i - 1) {
        Action::AdjustPage {
            va: log[0].reply->Mapped_0->0,
            page_size: RMP_4K,
            attributes: VMPL_RWX | 1,
        }
    } else {
        Action::FlushAll
    }
}

/// The call goes on after the exchange at `i`: until the end of the script, after an error only
/// once both mappings exist, and then until the flush.
pub open spec fn create_goes_on(log: Seq<Exchange>, i: int) -> bool {
    if create_ok_until(log, i + 1) {
        i < 13
    } else if create_ok_until(log, i) {
        i >= 2
    } else {
        create_ok_until(log, i - 1)
    }
}

/// The answer to a call that ended with the last exchange of `log`.
pub open spec fn create_verdict(log: Seq<Exchange>) -> u64 {
    if create_ok_until(log, log.len() as int) {
        SVSM_SUCCESS
    } else {
        SVSM_ERR_INVALID_PARAMETER
    }
}

/// The state that the exchanges of `log` lead to.
spec fn create_state(log: Seq<Exchange>, gpa: u64, ca_gpa: u64, apic_id: u32) -> CreateVcpu {
    let n = log.len() as int;
    let va = log[0].reply->Mapped_0->0;
    let ca = log[1].reply->Mapped_0->0;
    let cpu = log[10].reply->Cpu_0->0;
    let target = CreateTarget { gpa, apic_id, va, ca };
    if n > 0 && !create_goes_on(log, n - 1) {
        CreateVcpu::Finished { rax: create_verdict(log) }
    } else if !create_ok_until(log, n) {
        if create_ok_until(log, n - 1) {
            undo_state(va)
        } else {
            CreateVcpu::UndoneFlushing
        }
    } else if n == 0 {
        CreateVcpu::MappingVmsa { gpa, ca_gpa, apic_id }
    } else if n == 1 {
        CreateVcpu::MappingCa { gpa, ca_gpa, apic_id, va }
    } else if n <= 4 {
        CreateVcpu::Revoking {
            target,
            access: Access::Adjusting {
                va,
                page_size: RMP_4K,
                attributes: 0,
                level: (n - 1) as u8,
                end: VMPL_MAX,
            },
        }
    } else if n == 5 {
        CreateVcpu::Fencing { target }
    } else if n == 6 {
        CreateVcpu::ReadingVmpl { target }
    } else if n == 7 {
        CreateVcpu::ReadingEfer { target }
    } else if n == 8 {
        CreateVcpu::Restricting {
            target,
            access: Access::Adjusting {
                va,
                page_size: RMP_4K,
                attributes: VMPL_R,
                level: VMPL1,
                end: 2,
            },
        }
    } else if n == 9 {
        CreateVcpu::Marking { target }
    } else if n == 10 {
        CreateVcpu::FindingCpu { target }
    } else if n == 11 {
        CreateVcpu::SettingVmsa { target, cpu }
    } else if n == 12 {
        CreateVcpu::SettingCa { target, cpu }
    } else {
        CreateVcpu::Flushing
    }
}

/// A call to create a virtual CPU follows the script up to the first error. An error that comes
/// before both mappings exist ends the call at once; any other is followed by giving the guest
/// its page back and by a flush. The call takes at most fourteen exchanges, and is answered with
/// a success exactly when there was no error. The list of VMSA pages changes only when the page
/// has become a VMSA page: then it is registered, and stays so even if no CPU is found afterwards.
pub proof fn law_create_follows_script(
    gpa: u64,
    ca_gpa: u64,
    apic_id: u32,
    log: Seq<Exchange>,
)
    requires
        is_run((CreateVcpu::MappingVmsa { gpa, ca_gpa, apic_id }), log),
    ensures
        log.len() <= 14,
        forall|i: int|
            0 <= i < log.len() ==> (#[trigger] log[i]).action == create_action(
                log,
                gpa,
                ca_gpa,
                apic_id,
                i,
            ),
        forall|i: int| 0 <= i < log.len() - 1 ==> #[trigger] create_goes_on(log, i),
        ({
            let reached = after((CreateVcpu::MappingVmsa { gpa, ca_gpa, apic_id }), log);
            &&& reached is Finished <==> log.len() > 0 && !create_goes_on(log, log.len() - 1)
            &&& reached is Finished ==> reached == (CreateVcpu::Finished {
                rax: create_verdict(log),
            })
        }),
        log.len() > 0 ==> ({
            let last = after((CreateVcpu::MappingVmsa { gpa, ca_gpa, apic_id }), log.drop_last());
            last.next_list(log.last().reply, log.last().list) == if log.len() == 10
                && create_ok_until(log, 10) {
                log.last().list.push(VmsaInfo { gpa, apic_id })
            } else {
                log.last().list
            }
        }),
{
    lemma_create_state(gpa, ca_gpa, apic_id, log);
    if log.len() > 0 {
        lemma_create_state(gpa, ca_gpa, apic_id, log.drop_last());
        lemma_ok_of_prefix(log);
        assert(create_ok_until(log, log.len() - 1) == create_ok_until(
            log.drop_last(),
            log.len() - 1,
        ));
    }
}

/// The fields of a new VMSA page are looked at only after every level below VMPL0 has lost its
/// access to the page, in that order.
pub proof fn law_checked_after_revocation(
    gpa: u64,
    ca_gpa: u64,
    apic_id: u32,
    log: Seq<Exchange>,
    i: int,
)
    requires
        is_run((CreateVcpu::MappingVmsa { gpa, ca_gpa, apic_id }), log),
        0 <= i < log.len(),
        log[i].action is ReadVmpl || log[i].action is ReadEfer,
    ensures
        i >= 6,
        ({
            let va = log[0].reply->Mapped_0->0;
            &&& log[i].action == (Action::ReadVmpl { vmsa: va }) || log[i].action == (
            Action::ReadEfer { vmsa: va })
            &&& forall|level: int|
                1 <= level < VMPL_MAX ==> (#[trigger] log[level + 1]).action == (
                Action::AdjustPage { va, page_size: RMP_4K, attributes: level as u64 })
                    && log[level + 1].reply == Reply::Status(0)
            &&& log[5].action == Action::Barrier
        }),
{
    law_create_follows_script(gpa, ca_gpa, apic_id, log);
    assert(log[i].action == create_action(log, gpa, ca_gpa, apic_id, i));
    assert(create_ok_until(log, i));
    assert forall|level: int| 1 <= level < VMPL_MAX implies (#[trigger] log[level + 1]).action == (
    Action::AdjustPage {
        va: log[0].reply->Mapped_0->0,
        page_size: RMP_4K,
        attributes: level as u64,
    }) && log[level + 1].reply == Reply::Status(0) by {
        assert(create_ok_until(log, level + 1));
        assert(create_ok(log, level + 1));
        assert(log[level + 1].action == create_action(log, gpa, ca_gpa, apic_id, level + 1));
    }
    assert(create_ok_until(log, 5));
    assert(log[5].action == create_action(log, gpa, ca_gpa, apic_id, 5));
}

/// A call that fails once both mappings exist ends with giving the guest its page back and
/// flushing all translations.
pub proof fn law_failure_gives_page_back(
    gpa: u64,
    ca_gpa: u64,
    apic_id: u32,
    log: Seq<Exchange>,
)
    requires
        is_run((CreateVcpu::MappingVmsa { gpa, ca_gpa, apic_id }), log),
        after((CreateVcpu::MappingVmsa { gpa, ca_gpa, apic_id }), log) == (CreateVcpu::Finished {
            rax: SVSM_ERR_INVALID_PARAMETER,
        }),
        log.len() > 2,
    ensures
        log[log.len() - 2].action == (Action::AdjustPage {
            va: log[0].reply->Mapped_0->0,
            page_size: RMP_4K,
            attributes: VMPL_RWX | 1,
        }),
        log.last().action == Action::FlushAll,
{
    law_create_follows_script(gpa, ca_gpa, apic_id, log);
    let n = log.len() as int;
    assert(create_goes_on(log, n - 2));
    assert(log[n - 2].action == create_action(log, gpa, ca_gpa, apic_id, n - 2));
    assert(log[n - 1].action == create_action(log, gpa, ca_gpa, apic_id, n - 1));
}

/// A virtual CPU is created only if its VMSA page is for VMPL1 and has the SVME bit of EFER set,
/// after the guest was left with no more than the right to read the page and the page has become
/// a VMSA page. Its page and its calling area are then those of the CPU with its APIC ID, and all
/// translations are flushed last.
pub proof fn law_created_was_checked(gpa: u64, ca_gpa: u64, apic_id: u32, log: Seq<Exchange>)
    requires
        is_run((CreateVcpu::MappingVmsa { gpa, ca_gpa, apic_id }), log),
        after((CreateVcpu::MappingVmsa { gpa, ca_gpa, apic_id }), log) == (CreateVcpu::Finished {
            rax: SVSM_SUCCESS,
        }),
    ensures
        log.len() == 14,
        forall|i: int| 0 <= i < 14 ==> #[trigger] create_ok(log, i),
        forall|i: int|
            0 <= i < 14 ==> (#[trigger] log[i]).action == create_script(
                log,
                gpa,
                ca_gpa,
                apic_id,
                i,
            ),
        log[6].reply == Reply::Byte(1),
        log[7].reply->Word_0 & EFER_SVME != 0,
{
    law_create_follows_script(gpa, ca_gpa, apic_id, log);
    assert(create_ok_until(log, log.len() as int));
    assert(create_ok(log, 6) && create_ok(log, 7));
    assert forall|i: int| 0 <= i < 14 implies (#[trigger] log[i]).action == create_script(
        log,
        gpa,
        ca_gpa,
        apic_id,
        i,
    ) by {
        assert(create_ok_until(log, i));
    }
}

/// Whether there was an error so far does not depend on later exchanges.
proof fn lemma_ok_of_prefix(log: Seq<Exchange>)
    requires
        log.len() > 0,
    ensures
        forall|i: int|
            0 <= i < log.len() - 1 ==> create_ok(log.drop_last(), i) == #[trigger] create_ok(
                log,
                i,
            ),
        forall|count: int|
            count < log.len() ==> create_ok_until(log.drop_last(), count)
                == #[trigger] create_ok_until(log, count),
        create_ok_until(log, log.len() as int) == (create_ok_until(log, log.len() - 1)
            && create_ok(log, log.len() - 1)),
{
    let shorter = log.drop_last();
    assert forall|i: int| 0 <= i < log.len() - 1 implies create_ok(shorter, i)
        == #[trigger] create_ok(log, i) by {
        assert(shorter[i] == log[i]);
    }
    assert forall|count: int| count < log.len() implies create_ok_until(shorter, count)
        == #[trigger] create_ok_until(log, count) by {
        if create_ok_until(shorter, count) {
            assert forall|i: int| 0 <= i < count implies #[trigger] create_ok(log, i) by {
                assert(create_ok(shorter, i));
            }
        }
        if create_ok_until(log, count) {
            assert forall|i: int| 0 <= i < count implies #[trigger] create_ok(shorter, i) by {
                assert(create_ok(log, i));
            }
        }
    }
    let last = log.len() - 1;
    if create_ok_until(log, last) && create_ok(log, last) {
        assert forall|i: int| 0 <= i < log.len() implies #[trigger] create_ok(log, i) by {}
    }
    if create_ok_until(log, log.len() as int) {
        assert(create_ok(log, last));
    }
}

proof fn lemma_create_state(gpa: u64, ca_gpa: u64, apic_id: u32, log: Seq<Exchange>)
    requires
        is_run((CreateVcpu::MappingVmsa { gpa, ca_gpa, apic_id }), log),
    ensures
        log.len() <= 14,
        forall|i: int|
            0 <= i < log.len() ==> (#[trigger] log[i]).action == create_action(
                log,
                gpa,
                ca_gpa,
                apic_id,
                i,
            ),
        forall|i: int| 0 <= i < log.len() - 1 ==> #[trigger] create_goes_on(log, i),
        after((CreateVcpu::MappingVmsa { gpa, ca_gpa, apic_id }), log) == create_state(
            log,
            gpa,
            ca_gpa,
            apic_id,
        ),
    decreases log.len(),
{
    lemma_revocation_is_level();
    if log.len() > 0 {
        let shorter = log.drop_last();
        let last = log.len() - 1;
        lemma_create_state(gpa, ca_gpa, apic_id, shorter);
        lemma_ok_of_prefix(log);
        if shorter.len() > 0 {
            lemma_ok_of_prefix(shorter);
        }
        assert(create_ok_until(log, 0));
        assert forall|i: int| 0 <= i < last implies log[i] == #[trigger] shorter[i] by {}
        assert forall|i: int| 0 <= i < last implies #[trigger] create_goes_on(log, i) by {
            assert(create_goes_on(shorter, i));
            assert(create_ok_until(log, i + 1) == create_ok_until(shorter, i + 1));
            assert(create_ok_until(log, i) == create_ok_until(shorter, i));
            assert(create_ok_until(log, i - 1) == create_ok_until(shorter, i - 1));
        }
        if last > 0 {
            assert(log[0] == shorter[0]);
        }
        if last > 1 {
            assert(log[1] == shorter[1]);
        }
        if last > 10 {
            assert(log[10] == shorter[10]);
        }
        assert forall|i: int| 0 <= i < log.len() implies (#[trigger] log[i]).action
            == create_action(log, gpa, ca_gpa, apic_id, i) by {
            assert(create_ok_until(log, i) == create_ok_until(shorter, i));
            assert(create_ok_until(log, i - 1) == create_ok_until(shorter, i - 1));
            if i < last {
                assert(log[i] == shorter[i]);
            } else if last > 0 {
                assert(create_goes_on(shorter, last - 1));
            }
        }
        assert(create_ok_until(log, last) == create_ok_until(shorter, last));
        assert(create_ok_until(log, last - 1) == create_ok_until(shorter, last - 1));
        assert(create_ok_until(log, last - 2) == create_ok_until(shorter, last - 2));
    }
}

/// Which arguments a creation is started with: both addresses must be aligned to a small page. The
/// first is that of the VMSA page, the second that of the calling area, and the lower 32 bits of
/// the third are the APIC ID.
pub proof fn law_creation_needs_aligned_pages(rcx: u64, rdx: u64, r8: u64)
    ensures
        rcx % 0x1000 == 0 && rdx % 0x1000 == 0 ==> create_start(rcx, rdx, r8) == (
        CreateVcpu::MappingVmsa {
            gpa: rcx,
            ca_gpa: rdx,
            apic_id: (r8 % 0x1_0000_0000) as u32,
        }),
        rcx % 0x1000 != 0 || rdx % 0x1000 != 0 ==> create_start(rcx, rdx, r8) == (
        CreateVcpu::Finished { rax: 0x8000_0005 }),
{
}

/// What is done to create a virtual CPU as long as nothing fails, and what each step needs of the
/// ones before it: both mappings, access taken from the three lower levels, VMPL1 and bit 12 of
/// EFER in the page, access reduced to reading, the page turned into a VMSA page, and a CPU with
/// the APIC ID. The other bits of EFER do not matter.
pub proof fn law_creation_step_by_step(gpa: u64, ca_gpa: u64, apic_id: u32, log: Seq<Exchange>)
    requires
        is_run((CreateVcpu::MappingVmsa { gpa, ca_gpa, apic_id }), log),
    ensures
        ({
            let va = log[0].reply->Mapped_0->0;
            let ca = log[1].reply->Mapped_0->0;
            let cpu = log[10].reply->Cpu_0->0;
            let mapped = log[0].reply == Reply::Mapped(Some(va)) && log[1].reply == Reply::Mapped(
                Some(ca),
            );
            let done_2 = mapped && log[2].reply == Reply::Status(0);
            let done_3 = done_2 && log[3].reply == Reply::Status(0);
            let done_4 = done_3 && log[4].reply == Reply::Status(0);
            let done_6 = done_4 && log[6].reply == Reply::Byte(1);
            let done_7 = done_6 && log[7].reply->Word_0 as int / 0x1000 % 2 == 1;
            let done_8 = done_7 && log[8].reply == Reply::Status(0);
            let done_9 = done_8 && log[9].reply == Reply::Status(0);
            let done_10 = done_9 && log[10].reply == Reply::Cpu(Some(cpu));
            &&& log.len() > 0 ==> log[0].action == (Action::MapPrivate { gpa, len: 0x1000 })
            &&& log.len() > 1 ==> log[0].reply == Reply::Mapped(Some(va)) && log[1].action == (
            Action::MapPrivate { gpa: ca_gpa, len: 0x1000 })
            &&& log.len() > 2 ==> mapped && log[2].action == (Action::AdjustPage {
                va,
                page_size: 0,
                attributes: 1,
            })
            &&& log.len() > 3 && done_2 ==> log[3].action == (Action::AdjustPage {
                va,
                page_size: 0,
                attributes: 2,
            })
            &&& log.len() > 4 && done_3 ==> log[4].action == (Action::AdjustPage {
                va,
                page_size: 0,
                attributes: 3,
            })
            &&& log.len() > 5 && done_4 ==> log[5].action == Action::Barrier
            &&& log.len() > 6 && done_4 ==> log[6].action == (Action::ReadVmpl { vmsa: va })
            &&& log.len() > 7 && done_6 ==> log[7].action == (Action::ReadEfer { vmsa: va })
            &&& log.len() > 8 && done_7 ==> log[8].action == (Action::AdjustPage {
                va,
                page_size: 0,
                attributes: 0x101,
            })
            &&& log.len() > 9 && done_8 ==> log[9].action == (Action::AdjustPage {
                va,
                page_size: 0,
                attributes: 0x1_0001,
            })
            &&& log.len() > 10 && done_9 ==> log[10].action == (Action::FindCpu { apic_id })
            &&& log.len() > 11 && done_10 ==> log[11].action == (Action::SetVmsaFor {
                va,
                vmpl: 1,
                cpu,
            })
            &&& log.len() > 12 && done_10 ==> log[12].action == (Action::SetCallingAreaFor {
                va: ca,
                vmpl: 1,
                cpu,
            })
            &&& log.len() > 13 && done_10 ==> log[13].action == Action::FlushAll
            &&& log.len() <= 14
        }),
{
    lemma_create_facts(gpa, ca_gpa, apic_id, log);
}

/// What follows a step that fails, once both mappings exist: VMPL1 gets all access to the page
/// back, whatever comes of that all translations are flushed, and nothing is done after that.
pub proof fn law_creation_errors_are_undone(
    gpa: u64,
    ca_gpa: u64,
    apic_id: u32,
    log: Seq<Exchange>,
)
    requires
        is_run((CreateVcpu::MappingVmsa { gpa, ca_gpa, apic_id }), log),
    ensures
        ({
            let va = log[0].reply->Mapped_0->0;
            let ca = log[1].reply->Mapped_0->0;
            let cpu = log[10].reply->Cpu_0->0;
            let mapped = log[0].reply == Reply::Mapped(Some(va)) && log[1].reply == Reply::Mapped(
                Some(ca),
            );
            let done_2 = mapped && log[2].reply == Reply::Status(0);
            let done_3 = done_2 && log[3].reply == Reply::Status(0);
            let done_4 = done_3 && log[4].reply == Reply::Status(0);
            let done_6 = done_4 && log[6].reply == Reply::Byte(1);
            let done_7 = done_6 && log[7].reply->Word_0 as int / 0x1000 % 2 == 1;
            let done_8 = done_7 && log[8].reply == Reply::Status(0);
            let done_9 = done_8 && log[9].reply == Reply::Status(0);
            let undone_after = |k: int|
                {
                    &&& log.len() > k + 1 ==> log[k + 1].action == (Action::AdjustPage {
                        va,
                        page_size: 0,
                        attributes: 0xf01,
                    })
                    &&& log.len() > k + 2 ==> log[k + 2].action == Action::FlushAll
                    &&& log.len() <= k + 3
                };
            &&& log.len() > 2 && mapped && log[2].reply != Reply::Status(0) ==> undone_after(2)
            &&& log.len() > 3 && done_2 && log[3].reply != Reply::Status(0) ==> undone_after(3)
            &&& log.len() > 4 && done_3 && log[4].reply != Reply::Status(0) ==> undone_after(4)
            &&& log.len() > 6 && done_4 && log[6].reply != Reply::Byte(1) ==> undone_after(6)
            &&& log.len() > 7 && done_6 && log[7].reply->Word_0 as int / 0x1000 % 2 == 0
                ==> undone_after(7)
            &&& log.len() > 8 && done_7 && log[8].reply != Reply::Status(0) ==> undone_after(8)
            &&& log.len() > 9 && done_8 && log[9].reply != Reply::Status(0) ==> undone_after(9)
            &&& log.len() > 10 && done_9 && log[10].reply == Reply::Cpu(None) ==> undone_after(10)
        }),
{
    lemma_create_facts(gpa, ca_gpa, apic_id, log);
}

/// When a creation ends, and how it is answered. It ends if a mapping fails, and otherwise with
/// the flush of all translations. The answer is a success if that was the fourteenth exchange,
/// and else that a parameter is invalid. The page is registered, under the APIC ID, when it has
/// become a VMSA page; nothing else changes the list.
pub proof fn law_creation_end_and_answer(gpa: u64, ca_gpa: u64, apic_id: u32, log: Seq<Exchange>)
    requires
        is_run((CreateVcpu::MappingVmsa { gpa, ca_gpa, apic_id }), log),
        log.len() > 0,
    ensures
        ({
            let va = log[0].reply->Mapped_0->0;
            let ca = log[1].reply->Mapped_0->0;
            let cpu = log[10].reply->Cpu_0->0;
            let mapped = log[0].reply == Reply::Mapped(Some(va)) && log[1].reply == Reply::Mapped(
                Some(ca),
            );
            let done_2 = mapped && log[2].reply == Reply::Status(0);
            let done_3 = done_2 && log[3].reply == Reply::Status(0);
            let done_4 = done_3 && log[4].reply == Reply::Status(0);
            let done_6 = done_4 && log[6].reply == Reply::Byte(1);
            let done_7 = done_6 && log[7].reply->Word_0 as int / 0x1000 % 2 == 1;
            let done_8 = done_7 && log[8].reply == Reply::Status(0);
            let done_9 = done_8 && log[9].reply == Reply::Status(0);
            let reached = after((CreateVcpu::MappingVmsa { gpa, ca_gpa, apic_id }), log);
            let before = after(
                (CreateVcpu::MappingVmsa { gpa, ca_gpa, apic_id }),
                log.drop_last(),
            );
            let ends = {
                ||| log.len() <= 2 && log.last().reply == Reply::Mapped(None)
                ||| log.last().action == Action::FlushAll
            };
            &&& reached.pending() is None <==> ends
            &&& ends ==> reached == (CreateVcpu::Finished {
                rax: if log.len() == 14 {
                    0
                } else {
                    0x8000_0005
                },
            })
            &&& before.next_list(log.last().reply, log.last().list) == if log.len() == 10
                && done_9 {
                log.last().list.push(VmsaInfo { gpa, apic_id })
            } else {
                log.last().list
            }
        }),
{
    lemma_create_facts(gpa, ca_gpa, apic_id, log);
    lemma_create_state(gpa, ca_gpa, apic_id, log);
    let n = log.len() as int;
    assert(log[n - 1].action == create_action(log, gpa, ca_gpa, apic_id, n - 1));
    if n > 1 {
        assert(create_goes_on(log, n - 2));
    }
    if n > 2 {
        assert(create_goes_on(log, n - 3));
    }
}

/// A creation can go on with any reply of the right kind, and until it ends the caller would find
/// an invalid parameter.
pub proof fn law_creation_takes_any_reply(call: CreateVcpu, reply: Reply)
    ensures
        call.defined(reply),
        !(call is Finished) ==> call.rax_so_far() == 0x8000_0005,
{
}

/// The script of a creation, exchange by exchange.
proof fn lemma_create_facts(gpa: u64, ca_gpa: u64, apic_id: u32, log: Seq<Exchange>)
    requires
        is_run((CreateVcpu::MappingVmsa { gpa, ca_gpa, apic_id }), log),
    ensures
        log.len() <= 14,
        forall|i: int|
            0 <= i < log.len() ==> (#[trigger] log[i]).action == create_action(
                log,
                gpa,
                ca_gpa,
                apic_id,
                i,
            ) && fits(log[i].action, log[i].reply),
        create_ok_until(log, 0),
        create_ok_until(log, 1) == (create_ok_until(log, 0) && create_ok(log, 0)),
        create_ok_until(log, 2) == (create_ok_until(log, 1) && create_ok(log, 1)),
        create_ok_until(log, 3) == (create_ok_until(log, 2) && create_ok(log, 2)),
        create_ok_until(log, 4) == (create_ok_until(log, 3) && create_ok(log, 3)),
        create_ok_until(log, 5) == (create_ok_until(log, 4) && create_ok(log, 4)),
        create_ok_until(log, 6) == (create_ok_until(log, 5) && create_ok(log, 5)),
        create_ok_until(log, 7) == (create_ok_until(log, 6) && create_ok(log, 6)),
        create_ok_until(log, 8) == (create_ok_until(log, 7) && create_ok(log, 7)),
        create_ok_until(log, 9) == (create_ok_until(log, 8) && create_ok(log, 8)),
        create_ok_until(log, 10) == (create_ok_until(log, 9) && create_ok(log, 9)),
        create_ok_until(log, 11) == (create_ok_until(log, 10) && create_ok(log, 10)),
        create_ok_until(log, 12) == (create_ok_until(log, 11) && create_ok(log, 11)),
        create_ok_until(log, 13) == (create_ok_until(log, 12) && create_ok(log, 12)),
        create_ok_until(log, 14) == (create_ok_until(log, 13) && create_ok(log, 13)),
        forall|i: int|
            #![trigger log[i]]
            0 <= i < log.len() - 1 ==> create_goes_on(log, i),
        log[7].reply->Word_0 & EFER_SVME != 0 <==> log[7].reply->Word_0 as int / 0x1000 % 2 == 1,
        VMPL_RWX | 1 == 0xf01,
        VMPL_R | 1 == 0x101,
        VMPL_VMSA | 1 == 0x1_0001,
{
    law_create_follows_script(gpa, ca_gpa, apic_id, log);
    law_svme_is_bit_12(log[7].reply->Word_0);
    assert(0xf00u64 | 1u64 == 0xf01u64) by (bit_vector);
    assert(0x100u64 | 1u64 == 0x101u64) by (bit_vector);
    assert(0x1_0000u64 | 1u64 == 0x1_0001u64) by (bit_vector);
    assert forall|i: int| 0 <= i < log.len() implies fits(
        (#[trigger] log[i]).action,
        log[i].reply,
    ) by {
        law_actions_were_pending((CreateVcpu::MappingVmsa { gpa, ca_gpa, apic_id }), log, i);
    }
    assert forall|k: int| 0 <= k <= 14 implies create_ok_until(log, k + 1) == (
    #[trigger] create_ok_until(log, k) && create_ok(log, k)) by {
        if create_ok_until(log, k + 1) {
            assert(create_ok(log, k));
        }
    }
}

/// A creation that is answered with a success took fourteen exchanges. The two addresses were
/// mapped, the page of the first holds VMPL1 and has bit 12 of EFER set, and the CPU that was found
/// for the APIC ID was given what the two addresses were mapped to.
pub proof fn law_created_with_its_arguments(
    gpa: u64,
    ca_gpa: u64,
    apic_id: u32,
    log: Seq<Exchange>,
)
    requires
        is_run((CreateVcpu::MappingVmsa { gpa, ca_gpa, apic_id }), log),
        after((CreateVcpu::MappingVmsa { gpa, ca_gpa, apic_id }), log) == (CreateVcpu::Finished {
            rax: 0,
        }),
    ensures
        ({
            let va = log[0].reply->Mapped_0->0;
            let ca = log[1].reply->Mapped_0->0;
            let cpu = log[10].reply->Cpu_0->0;
            &&& log.len() == 14
            &&& log[0].action == (Action::MapPrivate { gpa, len: 0x1000 })
            &&& log[0].reply == Reply::Mapped(Some(va))
            &&& log[1].action == (Action::MapPrivate { gpa: ca_gpa, len: 0x1000 })
            &&& log[1].reply == Reply::Mapped(Some(ca))
            &&& log[6].action == (Action::ReadVmpl { vmsa: va })
            &&& log[6].reply == Reply::Byte(1)
            &&& log[7].action == (Action::ReadEfer { vmsa: va })
            &&& log[7].reply->Word_0 as int / 0x1000 % 2 == 1
            &&& log[10].action == (Action::FindCpu { apic_id })
            &&& log[10].reply == Reply::Cpu(Some(cpu))
            &&& log[11].action == (Action::SetVmsaFor { va, vmpl: 1, cpu })
            &&& log[12].action == (Action::SetCallingAreaFor { va: ca, vmpl: 1, cpu })
            &&& log[13].action == Action::FlushAll
        }),
{
    law_created_was_checked(gpa, ca_gpa, apic_id, log);
    lemma_create_facts(gpa, ca_gpa, apic_id, log);
    assert(create_ok(log, 0) && create_ok(log, 1) && create_ok(log, 10));
}

} // verus!

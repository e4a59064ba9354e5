//! Deleting a virtual CPU.

use vstd::prelude::*;

use crate::addr::{is_physical, lemma_alignments, phys_is_aligned, PAGE_SIZE};
use crate::machine::{
    after, is_run, law_actions_were_pending, law_prefix_is_run, Exchange, Machine,
};
use crate::platform::{fits, Action, Reply};
use crate::protocol::{
    law_svme_is_bit_12, EFER_SVME, SVSM_ERR_INVALID_PARAMETER, SVSM_ERR_PROTOCOL_FAIL_INUSE,
    SVSM_SUCCESS, VMPL1,
};
use crate::vmpl_access::{grant_vmpl_access, Access, RMP_4K, VMPL_RWX};
use crate::vmsa_list::{
    apic_id_of, is_first, law_one_first_entry, registered, unregistered, VmsaInfo, VmsaList,
};

verus! {

/// The virtual CPU to delete: the guest physical address of its VMSA page, the CPU it runs on
/// and the address that the page is mapped to.
#[derive(Clone, Copy, Debug, PartialEq, Eq)]
pub struct DeleteTarget {
    pub gpa: u64,
    pub cpu: usize,
    pub va: u64,
}

/// The call that deletes a virtual CPU.
#[derive(Clone, Copy, Debug, PartialEq, Eq)]
pub enum DeleteVcpu {
    /// The CPU with the APIC ID of the virtual CPU is looked up.
    FindingCpu { gpa: u64, apic_id: u32 },
    /// The VMSA page is mapped.
    Mapping { gpa: u64, cpu: usize },
    /// A stale translation of the mapping is flushed.
    Flushing { target: DeleteTarget },
    /// The flush is ordered before what follows.
    FencingFlush { target: DeleteTarget },
    /// EFER is read from the VMSA page.
    ReadingEfer { target: DeleteTarget },
    /// EFER is written back without its SVME bit, so that the page can no longer be run.
    SwappingEfer { target: DeleteTarget, efer: u64 },
    /// The exchange, which was made for `efer` and found `found`, is ordered before what follows.
    FencingSwap { target: DeleteTarget, efer: u64, found: u64 },
    /// The page is turned into one that is no VMSA page.
    Granting { target: DeleteTarget, access: Access },
    /// The VMSA page that the CPU uses is looked up.
    FindingVmsa { target: DeleteTarget },
    /// The CPU is left without a VMSA page.
    ClearingVmsa { target: DeleteTarget },
    /// The CPU is left without a calling area.
    ClearingCa { target: DeleteTarget },
    /// The caller is answered with `rax`.
    Finished { rax: u64 },
}

/// Where the call with the argument `rcx` starts.
pub open spec fn delete_start(rcx: u64, list: Seq<VmsaInfo>) -> DeleteVcpu {
    if rcx % PAGE_SIZE == 0 && registered(list, rcx) {
        DeleteVcpu::FindingCpu { gpa: rcx, apic_id: apic_id_of(list, rcx)->0 }
    } else {
        DeleteVcpu::Finished { rax: SVSM_ERR_INVALID_PARAMETER }
    }
}

/// An exchange of EFER that was made for `current` and found `found` has cleared the SVME bit: it
/// took place, and the bit was set until then.
pub open spec fn svme_cleared(current: u64, found: u64) -> bool {
    found == current && found & EFER_SVME != 0
}

/// What the call is answered with when the page at `gpa` is taken off `list`.
pub open spec fn removal_answer(gpa: u64, list: Seq<VmsaInfo>) -> u64 {
    if registered(list, gpa) {
        SVSM_SUCCESS
    } else {
        SVSM_ERR_PROTOCOL_FAIL_INUSE
    }
}

/// Starts to delete the virtual CPU whose VMSA page is at `rcx`.
pub fn handle_delete_vcpu_request(rcx: u64, list: &VmsaList) -> (call: DeleteVcpu)
    requires
        is_physical(rcx as int),
    ensures
        call.inv(),
        call == delete_start(rcx, list@),
{
    proof {
        lemma_alignments();
    }
    if !phys_is_aligned(rcx, PAGE_SIZE) {
        return DeleteVcpu::Finished { rax: SVSM_ERR_INVALID_PARAMETER };
    }
    if !list.vmsa_page(rcx) {
        return DeleteVcpu::Finished { rax: SVSM_ERR_INVALID_PARAMETER };
    }
    match list.vmsa_to_apic_id(rcx) {
        Some(apic_id) => DeleteVcpu::FindingCpu { gpa: rcx, apic_id },
        None => DeleteVcpu::Finished { rax: SVSM_ERR_INVALID_PARAMETER },
    }
}

/// Takes the page at `gpa` off the list, which is the last step of the call.
fn finish(gpa: u64, list: &mut VmsaList) -> (call: DeleteVcpu)
    ensures
        call == (DeleteVcpu::Finished { rax: removal_answer(gpa, old(list)@) }),
        final(list)@ == unregistered(old(list)@, gpa),
{
    if list.del_vmsa(gpa) {
        DeleteVcpu::Finished { rax: SVSM_SUCCESS }
    } else {
        DeleteVcpu::Finished { rax: SVSM_ERR_PROTOCOL_FAIL_INUSE }
    }
}

impl DeleteVcpu {
    /// What the caller's RAX is set to at this point of the call.
    pub open spec fn rax_so_far(self) -> u64 {
        match self {
            DeleteVcpu::FindingCpu { .. } | DeleteVcpu::Mapping { .. } => {
                SVSM_ERR_INVALID_PARAMETER
            },
            DeleteVcpu::Finished { rax } => rax,
            _ => SVSM_ERR_PROTOCOL_FAIL_INUSE,
        }
    }

    /// What the caller's RAX is set to at this point of the call.
    pub fn rax(&self) -> (rax: u64)
        ensures
            rax == self.rax_so_far(),
    {
        match *self {
            DeleteVcpu::FindingCpu { .. } | DeleteVcpu::Mapping { .. } => {
                SVSM_ERR_INVALID_PARAMETER
            },
            DeleteVcpu::Finished { rax } => rax,
            _ => SVSM_ERR_PROTOCOL_FAIL_INUSE,
        }
    }
}

impl Machine for DeleteVcpu {
    open spec fn inv(self) -> bool {
        self matches DeleteVcpu::Granting { access, .. } ==> access.inv() && access is Adjusting
    }

    open spec fn pending(self) -> Option<Action> {
        match self {
            DeleteVcpu::FindingCpu { apic_id, .. } => Some(Action::FindCpu { apic_id }),
            DeleteVcpu::Mapping { gpa, .. } => Some(Action::MapPrivate { gpa, len: PAGE_SIZE }),
            DeleteVcpu::Flushing { target } => Some(Action::FlushPage { va: target.va }),
            DeleteVcpu::FencingFlush { .. } => Some(Action::Barrier),
            DeleteVcpu::ReadingEfer { target } => Some(Action::ReadEfer { vmsa: target.va }),
            DeleteVcpu::SwappingEfer { target, efer } => Some(
                Action::SwapEfer { vmsa: target.va, current: efer, new: efer & !EFER_SVME },
            ),
            DeleteVcpu::FencingSwap { .. } => Some(Action::Barrier),
            DeleteVcpu::Granting { access, .. } => access.pending(),
            DeleteVcpu::FindingVmsa { target } => Some(
                Action::FindVmsaFor { vmpl: VMPL1, cpu: target.cpu },
            ),
            DeleteVcpu::ClearingVmsa { target } => Some(
                Action::SetVmsaFor { va: 0, vmpl: VMPL1, cpu: target.cpu },
            ),
            DeleteVcpu::ClearingCa { target } => Some(
                Action::SetCallingAreaFor { va: 0, vmpl: VMPL1, cpu: target.cpu },
            ),
            DeleteVcpu::Finished { .. } => None,
        }
    }

    open spec fn defined(self, reply: Reply) -> bool {
        true
    }

    open spec fn next(self, reply: Reply, list: Seq<VmsaInfo>) -> DeleteVcpu {
        match self {
            DeleteVcpu::FindingCpu { gpa, .. } => match reply {
                Reply::Cpu(Some(cpu)) => DeleteVcpu::Mapping { gpa, cpu },
                _ => DeleteVcpu::Finished { rax: SVSM_ERR_INVALID_PARAMETER },
            },
            DeleteVcpu::Mapping { gpa, cpu } => match reply {
                Reply::Mapped(Some(va)) => DeleteVcpu::Flushing {
                    target: DeleteTarget { gpa, cpu, va },
                },
                _ => DeleteVcpu::Finished { rax: SVSM_ERR_INVALID_PARAMETER },
            },
            DeleteVcpu::Flushing { target } => DeleteVcpu::FencingFlush { target },
            DeleteVcpu::FencingFlush { target } => DeleteVcpu::ReadingEfer { target },
            DeleteVcpu::ReadingEfer { target } => DeleteVcpu::SwappingEfer {
                target,
                efer: reply->Word_0,
            },
            DeleteVcpu::SwappingEfer { target, efer } => DeleteVcpu::FencingSwap {
                target,
                efer,
                found: reply->Word_0,
            },
            DeleteVcpu::FencingSwap { target, efer, found } => if !svme_cleared(efer, found) {
                DeleteVcpu::Finished { rax: SVSM_ERR_PROTOCOL_FAIL_INUSE }
            } else {
                DeleteVcpu::Granting {
                    target,
                    access: Access::Adjusting {
                        va: target.va,
                        page_size: RMP_4K,
                        attributes: VMPL_RWX,
                        level: VMPL1,
                        end: 2,
                    },
                }
            },
            DeleteVcpu::Granting { target, access } => match access.next(reply, list) {
                Access::Finished { .. } => DeleteVcpu::FindingVmsa { target },
                access => DeleteVcpu::Granting { target, access },
            },
            DeleteVcpu::FindingVmsa { target } => if reply->Address_0 == target.va {
                DeleteVcpu::ClearingVmsa { target }
            } else {
                DeleteVcpu::Finished { rax: removal_answer(target.gpa, list) }
            },
            DeleteVcpu::ClearingVmsa { target } => DeleteVcpu::ClearingCa { target },
            DeleteVcpu::ClearingCa { target } => DeleteVcpu::Finished {
                rax: removal_answer(target.gpa, list),
            },
            DeleteVcpu::Finished { .. } => self,
        }
    }

    open spec fn next_list(self, reply: Reply, list: Seq<VmsaInfo>) -> Seq<VmsaInfo> {
        match self {
            DeleteVcpu::FindingVmsa { target } if reply->Address_0 != target.va => unregistered(
                list,
                target.gpa,
            ),
            DeleteVcpu::ClearingCa { target } => unregistered(list, target.gpa),
            _ => list,
        }
    }

    fn action(&self) -> (action: Option<Action>) {
        match *self {
            DeleteVcpu::FindingCpu { apic_id, .. } => Some(Action::FindCpu { apic_id }),
            DeleteVcpu::Mapping { gpa, .. } => Some(Action::MapPrivate { gpa, len: PAGE_SIZE }),
            DeleteVcpu::Flushing { target } => Some(Action::FlushPage { va: target.va }),
            DeleteVcpu::FencingFlush { .. } => Some(Action::Barrier),
            DeleteVcpu::ReadingEfer { target } => Some(Action::ReadEfer { vmsa: target.va }),
            DeleteVcpu::SwappingEfer { target, efer } => Some(
                Action::SwapEfer { vmsa: target.va, current: efer, new: efer & !EFER_SVME },
            ),
            DeleteVcpu::FencingSwap { .. } => Some(Action::Barrier),
            DeleteVcpu::Granting { access, .. } => access.action(),
            DeleteVcpu::FindingVmsa { target } => Some(
                Action::FindVmsaFor { vmpl: VMPL1, cpu: target.cpu },
            ),
            DeleteVcpu::ClearingVmsa { target } => Some(
                Action::SetVmsaFor { va: 0, vmpl: VMPL1, cpu: target.cpu },
            ),
            DeleteVcpu::ClearingCa { target } => Some(
                Action::SetCallingAreaFor { va: 0, vmpl: VMPL1, cpu: target.cpu },
            ),
            DeleteVcpu::Finished { .. } => None,
        }
    }

    fn is_defined(&self, reply: &Reply) -> (is_defined: bool) {
        true
    }

    fn resume(self, reply: Reply, list: &mut VmsaList) -> (after: DeleteVcpu) {
        match (self, reply) {
            (DeleteVcpu::FindingCpu { gpa, .. }, Reply::Cpu(Some(cpu))) => DeleteVcpu::Mapping {
                gpa,
                cpu,
            },
            (DeleteVcpu::Mapping { gpa, cpu }, Reply::Mapped(Some(va))) => DeleteVcpu::Flushing {
                target: DeleteTarget { gpa, cpu, va },
            },
            (DeleteVcpu::Flushing { target }, _) => DeleteVcpu::FencingFlush { target },
            (DeleteVcpu::FencingFlush { target }, _) => DeleteVcpu::ReadingEfer { target },
            (DeleteVcpu::ReadingEfer { target }, Reply::Word(efer)) => DeleteVcpu::SwappingEfer {
                target,
                efer,
            },
            (DeleteVcpu::SwappingEfer { target, efer }, Reply::Word(found)) => {
                DeleteVcpu::FencingSwap { target, efer, found }
            },
            (DeleteVcpu::FencingSwap { target, efer, found }, _) => {
                if found != efer || found & EFER_SVME == 0 {
                    return DeleteVcpu::Finished { rax: SVSM_ERR_PROTOCOL_FAIL_INUSE };
                }
                let access: Access = grant_vmpl_access(target.va, RMP_4K, VMPL1);
                DeleteVcpu::Granting { target, access }
            },
            (DeleteVcpu::Granting { target, access }, _) => {
                match access.resume(reply, list) {
                    Access::Finished { .. } => DeleteVcpu::FindingVmsa { target },
                    access => DeleteVcpu::Granting { target, access },
                }
            },
            (DeleteVcpu::FindingVmsa { target }, Reply::Address(va)) => {
                if va == target.va {
                    DeleteVcpu::ClearingVmsa { target }
                } else {
                    finish(target.gpa, list)
                }
            },
            (DeleteVcpu::ClearingVmsa { target }, _) => DeleteVcpu::ClearingCa { target },
            (DeleteVcpu::ClearingCa { target }, _) => finish(target.gpa, list),
            _ => DeleteVcpu::Finished { rax: SVSM_ERR_INVALID_PARAMETER },
        }
    }
}

/// The action of the exchange at `i` of a call to delete the virtual CPU `apic_id`, whose VMSA
/// page is at `gpa`. It uses what earlier exchanges of `log` brought.
pub open spec fn delete_script(log: Seq<Exchange>, gpa: u64, apic_id: u32, i: int) -> Action {
    let cpu = log[0].reply->Cpu_0->0;
    let va = log[1].reply->Mapped_0->0;
    let efer = log[4].reply->Word_0;
    if i == 0 {
        Action::FindCpu { apic_id }
    } else if i == 1 {
        Action::MapPrivate { gpa, len: PAGE_SIZE }
    } else if i == 2 {
        Action::FlushPage { va }
    } else if i == 3 {
        Action::Barrier
    } else if i == 4 {
        Action::ReadEfer { vmsa: va }
    } else if i == 5 {
        Action::SwapEfer { vmsa: va, current: efer, new: efer & !EFER_SVME }
    } else if i == 6 {
        Action::Barrier
    } else if i == 7 {
        Action::AdjustPage { va, page_size: RMP_4K, attributes: VMPL_RWX | 1 }
    } else if i == 8 {
        Action::FindVmsaFor { vmpl: VMPL1, cpu }
    } else if i == 9 {
        Action::SetVmsaFor { va: 0, vmpl: VMPL1, cpu }
    } else {
        Action::SetCallingAreaFor { va: 0, vmpl: VMPL1, cpu }
    }
}

/// The call goes on after the exchange at `i`.
pub open spec fn delete_goes_on(log: Seq<Exchange>, i: int) -> bool {
    if i == 0 {
        log[0].reply->Cpu_0 is Some
    } else if i == 1 {
        log[1].reply->Mapped_0 is Some
    } else if i == 6 {
        svme_cleared(log[4].reply->Word_0, log[5].reply->Word_0)
    } else if i == 8 {
        log[8].reply->Address_0 == log[1].reply->Mapped_0->0
    } else {
        i < 10
    }
}

/// The answer to a call that ended with the last exchange of `log`: an invalid parameter if there
/// was no CPU or no mapping, a virtual CPU in use if the SVME bit could not be cleared, so that the
/// page can still run or could not run before, or if someone else took the page off the list, and
/// a success otherwise.
pub open spec fn delete_verdict(log: Seq<Exchange>, gpa: u64) -> u64 {
    if log.len() <= 2 {
        SVSM_ERR_INVALID_PARAMETER
    } else if log.len() <= 7 {
        SVSM_ERR_PROTOCOL_FAIL_INUSE
    } else {
        removal_answer(gpa, log.last().list)
    }
}

/// The state that the exchanges of `log` lead to.
spec fn delete_state(log: Seq<Exchange>, gpa: u64, apic_id: u32) -> DeleteVcpu {
    let n = log.len() as int;
    let cpu = log[0].reply->Cpu_0->0;
    let va = log[1].reply->Mapped_0->0;
    let target = DeleteTarget { gpa, cpu, va };
    if n > 0 && !delete_goes_on(log, n - 1) {
        DeleteVcpu::Finished { rax: delete_verdict(log, gpa) }
    } else if n == 0 {
        DeleteVcpu::FindingCpu { gpa, apic_id }
    } else if n == 1 {
        DeleteVcpu::Mapping { gpa, cpu }
    } else if n == 2 {
        DeleteVcpu::Flushing { target }
    } else if n == 3 {
        DeleteVcpu::FencingFlush { target }
    } else if n == 4 {
        DeleteVcpu::ReadingEfer { target }
    } else if n == 5 {
        DeleteVcpu::SwappingEfer { target, efer: log[4].reply->Word_0 }
    } else if n == 6 {
        DeleteVcpu::FencingSwap {
            target,
            efer: log[4].reply->Word_0,
            found: log[5].reply->Word_0,
        }
    } else if n == 7 {
        DeleteVcpu::Granting {
            target,
            access: Access::Adjusting {
                va,
                page_size: RMP_4K,
                attributes: VMPL_RWX,
                level: VMPL1,
                end: 2,
            },
        }
    } else if n == 8 {
        DeleteVcpu::FindingVmsa { target }
    } else if n == 9 {
        DeleteVcpu::ClearingVmsa { target }
    } else {
        DeleteVcpu::ClearingCa { target }
    }
}

/// A call to delete a virtual CPU follows the script for as long as it goes on, and takes at most
/// eleven exchanges. It is finished exactly when it does not go on, and is then answered with
/// the verdict. A list of VMSA pages is changed only by the last exchange of a call that got as
/// far as looking up the CPU's VMSA page, which takes the page off the list.
pub proof fn law_delete_follows_script(gpa: u64, apic_id: u32, log: Seq<Exchange>)
    requires
        is_run((DeleteVcpu::FindingCpu { gpa, apic_id }), log),
    ensures
        log.len() <= 11,
        forall|i: int|
            0 <= i < log.len() ==> (#[trigger] log[i]).action == delete_script(
                log,
                gpa,
                apic_id,
                i,
            ),
        forall|i: int| 0 <= i < log.len() - 1 ==> #[trigger] delete_goes_on(log, i),
        ({
            let reached = after((DeleteVcpu::FindingCpu { gpa, apic_id }), log);
            &&& reached is Finished <==> log.len() > 0 && !delete_goes_on(log, log.len() - 1)
            &&& reached is Finished ==> reached == (DeleteVcpu::Finished {
                rax: delete_verdict(log, gpa),
            })
        }),
        log.len() > 0 ==> ({
            let last = after((DeleteVcpu::FindingCpu { gpa, apic_id }), log.drop_last());
            last.next_list(log.last().reply, log.last().list) == if log.len() >= 9
                && !delete_goes_on(log, log.len() - 1) {
                unregistered(log.last().list, gpa)
            } else {
                log.last().list
            }
        }),
{
    lemma_delete_state(gpa, apic_id, log);
    if log.len() > 0 {
        lemma_delete_state(gpa, apic_id, log.drop_last());
    }
}

/// A virtual CPU is deleted only after the SVME bit of EFER in its page, which was set until then,
/// has been set to zero with all other bits left as they were, and after the guest was given
/// access to the page back. The page was on the list until the very end.
pub proof fn law_deleted_is_stopped_first(gpa: u64, apic_id: u32, log: Seq<Exchange>)
    requires
        is_run((DeleteVcpu::FindingCpu { gpa, apic_id }), log),
        after((DeleteVcpu::FindingCpu { gpa, apic_id }), log) == (DeleteVcpu::Finished {
            rax: SVSM_SUCCESS,
        }),
    ensures
        log.len() >= 9,
        log[5].action matches Action::SwapEfer { vmsa, current, new } && {
            &&& Reply::Mapped(Some(vmsa)) == log[1].reply
            &&& log[5].reply == Reply::Word(current)
            &&& current & EFER_SVME != 0
            &&& new & EFER_SVME == 0
            &&& new | EFER_SVME == current
        },
        log[7].action matches Action::AdjustPage { va, attributes, .. } && Reply::Mapped(Some(va))
            == log[1].reply && attributes == VMPL_RWX | 1,
        registered(log.last().list, gpa),
{
    law_delete_follows_script(gpa, apic_id, log);
    assert(log[5].action == delete_script(log, gpa, apic_id, 5));
    assert(log[7].action == delete_script(log, gpa, apic_id, 7));
    assert(delete_goes_on(log, 1) && delete_goes_on(log, 6));
    let efer = log[4].reply->Word_0;
    assert((efer & !0x1000u64) & 0x1000u64 == 0) by (bit_vector);
    assert((efer & !0x1000u64) | 0x1000u64 == efer) by (bit_vector)
        requires
            efer & 0x1000u64 != 0,
    ;
    law_actions_were_pending((DeleteVcpu::FindingCpu { gpa, apic_id }), log, 1);
    law_actions_were_pending((DeleteVcpu::FindingCpu { gpa, apic_id }), log, 5);
    law_prefix_is_run((DeleteVcpu::FindingCpu { gpa, apic_id }), log, 1);
    law_prefix_is_run((DeleteVcpu::FindingCpu { gpa, apic_id }), log, 5);
    lemma_delete_state(gpa, apic_id, log.take(1));
    lemma_delete_state(gpa, apic_id, log.take(5));
    assert(delete_goes_on(log.take(1), 0) == delete_goes_on(log, 0));
    assert(delete_goes_on(log.take(5), 4));
}

proof fn lemma_delete_state(gpa: u64, apic_id: u32, log: Seq<Exchange>)
    requires
        is_run((DeleteVcpu::FindingCpu { gpa, apic_id }), log),
    ensures
        log.len() <= 11,
        forall|i: int|
            0 <= i < log.len() ==> (#[trigger] log[i]).action == delete_script(
                log,
                gpa,
                apic_id,
                i,
            ),
        forall|i: int| 0 <= i < log.len() - 1 ==> #[trigger] delete_goes_on(log, i),
        after((DeleteVcpu::FindingCpu { gpa, apic_id }), log) == delete_state(log, gpa, apic_id),
    decreases log.len(),
{
    if log.len() > 0 {
        let shorter = log.drop_last();
        lemma_delete_state(gpa, apic_id, shorter);
        assert forall|i: int| 0 <= i < shorter.len() implies log[i] == #[trigger] shorter[i] by {}
        assert forall|i: int| 0 <= i < shorter.len() implies delete_goes_on(log, i)
            == #[trigger] delete_goes_on(shorter, i) by {
            if i == 8 {
                assert(log[1] == shorter[1]);
            }
            if i == 6 {
                assert(log[4] == shorter[4]);
                assert(log[5] == shorter[5]);
            }
        }
        assert forall|i: int| 0 <= i < log.len() - 1 implies #[trigger] delete_goes_on(log, i) by {
            assert(delete_goes_on(shorter, i));
        }
        assert forall|i: int| 0 <= i < log.len() implies (#[trigger] log[i]).action
            == delete_script(log, gpa, apic_id, i) by {
            if i < shorter.len() {
                assert(log[i] == shorter[i]);
                if i > 0 {
                    assert(log[0] == shorter[0]);
                }
                if i > 1 {
                    assert(log[1] == shorter[1]);
                }
                if i > 4 {
                    assert(log[4] == shorter[4]);
                }
            } else {
                if i > 0 {
                    assert(delete_goes_on(shorter, i - 1));
                    assert(log[0] == shorter[0]);
                }
                if i > 1 {
                    assert(log[1] == shorter[1]);
                }
                if i > 4 {
                    assert(log[4] == shorter[4]);
                }
            }
        }
    }
}

/// Which page a deletion is for: it goes ahead for every registered page that is aligned, with the
/// APIC ID of the first entry for the page, and is refused for every other address.
pub proof fn law_deletion_is_for_listed_pages(rcx: u64, list: Seq<VmsaInfo>, i: int)
    ensures
        rcx % 0x1000 == 0 && 0 <= i < list.len() && list[i].gpa == rcx && (forall|j: int|
            0 <= j < i ==> (#[trigger] list[j]).gpa != rcx) ==> delete_start(rcx, list) == (
        DeleteVcpu::FindingCpu { gpa: rcx, apic_id: list[i].apic_id }),
        rcx % 0x1000 != 0 || (forall|j: int|
            0 <= j < list.len() ==> (#[trigger] list[j]).gpa != rcx) ==> delete_start(rcx, list)
            == (DeleteVcpu::Finished { rax: 0x8000_0005 }),
{
    if is_first(list, rcx, i) {
        law_one_first_entry(list, rcx, i);
    }
}

/// What is done to delete a virtual CPU, and what each step needs of the ones before it. The CPU
/// must be found and the page mapped. EFER is then exchanged for itself without bit 12. Whatever
/// its other bits are, the deletion goes on if the exchange found the word it was made for and
/// bit 12 was set in it, and only then: the guest gets its page back, and if the CPU uses the
/// page, it loses it and its calling area.
pub proof fn law_deletion_step_by_step(gpa: u64, apic_id: u32, log: Seq<Exchange>)
    requires
        is_run((DeleteVcpu::FindingCpu { gpa, apic_id }), log),
    ensures
        ({
            let cpu = log[0].reply->Cpu_0->0;
            let va = log[1].reply->Mapped_0->0;
            let efer = log[4].reply->Word_0;
            let had_bit_12 = efer as int / 0x1000 % 2 == 1;
            &&& log.len() > 0 ==> log[0].action == (Action::FindCpu { apic_id })
            &&& log.len() > 1 ==> log[0].reply == Reply::Cpu(Some(cpu)) && log[1].action == (
            Action::MapPrivate { gpa, len: 0x1000 })
            &&& log.len() > 2 ==> log[1].reply == Reply::Mapped(Some(va)) && log[2].action == (
            Action::FlushPage { va })
            &&& log.len() > 3 ==> log[3].action == Action::Barrier
            &&& log.len() > 4 ==> log[4].action == (Action::ReadEfer { vmsa: va })
            &&& log.len() > 5 ==> log[4].reply == Reply::Word(efer) && log[5].action == (
            Action::SwapEfer {
                vmsa: va,
                current: efer,
                new: if had_bit_12 {
                    (efer - 0x1000) as u64
                } else {
                    efer
                },
            })
            &&& log.len() > 6 ==> log[6].action == Action::Barrier
            &&& log.len() > 7 ==> log[5].reply == Reply::Word(efer) && had_bit_12 && log[7].action
                == (Action::AdjustPage { va, page_size: 0, attributes: 0xf01 })
            &&& log.len() > 8 ==> log[8].action == (Action::FindVmsaFor { vmpl: 1, cpu })
            &&& log.len() > 9 ==> log[8].reply == Reply::Address(va) && log[9].action == (
            Action::SetVmsaFor { va: 0, vmpl: 1, cpu })
            &&& log.len() > 10 ==> log[10].action == (Action::SetCallingAreaFor {
                va: 0,
                vmpl: 1,
                cpu,
            })
            &&& log.len() <= 11
        }),
{
    let start = DeleteVcpu::FindingCpu { gpa, apic_id };
    law_delete_follows_script(gpa, apic_id, log);
    law_svme_is_bit_12(log[4].reply->Word_0);
    law_svme_is_bit_12(log[5].reply->Word_0);
    assert(0xf00u64 | 1u64 == 0xf01u64) by (bit_vector);
    assert forall|i: int| 0 <= i < log.len() implies fits(
        (#[trigger] log[i]).action,
        log[i].reply,
    ) by {
        law_actions_were_pending(start, log, i);
    }
    assert(log.len() > 1 ==> delete_goes_on(log, 0));
    assert(log.len() > 2 ==> delete_goes_on(log, 1));
    assert(log.len() > 7 ==> delete_goes_on(log, 6));
    assert(log.len() > 9 ==> delete_goes_on(log, 8));
}

/// When a deletion ends, and how it is answered. It ends if there is no CPU, no mapping, or bit 12
/// of EFER could not be cleared; if the CPU uses another page; and otherwise once the CPU has lost
/// its calling area. Without a CPU or a mapping a parameter is invalid. With bit 12 cleared it is
/// a success if the page is on the list, and the first entry for the page goes. In all other
/// cases the virtual CPU is in use, and the list stays as it is.
pub proof fn law_deletion_end_and_answer(gpa: u64, apic_id: u32, log: Seq<Exchange>, k: int)
    requires
        is_run((DeleteVcpu::FindingCpu { gpa, apic_id }), log),
        log.len() > 0,
    ensures
        ({
            let reached = after((DeleteVcpu::FindingCpu { gpa, apic_id }), log);
            let before = after((DeleteVcpu::FindingCpu { gpa, apic_id }), log.drop_last());
            let list = log.last().list;
            let list_after = before.next_list(log.last().reply, list);
            let efer = log[4].reply->Word_0;
            let ends = {
                ||| log.len() == 1 && log[0].reply == Reply::Cpu(None)
                ||| log.len() == 2 && log[1].reply == Reply::Mapped(None)
                ||| log.len() == 7 && !(log[5].reply == Reply::Word(efer) && efer as int / 0x1000
                    % 2 == 1)
                ||| log.len() == 9 && log[8].reply != Reply::Address(log[1].reply->Mapped_0->0)
                ||| log.len() == 11
            };
            let listed = exists|i: int| 0 <= i < list.len() && (#[trigger] list[i]).gpa == gpa;
            &&& reached.pending() is None <==> ends
            &&& ends ==> reached == (DeleteVcpu::Finished {
                rax: if log.len() <= 2 {
                    0x8000_0005
                } else if log.len() >= 9 && listed {
                    0
                } else {
                    0x8000_1003
                },
            })
            &&& !(ends && log.len() >= 9 && listed) ==> list_after == list
            &&& ends && log.len() >= 9 && 0 <= k < list.len() && list[k].gpa == gpa && (forall|
                j: int,
            |
                0 <= j < k ==> (#[trigger] list[j]).gpa != gpa) ==> {
                &&& list_after.len() == list.len() - 1
                &&& forall|j: int|
                    0 <= j < list_after.len() ==> #[trigger] list_after[j] == if j == k {
                        list[list.len() - 1]
                    } else {
                        list[j]
                    }
            }
        }),
{
    let start = DeleteVcpu::FindingCpu { gpa, apic_id };
    law_delete_follows_script(gpa, apic_id, log);
    lemma_delete_state(gpa, apic_id, log);
    law_svme_is_bit_12(log[4].reply->Word_0);
    law_svme_is_bit_12(log[5].reply->Word_0);
    assert forall|i: int| 0 <= i < log.len() implies fits(
        (#[trigger] log[i]).action,
        log[i].reply,
    ) by {
        law_actions_were_pending(start, log, i);
    }
    if log.len() > 5 {
        assert(fits(log[4].action, log[4].reply));
        assert(fits(log[5].action, log[5].reply));
    }
    if log.len() > 8 {
        assert(fits(log[8].action, log[8].reply));
    }
    assert(fits(log[0].action, log[0].reply));
    if log.len() > 1 {
        assert(fits(log[1].action, log[1].reply));
    }
    if is_first(log.last().list, gpa, k) {
        law_one_first_entry(log.last().list, gpa, k);
    }
}

/// A deletion can go on with any reply of the right kind. Until the page is mapped, the caller
/// would find an invalid parameter; from then on and until the end, a virtual CPU in use.
pub proof fn law_deletion_takes_any_reply(call: DeleteVcpu, reply: Reply)
    ensures
        call.defined(reply),
        call is FindingCpu || call is Mapping ==> call.rax_so_far() == 0x8000_0005,
        !(call is FindingCpu || call is Mapping || call is Finished) ==> call.rax_so_far()
            == 0x8000_1003,
{
}

/// Once the exchange of EFER has found the word it was made for, with bit 12 set in it, the page
/// goes back to the guest right after the second barrier, whatever the other bits of EFER are. If
/// the page is then on the list at the end, the answer is a success. If the exchange found another
/// word, or bit 12 was clear, the deletion ends right after the second barrier instead: the
/// virtual CPU is in use.
pub proof fn law_bit_12_alone_decides(gpa: u64, apic_id: u32, log: Seq<Exchange>, efer: u64)
    requires
        is_run((DeleteVcpu::FindingCpu { gpa, apic_id }), log),
        log.len() >= 7,
        log[4].reply == Reply::Word(efer),
    ensures
        ({
            let reached = after((DeleteVcpu::FindingCpu { gpa, apic_id }), log);
            let va = log[1].reply->Mapped_0->0;
            let cleared = log[5].reply == Reply::Word(efer) && efer as int / 0x1000 % 2 == 1;
            let back = Action::AdjustPage { va, page_size: 0, attributes: 0xf01 };
            &&& log[1].reply == Reply::Mapped(Some(va))
            &&& log[6].action == Action::Barrier
            &&& cleared && log.len() == 7 ==> reached.pending() == Some(back)
            &&& log.len() > 7 ==> cleared && log[7].action == back
            &&& reached is Finished && cleared && (exists|i: int|
                0 <= i < log.last().list.len() && (#[trigger] log.last().list[i]).gpa == gpa)
                ==> reached == (DeleteVcpu::Finished { rax: 0 })
            &&& !cleared ==> log.len() == 7 && reached == (DeleteVcpu::Finished {
                rax: 0x8000_1003,
            })
        }),
{
    law_deletion_step_by_step(gpa, apic_id, log);
    law_deletion_end_and_answer(gpa, apic_id, log, 0);
    lemma_delete_state(gpa, apic_id, log);
    assert(0xf00u64 | 1u64 == 0xf01u64) by (bit_vector);
}

} // verus!

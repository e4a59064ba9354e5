//! Taking calls from the guest and answering them.

use vstd::prelude::*;

use crate::addr::{is_physical, PAGE_SIZE, PHYS_LIMIT};
use crate::create_vcpu::{
    create_ok, create_ok_until, create_start, handle_create_vcpu_request,
    law_create_follows_script, law_created_was_checked, law_created_with_its_arguments,
    law_creation_needs_aligned_pages, CreateVcpu,
};
use crate::delete_vcpu::{
    delete_start, handle_delete_vcpu_request, law_delete_follows_script,
    law_deletion_is_for_listed_pages, DeleteVcpu,
};
use crate::guest_page::SvsmRegion;
use crate::machine::{
    accepts, after, is_run, law_actions_were_pending, law_prefix_is_run, law_run_can_be_cut,
    Exchange, Machine,
};
use crate::platform::{Action, CallRegs, Reply};
use crate::protocol::{
    handle_configure_vtom_request, handle_query_protocol_request, law_only_core_version_1,
    lower_32bits, lower_half,
    protocol_answer, protocol_versions, upper_32bits, upper_half, vtom_answer, Answer,
    MAX_PROTOCOL_ID, PROTOCOL_COUNT, SVSM_CORE_CONFIGURE_VTOM, SVSM_CORE_CREATE_VCPU,
    SVSM_CORE_DELETE_VCPU, SVSM_CORE_PVALIDATE, SVSM_CORE_QUERY_PROTOCOL, SVSM_CORE_REMAP_CA,
    SVSM_ERR_INVALID_PARAMETER, SVSM_ERR_UNSUPPORTED_CALLID, SVSM_ERR_UNSUPPORTED_PROTOCOL,
    SVSM_SUCCESS, VMPL1,
};
use crate::pvalidate_request::{handle_pvalidate_request, list_start, PvalidateRequest};
use crate::remap_ca::{
    handle_remap_ca_request, law_remap_is_for_foreign_pages, remap_defined, remap_start, RemapCa,
};
use crate::vmsa_list::{
    apic_id_of, at_most_once, law_added_is_registered, law_removal_undoes_addition,
    law_removed_is_gone, registered, unregistered, VmsaInfo, VmsaList,
};

verus! {

/// A call that is being served.
#[derive(Clone, Copy, Debug, PartialEq, Eq)]
pub enum Call {
    /// The calling area is moved.
    Remap(RemapCa),
    /// Pages are validated.
    Pvalidate(PvalidateRequest),
    /// A virtual CPU is created.
    Create(CreateVcpu),
    /// A virtual CPU is deleted.
    Delete(DeleteVcpu),
    /// The answer is known without the platform.
    Answered { answer: Answer },
}

/// Every address that the call in `regs` names exists, and so does the protocol that it asks
/// about.
pub open spec fn call_defined(regs: CallRegs) -> bool {
    let callid = lower_half(regs.rax);
    upper_half(regs.rax) <= MAX_PROTOCOL_ID ==> {
        &&& callid == SVSM_CORE_QUERY_PROTOCOL ==> upper_half(regs.rcx) > MAX_PROTOCOL_ID
            || upper_half(regs.rcx) < protocol_versions().len()
        &&& callid == SVSM_CORE_REMAP_CA ==> remap_defined(regs.rcx)
        &&& callid == SVSM_CORE_PVALIDATE ==> is_physical(regs.rcx as int)
        &&& callid == SVSM_CORE_CREATE_VCPU ==> is_physical(regs.rcx as int) && is_physical(
            regs.rdx as int,
        )
        &&& callid == SVSM_CORE_DELETE_VCPU ==> is_physical(regs.rcx as int)
    }
}

/// Where the call in `regs` starts.
pub open spec fn call_start(regs: CallRegs, region: SvsmRegion, list: Seq<VmsaInfo>) -> Call {
    let callid = lower_half(regs.rax);
    if callid == SVSM_CORE_QUERY_PROTOCOL {
        Call::Answered {
            answer: Answer {
                rax: SVSM_SUCCESS,
                rcx: Some(protocol_answer(regs.rcx) as u64),
            },
        }
    } else if callid == SVSM_CORE_REMAP_CA {
        Call::Remap(remap_start(regs.rcx, regs.vmpl, region, list))
    } else if callid == SVSM_CORE_PVALIDATE {
        Call::Pvalidate(list_start(regs.rcx, region))
    } else if callid == SVSM_CORE_CREATE_VCPU {
        Call::Create(create_start(regs.rcx, regs.rdx, regs.r8))
    } else if callid == SVSM_CORE_DELETE_VCPU {
        Call::Delete(delete_start(regs.rcx, list))
    } else if callid == SVSM_CORE_CONFIGURE_VTOM {
        Call::Answered { answer: vtom_answer(regs.rcx) }
    } else {
        Call::Answered { answer: Answer { rax: SVSM_ERR_UNSUPPORTED_CALLID, rcx: None } }
    }
}

/// Whether every address that the call in `regs` names exists, and the protocol that it asks
/// about.
pub fn is_call_defined(regs: &CallRegs) -> (is_defined: bool)
    ensures
        is_defined == call_defined(*regs),
{
    if upper_32bits(regs.rax) > MAX_PROTOCOL_ID {
        return true;
    }
    match lower_32bits(regs.rax) {
        SVSM_CORE_QUERY_PROTOCOL => {
            let protocol: u32 = upper_32bits(regs.rcx);
            protocol > MAX_PROTOCOL_ID || protocol < PROTOCOL_COUNT
        },
        SVSM_CORE_REMAP_CA => {
            let start: u64 = regs.rcx - regs.rcx % PAGE_SIZE;
            regs.rcx < PHYS_LIMIT && (regs.rcx % 8 != 0 || start + PAGE_SIZE < PHYS_LIMIT)
        },
        SVSM_CORE_CREATE_VCPU => regs.rcx < PHYS_LIMIT && regs.rdx < PHYS_LIMIT,
        SVSM_CORE_PVALIDATE | SVSM_CORE_DELETE_VCPU => regs.rcx < PHYS_LIMIT,
        _ => true,
    }
}

/// Starts to serve the call in `regs`.
pub fn start_call(regs: &CallRegs, region: &SvsmRegion, list: &VmsaList) -> (call: Call)
    requires
        upper_half(regs.rax) <= MAX_PROTOCOL_ID,
        call_defined(*regs),
    ensures
        call.inv(),
        call == call_start(*regs, *region, list@),
{
    match lower_32bits(regs.rax) {
        SVSM_CORE_QUERY_PROTOCOL => Call::Answered {
            answer: handle_query_protocol_request(regs.rcx),
        },
        SVSM_CORE_REMAP_CA => Call::Remap(
            handle_remap_ca_request(regs.rcx, regs.vmpl, region, list),
        ),
        SVSM_CORE_PVALIDATE => Call::Pvalidate(handle_pvalidate_request(regs.rcx, region)),
        SVSM_CORE_CREATE_VCPU => Call::Create(
            handle_create_vcpu_request(regs.rcx, regs.rdx, regs.r8),
        ),
        SVSM_CORE_DELETE_VCPU => Call::Delete(handle_delete_vcpu_request(regs.rcx, list)),
        SVSM_CORE_CONFIGURE_VTOM => Call::Answered {
            answer: handle_configure_vtom_request(regs.rcx),
        },
        _ => Call::Answered { answer: Answer { rax: SVSM_ERR_UNSUPPORTED_CALLID, rcx: None } },
    }
}

impl Call {
    /// The answer to the call, once it is known.
    pub open spec fn known_answer(self) -> Option<Answer> {
        match self {
            Call::Remap(RemapCa::Finished { rax })
            | Call::Pvalidate(PvalidateRequest::Finished { rax })
            | Call::Create(CreateVcpu::Finished { rax })
            | Call::Delete(DeleteVcpu::Finished { rax }) => Some(
                Answer { rax, rcx: None },
            ),
            Call::Answered { answer } => Some(answer),
            _ => None,
        }
    }

    /// The answer to the call, once it is known.
    pub fn answer(&self) -> (answer: Option<Answer>)
        ensures
            answer == self.known_answer(),
    {
        match *self {
            Call::Remap(RemapCa::Finished { rax })
            | Call::Pvalidate(PvalidateRequest::Finished { rax })
            | Call::Create(CreateVcpu::Finished { rax })
            | Call::Delete(DeleteVcpu::Finished { rax }) => Some(
                Answer { rax, rcx: None },
            ),
            Call::Answered { answer } => Some(answer),
            _ => None,
        }
    }

    /// What the caller's RAX is set to at this point of the call.
    pub open spec fn rax_so_far(self) -> u64 {
        match self {
            Call::Remap(call) => call.rax_so_far(),
            Call::Pvalidate(call) => call.rax_so_far(),
            Call::Create(call) => call.rax_so_far(),
            Call::Delete(call) => call.rax_so_far(),
            Call::Answered { answer } => answer.rax,
        }
    }

    /// What the caller's RAX is set to at this point of the call.
    pub fn rax(&self) -> (rax: u64)
        ensures
            rax == self.rax_so_far(),
    {
        match self {
            Call::Remap(call) => call.rax(),
            Call::Pvalidate(call) => call.rax(),
            Call::Create(call) => call.rax(),
            Call::Delete(call) => call.rax(),
            Call::Answered { answer } => answer.rax,
        }
    }
}

impl Machine for Call {
    open spec fn inv(self) -> bool {
        match self {
            Call::Remap(call) => call.inv(),
            Call::Pvalidate(call) => call.inv(),
            Call::Create(call) => call.inv(),
            Call::Delete(call) => call.inv(),
            Call::Answered { .. } => true,
        }
    }

    open spec fn pending(self) -> Option<Action> {
        match self {
            Call::Remap(call) => call.pending(),
            Call::Pvalidate(call) => call.pending(),
            Call::Create(call) => call.pending(),
            Call::Delete(call) => call.pending(),
            Call::Answered { .. } => None,
        }
    }

    open spec fn defined(self, reply: Reply) -> bool {
        match self {
            Call::Remap(call) => call.defined(reply),
            Call::Pvalidate(call) => call.defined(reply),
            Call::Create(call) => call.defined(reply),
            Call::Delete(call) => call.defined(reply),
            Call::Answered { .. } => true,
        }
    }

    open spec fn next(self, reply: Reply, list: Seq<VmsaInfo>) -> Call {
        match self {
            Call::Remap(call) => Call::Remap(call.next(reply, list)),
            Call::Pvalidate(call) => Call::Pvalidate(call.next(reply, list)),
            Call::Create(call) => Call::Create(call.next(reply, list)),
            Call::Delete(call) => Call::Delete(call.next(reply, list)),
            Call::Answered { .. } => self,
        }
    }

    open spec fn next_list(self, reply: Reply, list: Seq<VmsaInfo>) -> Seq<VmsaInfo> {
        match self {
            Call::Remap(call) => call.next_list(reply, list),
            Call::Pvalidate(call) => call.next_list(reply, list),
            Call::Create(call) => call.next_list(reply, list),
            Call::Delete(call) => call.next_list(reply, list),
            Call::Answered { .. } => list,
        }
    }

    fn action(&self) -> (action: Option<Action>) {
        match self {
            Call::Remap(call) => call.action(),
            Call::Pvalidate(call) => call.action(),
            Call::Create(call) => call.action(),
            Call::Delete(call) => call.action(),
            Call::Answered { .. } => None,
        }
    }

    fn is_defined(&self, reply: &Reply) -> (is_defined: bool) {
        match self {
            Call::Remap(call) => call.is_defined(reply),
            Call::Pvalidate(call) => call.is_defined(reply),
            Call::Create(call) => call.is_defined(reply),
            Call::Delete(call) => call.is_defined(reply),
            Call::Answered { .. } => true,
        }
    }

    fn resume(self, reply: Reply, list: &mut VmsaList) -> (after: Call) {
        match self {
            Call::Remap(call) => Call::Remap(call.resume(reply, list)),
            Call::Pvalidate(call) => Call::Pvalidate(call.resume(reply, list)),
            Call::Create(call) => Call::Create(call.resume(reply, list)),
            Call::Delete(call) => Call::Delete(call.resume(reply, list)),
            Call::Answered { .. } => self,
        }
    }
}

/// What the request loop is doing.
#[derive(Clone, Copy, Debug, PartialEq, Eq)]
pub enum Stage {
    /// The calling area is looked up.
    FindingCa,
    /// It is checked whether a call is pending.
    CheckingPending { ca: u64 },
    /// The VMSA page of the caller is looked up.
    FindingVmsa { ca: u64 },
    /// The registers that the call is made with are read.
    ReadingRegs { ca: u64, vmsa: u64 },
    /// The call is taken: it is no longer pending.
    Taking { ca: u64, vmsa: u64, regs: CallRegs },
    /// The caller's RAX is set before serving the call goes on.
    Noting { vmsa: u64, call: Call },
    /// The call is served, and the caller's RAX is set as it should be at this point.
    Serving { vmsa: u64, call: Call },
    /// The call is answered. If `again` is set, the next call is looked for before the guest runs.
    Answering { vmsa: u64, answer: Answer, again: bool },
    /// The guest runs.
    Running,
}

/// The loop that takes calls from the guest, answers them, and lets the guest run in between.
#[derive(Clone, Copy, Debug, PartialEq, Eq)]
pub struct RequestLoop {
    pub region: SvsmRegion,
    pub stage: Stage,
}

/// Starts the request loop of an SVSM that lies in `region`.
pub fn svsm_request_loop(region: SvsmRegion) -> (requests: RequestLoop)
    ensures
        requests.inv(),
        requests == (RequestLoop { region, stage: Stage::FindingCa }),
{
    RequestLoop { region, stage: Stage::FindingCa }
}

/// A call goes on being served until its answer is known. Before that, the caller's RAX is set
/// whenever it is not, with `written` in it, what it should be at this point.
pub open spec fn serve(vmsa: u64, written: Option<u64>, call: Call) -> Stage {
    match call.known_answer() {
        Some(answer) => Stage::Answering { vmsa, answer, again: true },
        None => if written == Some(call.rax_so_far()) {
            Stage::Serving { vmsa, call }
        } else {
            Stage::Noting { vmsa, call }
        },
    }
}

/// Goes on serving a call until its answer is known.
fn serve_or_answer(vmsa: u64, written: Option<u64>, call: Call) -> (stage: Stage)
    ensures
        stage == serve(vmsa, written, call),
{
    if let Some(answer) = call.answer() {
        return Stage::Answering { vmsa, answer, again: true };
    }
    match written {
        Some(rax) => if rax == call.rax() {
            Stage::Serving { vmsa, call }
        } else {
            Stage::Noting { vmsa, call }
        },
        None => Stage::Noting { vmsa, call },
    }
}

impl Machine for RequestLoop {
    open spec fn inv(self) -> bool {
        match self.stage {
            Stage::Taking { regs, .. } => call_defined(regs),
            Stage::Noting { call, .. } | Stage::Serving { call, .. } => call.inv()
                && call.known_answer() is None,
            _ => true,
        }
    }

    open spec fn pending(self) -> Option<Action> {
        match self.stage {
            Stage::FindingCa => Some(Action::FindCallingArea { vmpl: VMPL1 }),
            Stage::CheckingPending { ca } => Some(Action::ReadCallPending { ca }),
            Stage::FindingVmsa { .. } => Some(Action::FindVmsa { vmpl: VMPL1 }),
            Stage::ReadingRegs { vmsa, .. } => Some(Action::ReadRegisters { vmsa }),
            Stage::Taking { ca, .. } => Some(Action::ClearCallPending { ca }),
            Stage::Noting { vmsa, call } => Some(
                Action::SetRax { vmsa, rax: call.rax_so_far() },
            ),
            Stage::Serving { call, .. } => call.pending(),
            Stage::Answering { vmsa, answer, .. } => Some(
                Action::Answer { vmsa, rax: answer.rax, rcx: answer.rcx },
            ),
            Stage::Running => Some(Action::RunVmpl { vmpl: VMPL1 }),
        }
    }

    open spec fn defined(self, reply: Reply) -> bool {
        match self.stage {
            Stage::ReadingRegs { .. } => reply matches Reply::Registers(regs) ==> call_defined(
                regs,
            ),
            Stage::Serving { call, .. } => call.defined(reply),
            _ => true,
        }
    }

    open spec fn next(self, reply: Reply, list: Seq<VmsaInfo>) -> RequestLoop {
        let stage = match self.stage {
            Stage::FindingCa => if reply->Address_0 == 0 {
                Stage::Running
            } else {
                Stage::CheckingPending { ca: reply->Address_0 }
            },
            Stage::CheckingPending { ca } => if reply->Byte_0 != 1 {
                Stage::Running
            } else {
                Stage::FindingVmsa { ca }
            },
            Stage::FindingVmsa { ca } => if reply->Address_0 == 0 {
                Stage::Running
            } else {
                Stage::ReadingRegs { ca, vmsa: reply->Address_0 }
            },
            Stage::ReadingRegs { ca, vmsa } => Stage::Taking {
                ca,
                vmsa,
                regs: reply->Registers_0,
            },
            Stage::Taking { vmsa, regs, .. } => if upper_half(regs.rax) > MAX_PROTOCOL_ID {
                Stage::Answering {
                    vmsa,
                    answer: Answer { rax: SVSM_ERR_UNSUPPORTED_PROTOCOL, rcx: None },
                    again: false,
                }
            } else {
                serve(vmsa, None, call_start(regs, self.region, list))
            },
            Stage::Noting { vmsa, call } => Stage::Serving { vmsa, call },
            Stage::Serving { vmsa, call } => serve(
                vmsa,
                Some(call.rax_so_far()),
                call.next(reply, list),
            ),
            Stage::Answering { again, .. } => if again {
                Stage::FindingCa
            } else {
                Stage::Running
            },
            Stage::Running => Stage::FindingCa,
        };
        RequestLoop { stage, ..self }
    }

    open spec fn next_list(self, reply: Reply, list: Seq<VmsaInfo>) -> Seq<VmsaInfo> {
        match self.stage {
            Stage::Serving { call, .. } => call.next_list(reply, list),
            _ => list,
        }
    }

    fn action(&self) -> (action: Option<Action>) {
        match &self.stage {
            Stage::FindingCa => Some(Action::FindCallingArea { vmpl: VMPL1 }),
            Stage::CheckingPending { ca } => Some(Action::ReadCallPending { ca: *ca }),
            Stage::FindingVmsa { .. } => Some(Action::FindVmsa { vmpl: VMPL1 }),
            Stage::ReadingRegs { vmsa, .. } => Some(Action::ReadRegisters { vmsa: *vmsa }),
            Stage::Taking { ca, .. } => Some(Action::ClearCallPending { ca: *ca }),
            Stage::Noting { vmsa, call } => Some(
                Action::SetRax { vmsa: *vmsa, rax: call.rax() },
            ),
            Stage::Serving { call, .. } => call.action(),
            Stage::Answering { vmsa, answer, .. } => Some(
                Action::Answer { vmsa: *vmsa, rax: answer.rax, rcx: answer.rcx },
            ),
            Stage::Running => Some(Action::RunVmpl { vmpl: VMPL1 }),
        }
    }

    fn is_defined(&self, reply: &Reply) -> (is_defined: bool) {
        match (&self.stage, reply) {
            (Stage::ReadingRegs { .. }, Reply::Registers(regs)) => is_call_defined(regs),
            (Stage::Serving { call, .. }, _) => call.is_defined(reply),
            _ => true,
        }
    }

    fn resume(self, reply: Reply, list: &mut VmsaList) -> (after: RequestLoop) {
        let stage: Stage = match (self.stage, reply) {
            (Stage::FindingCa, Reply::Address(ca)) => {
                if ca == 0 {
                    Stage::Running
                } else {
                    Stage::CheckingPending { ca }
                }
            },
            (Stage::CheckingPending { ca }, Reply::Byte(call_pending)) => {
                if call_pending != 1 {
                    Stage::Running
                } else {
                    Stage::FindingVmsa { ca }
                }
            },
            (Stage::FindingVmsa { ca }, Reply::Address(vmsa)) => {
                if vmsa == 0 {
                    Stage::Running
                } else {
                    Stage::ReadingRegs { ca, vmsa }
                }
            },
            (Stage::ReadingRegs { ca, vmsa }, Reply::Registers(regs)) => Stage::Taking {
                ca,
                vmsa,
                regs,
            },
            (Stage::Taking { vmsa, regs, .. }, _) => {
                if upper_32bits(regs.rax) > MAX_PROTOCOL_ID {
                    let answer: Answer = Answer { rax: SVSM_ERR_UNSUPPORTED_PROTOCOL, rcx: None };
                    Stage::Answering { vmsa, answer, again: false }
                } else {
                    let call: Call = start_call(&regs, &self.region, list);
                    serve_or_answer(vmsa, None, call)
                }
            },
            (Stage::Noting { vmsa, call }, _) => Stage::Serving { vmsa, call },
            (Stage::Serving { vmsa, call }, _) => {
                let written: Option<u64> = Some(call.rax());
                let call: Call = call.resume(reply, list);
                serve_or_answer(vmsa, written, call)
            },
            (Stage::Answering { again, .. }, _) => {
                if again {
                    Stage::FindingCa
                } else {
                    Stage::Running
                }
            },
            _ => Stage::FindingCa,
        };
        RequestLoop { region: self.region, stage }
    }
}

/// The request loop always has something to do.
pub proof fn law_loop_never_ends(requests: RequestLoop)
    requires
        requests.inv(),
    ensures
        requests.pending() is Some,
{
    lemma_unanswered_is_pending(requests.stage->Serving_call);
}

/// A call that is not answered yet waits for the platform, and for nothing that only the loop
/// itself asks for.
proof fn lemma_unanswered_is_pending(call: Call)
    ensures
        call.inv() ==> (call.known_answer() is None <==> call.pending() is Some),
        call.pending() matches Some(action) ==> is_service_action(action),
{
}

/// The action is one that a call may be served with: it neither takes nor answers a call, nor
/// looks for one, nor sets the caller's registers, nor lets the guest run.
pub open spec fn is_service_action(action: Action) -> bool {
    !(action is FindCallingArea || action is ReadCallPending || action is FindVmsa
        || action is ReadRegisters || action is ClearCallPending || action is SetRax
        || action is Answer || action is RunVmpl)
}

/// How many calls have been taken in `log`.
pub open spec fn calls_taken(log: Seq<Exchange>) -> nat
    decreases log.len(),
{
    if log.len() == 0 {
        0
    } else {
        calls_taken(log.drop_last()) + if log.last().action is ClearCallPending {
            1nat
        } else {
            0
        }
    }
}

/// How many calls have been answered in `log`.
pub open spec fn calls_answered(log: Seq<Exchange>) -> nat
    decreases log.len(),
{
    if log.len() == 0 {
        0
    } else {
        calls_answered(log.drop_last()) + if log.last().action is Answer {
            1nat
        } else {
            0
        }
    }
}

proof fn lemma_one_call_at_a_time(region: SvsmRegion, log: Seq<Exchange>)
    requires
        is_run((RequestLoop { region, stage: Stage::FindingCa }), log),
    ensures
        ({
            let reached = after((RequestLoop { region, stage: Stage::FindingCa }), log);
            &&& reached.inv()
            &&& reached.region == region
            &&& calls_taken(log) == calls_answered(log) + if reached.stage is Noting
                || reached.stage is Serving || reached.stage is Answering {
                1nat
            } else {
                0
            }
        }),
    decreases log.len(),
{
    if log.len() > 0 {
        let start = RequestLoop { region, stage: Stage::FindingCa };
        let before = after(start, log.drop_last());
        lemma_one_call_at_a_time(region, log.drop_last());
        match before.stage {
            Stage::Taking { regs, .. } => {
                lemma_call_keeps_inv(regs, region, log.last().list);
            },
            Stage::Serving { call, .. } => {
                lemma_unanswered_is_pending(call);
                lemma_next_keeps_inv(call, log.last().reply, log.last().list);
            },
            _ => {},
        }
    }
}

/// A call is well-formed from its start on.
proof fn lemma_call_keeps_inv(regs: CallRegs, region: SvsmRegion, list: Seq<VmsaInfo>)
    ensures
        call_start(regs, region, list).inv(),
{
}

/// A call that is well-formed stays so.
proof fn lemma_next_keeps_inv(call: Call, reply: Reply, list: Seq<VmsaInfo>)
    requires
        call.inv(),
        accepts(call, reply),
    ensures
        call.next(reply, list).inv(),
{
}

/// Every call that is taken is answered, exactly once, before the guest runs again and before
/// another call is looked for or taken.
pub proof fn law_each_call_is_answered_once(region: SvsmRegion, log: Seq<Exchange>, i: int)
    requires
        is_run((RequestLoop { region, stage: Stage::FindingCa }), log),
        0 <= i < log.len(),
    ensures
        log[i].action is RunVmpl || log[i].action is FindCallingArea
            || log[i].action is ClearCallPending ==> calls_taken(log.take(i)) == calls_answered(
            log.take(i),
        ),
        log[i].action is Answer ==> calls_taken(log.take(i)) == calls_answered(log.take(i)) + 1,
{
    let start = RequestLoop { region, stage: Stage::FindingCa };
    law_actions_were_pending(start, log, i);
    law_prefix_is_run(start, log, i);
    lemma_one_call_at_a_time(region, log.take(i));
    lemma_unanswered_is_pending(after(start, log.take(i)).stage->Serving_call);
}

/// The guest runs only if there is no calling area, no call is pending, there is no VMSA page, or
/// a call of an unsupported protocol has just been answered.
pub proof fn law_guest_runs_when_nothing_is_pending(
    region: SvsmRegion,
    log: Seq<Exchange>,
    i: int,
)
    requires
        is_run((RequestLoop { region, stage: Stage::FindingCa }), log),
        0 <= i < log.len(),
        log[i].action is RunVmpl,
    ensures
        i > 0,
        log[i].action == (Action::RunVmpl { vmpl: VMPL1 }),
        ({
            let last = log[i - 1];
            ||| last.action is FindCallingArea && last.reply == Reply::Address(0)
            ||| last.action is ReadCallPending && last.reply != Reply::Byte(1)
            ||| last.action is FindVmsa && last.reply == Reply::Address(0)
            ||| last.action matches Action::Answer { rax, rcx, .. } && rax
                == SVSM_ERR_UNSUPPORTED_PROTOCOL && rcx is None
        }),
{
    let start = RequestLoop { region, stage: Stage::FindingCa };
    law_actions_were_pending(start, log, i);
    law_prefix_is_run(start, log, i);
    lemma_one_call_at_a_time(region, log.take(i));
    lemma_unanswered_is_pending(after(start, log.take(i)).stage->Serving_call);
    if i == 0 {
        assert(log.take(0).len() == 0);
        assert(after(start, log.take(0)) == start);
    } else {
        law_actions_were_pending(start, log, i - 1);
        law_prefix_is_run(start, log, i - 1);
        lemma_refusal_stops(region, log.take(i - 1));
    }
}

/// Only a call of an unsupported protocol is answered without looking for the next call.
proof fn lemma_refusal_stops(region: SvsmRegion, log: Seq<Exchange>)
    requires
        is_run((RequestLoop { region, stage: Stage::FindingCa }), log),
    ensures
        after((RequestLoop { region, stage: Stage::FindingCa }), log).stage matches
            Stage::Answering { answer, again, .. } ==> !again ==> answer == (Answer {
            rax: SVSM_ERR_UNSUPPORTED_PROTOCOL,
            rcx: None,
        }),
    decreases log.len(),
{
    if log.len() > 0 {
        lemma_refusal_stops(region, log.drop_last());
    }
}

/// A call is taken only if it is pending: the calling area and the VMSA page are there, the flag
/// was read as 1, and the registers were read right before. What comes right after it is decided
/// by the registers alone, with the list of VMSA pages as it is then: an unsupported protocol is
/// refused, and any other call starts where its call ID says.
pub proof fn law_call_is_dispatched(region: SvsmRegion, log: Seq<Exchange>, i: int)
    requires
        is_run((RequestLoop { region, stage: Stage::FindingCa }), log),
        0 <= i < log.len(),
        log[i].action is ClearCallPending,
    ensures
        i >= 4,
        ({
            let ca = log[i - 4].reply->Address_0;
            let vmsa = log[i - 2].reply->Address_0;
            let regs = log[i - 1].reply->Registers_0;
            let requests = after(
                (RequestLoop { region, stage: Stage::FindingCa }),
                log.take(i + 1),
            );
            &&& log[i - 4].action is FindCallingArea && ca != 0
            &&& log[i - 3].action == (Action::ReadCallPending { ca }) && log[i - 3].reply
                == Reply::Byte(1)
            &&& log[i - 2].action is FindVmsa && vmsa != 0
            &&& log[i - 1].action == (Action::ReadRegisters { vmsa })
            &&& log[i].action == (Action::ClearCallPending { ca })
            &&& call_defined(regs)
            &&& requests.stage == if upper_half(regs.rax) > MAX_PROTOCOL_ID {
                Stage::Answering {
                    vmsa,
                    answer: Answer { rax: SVSM_ERR_UNSUPPORTED_PROTOCOL, rcx: None },
                    again: false,
                }
            } else {
                serve(vmsa, None, call_start(regs, region, log[i].list))
            }
        }),
{
    let start = RequestLoop { region, stage: Stage::FindingCa };
    law_actions_were_pending(start, log, i);
    law_prefix_is_run(start, log, i);
    lemma_one_call_at_a_time(region, log.take(i));
    lemma_unanswered_is_pending(after(start, log.take(i)).stage->Serving_call);
    assert(after(start, log.take(i)).stage is Taking);
    if i == 0 {
        assert(after(start, log.take(0)) == start);
    }
    law_actions_were_pending(start, log, i - 1);
    assert(after(start, log.take(i - 1)).stage is ReadingRegs);
    if i == 1 {
        assert(after(start, log.take(0)) == start);
    }
    law_actions_were_pending(start, log, i - 2);
    assert(after(start, log.take(i - 2)).stage is FindingVmsa);
    if i == 2 {
        assert(after(start, log.take(0)) == start);
    }
    law_actions_were_pending(start, log, i - 3);
    assert(after(start, log.take(i - 3)).stage is CheckingPending);
    if i == 3 {
        assert(after(start, log.take(0)) == start);
    }
    law_actions_were_pending(start, log, i - 4);
    assert(after(start, log.take(i - 4)).stage is FindingCa);
}

/// The RAX that the caller has been given since its call was taken, if any.
pub open spec fn rax_given(log: Seq<Exchange>) -> Option<u64>
    decreases log.len(),
{
    if log.len() == 0 {
        None
    } else {
        match log.last().action {
            Action::ClearCallPending { .. } => None,
            Action::SetRax { rax, .. } | Action::Answer { rax, .. } => Some(rax),
            _ => rax_given(log.drop_last()),
        }
    }
}

/// Whenever the platform works for a call, the caller's RAX is set as it should be at this point
/// of the call.
pub proof fn law_rax_is_kept_up_to_date(region: SvsmRegion, log: Seq<Exchange>)
    requires
        is_run((RequestLoop { region, stage: Stage::FindingCa }), log),
    ensures
        after((RequestLoop { region, stage: Stage::FindingCa }), log).stage matches
            Stage::Serving { call, .. } ==> rax_given(log) == Some(call.rax_so_far()),
    decreases log.len(),
{
    if log.len() > 0 {
        let start = RequestLoop { region, stage: Stage::FindingCa };
        law_rax_is_kept_up_to_date(region, log.drop_last());
        lemma_unanswered_is_pending(after(start, log.drop_last()).stage->Serving_call);
    }
}

/// The exchanges of `log` that a call is served with: all but those that set the caller's RAX.
pub open spec fn service_part(log: Seq<Exchange>) -> Seq<Exchange>
    decreases log.len(),
{
    if log.len() == 0 {
        log
    } else if log.last().action is SetRax {
        service_part(log.drop_last())
    } else {
        service_part(log.drop_last()).push(log.last())
    }
}

/// All that is done in `log` is to serve a call and to set the caller's RAX meanwhile.
pub open spec fn only_serves(log: Seq<Exchange>) -> bool {
    forall|i: int|
        0 <= i < log.len() ==> is_service_action((#[trigger] log[i]).action)
            || log[i].action is SetRax
}

/// What the loop exchanges with the platform while it serves a call is a run of the call: what
/// holds of every run of a handler holds of these exchanges. Once the handler ends, its answer is
/// what the caller gets, in the VMSA page that the call was read from.
pub proof fn law_served_exchanges_are_a_call_run(
    region: SvsmRegion,
    stage: Stage,
    vmsa: u64,
    call: Call,
    log: Seq<Exchange>,
)
    requires
        stage == (Stage::Noting { vmsa, call }) || stage == (Stage::Serving { vmsa, call }),
        call.known_answer() is None,
        is_run((RequestLoop { region, stage }), log),
        only_serves(log),
    ensures
        is_run(call, service_part(log)),
        ({
            let reached = after(call, service_part(log));
            let requests = after((RequestLoop { region, stage }), log);
            &&& requests.region == region
            &&& match reached.known_answer() {
                Some(answer) => requests.stage == (Stage::Answering { vmsa, answer, again: true }),
                None => requests.stage == (Stage::Noting { vmsa, call: reached })
                    || requests.stage == (Stage::Serving { vmsa, call: reached }),
            }
        }),
    decreases log.len(),
{
    if log.len() > 0 {
        let shorter = log.drop_last();
        assert forall|i: int| 0 <= i < shorter.len() implies is_service_action(
            (#[trigger] shorter[i]).action,
        ) || shorter[i].action is SetRax by {
            assert(shorter[i] == log[i]);
        }
        law_served_exchanges_are_a_call_run(region, stage, vmsa, call, shorter);
        assert(is_service_action(log[log.len() - 1].action) || log[log.len() - 1].action is SetRax);
        lemma_unanswered_is_pending(after(call, service_part(shorter)));
        if !(log.last().action is SetRax) {
            assert(service_part(log).drop_last() =~= service_part(shorter));
        }
    }
}

/// From the moment a call of a supported protocol is taken, what is exchanged to serve it is a run
/// of the call that its registers say, up to the answer.
pub proof fn law_taken_call_is_run(region: SvsmRegion, log: Seq<Exchange>, i: int, end: int)
    requires
        is_run((RequestLoop { region, stage: Stage::FindingCa }), log),
        0 <= i < end <= log.len(),
        log[i].action is ClearCallPending,
        upper_half(log[i - 1].reply->Registers_0.rax) <= MAX_PROTOCOL_ID,
        call_start(
            log[i - 1].reply->Registers_0,
            region,
            log[i].list,
        ).known_answer() is None,
        only_serves(log.subrange(i + 1, end)),
    ensures
        ({
            let vmsa = log[i - 2].reply->Address_0;
            let call = call_start(log[i - 1].reply->Registers_0, region, log[i].list);
            let served = service_part(log.subrange(i + 1, end));
            let requests = after(
                (RequestLoop { region, stage: Stage::FindingCa }),
                log.take(end),
            );
            &&& is_run(call, served)
            &&& match after(call, served).known_answer() {
                Some(answer) => requests.stage == (Stage::Answering { vmsa, answer, again: true }),
                None => requests.stage is Noting || requests.stage is Serving,
            }
        }),
{
    let start = RequestLoop { region, stage: Stage::FindingCa };
    law_call_is_dispatched(region, log, i);
    law_prefix_is_run(start, log, end);
    law_run_can_be_cut(start, log.take(end), i + 1);
    assert(log.take(end).take(i + 1) =~= log.take(i + 1));
    assert(log.take(end).skip(i + 1) =~= log.subrange(i + 1, end));
    law_prefix_is_run(start, log, i + 1);
    lemma_one_call_at_a_time(region, log.take(i + 1));
    let taken = after(start, log.take(i + 1));
    law_served_exchanges_are_a_call_run(
        region,
        taken.stage,
        log[i - 2].reply->Address_0,
        call_start(log[i - 1].reply->Registers_0, region, log[i].list),
        log.subrange(i + 1, end),
    );
}

/// A run of a call that moves the calling area is a run of its handler.
pub proof fn law_remap_call_is_handler_run(call: RemapCa, log: Seq<Exchange>)
    requires
        is_run(Call::Remap(call), log),
    ensures
        is_run(call, log),
        after(Call::Remap(call), log) == Call::Remap(after(call, log)),
    decreases log.len(),
{
    if log.len() > 0 {
        law_remap_call_is_handler_run(call, log.drop_last());
    }
}

/// A run of a call that validates pages is a run of its handler.
pub proof fn law_pvalidate_call_is_handler_run(call: PvalidateRequest, log: Seq<Exchange>)
    requires
        is_run(Call::Pvalidate(call), log),
    ensures
        is_run(call, log),
        after(Call::Pvalidate(call), log) == Call::Pvalidate(after(call, log)),
    decreases log.len(),
{
    if log.len() > 0 {
        law_pvalidate_call_is_handler_run(call, log.drop_last());
    }
}

/// A run of a call that creates a virtual CPU is a run of its handler.
pub proof fn law_create_call_is_handler_run(call: CreateVcpu, log: Seq<Exchange>)
    requires
        is_run(Call::Create(call), log),
    ensures
        is_run(call, log),
        after(Call::Create(call), log) == Call::Create(after(call, log)),
    decreases log.len(),
{
    if log.len() > 0 {
        law_create_call_is_handler_run(call, log.drop_last());
    }
}

/// A run of a call that deletes a virtual CPU is a run of its handler.
pub proof fn law_delete_call_is_handler_run(call: DeleteVcpu, log: Seq<Exchange>)
    requires
        is_run(Call::Delete(call), log),
    ensures
        is_run(call, log),
        after(Call::Delete(call), log) == Call::Delete(after(call, log)),
    decreases log.len(),
{
    if log.len() > 0 {
        law_delete_call_is_handler_run(call, log.drop_last());
    }
}

/// A virtual CPU whose VMSA page has been registered by creating it can be deleted: the page is
/// aligned and on the list, for the APIC ID it was created with unless an older entry is for the
/// same page. Once its only entry is taken off the list, deleting it again is refused.
pub proof fn law_created_can_be_deleted(rcx: u64, rdx: u64, r8: u64, list: Seq<VmsaInfo>)
    requires
        create_start(rcx, rdx, r8) is MappingVmsa,
    ensures
        ({
            let apic_id = lower_half(r8) as u32;
            let created = list.push(VmsaInfo { gpa: rcx, apic_id });
            &&& delete_start(rcx, created) == (DeleteVcpu::FindingCpu {
                gpa: rcx,
                apic_id: if registered(list, rcx) {
                    apic_id_of(list, rcx)->0
                } else {
                    apic_id
                },
            })
            &&& at_most_once(created, rcx) ==> delete_start(rcx, unregistered(created, rcx)) == (
            DeleteVcpu::Finished { rax: SVSM_ERR_INVALID_PARAMETER })
        }),
{
    let info = VmsaInfo { gpa: rcx, apic_id: lower_half(r8) as u32 };
    law_added_is_registered(list, info, rcx);
    if at_most_once(list.push(info), rcx) {
        law_removed_is_gone(list.push(info), rcx);
    }
}

/// Deleting a virtual CPU undoes what creating it did to the list of VMSA pages: where the page was
/// not registered before, and the deletion finds the list as the creation left it, the list ends
/// up as it was before the creation.
pub proof fn law_deletion_undoes_creation(
    gpa: u64,
    ca_gpa: u64,
    apic_id: u32,
    created: Seq<Exchange>,
    deleted: Seq<Exchange>,
)
    requires
        is_run((CreateVcpu::MappingVmsa { gpa, ca_gpa, apic_id }), created),
        after((CreateVcpu::MappingVmsa { gpa, ca_gpa, apic_id }), created) == (
        CreateVcpu::Finished { rax: SVSM_SUCCESS }),
        is_run((DeleteVcpu::FindingCpu { gpa, apic_id }), deleted),
        after((DeleteVcpu::FindingCpu { gpa, apic_id }), deleted) == (DeleteVcpu::Finished {
            rax: SVSM_SUCCESS,
        }),
        !registered(created[9].list, gpa),
        deleted.last().list == after(
            (CreateVcpu::MappingVmsa { gpa, ca_gpa, apic_id }),
            created.take(9),
        ).next_list(created[9].reply, created[9].list),
    ensures
        after((DeleteVcpu::FindingCpu { gpa, apic_id }), deleted.drop_last()).next_list(
            deleted.last().reply,
            deleted.last().list,
        ) == created[9].list,
{
    let start = CreateVcpu::MappingVmsa { gpa, ca_gpa, apic_id };
    law_created_was_checked(gpa, ca_gpa, apic_id, created);
    law_prefix_is_run(start, created, 10);
    let registering = created.take(10);
    law_create_follows_script(gpa, ca_gpa, apic_id, registering);
    assert(registering.drop_last() =~= created.take(9));
    assert(create_ok_until(registering, 10)) by {
        assert forall|i: int| 0 <= i < 10 implies #[trigger] create_ok(registering, i) by {
            assert(create_ok(created, i));
            assert(registering[i] == created[i]);
        }
    }
    law_delete_follows_script(gpa, apic_id, deleted);
    law_removal_undoes_addition(created[9].list, VmsaInfo { gpa, apic_id });
}

/// What is done while no call is being served, from one exchange to the next. The calling area of
/// VMPL1 is looked up; if there is one, its flag is read; if that is 1, the VMSA page of VMPL1 is
/// looked up; if there is one, the registers in it are read, and the flag is cleared. Wherever
/// something is missing, VMPL1 is run, and then the next call is looked for. After an answer, the
/// next call is looked for at once, unless the call was of a protocol above 1: then VMPL1 is run.
pub proof fn law_loop_step_by_step(region: SvsmRegion, log: Seq<Exchange>)
    requires
        is_run((RequestLoop { region, stage: Stage::FindingCa }), log),
    ensures
        ({
            let start = RequestLoop { region, stage: Stage::FindingCa };
            let reached = after(start, log);
            let pending = reached.pending();
            let last = log.last();
            let n = log.len() as int;
            let run = Some(Action::RunVmpl { vmpl: 1 });
            let look = Some(Action::FindCallingArea { vmpl: 1 });
            &&& reached.region == region
            &&& n == 0 ==> pending == look
            &&& n > 0 ==> {
                &&& last.action is FindCallingArea && last.reply == Reply::Address(0) ==> pending
                    == run
                &&& last.action is FindCallingArea && last.reply != Reply::Address(0) ==> pending
                    == Some((Action::ReadCallPending { ca: last.reply->Address_0 }))
                &&& last.action is ReadCallPending && last.reply == Reply::Byte(1) ==> pending
                    == Some((Action::FindVmsa { vmpl: 1 }))
                &&& last.action is ReadCallPending && last.reply != Reply::Byte(1) ==> pending
                    == run
                &&& last.action is FindVmsa && last.reply == Reply::Address(0) ==> pending == run
                &&& last.action is FindVmsa && last.reply != Reply::Address(0) ==> pending == Some(
                    (Action::ReadRegisters { vmsa: last.reply->Address_0 }),
                )
                &&& last.action is ReadRegisters ==> n >= 4 && pending == Some(
                    (Action::ClearCallPending { ca: log[n - 4].reply->Address_0 }),
                )
                &&& last.action is RunVmpl ==> pending == look
                &&& last.action is Answer ==> n >= 3 && pending == if log[n
                    - 2].action is ClearCallPending && log[n - 3].reply->Registers_0.rax as int
                    / 0x1_0000_0000 > 1 {
                    run
                } else {
                    look
                }
            }
        }),
{
    let start = RequestLoop { region, stage: Stage::FindingCa };
    let n = log.len() as int;
    lemma_one_call_at_a_time(region, log);
    if n > 0 {
        let shorter = log.drop_last();
        lemma_one_call_at_a_time(region, shorter);
        lemma_unanswered_is_pending(after(start, shorter).stage->Serving_call);
        assert(shorter =~= log.take(n - 1));
        let before = after(start, shorter);
        if log.last().action is ReadRegisters {
            assert(before.stage is ReadingRegs);
            lemma_found_right_before(region, log, n - 1);
        }
        if log.last().action is Answer {
            assert(before.stage is Answering);
            if n == 1 {
                assert(before == start);
            }
            law_actions_were_pending(start, log, n - 2);
            law_prefix_is_run(start, log, n - 2);
            lemma_one_call_at_a_time(region, log.take(n - 2));
            lemma_unanswered_is_pending(after(start, log.take(n - 2)).stage->Serving_call);
            if n == 2 {
                assert(after(start, log.take(0)) == start);
            }
            if log[n - 2].action is ClearCallPending {
                law_call_is_dispatched(region, log, n - 2);
            } else if n == 2 {
                assert(false);
            }
        }
    }
}

/// The registers are read right after the calling area, its flag and the VMSA page were found.
proof fn lemma_found_right_before(region: SvsmRegion, log: Seq<Exchange>, i: int)
    requires
        is_run((RequestLoop { region, stage: Stage::FindingCa }), log),
        0 <= i < log.len(),
        log[i].action is ReadRegisters,
    ensures
        i >= 3,
        after((RequestLoop { region, stage: Stage::FindingCa }), log.take(i)).stage == (
        Stage::ReadingRegs { ca: log[i - 3].reply->Address_0, vmsa: log[i - 1].reply->Address_0 }),
{
    let start = RequestLoop { region, stage: Stage::FindingCa };
    assert(after(start, log.take(0)) == start);
    law_actions_were_pending(start, log, i);
    law_prefix_is_run(start, log, i);
    lemma_one_call_at_a_time(region, log.take(i));
    lemma_unanswered_is_pending(after(start, log.take(i)).stage->Serving_call);
    assert(after(start, log.take(i)).stage is ReadingRegs);
    law_actions_were_pending(start, log, i - 1);
    assert(after(start, log.take(i - 1)).stage is FindingVmsa);
    law_actions_were_pending(start, log, i - 2);
    assert(after(start, log.take(i - 2)).stage is CheckingPending);
    law_actions_were_pending(start, log, i - 3);
}

/// A call of a protocol above 1 is answered with an unsupported protocol, whatever else is in the
/// registers.
pub proof fn law_taken_call_of_other_protocol(region: SvsmRegion, log: Seq<Exchange>, i: int)
    requires
        is_run((RequestLoop { region, stage: Stage::FindingCa }), log),
        0 <= i < log.len(),
        log[i].action is ClearCallPending,
        log[i - 1].reply->Registers_0.rax as int / 0x1_0000_0000 > 1,
    ensures
        ({
            let vmsa = log[i - 2].reply->Address_0;
            let regs = log[i - 1].reply->Registers_0;
            let requests = after(
                (RequestLoop { region, stage: Stage::FindingCa }),
                log.take(i + 1),
            );
            &&& requests.stage == (Stage::Answering {
                vmsa,
                answer: Answer { rax: 0x8000_0001, rcx: None },
                again: false,
            })
            &&& requests.pending() == Some(
                (Action::Answer { vmsa, rax: 0x8000_0001, rcx: None }),
            )
        }),
{
    law_call_is_dispatched(region, log, i);
}

/// A call of a supported protocol whose ID, the lower half of RAX, is none of 0 to 3, 6 and 7 is
/// answered with an unsupported call.
pub proof fn law_taken_call_of_unknown_id(region: SvsmRegion, log: Seq<Exchange>, i: int)
    requires
        is_run((RequestLoop { region, stage: Stage::FindingCa }), log),
        0 <= i < log.len(),
        log[i].action is ClearCallPending,
        log[i - 1].reply->Registers_0.rax as int / 0x1_0000_0000 <= 1,
        ({
            let id = log[i - 1].reply->Registers_0.rax as int % 0x1_0000_0000;
            id == 4 || id == 5 || id > 7
        }),
    ensures
        ({
            let vmsa = log[i - 2].reply->Address_0;
            let regs = log[i - 1].reply->Registers_0;
            let requests = after(
                (RequestLoop { region, stage: Stage::FindingCa }),
                log.take(i + 1),
            );
            requests.stage == (Stage::Answering {
                vmsa,
                answer: Answer { rax: 0x8000_0002, rcx: None },
                again: true,
            })
        }),
{
    law_call_is_dispatched(region, log, i);
}

/// Call 0 moves the calling area to RCX, for the level in the VMSA page, if the address is a
/// multiple of 8, its small page does not reach into the memory of the SVSM and is no registered
/// VMSA page, and the level is one of 1 to 3. Otherwise it is answered with an invalid parameter.
pub proof fn law_taken_remap_call(region: SvsmRegion, log: Seq<Exchange>, i: int)
    requires
        is_run((RequestLoop { region, stage: Stage::FindingCa }), log),
        0 <= i < log.len(),
        log[i].action is ClearCallPending,
        log[i - 1].reply->Registers_0.rax as int / 0x1_0000_0000 <= 1,
        log[i - 1].reply->Registers_0.rax as int % 0x1_0000_0000 == 0,
    ensures
        ({
            let vmsa = log[i - 2].reply->Address_0;
            let regs = log[i - 1].reply->Registers_0;
            let requests = after(
                (RequestLoop { region, stage: Stage::FindingCa }),
                log.take(i + 1),
            );
            let list = log[i].list;
            let page = regs.rcx - regs.rcx % 0x1000;
            let accepted = {
                &&& regs.rcx % 8 == 0
                &&& page + 0x1000 <= region.begin || region.end <= page
                &&& forall|j: int| 0 <= j < list.len() ==> (#[trigger] list[j]).gpa != page
                &&& 1 <= regs.vmpl <= 3
            };
            &&& accepted ==> requests.stage == (Stage::Noting {
                vmsa,
                call: Call::Remap(RemapCa::Mapping { gpa: regs.rcx, vmpl: regs.vmpl }),
            })
            &&& !accepted ==> requests.stage == (Stage::Answering {
                vmsa,
                answer: Answer { rax: 0x8000_0005, rcx: None },
                again: true,
            })
        }),
{
    law_call_is_dispatched(region, log, i);
    let regs = log[i - 1].reply->Registers_0;
    law_remap_is_for_foreign_pages(regs.rcx, regs.vmpl, region, log[i].list, 0);
}

/// Call 1 works on the list at RCX if the address is a multiple of 8. Otherwise it is answered with
/// an invalid parameter.
pub proof fn law_taken_pvalidate_call(region: SvsmRegion, log: Seq<Exchange>, i: int)
    requires
        is_run((RequestLoop { region, stage: Stage::FindingCa }), log),
        0 <= i < log.len(),
        log[i].action is ClearCallPending,
        log[i - 1].reply->Registers_0.rax as int / 0x1_0000_0000 <= 1,
        log[i - 1].reply->Registers_0.rax as int % 0x1_0000_0000 == 1,
    ensures
        ({
            let vmsa = log[i - 2].reply->Address_0;
            let regs = log[i - 1].reply->Registers_0;
            let requests = after(
                (RequestLoop { region, stage: Stage::FindingCa }),
                log.take(i + 1),
            );
            &&& regs.rcx % 8 == 0 ==> requests.stage == (Stage::Noting {
                vmsa,
                call: Call::Pvalidate(PvalidateRequest::Mapping { region, gpa: regs.rcx }),
            })
            &&& regs.rcx % 8 != 0 ==> requests.stage == (Stage::Answering {
                vmsa,
                answer: Answer { rax: 0x8000_0005, rcx: None },
                again: true,
            })
        }),
{
    law_call_is_dispatched(region, log, i);
}

/// Call 2 creates a virtual CPU with the VMSA page at RCX, the calling area at RDX and the APIC ID
/// in the lower 32 bits of R8, if both addresses are aligned to a small page. Otherwise it is
/// answered with an invalid parameter.
pub proof fn law_taken_create_call(region: SvsmRegion, log: Seq<Exchange>, i: int)
    requires
        is_run((RequestLoop { region, stage: Stage::FindingCa }), log),
        0 <= i < log.len(),
        log[i].action is ClearCallPending,
        log[i - 1].reply->Registers_0.rax as int / 0x1_0000_0000 <= 1,
        log[i - 1].reply->Registers_0.rax as int % 0x1_0000_0000 == 2,
    ensures
        ({
            let vmsa = log[i - 2].reply->Address_0;
            let regs = log[i - 1].reply->Registers_0;
            let requests = after(
                (RequestLoop { region, stage: Stage::FindingCa }),
                log.take(i + 1),
            );
            let aligned = regs.rcx % 0x1000 == 0 && regs.rdx % 0x1000 == 0;
            &&& aligned ==> requests.stage == (Stage::Noting {
                vmsa,
                call: Call::Create(
                    CreateVcpu::MappingVmsa {
                        gpa: regs.rcx,
                        ca_gpa: regs.rdx,
                        apic_id: (regs.r8 % 0x1_0000_0000) as u32,
                    },
                ),
            })
            &&& !aligned ==> requests.stage == (Stage::Answering {
                vmsa,
                answer: Answer { rax: 0x8000_0005, rcx: None },
                again: true,
            })
        }),
{
    law_call_is_dispatched(region, log, i);
    let regs = log[i - 1].reply->Registers_0;
    law_creation_needs_aligned_pages(regs.rcx, regs.rdx, regs.r8);
}

/// Call 3 deletes the virtual CPU whose VMSA page is at RCX, if the address is aligned to a small
/// page and on the list: its APIC ID is that of the first entry for the page, here at `k`.
/// Otherwise it is answered with an invalid parameter.
pub proof fn law_taken_delete_call(region: SvsmRegion, log: Seq<Exchange>, i: int, k: int)
    requires
        is_run((RequestLoop { region, stage: Stage::FindingCa }), log),
        0 <= i < log.len(),
        log[i].action is ClearCallPending,
        log[i - 1].reply->Registers_0.rax as int / 0x1_0000_0000 <= 1,
        log[i - 1].reply->Registers_0.rax as int % 0x1_0000_0000 == 3,
    ensures
        ({
            let vmsa = log[i - 2].reply->Address_0;
            let regs = log[i - 1].reply->Registers_0;
            let requests = after(
                (RequestLoop { region, stage: Stage::FindingCa }),
                log.take(i + 1),
            );
            let list = log[i].list;
            let rcx = regs.rcx;
            let aligned = rcx % 0x1000 == 0;
            &&& aligned && 0 <= k < list.len() && list[k].gpa == rcx && (forall|j: int|
                0 <= j < k ==> (#[trigger] list[j]).gpa != rcx) ==> requests.stage == (
            Stage::Noting {
                vmsa,
                call: Call::Delete(
                    DeleteVcpu::FindingCpu { gpa: rcx, apic_id: list[k].apic_id },
                ),
            })
            &&& !aligned || (forall|j: int|
                0 <= j < list.len() ==> (#[trigger] list[j]).gpa != rcx) ==> requests.stage == (
            Stage::Answering {
                vmsa,
                answer: Answer { rax: 0x8000_0005, rcx: None },
                again: true,
            })
        }),
{
    law_call_is_dispatched(region, log, i);
    law_deletion_is_for_listed_pages(log[i - 1].reply->Registers_0.rcx, log[i].list, k);
}

/// Call 6 asks about a protocol: the answer is a success, with version 1 as the highest and the
/// lowest one in RCX if RCX asks for version 1 of protocol 0, and with 0 otherwise.
pub proof fn law_taken_query_call(region: SvsmRegion, log: Seq<Exchange>, i: int)
    requires
        is_run((RequestLoop { region, stage: Stage::FindingCa }), log),
        0 <= i < log.len(),
        log[i].action is ClearCallPending,
        log[i - 1].reply->Registers_0.rax as int / 0x1_0000_0000 <= 1,
        log[i - 1].reply->Registers_0.rax as int % 0x1_0000_0000 == 6,
    ensures
        ({
            let vmsa = log[i - 2].reply->Address_0;
            let regs = log[i - 1].reply->Registers_0;
            let requests = after(
                (RequestLoop { region, stage: Stage::FindingCa }),
                log.take(i + 1),
            );
            let answer: u64 = if regs.rcx == 1 {
                0x1_0000_0001
            } else {
                0
            };
            requests.stage == (Stage::Answering {
                vmsa,
                answer: Answer { rax: 0, rcx: Some(answer) },
                again: true,
            })
        }),
{
    law_call_is_dispatched(region, log, i);
    law_only_core_version_1(log[i - 1].reply->Registers_0.rcx);
}

/// Call 7 is about the virtual top of memory: a question, for which RCX is 1, finds 0, and anything
/// else is an invalid request.
pub proof fn law_taken_vtom_call(region: SvsmRegion, log: Seq<Exchange>, i: int)
    requires
        is_run((RequestLoop { region, stage: Stage::FindingCa }), log),
        0 <= i < log.len(),
        log[i].action is ClearCallPending,
        log[i - 1].reply->Registers_0.rax as int / 0x1_0000_0000 <= 1,
        log[i - 1].reply->Registers_0.rax as int % 0x1_0000_0000 == 7,
    ensures
        ({
            let vmsa = log[i - 2].reply->Address_0;
            let regs = log[i - 1].reply->Registers_0;
            let requests = after(
                (RequestLoop { region, stage: Stage::FindingCa }),
                log.take(i + 1),
            );
            &&& regs.rcx == 1 ==> requests.stage == (Stage::Answering {
                vmsa,
                answer: Answer { rax: 0, rcx: Some(0) },
                again: true,
            })
            &&& regs.rcx != 1 ==> requests.stage == (Stage::Answering {
                vmsa,
                answer: Answer { rax: 0x8000_0006, rcx: None },
                again: true,
            })
        }),
{
    law_call_is_dispatched(region, log, i);
}

/// The registers of a call can be worked on, of a protocol up to 1, if the addresses in them have
/// 52 bits: RCX for calls 0 to 3, and RDX for call 2. For call 0 the end of the page that RCX lies
/// in must have 52 bits too, if RCX is a multiple of 8. Call 6 must not ask about protocol 1.
pub proof fn law_registers_that_make_sense(regs: CallRegs)
    ensures
        ({
            let protocol = regs.rax as int / 0x1_0000_0000;
            let id = regs.rax as int % 0x1_0000_0000;
            let limit = 0x10_0000_0000_0000int;
            &&& protocol > 1 ==> call_defined(regs)
            &&& protocol <= 1 && (id == 1 || id == 3) ==> (call_defined(regs) <==> regs.rcx
                < limit)
            &&& protocol <= 1 && id == 0 ==> (call_defined(regs) <==> regs.rcx < limit && (regs.rcx
                % 8 == 0 ==> regs.rcx - regs.rcx % 0x1000 + 0x1000 < limit))
            &&& protocol <= 1 && id == 2 ==> (call_defined(regs) <==> regs.rcx < limit && regs.rdx
                < limit)
            &&& protocol <= 1 && id == 6 ==> (call_defined(regs) <==> regs.rcx as int
                / 0x1_0000_0000 != 1)
            &&& protocol <= 1 && (id == 4 || id == 5 || id > 6) ==> call_defined(regs)
        }),
{
    assert(protocol_versions().len() == 1);
}

/// A call that is being served does what its handler does: it waits for the same action, takes the
/// same replies, changes the list in the same way, and the caller's RAX is the handler's. In all
/// this, the loop does what the call does. At no other time does the loop change the list.
pub proof fn law_served_call_is_its_handler(
    requests: RequestLoop,
    reply: Reply,
    list: Seq<VmsaInfo>,
)
    ensures
        requests.next_list(reply, list) == match requests.stage {
            Stage::Serving { call: Call::Remap(handler), .. } => handler.next_list(reply, list),
            Stage::Serving { call: Call::Pvalidate(handler), .. } => handler.next_list(reply, list),
            Stage::Serving { call: Call::Create(handler), .. } => handler.next_list(reply, list),
            Stage::Serving { call: Call::Delete(handler), .. } => handler.next_list(reply, list),
            _ => list,
        },
        requests.stage is Serving ==> requests.pending() == match requests.stage->Serving_call {
            Call::Remap(handler) => handler.pending(),
            Call::Pvalidate(handler) => handler.pending(),
            Call::Create(handler) => handler.pending(),
            Call::Delete(handler) => handler.pending(),
            Call::Answered { .. } => None,
        },
        requests.stage is Noting ==> requests.pending() == Some(
            (Action::SetRax {
                vmsa: requests.stage->Noting_vmsa,
                rax: match requests.stage->Noting_call {
                    Call::Remap(handler) => handler.rax_so_far(),
                    Call::Pvalidate(handler) => handler.rax_so_far(),
                    Call::Create(handler) => handler.rax_so_far(),
                    Call::Delete(handler) => handler.rax_so_far(),
                    Call::Answered { answer } => answer.rax,
                },
            }),
        ),
        requests.defined(reply) <==> match requests.stage {
            Stage::ReadingRegs { .. } => reply is Registers ==> call_defined(reply->Registers_0),
            Stage::Serving { call: Call::Pvalidate(handler), .. } => handler.defined(reply),
            _ => true,
        },
{
}

/// How serving a call goes on after a reply, by what its handler has become: if the handler has
/// ended, its answer is given, in the VMSA page of the caller, with that very RAX and with RCX
/// left alone. If it has not, the caller's RAX is set first if it would find another value there
/// than before, and then the handler goes on.
pub proof fn law_handler_decides_how_it_goes_on(
    requests: RequestLoop,
    vmsa: u64,
    reply: Reply,
    list: Seq<VmsaInfo>,
)
    ensures
        ({
            let after = requests.next(reply, list);
            let goes_on = |rax_before: u64, rax_now: u64, call: Call|
                {
                    &&& rax_before == rax_now ==> after.stage == (Stage::Serving { vmsa, call })
                    &&& rax_before != rax_now ==> after.stage == (Stage::Noting { vmsa, call })
                };
            let answered_with = |rax: u64|
                after.pending() == Some((Action::Answer { vmsa, rax, rcx: None })) && after.stage
                    == (Stage::Answering { vmsa, answer: Answer { rax, rcx: None }, again: true });
            match requests.stage {
                Stage::Serving { vmsa: caller, call: Call::Remap(handler) } => caller == vmsa
                    ==> match handler.next(reply, list) {
                    RemapCa::Finished { rax } => answered_with(rax),
                    now => goes_on(handler.rax_so_far(), now.rax_so_far(), Call::Remap(now)),
                },
                Stage::Serving { vmsa: caller, call: Call::Pvalidate(handler) } => caller == vmsa
                    ==> match handler.next(reply, list) {
                    PvalidateRequest::Finished { rax } => answered_with(rax),
                    now => goes_on(handler.rax_so_far(), now.rax_so_far(), Call::Pvalidate(now)),
                },
                Stage::Serving { vmsa: caller, call: Call::Create(handler) } => caller == vmsa
                    ==> match handler.next(reply, list) {
                    CreateVcpu::Finished { rax } => answered_with(rax),
                    now => goes_on(handler.rax_so_far(), now.rax_so_far(), Call::Create(now)),
                },
                Stage::Serving { vmsa: caller, call: Call::Delete(handler) } => caller == vmsa
                    ==> match handler.next(reply, list) {
                    DeleteVcpu::Finished { rax } => answered_with(rax),
                    now => goes_on(handler.rax_so_far(), now.rax_so_far(), Call::Delete(now)),
                },
                Stage::Noting { vmsa: caller, call } => caller == vmsa ==> after.stage == (
                Stage::Serving { vmsa, call }),
                _ => true,
            }
        }),
{
}

/// Once the handler of a call that is being served has ended with some RAX, the next thing that the
/// loop does is to give the caller that very RAX, and to leave its RCX alone.
pub proof fn law_finished_handler_is_answered(
    region: SvsmRegion,
    stage: Stage,
    vmsa: u64,
    call: Call,
    log: Seq<Exchange>,
    rax: u64,
)
    requires
        stage == (Stage::Noting { vmsa, call }) || stage == (Stage::Serving { vmsa, call }),
        call.pending() is Some,
        is_run((RequestLoop { region, stage }), log),
        only_serves(log),
    ensures
        is_run(call, service_part(log)),
        ({
            let reached = after(call, service_part(log));
            let ended = {
                ||| reached == Call::Remap(RemapCa::Finished { rax })
                ||| reached == Call::Pvalidate(PvalidateRequest::Finished { rax })
                ||| reached == Call::Create(CreateVcpu::Finished { rax })
                ||| reached == Call::Delete(DeleteVcpu::Finished { rax })
            };
            ended ==> after((RequestLoop { region, stage }), log).pending() == Some(
                (Action::Answer { vmsa, rax, rcx: None }),
            )
        }),
{
    law_served_exchanges_are_a_call_run(region, stage, vmsa, call, log);
}

/// A virtual CPU that is created gets what the registers say. If call 2 of a supported protocol is
/// taken and the next thing after serving it, from the exchange at `i` up to `end`, is to answer
/// with a success, then the page at RCX and the calling area at RDX were mapped, and the CPU that
/// has the lower 32 bits of R8 as its APIC ID was given the addresses they were mapped to.
pub proof fn law_created_by_the_registers(
    region: SvsmRegion,
    log: Seq<Exchange>,
    i: int,
    end: int,
)
    requires
        is_run((RequestLoop { region, stage: Stage::FindingCa }), log),
        0 <= i < end <= log.len(),
        log[i].action is ClearCallPending,
        log[i - 1].reply->Registers_0.rax as int / 0x1_0000_0000 <= 1,
        log[i - 1].reply->Registers_0.rax as int % 0x1_0000_0000 == 2,
        only_serves(log.subrange(i + 1, end)),
        after((RequestLoop { region, stage: Stage::FindingCa }), log.take(end)).pending()
            matches Some(Action::Answer { rax, .. }) && rax == 0,
    ensures
        ({
            let regs = log[i - 1].reply->Registers_0;
            let served = service_part(log.subrange(i + 1, end));
            let va = served[0].reply->Mapped_0->0;
            let ca = served[1].reply->Mapped_0->0;
            let cpu = served[10].reply->Cpu_0->0;
            &&& served.len() == 14
            &&& served[0].action == (Action::MapPrivate { gpa: regs.rcx, len: 0x1000 })
            &&& served[0].reply == Reply::Mapped(Some(va))
            &&& served[1].action == (Action::MapPrivate { gpa: regs.rdx, len: 0x1000 })
            &&& served[1].reply == Reply::Mapped(Some(ca))
            &&& served[10].action == (Action::FindCpu {
                apic_id: (regs.r8 % 0x1_0000_0000) as u32,
            })
            &&& served[10].reply == Reply::Cpu(Some(cpu))
            &&& served[11].action == (Action::SetVmsaFor { va, vmpl: 1, cpu })
            &&& served[12].action == (Action::SetCallingAreaFor { va: ca, vmpl: 1, cpu })
        }),
{
    let start = RequestLoop { region, stage: Stage::FindingCa };
    let regs = log[i - 1].reply->Registers_0;
    let rest = log.subrange(i + 1, end);
    let served = service_part(rest);
    let requests = after(start, log.take(end));
    let gpa = regs.rcx;
    let ca_gpa = regs.rdx;
    let apic_id = (regs.r8 % 0x1_0000_0000) as u32;
    let handler = CreateVcpu::MappingVmsa { gpa, ca_gpa, apic_id };
    assert(gpa % 0x1000 == 0 && ca_gpa % 0x1000 == 0) by {
        if gpa % 0x1000 != 0 || ca_gpa % 0x1000 != 0 {
            law_taken_create_call(region, log, i);
            lemma_rest_is_run(start, log, i + 1, end);
            lemma_answer_is_not_served(after(start, log.take(i + 1)), rest);
            assert(false);
        }
    }
    assert(call_start(regs, region, log[i].list) == Call::Create(handler)) by {
        law_creation_needs_aligned_pages(gpa, ca_gpa, regs.r8);
    }
    assert(is_run(Call::Create(handler), served) && match after(
        Call::Create(handler),
        served,
    ).known_answer() {
        Some(answer) => requests.stage is Answering && requests.stage->answer == answer,
        None => requests.stage is Noting || requests.stage is Serving,
    }) by {
        law_taken_call_is_run(region, log, i, end);
    }
    law_create_call_is_handler_run(handler, served);
    lemma_unanswered_is_pending(requests.stage->Serving_call);
    assert(after(handler, served) == (CreateVcpu::Finished { rax: 0 }));
    law_created_with_its_arguments(gpa, ca_gpa, apic_id, served);
}

/// The part of a run between two points is a run of what the first point has led to.
proof fn lemma_rest_is_run(start: RequestLoop, log: Seq<Exchange>, from: int, end: int)
    requires
        is_run(start, log),
        0 <= from <= end <= log.len(),
    ensures
        is_run(after(start, log.take(from)), log.subrange(from, end)),
        after(after(start, log.take(from)), log.subrange(from, end)) == after(
            start,
            log.take(end),
        ),
{
    law_prefix_is_run(start, log, end);
    law_run_can_be_cut(start, log.take(end), from);
    assert(log.take(end).take(from) =~= log.take(from));
    assert(log.take(end).skip(from) =~= log.subrange(from, end));
}

/// While an answer is due, nothing else is done.
proof fn lemma_answer_is_not_served(requests: RequestLoop, log: Seq<Exchange>)
    requires
        requests.stage is Answering,
        is_run(requests, log),
        only_serves(log),
    ensures
        log.len() == 0,
{
    if log.len() > 0 {
        law_actions_were_pending(requests, log, 0);
        assert(after(requests, log.take(0)) == requests);
        assert(is_service_action(log[0].action) || log[0].action is SetRax);
    }
}

/// A call has an answer as soon as its handler has ended, namely the RAX it ended with, or if it
/// is answered without one. As long as it waits for the platform, it has none.
pub proof fn law_answer_of_a_call(call: Call, rax: u64, answer: Answer)
    ensures
        ({
            let ended = {
                ||| call == Call::Remap(RemapCa::Finished { rax })
                ||| call == Call::Pvalidate(PvalidateRequest::Finished { rax })
                ||| call == Call::Create(CreateVcpu::Finished { rax })
                ||| call == Call::Delete(DeleteVcpu::Finished { rax })
            };
            &&& ended ==> call.known_answer() == Some((Answer { rax, rcx: None }))
            &&& call == (Call::Answered { answer }) ==> call.known_answer() == Some(answer)
            &&& call.pending() is Some ==> call.known_answer() is None
        }),
{
}

} // verus!

//! Validating a page, or rescinding its validation.

use vstd::prelude::*;

use crate::addr::{frame_of, is_physical, page_start};
use crate::guest_page::{
    address_valid, law_which_pages_may_be_named, may_name, page_bytes, page_end_exists, page_len,
    SvsmRegion,
};
use crate::machine::{after, is_run, law_actions_were_pending, Exchange, Machine};
use crate::platform::{fits, Action, Reply};
use crate::protocol::{
    SVSM_ERR_INVALID_ADDRESS, SVSM_ERR_INVALID_PARAMETER, SVSM_ERR_PROTOCOL_BASE, SVSM_SUCCESS,
    VMPL1, VMPL_MAX,
};
use crate::vmpl_access::{
    grant_vmpl_access, lemma_revocation_is_level, revoke_vmpl_access, Access, VMPL_RWX,
};
use crate::vmsa_list::{VmsaInfo, VmsaList};

verus! {

/// The status of a validation that succeeded but changed nothing: the page already was in the
/// state asked for. The instruction itself returns no status above 15.
pub const PVALIDATE_CF_SET: u32 = 16;

/// What is asked for one page.
///
/// - bits 1 to 0: size code of the page
/// - bit 2: action, 1 to validate the page and 0 to rescind its validation
/// - bit 3: whether it is tolerated that nothing changes
/// - bits 11 to 4: reserved
/// - bits 63 to 12: guest frame number
#[derive(Clone, Copy, Debug, PartialEq, Eq)]
pub struct PvalidateEntry {
    pub operation: u64,
}

impl PvalidateEntry {
    /// The size code of the page.
    pub open spec fn size_code(self) -> u32 {
        (self.operation % 4) as u32
    }

    /// The page is to be validated; otherwise its validation is to be rescinded.
    pub open spec fn validates(self) -> bool {
        self.operation / 4 % 2 == 1
    }

    /// It is tolerated that nothing changes.
    pub open spec fn tolerant(self) -> bool {
        self.operation / 8 % 2 == 1
    }

    /// The guest physical address of the page.
    pub open spec fn address(self) -> u64 {
        page_start(self.operation)
    }

    /// The page address exists, and so does the end of the page.
    pub open spec fn is_defined(self) -> bool {
        &&& is_physical(self.address() as int)
        &&& page_end_exists(self.address(), self.size_code())
    }

    /// The size code of the page.
    pub fn page_size(&self) -> (page_size: u32)
        ensures
            page_size == self.size_code(),
    {
        let operation: u64 = self.operation;
        assert(operation & 3 == operation % 4) by (bit_vector);
        (operation & 3) as u32
    }

    /// 1 if the page is to be validated, 0 if its validation is to be rescinded.
    pub fn action(&self) -> (action: u32)
        ensures
            action <= 1,
            action == 1 <==> self.validates(),
    {
        let operation: u64 = self.operation;
        assert((operation >> 2) & 1 == operation / 4 % 2) by (bit_vector);
        ((operation >> 2) & 1) as u32
    }

    /// 1 if it is tolerated that nothing changes, 0 if not.
    pub fn ignore_cf(&self) -> (ignore_cf: u32)
        ensures
            ignore_cf <= 1,
            ignore_cf == 1 <==> self.tolerant(),
    {
        let operation: u64 = self.operation;
        assert((operation >> 3) & 1 == operation / 8 % 2) by (bit_vector);
        ((operation >> 3) & 1) as u32
    }

    /// The guest physical address of the page.
    pub fn gfn(&self) -> (gpa: u64)
        ensures
            gpa == self.address(),
    {
        let operation: u64 = self.operation;
        assert(operation & !0xfff == operation - operation % 0x1000) by (bit_vector);
        operation & !0xfff
    }
}

/// How handling an entry ended: the RAX it sets, whether it succeeded, and whether access to a
/// page was reduced, so that all translations must be flushed.
#[derive(Clone, Copy, Debug, PartialEq, Eq)]
pub struct PageOutcome {
    pub rax: u64,
    pub success: bool,
    pub flush: bool,
}

/// Handling one entry of a list of page validations.
#[derive(Clone, Copy, Debug, PartialEq, Eq)]
pub enum PvalidatePage {
    /// The page is mapped.
    Mapping { entry: PvalidateEntry },
    /// Access to a page that is to be given up is taken from the guest.
    Revoking { entry: PvalidateEntry, va: u64, access: Access },
    /// The page is validated, or its validation rescinded.
    Validating { entry: PvalidateEntry, va: u64 },
    /// Access to a page that has been validated is given to the guest.
    Granting { access: Access },
    /// The entry is handled.
    Finished { outcome: PageOutcome },
}

/// An entry that could not be handled.
pub open spec fn failed(rax: u64, flush: bool) -> PvalidatePage {
    PvalidatePage::Finished { outcome: PageOutcome { rax, success: false, flush } }
}

/// An entry that was handled.
pub open spec fn succeeded(flush: bool) -> PvalidatePage {
    PvalidatePage::Finished {
        outcome: PageOutcome { rax: SVSM_SUCCESS, success: true, flush },
    }
}

/// The answer that passes on the status of a failed instruction.
pub open spec fn status_answer(status: u32) -> u64 {
    (SVSM_ERR_PROTOCOL_BASE + status) as u64
}

/// The status of a validation is as good as a success.
pub open spec fn is_tolerated(entry: PvalidateEntry, status: u32) -> bool {
    status == 0 || (status == PVALIDATE_CF_SET && entry.tolerant())
}

/// Where handling `entry` starts.
pub open spec fn page_handling_start(
    entry: PvalidateEntry,
    region: SvsmRegion,
    list: Seq<VmsaInfo>,
) -> PvalidatePage {
    if may_name(entry.address(), entry.size_code(), region, list) {
        PvalidatePage::Mapping { entry }
    } else {
        failed(SVSM_ERR_INVALID_ADDRESS, false)
    }
}

/// Starts to handle `entry`.
pub fn handle_pvalidate(entry: PvalidateEntry, region: &SvsmRegion, list: &VmsaList) -> (page:
    PvalidatePage)
    requires
        entry.is_defined(),
    ensures
        page.inv(),
        page == page_handling_start(entry, *region, list@),
{
    let gpa: u64 = entry.gfn();
    proof {
        assert(page_start(gpa) == gpa);
    }
    if !address_valid(frame_of(gpa), entry.page_size(), region, list) {
        return PvalidatePage::Finished {
            outcome: PageOutcome { rax: SVSM_ERR_INVALID_ADDRESS, success: false, flush: false },
        };
    }
    PvalidatePage::Mapping { entry }
}

/// Passes on the status of a failed instruction.
fn fail(status: u32, flush: bool) -> (page: PvalidatePage)
    ensures
        page == failed(status_answer(status), flush),
{
    PvalidatePage::Finished {
        outcome: PageOutcome {
            rax: SVSM_ERR_PROTOCOL_BASE + status as u64,
            success: false,
            flush,
        },
    }
}

impl Machine for PvalidatePage {
    open spec fn inv(self) -> bool {
        match self {
            PvalidatePage::Revoking { access, entry, .. } => access.inv() && access is Adjusting
                && !entry.validates(),
            PvalidatePage::Granting { access } => access.inv() && access is Adjusting,
            _ => true,
        }
    }

    open spec fn pending(self) -> Option<Action> {
        match self {
            PvalidatePage::Mapping { entry } => Some(
                Action::MapPrivate { gpa: entry.address(), len: page_bytes(entry.size_code()) },
            ),
            PvalidatePage::Revoking { access, .. }
            | PvalidatePage::Granting { access } => access.pending(),
            PvalidatePage::Validating { entry, va } => Some(
                Action::ValidatePage {
                    va,
                    page_size: entry.size_code(),
                    validate: if entry.validates() {
                        1
                    } else {
                        0
                    },
                },
            ),
            PvalidatePage::Finished { .. } => None,
        }
    }

    open spec fn defined(self, reply: Reply) -> bool {
        true
    }

    open spec fn next(self, reply: Reply, list: Seq<VmsaInfo>) -> PvalidatePage {
        match self {
            PvalidatePage::Mapping { entry } => match reply {
                Reply::Mapped(Some(va)) => if entry.validates() {
                    PvalidatePage::Validating { entry, va }
                } else {
                    PvalidatePage::Revoking {
                        entry,
                        va,
                        access: Access::Adjusting {
                            va,
                            page_size: entry.size_code(),
                            attributes: 0,
                            level: VMPL1,
                            end: VMPL_MAX,
                        },
                    }
                },
                _ => failed(SVSM_ERR_INVALID_PARAMETER, false),
            },
            PvalidatePage::Revoking { entry, va, access } => match access.next(reply, list) {
                Access::Finished { status } => if status == 0 {
                    PvalidatePage::Validating { entry, va }
                } else {
                    failed(status_answer(status), true)
                },
                access => PvalidatePage::Revoking { entry, va, access },
            },
            PvalidatePage::Validating { entry, va } => {
                let status = reply->Status_0;
                if !is_tolerated(entry, status) {
                    failed(status_answer(status), !entry.validates())
                } else if entry.validates() {
                    PvalidatePage::Granting {
                        access: Access::Adjusting {
                            va,
                            page_size: entry.size_code(),
                            attributes: VMPL_RWX,
                            level: VMPL1,
                            end: 2,
                        },
                    }
                } else {
                    succeeded(true)
                }
            },
            PvalidatePage::Granting { access } => match access.next(reply, list) {
                Access::Finished { status } => if status == 0 {
                    succeeded(false)
                } else {
                    failed(status_answer(status), false)
                },
                access => PvalidatePage::Granting { access },
            },
            PvalidatePage::Finished { .. } => self,
        }
    }

    open spec fn next_list(self, reply: Reply, list: Seq<VmsaInfo>) -> Seq<VmsaInfo> {
        list
    }

    fn action(&self) -> (action: Option<Action>) {
        match *self {
            PvalidatePage::Mapping { entry } => Some(
                Action::MapPrivate { gpa: entry.gfn(), len: page_len(entry.page_size()) },
            ),
            PvalidatePage::Revoking { access, .. }
            | PvalidatePage::Granting { access } => access.action(),
            PvalidatePage::Validating { entry, va } => Some(
                Action::ValidatePage {
                    va,
                    page_size: entry.page_size(),
                    validate: entry.action(),
                },
            ),
            PvalidatePage::Finished { .. } => None,
        }
    }

    fn is_defined(&self, reply: &Reply) -> (is_defined: bool) {
        true
    }

    fn resume(self, reply: Reply, list: &mut VmsaList) -> (after: PvalidatePage) {
        match (self, reply) {
            (PvalidatePage::Mapping { entry }, Reply::Mapped(Some(va))) => {
                if entry.action() == 0 {
                    let access: Access = revoke_vmpl_access(va, entry.page_size());
                    PvalidatePage::Revoking { entry, va, access }
                } else {
                    PvalidatePage::Validating { entry, va }
                }
            },
            (PvalidatePage::Revoking { entry, va, access }, _) => {
                match access.resume(reply, list) {
                    Access::Finished { status } => {
                        if status != 0 {
                            return fail(status, true);
                        }
                        PvalidatePage::Validating { entry, va }
                    },
                    access => PvalidatePage::Revoking { entry, va, access },
                }
            },
            (PvalidatePage::Validating { entry, va }, Reply::Status(status)) => {
                if status != 0 {
                    if status != PVALIDATE_CF_SET || entry.ignore_cf() == 0 {
                        return fail(status, entry.action() == 0);
                    }
                }
                if entry.action() != 0 {
                    let access: Access = grant_vmpl_access(va, entry.page_size(), VMPL1);
                    return PvalidatePage::Granting { access };
                }
                PvalidatePage::Finished {
                    outcome: PageOutcome { rax: SVSM_SUCCESS, success: true, flush: true },
                }
            },
            (PvalidatePage::Granting { access }, _) => {
                match access.resume(reply, list) {
                    Access::Finished { status } => {
                        if status != 0 {
                            return fail(status, false);
                        }
                        PvalidatePage::Finished {
                            outcome: PageOutcome { rax: SVSM_SUCCESS, success: true, flush: false },
                        }
                    },
                    access => PvalidatePage::Granting { access },
                }
            },
            _ => PvalidatePage::Finished {
                outcome: PageOutcome {
                    rax: SVSM_ERR_INVALID_PARAMETER,
                    success: false,
                    flush: false,
                },
            },
        }
    }
}

/// The fields of an entry and its reserved bits make up the entry, so each field is free of the
/// others.
pub proof fn law_fields_make_the_entry(entry: PvalidateEntry)
    ensures
        entry.operation == entry.address() + entry.operation / 16 % 256 * 16 + (
        if entry.tolerant() {
            8int
        } else {
            0
        }) + (if entry.validates() {
            4int
        } else {
            0
        }) + entry.size_code(),
        entry.size_code() <= 3,
        entry.address() % 0x1000 == 0,
{
    let operation = entry.operation;
    assert(operation == (operation - operation % 0x1000) + operation / 16 % 256 * 16 + operation / 8
        % 2 * 8 + operation / 4 % 2 * 4 + operation % 4) by (bit_vector);
}

/// The action of the exchange at `i` while `entry` is handled. A page that is to be validated is
/// mapped, validated and given to the guest; one that is to be given up is mapped, taken from the
/// guest level by level, and its validation is rescinded.
pub open spec fn page_script(log: Seq<Exchange>, entry: PvalidateEntry, i: int) -> Action {
    let va = log[0].reply->Mapped_0->0;
    let page_size = entry.size_code();
    if i == 0 {
        Action::MapPrivate { gpa: entry.address(), len: page_bytes(page_size) }
    } else if entry.validates() {
        if i == 1 {
            Action::ValidatePage { va, page_size, validate: 1 }
        } else {
            Action::AdjustPage { va, page_size, attributes: VMPL_RWX | 1 }
        }
    } else {
        if i == 1 {
            Action::AdjustPage { va, page_size, attributes: 1 }
        } else if i == 2 {
            Action::AdjustPage { va, page_size, attributes: 2 }
        } else if i == 3 {
            Action::AdjustPage { va, page_size, attributes: 3 }
        } else {
            Action::ValidatePage { va, page_size, validate: 0 }
        }
    }
}

/// The exchange at `i` brought no error.
pub open spec fn page_ok(log: Seq<Exchange>, entry: PvalidateEntry, i: int) -> bool {
    if i == 0 {
        log[i].reply->Mapped_0 is Some
    } else if i == (if entry.validates() {
        1int
    } else {
        4
    }) {
        is_tolerated(entry, log[i].reply->Status_0)
    } else {
        log[i].reply->Status_0 == 0
    }
}

/// How many exchanges it takes to handle `entry` without an error.
pub open spec fn page_script_len(entry: PvalidateEntry) -> int {
    if entry.validates() {
        3
    } else {
        5
    }
}

/// How handling `entry` ended with the last exchange of `log`. A flush is owed if the page was to
/// be given up and could be mapped.
pub open spec fn page_outcome(log: Seq<Exchange>, entry: PvalidateEntry) -> PageOutcome {
    let flush = !entry.validates() && log.len() > 1;
    if page_ok(log, entry, log.len() - 1) {
        PageOutcome { rax: SVSM_SUCCESS, success: true, flush }
    } else if log.len() == 1 {
        PageOutcome { rax: SVSM_ERR_INVALID_PARAMETER, success: false, flush }
    } else {
        PageOutcome { rax: status_answer(log.last().reply->Status_0), success: false, flush }
    }
}

/// The state that the exchanges of `log` lead to.
spec fn page_state(log: Seq<Exchange>, entry: PvalidateEntry) -> PvalidatePage {
    let n = log.len() as int;
    let va = log[0].reply->Mapped_0->0;
    let page_size = entry.size_code();
    if n > 0 && (!page_ok(log, entry, n - 1) || n == page_script_len(entry)) {
        PvalidatePage::Finished { outcome: page_outcome(log, entry) }
    } else if n == 0 {
        PvalidatePage::Mapping { entry }
    } else if n == (if entry.validates() {
        1int
    } else {
        4
    }) {
        PvalidatePage::Validating { entry, va }
    } else if entry.validates() {
        PvalidatePage::Granting {
            access: Access::Adjusting {
                va,
                page_size,
                attributes: VMPL_RWX,
                level: VMPL1,
                end: 2,
            },
        }
    } else {
        PvalidatePage::Revoking {
            entry,
            va,
            access: Access::Adjusting {
                va,
                page_size,
                attributes: 0,
                level: n as u8,
                end: VMPL_MAX,
            },
        }
    }
}

/// An entry is handled by the script, up to the first error. It succeeds exactly when there is
/// none. A failed instruction's status is passed on.
pub proof fn law_page_follows_script(entry: PvalidateEntry, log: Seq<Exchange>)
    requires
        is_run((PvalidatePage::Mapping { entry }), log),
    ensures
        log.len() <= page_script_len(entry),
        forall|i: int|
            0 <= i < log.len() ==> (#[trigger] log[i]).action == page_script(log, entry, i),
        forall|i: int| 0 <= i < log.len() - 1 ==> #[trigger] page_ok(log, entry, i),
        ({
            let reached = after((PvalidatePage::Mapping { entry }), log);
            &&& reached is Finished <==> log.len() > 0 && (!page_ok(log, entry, log.len() - 1)
                || log.len() == page_script_len(entry))
            &&& reached is Finished ==> reached == (PvalidatePage::Finished {
                outcome: page_outcome(log, entry),
            })
        }),
{
    lemma_page_state(entry, log);
}

proof fn lemma_page_state(entry: PvalidateEntry, log: Seq<Exchange>)
    requires
        is_run((PvalidatePage::Mapping { entry }), log),
    ensures
        log.len() <= page_script_len(entry),
        forall|i: int|
            0 <= i < log.len() ==> (#[trigger] log[i]).action == page_script(log, entry, i),
        forall|i: int| 0 <= i < log.len() - 1 ==> #[trigger] page_ok(log, entry, i),
        after((PvalidatePage::Mapping { entry }), log) == page_state(log, entry),
    decreases log.len(),
{
    lemma_revocation_is_level();
    if log.len() > 0 {
        let shorter = log.drop_last();
        let last = log.len() - 1;
        lemma_page_state(entry, shorter);
        assert forall|i: int| 0 <= i < last implies log[i] == #[trigger] shorter[i] by {}
        if last > 0 {
            assert(log[0] == shorter[0]);
        }
        assert forall|i: int| 0 <= i < last implies #[trigger] page_ok(log, entry, i) by {
            assert(log[i] == shorter[i]);
            assert(page_ok(shorter, entry, i));
        }
        assert forall|i: int| 0 <= i < log.len() implies (#[trigger] log[i]).action == page_script(
            log,
            entry,
            i,
        ) by {
            if i < last {
                assert(log[i] == shorter[i]);
            }
        }
    }
}

/// Which entries are handled at all, for every entry: bits 1 to 0 are 0 for a small page or 1 for
/// a large one, which must be aligned as such; the page must not reach into the memory of the
/// SVSM and must not contain a registered VMSA page. Any other entry fails with an invalid
/// address, and no flush is owed. For the question to make sense, the address and the end of a
/// page must have 52 bits.
pub proof fn law_entries_name_foreign_pages(
    entry: PvalidateEntry,
    region: SvsmRegion,
    list: Seq<VmsaInfo>,
)
    ensures
        ({
            let op = entry.operation as int;
            let gpa = op - op % 0x1000;
            let is_page = op % 4 == 0 || (op % 4 == 1 && gpa % 0x20_0000 == 0);
            let end = if op % 4 == 0 {
                gpa + 0x1000
            } else {
                gpa + 0x20_0000
            };
            let accepted = {
                &&& is_page
                &&& end <= region.begin || region.end <= gpa
                &&& forall|i: int|
                    0 <= i < list.len() ==> !(gpa <= (#[trigger] list[i]).gpa < end && (list[i].gpa
                        - gpa) % 0x1000 == 0)
            };
            &&& accepted ==> page_handling_start(entry, region, list) == (PvalidatePage::Mapping {
                entry,
            })
            &&& !accepted ==> page_handling_start(entry, region, list) == (
            PvalidatePage::Finished {
                outcome: PageOutcome { rax: 0x8000_0003, success: false, flush: false },
            })
            &&& entry.is_defined() <==> gpa < 0x10_0000_0000_0000 && (is_page ==> end
                < 0x10_0000_0000_0000)
        }),
{
    law_which_pages_may_be_named(entry.address(), entry.size_code(), region, list);
}

/// What is done for an entry, and what each step needs of the ones before it, by the bits of the
/// entry. The page is mapped as a whole. With bit 2 set it is validated, and given to VMPL1 if
/// the status is 0, or 16 where bit 3 is set. With bit 2 clear it is taken from the three lower
/// levels, as long as each status is 0, and then its validation is rescinded.
pub proof fn law_entry_step_by_step(entry: PvalidateEntry, log: Seq<Exchange>)
    requires
        is_run((PvalidatePage::Mapping { entry }), log),
    ensures
        ({
            let op = entry.operation as int;
            let validates = op / 4 % 2 == 1;
            let page_size = (op % 4) as u32;
            let va = log[0].reply->Mapped_0->0;
            &&& log.len() > 0 ==> log[0].action == (Action::MapPrivate {
                gpa: (op - op % 0x1000) as u64,
                len: if op % 4 == 0 {
                    0x1000
                } else {
                    0x20_0000
                },
            })
            &&& log.len() > 1 ==> log[0].reply == Reply::Mapped(Some(va))
            &&& validates ==> {
                &&& log.len() > 1 ==> log[1].action == (Action::ValidatePage {
                    va,
                    page_size,
                    validate: 1,
                })
                &&& log.len() > 2 ==> log[2].action == (Action::AdjustPage {
                    va,
                    page_size,
                    attributes: 0xf01,
                })
                &&& log.len() > 2 ==> log[1].reply == Reply::Status(0) || (log[1].reply
                    == Reply::Status(16) && op / 8 % 2 == 1)
                &&& log.len() <= 3
            }
            &&& !validates ==> {
                &&& log.len() > 1 ==> log[1].action == (Action::AdjustPage {
                    va,
                    page_size,
                    attributes: 1,
                })
                &&& log.len() > 2 ==> log[1].reply == Reply::Status(0) && log[2].action == (
                Action::AdjustPage { va, page_size, attributes: 2 })
                &&& log.len() > 3 ==> log[2].reply == Reply::Status(0) && log[3].action == (
                Action::AdjustPage { va, page_size, attributes: 3 })
                &&& log.len() > 4 ==> log[3].reply == Reply::Status(0) && log[4].action == (
                Action::ValidatePage { va, page_size, validate: 0 })
                &&& log.len() <= 5
            }
        }),
{
    lemma_page_facts(entry, log);
}

/// When an entry is handled, and with which outcome, by the bits of the entry and the last reply.
/// It is handled if the page cannot be mapped, if an instruction fails, and otherwise after the
/// last step. The status of a failed instruction is added to 0x8000_1000. A flush is owed if the
/// page was to be given up and could be mapped.
pub proof fn law_entry_end_and_outcome(entry: PvalidateEntry, log: Seq<Exchange>)
    requires
        is_run((PvalidatePage::Mapping { entry }), log),
        log.len() > 0,
    ensures
        ({
            let op = entry.operation as int;
            let validates = op / 4 % 2 == 1;
            let page_size = (op % 4) as u32;
            let va = log[0].reply->Mapped_0->0;
            let reached = after((PvalidatePage::Mapping { entry }), log);
            let before = after((PvalidatePage::Mapping { entry }), log.drop_last());
            let last = log.last();
            let status = last.reply->Status_0;
            let validating = log.len() == (if validates {
                2int
            } else {
                5
            });
            let fine = last.reply == Reply::Status(0) || (validating && last.reply
                == Reply::Status(16) && op / 8 % 2 == 1);
            let at_end = log.len() == (if validates {
                3int
            } else {
                5
            });
            &&& reached.pending() is None <==> if log.len() == 1 {
                last.reply == Reply::Mapped(None)
            } else {
                at_end || !fine
            }
            &&& reached matches PvalidatePage::Finished { outcome } ==> outcome
                == if log.len() == 1 {
                PageOutcome { rax: 0x8000_0005, success: false, flush: false }
            } else if fine {
                PageOutcome { rax: 0, success: true, flush: !validates }
            } else {
                PageOutcome {
                    rax: (0x8000_1000 + status) as u64,
                    success: false,
                    flush: !validates,
                }
            }
            &&& before.next_list(last.reply, last.list) == last.list
        }),
{
    lemma_page_facts(entry, log);
    lemma_page_state(entry, log);
}

/// The status of the validation itself decides. If an entry is handled with success, the status
/// was 0, or it was 16 and bit 3 of the entry is set. With any other status the entry is handled
/// right there, without success, and the answer is 0x8000_1000 plus the status.
pub proof fn law_validation_status_decides(entry: PvalidateEntry, log: Seq<Exchange>, i: int)
    requires
        is_run((PvalidatePage::Mapping { entry }), log),
        0 <= i < log.len(),
        log[i].action is ValidatePage,
    ensures
        ({
            let reached = after((PvalidatePage::Mapping { entry }), log);
            let fine = log[i].reply == Reply::Status(0) || (log[i].reply == Reply::Status(16)
                && entry.operation as int / 8 % 2 == 1);
            &&& reached is Finished && reached->outcome.success ==> fine
            &&& !fine ==> {
                &&& i == log.len() - 1
                &&& reached matches PvalidatePage::Finished { outcome }
                &&& outcome.rax == 0x8000_1000 + log[i].reply->Status_0
                &&& !outcome.success
                &&& outcome.flush <==> entry.operation as int / 4 % 2 == 0
            }
        }),
{
    law_entry_step_by_step(entry, log);
    law_entry_end_and_outcome(entry, log);
    lemma_page_facts(entry, log);
}

/// Handling an entry can go on with any reply of the right kind.
pub proof fn law_entry_takes_any_reply(page: PvalidatePage, reply: Reply)
    ensures
        page.defined(reply),
{
}

/// The script of an entry, exchange by exchange.
proof fn lemma_page_facts(entry: PvalidateEntry, log: Seq<Exchange>)
    requires
        is_run((PvalidatePage::Mapping { entry }), log),
    ensures
        log.len() <= page_script_len(entry),
        forall|i: int|
            0 <= i < log.len() ==> (#[trigger] log[i]).action == page_script(log, entry, i) && fits(
                log[i].action,
                log[i].reply,
            ),
        forall|i: int|
            #![trigger log[i]]
            0 <= i < log.len() - 1 ==> page_ok(log, entry, i),
        VMPL_RWX | 1 == 0xf01,
{
    law_page_follows_script(entry, log);
    assert(0xf00u64 | 1u64 == 0xf01u64) by (bit_vector);
    assert forall|i: int| 0 <= i < log.len() implies fits(
        (#[trigger] log[i]).action,
        log[i].reply,
    ) by {
        law_actions_were_pending((PvalidatePage::Mapping { entry }), log, i);
    }
}

} // verus!

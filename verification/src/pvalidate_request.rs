//! Validating the pages of a list.
//!
//! The list lies in guest memory: a head of eight bytes, which says how many
//! entries there are and which is next, and the entries, eight bytes each.

use vstd::prelude::*;

use crate::addr::{
    extended, is_canonical, is_extendable, is_physical, lemma_alignments, page_start,
    phys_is_aligned, virt_add, virt_align_down, virt_sub, PAGE_2MB_SIZE, PAGE_SIZE, PHYS_LIMIT,
    VIRT_HIGH_START, VIRT_LOW_END,
};
use crate::guest_page::{
    law_which_pages_may_be_named, may_name, page_bytes, page_len, SvsmRegion,
};
use crate::machine::{
    after, is_run, law_actions_were_pending, law_prefix_is_run, law_run_can_be_cut, Exchange,
    Machine,
};
use crate::platform::{Action, Reply};
use crate::protocol::{SVSM_ERR_INVALID_ADDRESS, SVSM_ERR_INVALID_PARAMETER, SVSM_SUCCESS};
use crate::pvalidate::{
    handle_pvalidate, law_entries_name_foreign_pages, page_handling_start, PvalidateEntry,
    PvalidatePage,
};
use crate::vmpl_access::{lemma_revocation_is_level, Access};
use crate::vmsa_list::{VmsaInfo, VmsaList};

verus! {

/// The size of the head of a list in bytes.
pub const HEADER_SIZE: u64 = 8;

/// The size of an entry in bytes.
pub const ENTRY_SIZE: u64 = 8;

/// How far the handling of a list has come.
#[derive(Clone, Copy, Debug, PartialEq, Eq)]
pub struct Walk {
    /// The address that the list is mapped to.
    pub va: u64,
    /// The address of the current entry.
    pub entry_va: u64,
    /// Access to some page has been reduced.
    pub flush: bool,
    /// What the call would be answered with if there were no more entries.
    pub rax: u64,
}

/// The call that validates pages.
#[derive(Clone, Copy, Debug, PartialEq, Eq)]
pub enum PvalidateRequest {
    /// The list is mapped.
    Mapping { region: SvsmRegion, gpa: u64 },
    /// The head of the list is checked.
    CheckingHeader { region: SvsmRegion, va: u64 },
    /// The head is read to see whether there is a next entry. It is the guest's to change, so the
    /// entry must be found to lie in the page of the list again.
    ReadingHeader { region: SvsmRegion, walk: Walk },
    /// The current entry, which is counted as `next` in the head, is read.
    ReadingEntry { region: SvsmRegion, walk: Walk, next: u16 },
    /// The current entry is handled.
    Handling { region: SvsmRegion, walk: Walk, next: u16, page: PvalidatePage },
    /// It is noted in the head that the current entry is handled.
    Advancing { region: SvsmRegion, walk: Walk, next: u16 },
    /// All translations are flushed, since it is not known where the guest has mapped the pages.
    Flushing { rax: u64 },
    /// The caller is answered with `rax`.
    Finished { rax: u64 },
}

/// Where the call with the argument `rcx` starts.
pub open spec fn list_start(rcx: u64, region: SvsmRegion) -> PvalidateRequest {
    if rcx % 8 == 0 {
        PvalidateRequest::Mapping { region, gpa: rcx }
    } else {
        PvalidateRequest::Finished { rax: SVSM_ERR_INVALID_PARAMETER }
    }
}

/// Starts to handle the list at `rcx`.
pub fn handle_pvalidate_request(rcx: u64, region: &SvsmRegion) -> (call: PvalidateRequest)
    requires
        is_physical(rcx as int),
    ensures
        call.inv(),
        call == list_start(rcx, *region),
{
    proof {
        lemma_alignments();
    }
    if !phys_is_aligned(rcx, 8) {
        return PvalidateRequest::Finished { rax: SVSM_ERR_INVALID_PARAMETER };
    }
    PvalidateRequest::Mapping { region: *region, gpa: rcx }
}

/// The address of the first entry of the list at `va`.
pub open spec fn first_entry(va: u64) -> u64 {
    extended(va + HEADER_SIZE) as u64
}

/// The address right after the last of `entries` entries of the list at `va`.
pub open spec fn entries_end(va: u64, entries: u16) -> u64 {
    extended(first_entry(va) + entries * ENTRY_SIZE) as u64
}

/// The address of the last byte of a list of `entries` entries at `va`.
pub open spec fn last_byte(va: u64, entries: u16) -> u64 {
    extended(entries_end(va, entries) - 1) as u64
}

/// The address of the last byte of the list exists.
pub open spec fn last_byte_exists(va: u64, entries: u16) -> bool {
    &&& is_extendable(va + HEADER_SIZE)
    &&& is_extendable(first_entry(va) + entries * ENTRY_SIZE)
    &&& is_extendable(entries_end(va, entries) - 1)
}

/// The head of a list is one that can be worked on: there are entries, the next one is among them
/// or all are handled, and the list lies in one small page.
pub open spec fn is_proper_header(va: u64, entries: u16, next: u16) -> bool {
    &&& entries != 0
    &&& next <= entries
    &&& page_start(va) == page_start(last_byte(va, entries))
}

/// The current entry lies in the same small page as the head of the list.
pub open spec fn entry_in_page(walk: Walk) -> bool {
    &&& page_start(walk.va) <= walk.entry_va
    &&& walk.entry_va + ENTRY_SIZE <= page_start(walk.va) + PAGE_SIZE
}

/// The end of a call whose walk through the list is over.
pub open spec fn walk_end(walk: Walk) -> PvalidateRequest {
    if walk.flush {
        PvalidateRequest::Flushing { rax: walk.rax }
    } else {
        PvalidateRequest::Finished { rax: walk.rax }
    }
}

/// The call after an entry has been worked on: it goes on to the next one, unless this one
/// failed or is not done yet.
pub open spec fn entry_turn(
    region: SvsmRegion,
    walk: Walk,
    next: u16,
    page: PvalidatePage,
) -> PvalidateRequest {
    match page {
        PvalidatePage::Finished { outcome } => {
            let walk = Walk { rax: outcome.rax, flush: walk.flush || outcome.flush, ..walk };
            if outcome.success {
                PvalidateRequest::Advancing { region, walk, next }
            } else {
                walk_end(walk)
            }
        },
        _ => PvalidateRequest::Handling { region, walk, next, page },
    }
}

/// Ends the walk through the list.
fn end_walk(walk: Walk) -> (call: PvalidateRequest)
    ensures
        call.inv(),
        call == walk_end(walk),
{
    if walk.flush {
        PvalidateRequest::Flushing { rax: walk.rax }
    } else {
        PvalidateRequest::Finished { rax: walk.rax }
    }
}

/// Goes on after an entry has been worked on.
fn turn(region: SvsmRegion, walk: Walk, next: u16, page: PvalidatePage) -> (call: PvalidateRequest)
    requires
        walk.inv(),
        next < u16::MAX,
        page.inv(),
    ensures
        call.inv(),
        call == entry_turn(region, walk, next, page),
{
    match page {
        PvalidatePage::Finished { outcome } => {
            let mut walk: Walk = walk;
            walk.rax = outcome.rax;
            if outcome.flush {
                walk.flush = true;
            }
            if !outcome.success {
                return end_walk(walk);
            }
            PvalidateRequest::Advancing { region, walk, next }
        },
        _ => PvalidateRequest::Handling { region, walk, next, page },
    }
}

/// Whether the head of the list at `va` is one that can be worked on.
fn check_header(va: u64, entries: u16, next: u16) -> (proper: bool)
    requires
        is_canonical(va as int),
        entries != 0 && next <= entries ==> last_byte_exists(va, entries),
    ensures
        proper == is_proper_header(va, entries, next),
{
    if entries == 0 || entries < next {
        return false;
    }
    proof {
        lemma_alignments();
    }
    let end: u64 = virt_add(virt_add(va, HEADER_SIZE), entries as u64 * ENTRY_SIZE);
    let last: u64 = virt_sub(end, 1);
    virt_align_down(va, PAGE_SIZE) == virt_align_down(last, PAGE_SIZE)
}

/// Whether the current entry lies in the same small page as the head of the list.
fn is_entry_in_page(walk: Walk) -> (in_page: bool)
    requires
        walk.inv(),
    ensures
        in_page == entry_in_page(walk),
{
    proof {
        lemma_alignments();
    }
    let page: u64 = virt_align_down(walk.entry_va, PAGE_SIZE);
    page == virt_align_down(walk.va, PAGE_SIZE) && walk.entry_va - page <= PAGE_SIZE - ENTRY_SIZE
}

/// Whether a virtual address can be made of the sum of an address and a small count.
fn can_extend(addr: u64, count: u64) -> (extendable: bool)
    requires
        is_canonical(addr as int),
    ensures
        extendable == is_extendable(addr + count),
{
    match addr.checked_add(count) {
        Some(sum) => sum < 2 * VIRT_LOW_END || sum >= VIRT_HIGH_START,
        None => false,
    }
}

/// Whether the address of the last byte of the list exists.
fn has_last_byte(va: u64, entries: u16) -> (present: bool)
    requires
        is_canonical(va as int),
    ensures
        present == last_byte_exists(va, entries),
{
    if !can_extend(va, HEADER_SIZE) {
        return false;
    }
    let first: u64 = virt_add(va, HEADER_SIZE);
    let len: u64 = entries as u64 * ENTRY_SIZE;
    if !can_extend(first, len) {
        return false;
    }
    let end: u64 = virt_add(first, len);
    end > 0 && (end - 1 < 2 * VIRT_LOW_END || end - 1 >= VIRT_HIGH_START)
}

/// Whether the page of `entry` and its end exist.
fn has_page(entry: PvalidateEntry) -> (present: bool)
    ensures
        present == entry.is_defined(),
{
    let gpa: u64 = entry.gfn();
    let page_size: u32 = entry.page_size();
    if gpa >= PHYS_LIMIT {
        return false;
    }
    page_size > 1 || (page_size == 1 && gpa % PAGE_2MB_SIZE != 0) || gpa + page_len(page_size)
        < PHYS_LIMIT
}

impl Walk {
    /// Both addresses are virtual addresses.
    pub open spec fn inv(self) -> bool {
        is_canonical(self.va as int) && is_canonical(self.entry_va as int)
    }
}

impl PvalidateRequest {
    /// What the caller's RAX is set to at this point of the call.
    pub open spec fn rax_so_far(self) -> u64 {
        match self {
            PvalidateRequest::ReadingHeader { walk, .. }
            | PvalidateRequest::ReadingEntry { walk, .. }
            | PvalidateRequest::Advancing { walk, .. } => walk.rax,
            PvalidateRequest::Flushing { rax } | PvalidateRequest::Finished { rax } => rax,
            _ => SVSM_ERR_INVALID_PARAMETER,
        }
    }

    /// What the caller's RAX is set to at this point of the call.
    pub fn rax(&self) -> (rax: u64)
        ensures
            rax == self.rax_so_far(),
    {
        match *self {
            PvalidateRequest::ReadingHeader { walk, .. }
            | PvalidateRequest::ReadingEntry { walk, .. }
            | PvalidateRequest::Advancing { walk, .. } => walk.rax,
            PvalidateRequest::Flushing { rax } | PvalidateRequest::Finished { rax } => rax,
            _ => SVSM_ERR_INVALID_PARAMETER,
        }
    }
}

impl Machine for PvalidateRequest {
    open spec fn inv(self) -> bool {
        match self {
            PvalidateRequest::CheckingHeader { va, .. } => is_canonical(va as int),
            PvalidateRequest::ReadingHeader { walk, .. } => walk.inv(),
            PvalidateRequest::ReadingEntry { walk, next, .. }
            | PvalidateRequest::Advancing { walk, next, .. } => walk.inv() && next < u16::MAX,
            PvalidateRequest::Handling { walk, next, page, .. } => {
                &&& walk.inv()
                &&& next < u16::MAX
                &&& page.inv()
                &&& page !is Finished
            },
            _ => true,
        }
    }

    open spec fn pending(self) -> Option<Action> {
        match self {
            PvalidateRequest::Mapping { gpa, .. } => Some(
                Action::MapPrivate { gpa, len: HEADER_SIZE },
            ),
            PvalidateRequest::CheckingHeader { va, .. } => Some(Action::ReadHeader { va }),
            PvalidateRequest::ReadingHeader { walk, .. } => Some(
                Action::ReadHeader { va: walk.va },
            ),
            PvalidateRequest::ReadingEntry { walk, .. } => Some(
                Action::ReadEntry { va: walk.entry_va },
            ),
            PvalidateRequest::Handling { page, .. } => page.pending(),
            PvalidateRequest::Advancing { walk, next, .. } => Some(
                Action::WriteNext { va: walk.va, next: (next + 1) as u16 },
            ),
            PvalidateRequest::Flushing { .. } => Some(Action::FlushAll),
            PvalidateRequest::Finished { .. } => None,
        }
    }

    open spec fn defined(self, reply: Reply) -> bool {
        match self {
            PvalidateRequest::Mapping { .. } => reply matches Reply::Mapped(Some(va))
                ==> is_canonical(va as int),
            PvalidateRequest::CheckingHeader { va, .. } => reply matches Reply::Header {
                entries,
                next,
            } ==> (entries != 0 && next <= entries ==> last_byte_exists(va, entries)),
            PvalidateRequest::ReadingEntry { .. } => reply matches Reply::Word(operation) ==> (
            PvalidateEntry { operation }).is_defined(),
            PvalidateRequest::Advancing { walk, .. } => is_extendable(walk.entry_va + ENTRY_SIZE),
            _ => true,
        }
    }

    open spec fn next(self, reply: Reply, list: Seq<VmsaInfo>) -> PvalidateRequest {
        match self {
            PvalidateRequest::Mapping { region, .. } => match reply {
                Reply::Mapped(Some(va)) => PvalidateRequest::CheckingHeader { region, va },
                _ => PvalidateRequest::Finished { rax: SVSM_ERR_INVALID_PARAMETER },
            },
            PvalidateRequest::CheckingHeader { region, va } => {
                if is_proper_header(va, reply->entries, reply->Header_next) {
                    PvalidateRequest::ReadingHeader {
                        region,
                        walk: Walk {
                            va,
                            entry_va: first_entry(va),
                            flush: false,
                            rax: SVSM_ERR_INVALID_PARAMETER,
                        },
                    }
                } else {
                    PvalidateRequest::Finished { rax: SVSM_ERR_INVALID_PARAMETER }
                }
            },
            PvalidateRequest::ReadingHeader { region, walk } => {
                if reply->Header_next >= reply->entries {
                    walk_end(walk)
                } else if entry_in_page(walk) {
                    PvalidateRequest::ReadingEntry { region, walk, next: reply->Header_next }
                } else {
                    walk_end(Walk { rax: SVSM_ERR_INVALID_PARAMETER, ..walk })
                }
            },
            PvalidateRequest::ReadingEntry { region, walk, next } => entry_turn(
                region,
                walk,
                next,
                page_handling_start(PvalidateEntry { operation: reply->Word_0 }, region, list),
            ),
            PvalidateRequest::Handling { region, walk, next, page } => entry_turn(
                region,
                walk,
                next,
                page.next(reply, list),
            ),
            PvalidateRequest::Advancing { region, walk, .. } => PvalidateRequest::ReadingHeader {
                region,
                walk: Walk { entry_va: extended(walk.entry_va + ENTRY_SIZE) as u64, ..walk },
            },
            PvalidateRequest::Flushing { rax } => PvalidateRequest::Finished { rax },
            PvalidateRequest::Finished { .. } => self,
        }
    }

    open spec fn next_list(self, reply: Reply, list: Seq<VmsaInfo>) -> Seq<VmsaInfo> {
        list
    }

    fn action(&self) -> (action: Option<Action>) {
        match *self {
            PvalidateRequest::Mapping { gpa, .. } => Some(
                Action::MapPrivate { gpa, len: HEADER_SIZE },
            ),
            PvalidateRequest::CheckingHeader { va, .. } => Some(Action::ReadHeader { va }),
            PvalidateRequest::ReadingHeader { walk, .. } => Some(
                Action::ReadHeader { va: walk.va },
            ),
            PvalidateRequest::ReadingEntry { walk, .. } => Some(
                Action::ReadEntry { va: walk.entry_va },
            ),
            PvalidateRequest::Handling { page, .. } => page.action(),
            PvalidateRequest::Advancing { walk, next, .. } => Some(
                Action::WriteNext { va: walk.va, next: next + 1 },
            ),
            PvalidateRequest::Flushing { .. } => Some(Action::FlushAll),
            PvalidateRequest::Finished { .. } => None,
        }
    }

    fn is_defined(&self, reply: &Reply) -> (is_defined: bool) {
        match (*self, *reply) {
            (PvalidateRequest::Mapping { .. }, Reply::Mapped(Some(va))) => va < VIRT_LOW_END || va
                >= VIRT_HIGH_START,
            (PvalidateRequest::CheckingHeader { va, .. }, Reply::Header { entries, next }) => {
                entries == 0 || next > entries || has_last_byte(va, entries)
            },
            (PvalidateRequest::ReadingEntry { .. }, Reply::Word(operation)) => has_page(
                PvalidateEntry { operation },
            ),
            (PvalidateRequest::Advancing { walk, .. }, _) => can_extend(walk.entry_va, ENTRY_SIZE),
            _ => true,
        }
    }

    fn resume(self, reply: Reply, list: &mut VmsaList) -> (after: PvalidateRequest) {
        match (self, reply) {
            (PvalidateRequest::Mapping { region, .. }, Reply::Mapped(Some(va))) => {
                PvalidateRequest::CheckingHeader { region, va }
            },
            (PvalidateRequest::CheckingHeader { region, va }, Reply::Header { entries, next }) => {
                if !check_header(va, entries, next) {
                    return PvalidateRequest::Finished { rax: SVSM_ERR_INVALID_PARAMETER };
                }
                let walk: Walk = Walk {
                    va,
                    entry_va: virt_add(va, HEADER_SIZE),
                    flush: false,
                    rax: SVSM_ERR_INVALID_PARAMETER,
                };
                PvalidateRequest::ReadingHeader { region, walk }
            },
            (PvalidateRequest::ReadingHeader { region, walk }, Reply::Header { entries, next }) => {
                if next >= entries {
                    return end_walk(walk);
                }
                if !is_entry_in_page(walk) {
                    let mut walk: Walk = walk;
                    walk.rax = SVSM_ERR_INVALID_PARAMETER;
                    return end_walk(walk);
                }
                PvalidateRequest::ReadingEntry { region, walk, next }
            },
            (PvalidateRequest::ReadingEntry { region, walk, next }, Reply::Word(operation)) => {
                let page: PvalidatePage = handle_pvalidate(
                    PvalidateEntry { operation },
                    &region,
                    list,
                );
                turn(region, walk, next, page)
            },
            (PvalidateRequest::Handling { region, walk, next, page }, _) => {
                let page: PvalidatePage = page.resume(reply, list);
                turn(region, walk, next, page)
            },
            (PvalidateRequest::Advancing { region, walk, .. }, _) => {
                let mut walk: Walk = walk;
                walk.entry_va = virt_add(walk.entry_va, ENTRY_SIZE);
                PvalidateRequest::ReadingHeader { region, walk }
            },
            (PvalidateRequest::Flushing { rax }, _) => PvalidateRequest::Finished { rax },
            _ => PvalidateRequest::Finished { rax: SVSM_ERR_INVALID_PARAMETER },
        }
    }
}

/// The exchange takes access to a page from VMPL1, with which every revocation begins.
pub open spec fn revokes(exchange: Exchange) -> bool {
    exchange.action matches Action::AdjustPage { attributes, .. } && attributes == 1
}

/// Access to some page has been reduced in `log`.
pub open spec fn some_revoked(log: Seq<Exchange>) -> bool {
    exists|i: int| 0 <= i < log.len() && revokes(#[trigger] log[i])
}

/// The adjustments that a page is handled with are those of a revocation or of a grant.
spec fn page_adjusts_plainly(page: PvalidatePage) -> bool {
    match page {
        PvalidatePage::Revoking { entry, va, access } => {
            &&& !entry.validates()
            &&& access matches Access::Adjusting { attributes, level, end, .. }
            &&& attributes == 0
            &&& 1 <= level < 4
            &&& end == 4
        },
        PvalidatePage::Granting { access } => {
            &&& access matches Access::Adjusting { attributes, level, end, .. }
            &&& attributes == 0xf00
            &&& level == 1
            &&& end == 2
        },
        _ => true,
    }
}

/// Access to some page has been reduced on the way to `call`, which has not ended yet.
spec fn owes_flush(call: PvalidateRequest) -> bool {
    match call {
        PvalidateRequest::ReadingHeader { walk, .. }
        | PvalidateRequest::ReadingEntry { walk, .. }
        | PvalidateRequest::Advancing { walk, .. } => walk.flush,
        PvalidateRequest::Handling { walk, page, .. } => walk.flush || match page {
            PvalidatePage::Revoking { access, .. } => access->level > 1,
            PvalidatePage::Validating { entry, .. } => !entry.validates(),
            _ => false,
        },
        PvalidateRequest::Flushing { .. } => true,
        _ => false,
    }
}

proof fn lemma_flush_owed(start: PvalidateRequest, log: Seq<Exchange>)
    requires
        start is Mapping,
        is_run(start, log),
    ensures
        ({
            let reached = after(start, log);
            &&& reached matches PvalidateRequest::Handling { page, .. } ==> page_adjusts_plainly(
                page,
            ) && page !is Finished
            &&& reached !is Finished ==> owes_flush(reached) == some_revoked(log)
            &&& reached !is Finished ==> forall|i: int|
                0 <= i < log.len() ==> (#[trigger] log[i]).action != Action::FlushAll
            &&& reached is Finished ==> log.len() > 0
            &&& reached is Finished ==> (log.last().action == Action::FlushAll) == some_revoked(log)
            &&& reached is Finished ==> forall|i: int|
                0 <= i < log.len() - 1 ==> (#[trigger] log[i]).action != Action::FlushAll
        }),
    decreases log.len(),
{
    lemma_revocation_is_level();
    assert(0xf00u64 | 1u64 == 0xf01u64) by (bit_vector);
    if log.len() > 0 {
        let shorter = log.drop_last();
        let last = log.last();
        lemma_flush_owed(start, shorter);
        assert(some_revoked(log) == (some_revoked(shorter) || revokes(last))) by {
            if some_revoked(shorter) {
                let i = choose|i: int| 0 <= i < shorter.len() && revokes(#[trigger] shorter[i]);
                assert(log[i] == shorter[i]);
            }
            if revokes(last) {
                assert(log[log.len() - 1] == last);
            }
            if some_revoked(log) {
                let i = choose|i: int| 0 <= i < log.len() && revokes(#[trigger] log[i]);
                if i < shorter.len() {
                    assert(shorter[i] == log[i]);
                }
            }
        }
        assert forall|i: int| 0 <= i < shorter.len() implies (#[trigger] log[i]).action
            != Action::FlushAll by {
            assert(log[i] == shorter[i]);
        }
    }
}

/// All translations are flushed exactly when access to some page has been reduced: once, and as
/// the last thing that is done.
pub proof fn law_flushed_if_reduced(region: SvsmRegion, gpa: u64, log: Seq<Exchange>)
    requires
        is_run((PvalidateRequest::Mapping { region, gpa }), log),
        after((PvalidateRequest::Mapping { region, gpa }), log) is Finished,
    ensures
        log.len() > 0,
        log.last().action == Action::FlushAll <==> some_revoked(log),
        forall|i: int| 0 <= i < log.len() - 1 ==> (#[trigger] log[i]).action != Action::FlushAll,
{
    lemma_flush_owed((PvalidateRequest::Mapping { region, gpa }), log);
}

/// A page is mapped only for an entry that was read right before, and only if the call may name
/// the page: it lies outside of the SVSM and is no VMSA page.
pub proof fn law_only_nameable_pages(region: SvsmRegion, gpa: u64, log: Seq<Exchange>, i: int)
    requires
        is_run((PvalidateRequest::Mapping { region, gpa }), log),
        0 < i < log.len(),
        log[i].action is MapPrivate,
    ensures
        log[i - 1].action is ReadEntry,
        ({
            let entry = PvalidateEntry { operation: log[i - 1].reply->Word_0 };
            &&& log[i].action == (Action::MapPrivate {
                gpa: entry.address(),
                len: page_bytes(entry.size_code()),
            })
            &&& may_name(entry.address(), entry.size_code(), region, log[i - 1].list)
        }),
{
    let start = PvalidateRequest::Mapping { region, gpa };
    law_actions_were_pending(start, log, i);
    law_actions_were_pending(start, log, i - 1);
    law_prefix_is_run(start, log, i);
    law_prefix_is_run(start, log, i - 1);
    lemma_flush_owed(start, log.take(i));
    lemma_flush_owed(start, log.take(i - 1));
    lemma_region_kept(start, log.take(i - 1));
    lemma_region_kept(start, log.take(i));
}

/// A call that has left its first state never comes back to it, and keeps its region.
proof fn lemma_region_kept(start: PvalidateRequest, log: Seq<Exchange>)
    requires
        start is Mapping,
        is_run(start, log),
    ensures
        after(start, log) is Mapping ==> log.len() == 0,
        match after(start, log) {
            PvalidateRequest::Mapping { region, .. }
            | PvalidateRequest::CheckingHeader { region, .. }
            | PvalidateRequest::ReadingHeader { region, .. }
            | PvalidateRequest::ReadingEntry { region, .. }
            | PvalidateRequest::Handling { region, .. }
            | PvalidateRequest::Advancing { region, .. } => region == start->Mapping_region,
            _ => true,
        },
    decreases log.len(),
{
    if log.len() > 0 {
        lemma_region_kept(start, log.drop_last());
    }
}

/// What the head of the list holds after `log`, as far as the exchanges tell: the number of
/// entries and the index of the next one.
pub open spec fn header_after(log: Seq<Exchange>) -> Option<(u16, u16)>
    decreases log.len(),
{
    if log.len() == 0 {
        None
    } else {
        match log.last().action {
            Action::ReadHeader { .. } => Some(
                (log.last().reply->entries, log.last().reply->Header_next),
            ),
            Action::WriteNext { next, .. } => match header_after(log.drop_last()) {
                Some((entries, _)) => Some((entries, next)),
                None => None,
            },
            _ => header_after(log.drop_last()),
        }
    }
}

/// Nobody else writes to the head of the list: reading it brings what was read or written last.
pub open spec fn head_is_undisturbed(log: Seq<Exchange>) -> bool
    decreases log.len(),
{
    log.len() == 0 || {
        &&& head_is_undisturbed(log.drop_last())
        &&& log.last().action is ReadHeader && header_after(log.drop_last()) is Some
            ==> header_after(log) == header_after(log.drop_last())
    }
}

/// How many entries have been begun in `log`.
pub open spec fn entries_begun(log: Seq<Exchange>) -> nat
    decreases log.len(),
{
    if log.len() == 0 {
        0
    } else {
        entries_begun(log.drop_last()) + if log.last().action is ReadEntry {
            1nat
        } else {
            0
        }
    }
}

/// How many entries have been handled with success in `log`.
pub open spec fn entries_done(log: Seq<Exchange>) -> nat
    decreases log.len(),
{
    if log.len() == 0 {
        0
    } else {
        entries_done(log.drop_last()) + if log.last().action is WriteNext {
            1nat
        } else {
            0
        }
    }
}

/// Where a proper list has its parts: nothing is sign-extended, and everything lies in one page.
proof fn lemma_list_in_page(va: u64, entries: u16, next: u16)
    requires
        is_canonical(va as int),
        last_byte_exists(va, entries),
        is_proper_header(va, entries, next),
    ensures
        first_entry(va) == va + HEADER_SIZE,
        is_canonical(va + HEADER_SIZE + entries * ENTRY_SIZE),
        page_start(va) <= va,
        va + HEADER_SIZE + entries * ENTRY_SIZE <= page_start(va) + PAGE_SIZE,
{
    let first = first_entry(va);
    let end = entries_end(va, entries);
    let last = last_byte(va, entries);
    assert(page_start(last) <= last < page_start(last) + PAGE_SIZE);
    assert(page_start(va) <= va < page_start(va) + PAGE_SIZE);
    assert(entries * ENTRY_SIZE >= 8);
    if va < VIRT_LOW_END {
        if va + HEADER_SIZE >= VIRT_LOW_END {
            assert(first >= VIRT_HIGH_START);
            assert(end >= VIRT_HIGH_START + 8);
            assert(last >= VIRT_HIGH_START);
            assert(false);
        }
        if first + entries * ENTRY_SIZE >= VIRT_LOW_END {
            assert(end >= VIRT_HIGH_START);
            assert(end != VIRT_HIGH_START);
            assert(last >= VIRT_HIGH_START);
            assert(false);
        }
    }
}

/// How many exchanges a page has been handled with, at most.
spec fn page_exchanges(page: PvalidatePage) -> int {
    match page {
        PvalidatePage::Mapping { .. } => 0,
        PvalidatePage::Revoking { access, .. } => access->level as int,
        PvalidatePage::Validating { entry, .. } => if entry.validates() {
            1
        } else {
            4
        },
        PvalidatePage::Granting { .. } => 2,
        PvalidatePage::Finished { .. } => 5,
    }
}

/// What the walk through an undisturbed list is like after `log`.
spec fn walk_is_orderly(call: PvalidateRequest, log: Seq<Exchange>) -> bool {
    let va = log[0].reply->Mapped_0->0;
    let entries = log[1].reply->entries;
    let first = log[1].reply->Header_next;
    let done = entries_done(log) as int;
    let begun = entries_begun(log) as int;
    let proper = {
        &&& log.len() >= 2
        &&& log[0].reply == Reply::Mapped(Some(va))
        &&& log[1].action == (Action::ReadHeader { va })
        &&& log[1].reply is Header
        &&& is_canonical(va as int)
        &&& last_byte_exists(va, entries)
        &&& is_proper_header(va, entries, first)
    };
    let at = |walk: Walk|
        {
            &&& proper
            &&& walk.va == va
            &&& walk.entry_va == va + HEADER_SIZE + done * ENTRY_SIZE
            &&& first + done <= entries
            &&& header_after(log) == Some((entries, (first + done) as u16))
        };
    match call {
        PvalidateRequest::Mapping { .. } => log.len() == 0,
        PvalidateRequest::CheckingHeader { va, .. } => {
            &&& log.len() == 1
            &&& log[0].reply == Reply::Mapped(Some(va))
            &&& is_canonical(va as int)
            &&& done == 0
            &&& begun == 0
            &&& header_after(log) is None
        },
        PvalidateRequest::ReadingHeader { walk, .. } => {
            &&& at(walk)
            &&& begun == done
            &&& walk.rax == if done == 0 {
                SVSM_ERR_INVALID_PARAMETER
            } else {
                SVSM_SUCCESS
            }
            &&& log.len() <= 2 + 8 * done
        },
        PvalidateRequest::ReadingEntry { walk, next, .. } => {
            &&& at(walk)
            &&& begun == done
            &&& next == first + done < entries
            &&& log.len() <= 3 + 8 * done
        },
        PvalidateRequest::Handling { walk, next, page, .. } => {
            &&& at(walk)
            &&& begun == done + 1
            &&& next == first + done < entries
            &&& page_adjusts_plainly(page)
            &&& page !is Finished
            &&& log.len() <= 4 + 8 * done + page_exchanges(page)
        },
        PvalidateRequest::Advancing { walk, next, .. } => {
            &&& at(walk)
            &&& begun == done + 1
            &&& next == first + done < entries
            &&& walk.rax == SVSM_SUCCESS
            &&& log.len() <= 9 + 8 * done
        },
        PvalidateRequest::Flushing { rax } => {
            &&& proper
            &&& walk_is_settled(rax, log)
            &&& log.len() <= 3 + 8 * (entries - first)
        },
        PvalidateRequest::Finished { rax } => {
            ||| {
                &&& rax == SVSM_ERR_INVALID_PARAMETER
                &&& log.len() == 1 && log[0].reply == Reply::Mapped(None) || log.len() == 2
                    && log[0].reply == Reply::Mapped(Some(va)) && !is_proper_header(
                    va,
                    entries,
                    first,
                )
            }
            ||| {
                &&& proper
                &&& walk_is_settled(rax, log)
                &&& log.len() <= 4 + 8 * (entries - first)
            }
        },
    }
}

/// The walk through the list is over: every entry from the first one on is handled, or one could
/// not be.
pub open spec fn walk_is_settled(rax: u64, log: Seq<Exchange>) -> bool {
    let entries = log[1].reply->entries;
    let first = log[1].reply->Header_next;
    let done = entries_done(log) as int;
    let begun = entries_begun(log) as int;
    &&& first + done <= entries
    &&& header_after(log) == Some((entries, (first + done) as u16))
    &&& if first + done == entries {
        &&& begun == done
        &&& rax == if done == 0 {
            SVSM_ERR_INVALID_PARAMETER
        } else {
            SVSM_SUCCESS
        }
    } else {
        &&& begun == done + 1
        &&& rax != SVSM_SUCCESS
    }
}

proof fn lemma_walk_is_orderly(start: PvalidateRequest, log: Seq<Exchange>)
    requires
        start is Mapping,
        is_run(start, log),
        head_is_undisturbed(log),
    ensures
        walk_is_orderly(after(start, log), log),
    decreases log.len(),
{
    if log.len() > 0 {
        let shorter = log.drop_last();
        let before = after(start, shorter);
        lemma_walk_is_orderly(start, shorter);
        lemma_flush_owed(start, shorter);
        lemma_flush_owed(start, log);
        if shorter.len() >= 1 {
            assert(log[0] == shorter[0]);
        }
        if shorter.len() >= 2 {
            assert(log[1] == shorter[1]);
        }
        if before is CheckingHeader {
            assert(log[1] == log.last());
        }
        let va = log[0].reply->Mapped_0->0;
        let entries = log[1].reply->entries;
        let first = log[1].reply->Header_next;
        if log.len() >= 2 && is_canonical(va as int) && last_byte_exists(va, entries)
            && is_proper_header(va, entries, first) {
            lemma_list_in_page(va, entries, first);
        }
        if before is Mapping {
            assert(entries_done(shorter) == 0 && entries_begun(shorter) == 0);
            assert(header_after(shorter) is None);
        }
    }
}

/// A call on a list that nobody else writes to is answered by what is in it. If the list cannot be
/// mapped or its head is improper, nothing is done and a parameter is invalid. Otherwise one entry
/// after the other is handled, until none is left or one fails; the head then counts exactly the
/// entries that succeeded. The call succeeds if and only if there was an entry left to handle and
/// all that were left succeeded. It takes at most eight exchanges per entry, and four more.
pub proof fn law_list_is_walked(region: SvsmRegion, gpa: u64, log: Seq<Exchange>)
    requires
        is_run((PvalidateRequest::Mapping { region, gpa }), log),
        head_is_undisturbed(log),
        after((PvalidateRequest::Mapping { region, gpa }), log) is Finished,
    ensures
        ({
            let rax = after((PvalidateRequest::Mapping { region, gpa }), log)->Finished_rax;
            let entries = log[1].reply->entries;
            let first = log[1].reply->Header_next;
            &&& log[0].action == (Action::MapPrivate { gpa, len: HEADER_SIZE })
            &&& match log[0].reply {
                Reply::Mapped(Some(va)) => {
                    &&& log[1].action == (Action::ReadHeader { va })
                    &&& if is_proper_header(va, entries, first) {
                        &&& walk_is_settled(rax, log)
                        &&& log.len() <= 4 + 8 * (entries - first)
                    } else {
                        &&& rax == SVSM_ERR_INVALID_PARAMETER
                        &&& log.len() == 2
                    }
                },
                _ => rax == SVSM_ERR_INVALID_PARAMETER && log.len() == 1,
            }
        }),
{
    let start = PvalidateRequest::Mapping { region, gpa };
    lemma_walk_is_orderly(start, log);
    assert(log.len() > 0);
    law_actions_were_pending(start, log, 0);
    assert(log.take(0).len() == 0);
    assert(after(start, log.take(0)) == start);
    if log.len() >= 2 {
        law_actions_were_pending(start, log, 1);
    }
}

/// Every entry that is read lies in the same small page as the head of the list, whatever the
/// guest writes to the head in the meantime.
pub proof fn law_entries_lie_in_the_page(
    region: SvsmRegion,
    gpa: u64,
    log: Seq<Exchange>,
    i: int,
)
    requires
        is_run((PvalidateRequest::Mapping { region, gpa }), log),
        0 <= i < log.len(),
    ensures
        log[i].action matches Action::ReadEntry { va } ==> {
            &&& log[0].reply matches Reply::Mapped(Some(head))
            &&& page_start(head) <= va
            &&& va + ENTRY_SIZE <= page_start(head) + PAGE_SIZE
        },
{
    let start = PvalidateRequest::Mapping { region, gpa };
    let prefix = log.take(i);
    law_actions_were_pending(start, log, i);
    law_prefix_is_run(start, log, i);
    lemma_walk_keeps_its_page(start, prefix);
    lemma_flush_owed(start, prefix);
    if i > 0 {
        assert(prefix[0] == log[0]);
    }
}

/// The walk stays with the list that was mapped, and an entry is read only in its page.
proof fn lemma_walk_keeps_its_page(start: PvalidateRequest, log: Seq<Exchange>)
    requires
        start is Mapping,
        is_run(start, log),
    ensures
        match after(start, log) {
            PvalidateRequest::Mapping { .. } => log.len() == 0,
            PvalidateRequest::CheckingHeader { va, .. } => log.len() > 0 && log[0].reply
                == Reply::Mapped(Some(va)),
            PvalidateRequest::ReadingHeader { walk, .. }
            | PvalidateRequest::Handling { walk, .. }
            | PvalidateRequest::Advancing { walk, .. } => log.len() > 0 && log[0].reply
                == Reply::Mapped(Some(walk.va)),
            PvalidateRequest::ReadingEntry { walk, .. } => log.len() > 0 && log[0].reply
                == Reply::Mapped(Some(walk.va)) && entry_in_page(walk),
            _ => true,
        },
    decreases log.len(),
{
    if log.len() > 0 {
        let shorter = log.drop_last();
        lemma_walk_keeps_its_page(start, shorter);
        if shorter.len() > 0 {
            assert(shorter[0] == log[0]);
        }
    }
}

/// The entries of a list that nobody else writes to are read one after the other, from the first
/// one of the list on. After each entry that succeeded, the index in the head is raised by one.
pub proof fn law_entries_are_read_in_order(
    region: SvsmRegion,
    gpa: u64,
    log: Seq<Exchange>,
    i: int,
)
    requires
        is_run((PvalidateRequest::Mapping { region, gpa }), log),
        head_is_undisturbed(log),
        0 <= i < log.len(),
    ensures
        ({
            let va = log[0].reply->Mapped_0->0;
            let entries = log[1].reply->entries;
            let first = log[1].reply->Header_next;
            let done = entries_done(log.take(i)) as int;
            &&& log[i].action matches Action::ReadEntry { va: entry_va } ==> {
                &&& entry_va == va + HEADER_SIZE + done * ENTRY_SIZE
                &&& first + done < entries
            }
            &&& log[i].action matches Action::WriteNext { va: head, next } ==> {
                &&& head == va
                &&& next == first + done + 1
                &&& next <= entries
            }
        }),
{
    let start = PvalidateRequest::Mapping { region, gpa };
    let prefix = log.take(i);
    law_actions_were_pending(start, log, i);
    law_prefix_is_run(start, log, i);
    lemma_undisturbed_prefix(log, i);
    lemma_walk_is_orderly(start, prefix);
    let reached = after(start, prefix);
    if reached is ReadingEntry || reached is Advancing {
        assert(prefix[0] == log[0] && prefix[1] == log[1]);
        lemma_list_in_page(
            log[0].reply->Mapped_0->0,
            log[1].reply->entries,
            log[1].reply->Header_next,
        );
    }
}

/// If nobody else writes to the head, nobody else has written to it before.
proof fn lemma_undisturbed_prefix(log: Seq<Exchange>, count: int)
    requires
        head_is_undisturbed(log),
        0 <= count <= log.len(),
    ensures
        head_is_undisturbed(log.take(count)),
    decreases log.len(),
{
    if count == log.len() {
        assert(log.take(count) =~= log);
    } else {
        assert(log.drop_last().take(count) =~= log.take(count));
        lemma_undisturbed_prefix(log.drop_last(), count);
    }
}

/// An entry for a page that the call must not name ends the walk through the list at once, and the
/// call is answered with an invalid address. No access to the page is changed.
pub proof fn law_refused_page_ends_the_walk(
    region: SvsmRegion,
    walk: Walk,
    next: u16,
    entry: PvalidateEntry,
    list: Seq<VmsaInfo>,
)
    requires
        !may_name(entry.address(), entry.size_code(), region, list),
    ensures
        (PvalidateRequest::ReadingEntry { region, walk, next }).next(
            Reply::Word(entry.operation),
            list,
        ) == walk_end(Walk { rax: SVSM_ERR_INVALID_ADDRESS, ..walk }),
{
}

/// The action is one that a page is handled with.
pub open spec fn is_page_action(action: Action) -> bool {
    action is MapPrivate || action is AdjustPage || action is ValidatePage
}

/// While an entry is worked on, the call does what handling the page does, and nothing else: every
/// run of the page is one of the call. When the page is finished, its outcome decides how the
/// call goes on.
pub proof fn law_page_run_serves_the_entry(
    region: SvsmRegion,
    walk: Walk,
    next: u16,
    page: PvalidatePage,
    log: Seq<Exchange>,
)
    requires
        page.inv(),
        page !is Finished,
        is_run(page, log),
    ensures
        is_run((PvalidateRequest::Handling { region, walk, next, page }), log),
        after((PvalidateRequest::Handling { region, walk, next, page }), log) == entry_turn(
            region,
            walk,
            next,
            after(page, log),
        ),
    decreases log.len(),
{
    if log.len() > 0 {
        law_page_run_serves_the_entry(region, walk, next, page, log.drop_last());
    }
}

/// What a call exchanges with the platform while it works on an entry is a run of the page: what
/// holds of every run of a page holds of these exchanges.
pub proof fn law_entry_exchanges_are_a_page_run(
    region: SvsmRegion,
    walk: Walk,
    next: u16,
    page: PvalidatePage,
    log: Seq<Exchange>,
)
    requires
        page !is Finished,
        is_run((PvalidateRequest::Handling { region, walk, next, page }), log),
        forall|i: int| 0 <= i < log.len() ==> is_page_action((#[trigger] log[i]).action),
    ensures
        is_run(page, log),
        after((PvalidateRequest::Handling { region, walk, next, page }), log) == entry_turn(
            region,
            walk,
            next,
            after(page, log),
        ),
    decreases log.len(),
{
    if log.len() > 0 {
        let shorter = log.drop_last();
        assert forall|i: int| 0 <= i < shorter.len() implies is_page_action(
            (#[trigger] shorter[i]).action,
        ) by {
            assert(shorter[i] == log[i]);
        }
        law_entry_exchanges_are_a_page_run(region, walk, next, page, shorter);
        assert(is_page_action(log[log.len() - 1].action));
    }
}

/// Where a call on a list starts, for every argument: the address must be a multiple of 8.
pub proof fn law_list_must_be_aligned(rcx: u64, region: SvsmRegion)
    ensures
        rcx % 8 == 0 ==> list_start(rcx, region) == (PvalidateRequest::Mapping {
            region,
            gpa: rcx,
        }),
        rcx % 8 != 0 ==> list_start(rcx, region) == (PvalidateRequest::Finished {
            rax: 0x8000_0005,
        }),
{
}

/// How a call on a list begins. The eight bytes of its head are mapped and read. The call goes on
/// if and only if there are entries, the next one is at most their number, and the head and all
/// entries, eight bytes each, lie in one small page; otherwise a parameter is invalid.
pub proof fn law_list_is_checked_first(region: SvsmRegion, gpa: u64, log: Seq<Exchange>)
    requires
        is_run((PvalidateRequest::Mapping { region, gpa }), log),
    ensures
        ({
            let reached = after((PvalidateRequest::Mapping { region, gpa }), log);
            let va = log[0].reply->Mapped_0->0;
            let entries = log[1].reply->entries;
            let next = log[1].reply->Header_next;
            let proper = entries != 0 && next <= entries && va % 0x1000 + 8 + 8 * entries
                <= 0x1000;
            let invalid = PvalidateRequest::Finished { rax: 0x8000_0005 };
            &&& log.len() == 0 ==> reached.pending() == Some(
                (Action::MapPrivate { gpa, len: 8 }),
            )
            &&& log.len() == 1 && log[0].reply == Reply::Mapped(None) ==> reached == invalid
            &&& log.len() == 1 && log[0].reply == Reply::Mapped(Some(va)) ==> reached.pending()
                == Some((Action::ReadHeader { va }))
            &&& log.len() == 2 && !proper ==> reached == invalid
            &&& log.len() == 2 && proper ==> reached.pending() == Some(
                (Action::ReadHeader { va }),
            )
            &&& log.len() > 2 ==> proper
        }),
{
    let start = PvalidateRequest::Mapping { region, gpa };
    lemma_list_begins(region, gpa, log);
    if log.len() > 2 {
        law_prefix_is_run(start, log, 2);
        law_actions_were_pending(start, log, 2);
        lemma_list_begins(region, gpa, log.take(2));
        assert(log.take(2)[0] == log[0] && log.take(2)[1] == log[1]);
    }
}

/// The first two exchanges of a call on a list.
proof fn lemma_list_begins(region: SvsmRegion, gpa: u64, log: Seq<Exchange>)
    requires
        is_run((PvalidateRequest::Mapping { region, gpa }), log),
    ensures
        ({
            let reached = after((PvalidateRequest::Mapping { region, gpa }), log);
            let va = log[0].reply->Mapped_0->0;
            let entries = log[1].reply->entries;
            let next = log[1].reply->Header_next;
            let invalid = PvalidateRequest::Finished { rax: 0x8000_0005 };
            &&& log.len() == 0 ==> reached == (PvalidateRequest::Mapping { region, gpa })
            &&& log.len() == 1 ==> reached == if log[0].reply == Reply::Mapped(Some(va)) {
                PvalidateRequest::CheckingHeader { region, va }
            } else {
                invalid
            }
            &&& log.len() == 2 ==> is_canonical(va as int) && reached == if entries != 0 && next
                <= entries && va % 0x1000 + 8 + 8 * entries <= 0x1000 {
                PvalidateRequest::ReadingHeader {
                    region,
                    walk: Walk {
                        va,
                        entry_va: (va + 8) as u64,
                        flush: false,
                        rax: 0x8000_0005,
                    },
                }
            } else {
                invalid
            }
        }),
    decreases log.len(),
{
    if log.len() > 0 {
        let shorter = log.drop_last();
        lemma_list_begins(region, gpa, shorter);
        if log.len() == 2 {
            assert(shorter[0] == log[0]);
            let va = log[0].reply->Mapped_0->0;
            let start = PvalidateRequest::Mapping { region, gpa };
            law_actions_were_pending(start, log, 0);
            assert(after(start, log.take(0)) == start);
            lemma_proper_by_offset(va, log[1].reply->entries, log[1].reply->Header_next);
        }
    }
}

/// Whether a list lies in one page, by the offset of its head.
proof fn lemma_proper_by_offset(va: u64, entries: u16, next: u16)
    requires
        is_canonical(va as int),
        entries != 0 && next <= entries ==> last_byte_exists(va, entries),
    ensures
        is_proper_header(va, entries, next) <==> entries != 0 && next <= entries && va % 0x1000 + 8
            + 8 * entries <= 0x1000,
        is_proper_header(va, entries, next) ==> first_entry(va) == va + 8,
{
    if entries != 0 && next <= entries {
        if is_proper_header(va, entries, next) {
            lemma_list_in_page(va, entries, next);
        } else if va % 0x1000 + 8 + 8 * entries <= 0x1000 {
            assert(first_entry(va) == va + 8);
            assert(entries_end(va, entries) == va + 8 + 8 * entries);
            assert(last_byte(va, entries) == va + 8 + 8 * entries - 1);
            let last = last_byte(va, entries);
            assert(last - last % 0x1000 == va - va % 0x1000);
            assert(false);
        }
    }
}

/// Where the walk through the list stands, and what the call would be answered with if there were
/// no more entries.
proof fn lemma_walk_place(region: SvsmRegion, gpa: u64, log: Seq<Exchange>)
    requires
        is_run((PvalidateRequest::Mapping { region, gpa }), log),
    ensures
        ({
            let reached = after((PvalidateRequest::Mapping { region, gpa }), log);
            let va = log[0].reply->Mapped_0->0;
            let done = entries_done(log) as int;
            let at = |walk: Walk, room: int|
                {
                    &&& log.len() >= 2
                    &&& log[0].reply == Reply::Mapped(Some(va))
                    &&& is_canonical(va as int)
                    &&& walk.va == va
                    &&& va % 0x1000 + 8 + 8 * done + room <= 0x1000
                    &&& is_extendable(va + 8 + 8 * done)
                    &&& walk.entry_va == extended(va + 8 + 8 * done)
                };
            let so_far: u64 = if done == 0 {
                0x8000_0005
            } else {
                0
            };
            match reached {
                PvalidateRequest::Mapping { .. } => log.len() == 0,
                PvalidateRequest::CheckingHeader { .. } => log.len() == 1 && done == 0,
                PvalidateRequest::ReadingHeader { walk, .. } => at(walk, 0) && walk.rax == so_far,
                PvalidateRequest::ReadingEntry { walk, .. } => at(walk, 8) && walk.rax == so_far,
                PvalidateRequest::Handling { walk, page, .. } => at(walk, 8) && page !is Finished,
                PvalidateRequest::Advancing { walk, .. } => at(walk, 8) && walk.rax == 0,
                _ => true,
            }
        }),
    decreases log.len(),
{
    if log.len() > 0 {
        let shorter = log.drop_last();
        lemma_walk_place(region, gpa, shorter);
        lemma_flush_owed((PvalidateRequest::Mapping { region, gpa }), shorter);
        lemma_list_begins(region, gpa, shorter);
        if log.len() <= 2 {
            lemma_list_begins(region, gpa, log);
        }
        if shorter.len() > 0 {
            assert(shorter[0] == log[0]);
        } else {
            assert(entries_done(shorter) == 0);
        }
        let va = log[0].reply->Mapped_0->0;
        assert(page_start(va) + va % 0x1000 == va);
    }
}

/// What each step of a walk through a list leads to, whatever the guest writes to the head in the
/// meantime. Entry after entry is read, right after the head, as long as the head counts more
/// entries and the entry lies in the page of the head. An entry is worked on only if the call may
/// name its page. When the walk ends, all translations are flushed if access to some page was
/// reduced, and the answer stays the same.
pub proof fn law_list_step_by_step(region: SvsmRegion, gpa: u64, log: Seq<Exchange>)
    requires
        is_run((PvalidateRequest::Mapping { region, gpa }), log),
        log.len() > 2,
    ensures
        ({
            let reached = after((PvalidateRequest::Mapping { region, gpa }), log);
            let before = after((PvalidateRequest::Mapping { region, gpa }), log.drop_last());
            let va = log[0].reply->Mapped_0->0;
            let done = entries_done(log) as int;
            let last = log.last();
            let reduced = exists|j: int|
                0 <= j < log.len() && (#[trigger] log[j]).action is AdjustPage
                    && log[j].action->AdjustPage_attributes == 1;
            let ends_with = |rax: u64|
                reached == if reduced {
                    PvalidateRequest::Flushing { rax }
                } else {
                    PvalidateRequest::Finished { rax }
                };
            let op = last.reply->Word_0 as int;
            let page = op - op % 0x1000;
            let end = if op % 4 == 0 {
                page + 0x1000
            } else {
                page + 0x20_0000
            };
            let accepted = {
                &&& op % 4 == 0 || (op % 4 == 1 && page % 0x20_0000 == 0)
                &&& end <= region.begin || region.end <= page
                &&& forall|i: int|
                    0 <= i < last.list.len() ==> !(page <= (#[trigger] last.list[i]).gpa < end && (
                    last.list[i].gpa - page) % 0x1000 == 0)
            };
            &&& last.action is ReadHeader ==> last.action == (Action::ReadHeader { va })
            &&& last.action is ReadHeader && last.reply->Header_next >= last.reply->entries
                ==> ends_with(
                if done == 0 {
                    0x8000_0005
                } else {
                    0
                },
            )
            &&& last.action is ReadHeader && last.reply->Header_next < last.reply->entries && va
                % 0x1000 + 16 + 8 * done <= 0x1000 ==> reached.pending() == Some(
                (Action::ReadEntry { va: (va + 8 + 8 * done) as u64 }),
            )
            &&& last.action is ReadHeader && last.reply->Header_next < last.reply->entries && va
                % 0x1000 + 16 + 8 * done > 0x1000 ==> ends_with(0x8000_0005)
            &&& last.action is ReadEntry && accepted ==> reached.pending() == Some(
                (Action::MapPrivate { gpa: page as u64, len: (end - page) as u64 }),
            )
            &&& last.action is ReadEntry && !accepted ==> ends_with(0x8000_0003)
            &&& last.action is WriteNext ==> reached.pending() == Some(
                (Action::ReadHeader { va }),
            )
            &&& last.action == Action::FlushAll ==> before is Flushing && reached == (
            PvalidateRequest::Finished { rax: before->Flushing_rax })
            &&& reached is Flushing ==> reached.pending() == Some(Action::FlushAll)
            &&& reached.pending() is None <==> reached is Finished
            &&& before.next_list(last.reply, last.list) == last.list
        }),
{
    let start = PvalidateRequest::Mapping { region, gpa };
    let shorter = log.drop_last();
    let last = log.last();
    let reached = after(start, log);
    let va = log[0].reply->Mapped_0->0;
    lemma_walk_place(region, gpa, shorter);
    lemma_walk_place(region, gpa, log);
    lemma_flush_owed(start, shorter);
    lemma_flush_owed(start, log);
    lemma_region_kept(start, shorter);
    lemma_reduced(log);
    assert(shorter[0] == log[0]);
    assert(page_start(va) + va % 0x1000 == va);
    law_entries_name_foreign_pages(
        (PvalidateEntry { operation: last.reply->Word_0 }),
        region,
        last.list,
    );
}

/// Access is reduced where an adjustment for VMPL1 gives it nothing.
proof fn lemma_reduced(log: Seq<Exchange>)
    ensures
        some_revoked(log) <==> exists|j: int|
            0 <= j < log.len() && (#[trigger] log[j]).action is AdjustPage
                && log[j].action->AdjustPage_attributes == 1,
{
    if some_revoked(log) {
        let j = choose|j: int| 0 <= j < log.len() && revokes(#[trigger] log[j]);
        assert(log[j].action is AdjustPage);
    }
    if exists|j: int|
        0 <= j < log.len() && (#[trigger] log[j]).action is AdjustPage
            && log[j].action->AdjustPage_attributes == 1 {
        let j = choose|j: int|
            0 <= j < log.len() && (#[trigger] log[j]).action is AdjustPage
                && log[j].action->AdjustPage_attributes == 1;
        assert(revokes(log[j]));
    }
}

/// What is done for an entry and what comes after it. From the exchange at `k`, which read the
/// entry, the call does what handling its page does. Once the page is handled with success, the
/// index that was read right before the entry is raised by one in the head; if it fails, the walk
/// ends with the answer of the page.
pub proof fn law_page_decides_the_walk(
    region: SvsmRegion,
    gpa: u64,
    log: Seq<Exchange>,
    k: int,
)
    requires
        is_run((PvalidateRequest::Mapping { region, gpa }), log),
        0 <= k < log.len() - 1,
        log[k].action is ReadEntry,
        forall|i: int| k < i < log.len() ==> is_page_action((#[trigger] log[i]).action),
    ensures
        k > 0,
        log[k - 1].action is ReadHeader,
        ({
            let reached = after((PvalidateRequest::Mapping { region, gpa }), log);
            let start = PvalidatePage::Mapping {
                entry: PvalidateEntry { operation: log[k].reply->Word_0 },
            };
            let handled = after(start, log.skip(k + 1));
            let va = log[0].reply->Mapped_0->0;
            let reduced = exists|j: int|
                0 <= j < log.len() && (#[trigger] log[j]).action is AdjustPage
                    && log[j].action->AdjustPage_attributes == 1;
            let ends_with = |rax: u64|
                reached == if reduced {
                    PvalidateRequest::Flushing { rax }
                } else {
                    PvalidateRequest::Finished { rax }
                };
            &&& is_run(start, log.skip(k + 1))
            &&& match handled {
                PvalidatePage::Finished { outcome } => if outcome.success {
                    reached.pending() == Some(
                        (Action::WriteNext {
                            va,
                            next: (log[k - 1].reply->Header_next + 1) as u16,
                        }),
                    )
                } else {
                    ends_with(outcome.rax)
                },
                _ => reached.pending() == handled.pending(),
            }
        }),
{
    let start = PvalidateRequest::Mapping { region, gpa };
    let entry = PvalidateEntry { operation: log[k].reply->Word_0 };
    law_actions_were_pending(start, log, k);
    law_actions_were_pending(start, log, k + 1);
    law_prefix_is_run(start, log, k);
    lemma_walk_place(region, gpa, log.take(k));
    lemma_region_kept(start, log.take(k));
    lemma_flush_owed(start, log.take(k));
    let reading = after(start, log.take(k));
    assert(reading is ReadingEntry);
    law_actions_were_pending(start, log, k - 1);
    law_prefix_is_run(start, log, k - 1);
    lemma_walk_place(region, gpa, log.take(k - 1));
    lemma_flush_owed(start, log.take(k - 1));
    let walk = reading->ReadingEntry_walk;
    let next = reading->ReadingEntry_next;
    assert(next == log[k - 1].reply->Header_next);
    let page = PvalidatePage::Mapping { entry };
    assert(is_page_action(log[k + 1].action));
    assert(after(start, log.take(k + 1)) == (PvalidateRequest::Handling {
        region,
        walk,
        next,
        page,
    }));
    law_run_can_be_cut(start, log, k + 1);
    let rest = log.skip(k + 1);
    assert forall|i: int| 0 <= i < rest.len() implies is_page_action(
        (#[trigger] rest[i]).action,
    ) by {
        assert(rest[i] == log[k + 1 + i]);
    }
    law_entry_exchanges_are_a_page_run(region, walk, next, page, rest);
    lemma_flush_owed(start, log);
    lemma_reduced(log);
    assert(log.take(k)[0] == log[0]);
    assert(is_page_action(log[log.len() - 1].action));
}

/// What the caller would find in RAX if serving a call on a list ended at this point: an invalid
/// parameter until the first entry is done and while a page is handled, and otherwise a success.
pub proof fn law_list_interim_answer(region: SvsmRegion, gpa: u64, log: Seq<Exchange>)
    requires
        is_run((PvalidateRequest::Mapping { region, gpa }), log),
    ensures
        ({
            let reached = after((PvalidateRequest::Mapping { region, gpa }), log);
            let action = reached.pending()->0;
            &&& reached.pending() is Some && is_page_action(action) ==> reached.rax_so_far()
                == 0x8000_0005
            &&& reached.pending() is Some && (action is ReadHeader || action is ReadEntry)
                ==> reached.rax_so_far() == if entries_done(log) == 0 {
                0x8000_0005u64
            } else {
                0
            }
            &&& reached.pending() is Some && action is WriteNext ==> reached.rax_so_far() == 0
            &&& reached matches PvalidateRequest::Flushing { rax } ==> reached.rax_so_far() == rax
        }),
{
    lemma_walk_place(region, gpa, log);
    lemma_flush_owed((PvalidateRequest::Mapping { region, gpa }), log);
}

/// Which replies a call on a list can go on with, beyond that they are of the right kind: the list
/// is mapped to a canonical address; the last byte of a list that is checked has an address; the
/// page of an entry has an address of 52 bits, and so has its end; and the next entry has an
/// address.
pub proof fn law_list_replies_that_make_sense(call: PvalidateRequest, reply: Reply)
    requires
        call.inv(),
    ensures
        ({
            let canonical = |addr: int|
                0 <= addr < 0x8000_0000_0000 || 0xffff_8000_0000_0000 <= addr
                    <= 0xffff_ffff_ffff_ffff;
            let op = reply->Word_0 as int;
            let page = op - op % 0x1000;
            let entries = reply->entries as int;
            &&& call is Mapping && reply is Mapped ==> (call.defined(reply) <==> reply->Mapped_0
                is None || canonical(reply->Mapped_0->0 as int))
            &&& call is CheckingHeader && reply is Header && (entries == 0
                || reply->Header_next > entries) ==> call.defined(reply)
            &&& call is CheckingHeader && reply is Header && entries > 0 && reply->Header_next
                <= entries && call->CheckingHeader_va + 8 + 8 * entries < 0x8000_0000_0000
                ==> call.defined(reply)
            &&& call is CheckingHeader && reply is Header && entries > 0 && reply->Header_next
                <= entries && call->CheckingHeader_va >= 0xffff_8000_0000_0000 ==> (call.defined(
                reply,
            ) <==> call->CheckingHeader_va + 8 + 8 * entries <= 0xffff_ffff_ffff_ffff)
            &&& call is CheckingHeader && reply is Header && entries > 0 && reply->Header_next
                <= entries && call->CheckingHeader_va < 0x8000_0000_0000
                && call->CheckingHeader_va + 8 + 8 * entries >= 0x8000_0000_0000 ==> (call.defined(
                reply,
            ) <==> call->CheckingHeader_va + 8 + 8 * entries != 0x8000_0000_0000)
            &&& call is ReadingEntry && reply is Word ==> (call.defined(reply) <==> page
                < 0x10_0000_0000_0000 && (op % 4 == 0 ==> page + 0x1000 < 0x10_0000_0000_0000) && (
            op % 4 == 1 && page % 0x20_0000 == 0 ==> page + 0x20_0000 < 0x10_0000_0000_0000))
            &&& call matches PvalidateRequest::Advancing { walk, .. } ==> (call.defined(reply)
                <==> walk.entry_va + 8 <= 0xffff_ffff_ffff_ffff)
            &&& call is ReadingHeader || call is Handling || call is Flushing || call is Finished
                ==> call.defined(reply)
        }),
{
    law_which_pages_may_be_named(
        (PvalidateEntry { operation: reply->Word_0 }).address(),
        (PvalidateEntry { operation: reply->Word_0 }).size_code(),
        (SvsmRegion { begin: 0, end: 0 }),
        Seq::empty(),
    );
}

/// A call on a list never changes the list of VMSA pages.
pub proof fn law_validation_keeps_the_vmsa_list(
    call: PvalidateRequest,
    reply: Reply,
    list: Seq<VmsaInfo>,
)
    ensures
        call.next_list(reply, list) == list,
{
}

} // verus!

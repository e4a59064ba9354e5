//! Moving the caller's calling area.

use vstd::prelude::*;

use crate::addr::{frame_of, is_physical, lemma_alignments, page_start, phys_is_aligned};
use crate::guest_page::{
    address_valid, law_which_pages_may_be_named, may_name, page_end_exists, SvsmRegion,
};
use crate::machine::{after, is_run, Exchange, Machine};
use crate::platform::{Action, Reply};
use crate::protocol::{SVSM_ERR_INVALID_PARAMETER, SVSM_SUCCESS, VMPL_MAX};
use crate::vmpl_access::RMP_4K;
use crate::vmsa_list::{VmsaInfo, VmsaList};

verus! {

/// How many bytes of a calling area are mapped.
pub const CALLING_AREA_SIZE: u64 = 8;

/// The call that moves the caller's calling area.
#[derive(Clone, Copy, Debug, PartialEq, Eq)]
pub enum RemapCa {
    /// The new calling area is mapped.
    Mapping { gpa: u64, vmpl: u8 },
    /// The calling area is made that of the caller's level.
    Setting { ca: u64, vmpl: u8 },
    /// The caller is answered with `rax`.
    Finished { rax: u64 },
}

/// The end of the page that the calling area at `rcx` lies in exists, if the calling area is
/// aligned.
pub open spec fn remap_defined(rcx: u64) -> bool {
    &&& is_physical(rcx as int)
    &&& rcx % 8 == 0 ==> page_end_exists(page_start(rcx), RMP_4K)
}

/// Where the call with the argument `rcx` from the level `vmpl` starts.
pub open spec fn remap_start(
    rcx: u64,
    vmpl: u8,
    region: SvsmRegion,
    list: Seq<VmsaInfo>,
) -> RemapCa {
    if rcx % 8 == 0 && may_name(page_start(rcx), RMP_4K, region, list) && 1 <= vmpl < VMPL_MAX {
        RemapCa::Mapping { gpa: rcx, vmpl }
    } else {
        RemapCa::Finished { rax: SVSM_ERR_INVALID_PARAMETER }
    }
}

/// Starts to make the memory at `rcx` the calling area of the level `vmpl`.
pub fn handle_remap_ca_request(rcx: u64, vmpl: u8, region: &SvsmRegion, list: &VmsaList) -> (call:
    RemapCa)
    requires
        remap_defined(rcx),
    ensures
        call.inv(),
        call == remap_start(rcx, vmpl, *region, list@),
{
    proof {
        lemma_alignments();
    }
    if !phys_is_aligned(rcx, 8) {
        return RemapCa::Finished { rax: SVSM_ERR_INVALID_PARAMETER };
    }
    if !address_valid(frame_of(rcx), RMP_4K, region, list) {
        return RemapCa::Finished { rax: SVSM_ERR_INVALID_PARAMETER };
    }
    match vmpl {
        1 | 2 | 3 => RemapCa::Mapping { gpa: rcx, vmpl },
        _ => RemapCa::Finished { rax: SVSM_ERR_INVALID_PARAMETER },
    }
}

impl RemapCa {
    /// What the caller's RAX is set to at this point of the call.
    pub open spec fn rax_so_far(self) -> u64 {
        match self {
            RemapCa::Finished { rax } => rax,
            _ => SVSM_ERR_INVALID_PARAMETER,
        }
    }

    /// What the caller's RAX is set to at this point of the call.
    pub fn rax(&self) -> (rax: u64)
        ensures
            rax == self.rax_so_far(),
    {
        match *self {
            RemapCa::Finished { rax } => rax,
            _ => SVSM_ERR_INVALID_PARAMETER,
        }
    }
}

impl Machine for RemapCa {
    open spec fn inv(self) -> bool {
        true
    }

    open spec fn pending(self) -> Option<Action> {
        match self {
            RemapCa::Mapping { gpa, .. } => Some(
                Action::MapPrivate { gpa, len: CALLING_AREA_SIZE },
            ),
            RemapCa::Setting { ca, vmpl } => Some(Action::SetCallingArea { va: ca, vmpl }),
            RemapCa::Finished { .. } => None,
        }
    }

    open spec fn defined(self, reply: Reply) -> bool {
        true
    }

    open spec fn next(self, reply: Reply, list: Seq<VmsaInfo>) -> RemapCa {
        match self {
            RemapCa::Mapping { vmpl, .. } => match reply {
                Reply::Mapped(Some(ca)) => RemapCa::Setting { ca, vmpl },
                _ => RemapCa::Finished { rax: SVSM_ERR_INVALID_PARAMETER },
            },
            RemapCa::Setting { .. } => RemapCa::Finished { rax: SVSM_SUCCESS },
            RemapCa::Finished { .. } => self,
        }
    }

    open spec fn next_list(self, reply: Reply, list: Seq<VmsaInfo>) -> Seq<VmsaInfo> {
        list
    }

    fn action(&self) -> (action: Option<Action>) {
        match *self {
            RemapCa::Mapping { gpa, .. } => Some(
                Action::MapPrivate { gpa, len: CALLING_AREA_SIZE },
            ),
            RemapCa::Setting { ca, vmpl } => Some(Action::SetCallingArea { va: ca, vmpl }),
            RemapCa::Finished { .. } => None,
        }
    }

    fn is_defined(&self, reply: &Reply) -> (is_defined: bool) {
        true
    }

    fn resume(self, reply: Reply, list: &mut VmsaList) -> (after: RemapCa) {
        match (self, reply) {
            (RemapCa::Mapping { vmpl, .. }, Reply::Mapped(Some(ca))) => RemapCa::Setting {
                ca,
                vmpl,
            },
            (RemapCa::Setting { .. }, _) => RemapCa::Finished { rax: SVSM_SUCCESS },
            _ => RemapCa::Finished { rax: SVSM_ERR_INVALID_PARAMETER },
        }
    }
}

/// A call to move the calling area maps the new one and makes it that of the caller's level. It
/// succeeds exactly when the mapping does, and touches nothing else.
pub proof fn law_remap_follows_script(gpa: u64, vmpl: u8, log: Seq<Exchange>)
    requires
        is_run((RemapCa::Mapping { gpa, vmpl }), log),
    ensures
        log.len() <= 2,
        log.len() >= 1 ==> log[0].action == (Action::MapPrivate { gpa, len: CALLING_AREA_SIZE }),
        log.len() == 2 ==> log[0].reply->Mapped_0 is Some && log[1].action == (
        Action::SetCallingArea { va: log[0].reply->Mapped_0->0, vmpl }),
        ({
            let reached = after((RemapCa::Mapping { gpa, vmpl }), log);
            &&& reached is Finished <==> log.len() == 2 || (log.len() == 1 && log[0].reply
                == Reply::Mapped(None))
            &&& reached is Finished ==> reached == (RemapCa::Finished {
                rax: if log.len() == 2 {
                    SVSM_SUCCESS
                } else {
                    SVSM_ERR_INVALID_PARAMETER
                },
            })
        }),
    decreases log.len(),
{
    let start = RemapCa::Mapping { gpa, vmpl };
    if log.len() > 0 {
        let shorter = log.drop_last();
        law_remap_follows_script(gpa, vmpl, shorter);
        if shorter.len() == 0 {
            assert(after(start, shorter) == start);
        } else {
            assert(shorter.drop_last().len() == 0);
            assert(after(start, shorter.drop_last()) == start);
            assert(shorter[0] == log[0]);
        }
    }
}

/// Which calling areas can be moved to, for every argument: the address is a multiple of 8, its
/// small page does not reach into the memory of the SVSM and is no registered VMSA page, and the
/// caller runs at one of the levels 1 to 3. Every other argument is refused. Where the SVSM has
/// any memory, the page reaches into it if and only if the two have a byte in common.
pub proof fn law_remap_is_for_foreign_pages(
    rcx: u64,
    vmpl: u8,
    region: SvsmRegion,
    list: Seq<VmsaInfo>,
    byte: int,
)
    ensures
        ({
            let page = rcx - rcx % 0x1000;
            let apart = page + 0x1000 <= region.begin || region.end <= page;
            let accepted = {
                &&& rcx % 8 == 0
                &&& apart
                &&& forall|i: int| 0 <= i < list.len() ==> (#[trigger] list[i]).gpa != page
                &&& vmpl == 1 || vmpl == 2 || vmpl == 3
            };
            let shared = if page < region.begin {
                region.begin as int
            } else {
                page
            };
            &&& accepted ==> remap_start(rcx, vmpl, region, list) == (RemapCa::Mapping {
                gpa: rcx,
                vmpl,
            })
            &&& !accepted ==> remap_start(rcx, vmpl, region, list) == (RemapCa::Finished {
                rax: 0x8000_0005,
            })
            &&& apart && page <= byte < page + 0x1000 ==> !(region.begin <= byte < region.end)
            &&& !apart && region.begin < region.end ==> page <= shared < page + 0x1000
                && region.begin <= shared < region.end
            &&& remap_defined(rcx) <==> rcx < 0x10_0000_0000_0000 && (rcx % 8 == 0 ==> page + 0x1000
                < 0x10_0000_0000_0000)
        }),
{
    let page = page_start(rcx);
    law_which_pages_may_be_named(page, 0, region, list);
    assert forall|i: int| 0 <= i < list.len() && page <= (#[trigger] list[i]).gpa < page + 0x1000
        && (list[i].gpa - page) % 0x1000 == 0 implies list[i].gpa == page by {}
}

/// What moving a calling area does: the eight bytes at the new place are mapped and what they are
/// mapped to becomes the calling area of the caller's level. The answer is a success then, and an
/// invalid parameter if there is no mapping; until the end the caller would find the latter. The
/// list of VMSA pages stays as it is.
pub proof fn law_remap_step_by_step(gpa: u64, vmpl: u8, log: Seq<Exchange>)
    requires
        is_run((RemapCa::Mapping { gpa, vmpl }), log),
        log.len() > 0,
    ensures
        ({
            let reached = after((RemapCa::Mapping { gpa, vmpl }), log);
            let before = after((RemapCa::Mapping { gpa, vmpl }), log.drop_last());
            let ca = log[0].reply->Mapped_0->0;
            let last = log.last();
            &&& log[0].action == (Action::MapPrivate { gpa, len: 8 })
            &&& log.len() == 1 && log[0].reply == Reply::Mapped(None) ==> reached == (
            RemapCa::Finished { rax: 0x8000_0005 })
            &&& log.len() == 1 && log[0].reply == Reply::Mapped(Some(ca)) ==> reached.pending()
                == Some((Action::SetCallingArea { va: ca, vmpl }))
            &&& log.len() > 1 ==> log[1].action == (Action::SetCallingArea { va: ca, vmpl })
                && reached == (RemapCa::Finished { rax: 0 })
            &&& log.len() <= 2
            &&& before.next_list(last.reply, last.list) == last.list
            &&& before.defined(last.reply)
            &&& before.rax_so_far() == 0x8000_0005
        }),
{
    law_remap_follows_script(gpa, vmpl, log);
    let start = RemapCa::Mapping { gpa, vmpl };
    if log.len() == 1 {
        assert(after(start, log.drop_last()) == start);
    } else {
        assert(log.drop_last().drop_last().len() == 0);
        assert(after(start, log.drop_last().drop_last()) == start);
        assert(log.drop_last()[0] == log[0]);
    }
}

/// Moving a calling area can go on with any reply of the right kind, and until it ends the caller
/// would find an invalid parameter.
pub proof fn law_remap_takes_any_reply(call: RemapCa, reply: Reply)
    ensures
        call.defined(reply),
        !(call is Finished) ==> call.rax_so_far() == 0x8000_0005,
{
}

} // verus!

//! Changing what the lower privilege levels may do with a page.

use vstd::prelude::*;

use crate::machine::{after, is_run, Exchange, Machine};
use crate::platform::{Action, Reply};
use crate::protocol::{VMPL1, VMPL_MAX};
use crate::vmsa_list::{VmsaInfo, VmsaList};

verus! {

/// The size code of a small page.
pub const RMP_4K: u32 = 0;

/// Page attribute: the level may read the page (bit 8).
pub const VMPL_R: u64 = 0x100;

/// Page attributes: the level may read, write and execute the page (bits 8 to 11).
pub const VMPL_RWX: u64 = 0xf00;

/// Page attribute: the page is a VMSA page (bit 16).
pub const VMPL_VMSA: u64 = 0x1_0000;

/// The same page attributes are given to one privilege level after the other, until all have
/// them or the platform refuses one.
#[derive(Clone, Copy, Debug, PartialEq, Eq)]
pub enum Access {
    /// The levels from `level` up to but without `end` are still to be given the attributes.
    Adjusting { va: u64, page_size: u32, attributes: u64, level: u8, end: u8 },
    /// The status of the last adjustment: 0 if all levels have the attributes.
    Finished { status: u32 },
}

/// Gives the levels from VMPL1 up to `vmpl` all access to a page.
pub fn grant_vmpl_access(va: u64, page_size: u32, vmpl: u8) -> (access: Access)
    requires
        0 < vmpl < u8::MAX,
    ensures
        access.inv(),
        access == (Access::Adjusting {
            va,
            page_size,
            attributes: VMPL_RWX,
            level: VMPL1,
            end: (vmpl + 1) as u8,
        }),
{
    Access::Adjusting { va, page_size, attributes: VMPL_RWX, level: VMPL1, end: vmpl + 1 }
}

/// Takes all access to a page from every level below VMPL0.
pub fn revoke_vmpl_access(va: u64, page_size: u32) -> (access: Access)
    ensures
        access.inv(),
        access == (Access::Adjusting {
            va,
            page_size,
            attributes: 0,
            level: VMPL1,
            end: VMPL_MAX,
        }),
{
    Access::Adjusting { va, page_size, attributes: 0, level: VMPL1, end: VMPL_MAX }
}

/// Lets the levels from VMPL1 up to `vmpl` only read a page.
pub fn restrict_vmpl_access(va: u64, page_size: u32, vmpl: u8) -> (access: Access)
    requires
        0 < vmpl < u8::MAX,
    ensures
        access.inv(),
        access == (Access::Adjusting {
            va,
            page_size,
            attributes: VMPL_R,
            level: VMPL1,
            end: (vmpl + 1) as u8,
        }),
{
    Access::Adjusting { va, page_size, attributes: VMPL_R, level: VMPL1, end: vmpl + 1 }
}

impl Machine for Access {
    open spec fn inv(self) -> bool {
        self matches Access::Adjusting { level, end, .. } ==> level < end
    }

    open spec fn pending(self) -> Option<Action> {
        match self {
            Access::Adjusting { va, page_size, attributes, level, .. } => Some(
                Action::AdjustPage { va, page_size, attributes: attributes | level as u64 },
            ),
            Access::Finished { .. } => None,
        }
    }

    open spec fn defined(self, reply: Reply) -> bool {
        true
    }

    open spec fn next(self, reply: Reply, list: Seq<VmsaInfo>) -> Access {
        match (self, reply) {
            (Access::Adjusting { va, page_size, attributes, level, end }, Reply::Status(status)) => {
                if status == 0 && level + 1 < end {
                    Access::Adjusting { va, page_size, attributes, level: (level + 1) as u8, end }
                } else {
                    Access::Finished { status }
                }
            },
            _ => self,
        }
    }

    open spec fn next_list(self, reply: Reply, list: Seq<VmsaInfo>) -> Seq<VmsaInfo> {
        list
    }

    fn action(&self) -> (action: Option<Action>) {
        match *self {
            Access::Adjusting { va, page_size, attributes, level, .. } => Some(
                Action::AdjustPage { va, page_size, attributes: attributes | level as u64 },
            ),
            Access::Finished { .. } => None,
        }
    }

    fn is_defined(&self, reply: &Reply) -> (is_defined: bool) {
        true
    }

    fn resume(self, reply: Reply, list: &mut VmsaList) -> (after: Access) {
        match (self, reply) {
            (Access::Adjusting { va, page_size, attributes, level, end }, Reply::Status(status)) => {
                if status != 0 {
                    return Access::Finished { status };
                }
                let level: u8 = level + 1;
                if level == end {
                    Access::Finished { status: 0 }
                } else {
                    Access::Adjusting { va, page_size, attributes, level, end }
                }
            },
            _ => self,
        }
    }
}

/// A revocation gives each level no attribute at all: what is passed on is the level alone.
pub proof fn lemma_revocation_is_level()
    ensures
        0u64 | 1u64 == 1u64,
        0u64 | 2u64 == 2u64,
        0u64 | 3u64 == 3u64,
{
    assert(0u64 | 1u64 == 1u64) by (bit_vector);
    assert(0u64 | 2u64 == 2u64) by (bit_vector);
    assert(0u64 | 3u64 == 3u64) by (bit_vector);
}

/// The exchanges of `log` give `attributes` to VMPL1 and the levels after it, in order, and only
/// the last one may have failed.
pub open spec fn adjusts_in_order(
    log: Seq<Exchange>,
    va: u64,
    page_size: u32,
    attributes: u64,
) -> bool {
    &&& forall|i: int|
        0 <= i < log.len() ==> (#[trigger] log[i]).action == (Action::AdjustPage {
            va,
            page_size,
            attributes: attributes | (i + 1) as u64,
        }) && log[i].reply is Status
    &&& forall|i: int| 0 <= i < log.len() - 1 ==> (#[trigger] log[i]).reply == Reply::Status(0)
}

/// Attributes are given level by level, from VMPL1 on, and nothing is done after the first
/// refusal. The outcome is a success exactly when every level up to `end` has been given them.
pub proof fn law_access_by_levels(
    va: u64,
    page_size: u32,
    attributes: u64,
    end: u8,
    log: Seq<Exchange>,
)
    requires
        VMPL1 < end,
        is_run((Access::Adjusting { va, page_size, attributes, level: VMPL1, end }), log),
    ensures
        ({
            let reached = after(
                (Access::Adjusting { va, page_size, attributes, level: VMPL1, end }),
                log,
            );
            &&& adjusts_in_order(log, va, page_size, attributes)
            &&& log.len() <= end - VMPL1
            &&& reached is Finished <==> log.len() > 0 && (log.len() == end - VMPL1
                || log.last().reply != Reply::Status(0))
            &&& reached matches Access::Finished { status } ==> log.last().reply == Reply::Status(
                status,
            ) && (status == 0 ==> log.len() == end - VMPL1)
            &&& reached is Adjusting ==> reached == (Access::Adjusting {
                va,
                page_size,
                attributes,
                level: (VMPL1 + log.len()) as u8,
                end,
            }) && (log.len() > 0 ==> log.last().reply == Reply::Status(0))
        }),
    decreases log.len(),
{
    if log.len() > 0 {
        let shorter = log.drop_last();
        law_access_by_levels(va, page_size, attributes, end, shorter);
        assert forall|i: int| 0 <= i < log.len() implies (#[trigger] log[i]).action == (
        Action::AdjustPage { va, page_size, attributes: attributes | (i + 1) as u64 })
            && log[i].reply is Status by {
            if i < shorter.len() {
                assert(log[i] == shorter[i]);
            }
        }
        assert forall|i: int| 0 <= i < log.len() - 1 implies (#[trigger] log[i]).reply
            == Reply::Status(0) by {
            assert(log[i] == shorter[i]);
        }
    }
}

} // verus!

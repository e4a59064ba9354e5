//! Which guest pages a call may name.

use vstd::prelude::*;

use crate::addr::{
    is_physical, lemma_alignments, phys_add, phys_is_aligned, PAGE_2MB_SIZE, PAGE_SIZE,
};
use crate::vmsa_list::{registered, VmsaInfo, VmsaList};

verus! {

/// The guest physical memory that the SVSM itself lies in, from `begin` up to but without `end`.
#[derive(Clone, Copy, Debug, PartialEq, Eq)]
pub struct SvsmRegion {
    pub begin: u64,
    pub end: u64,
}

/// The size in bytes of a page, by its size code: 0 for small pages, 1 for large ones.
pub open spec fn page_bytes(page_size: u32) -> u64 {
    if page_size == 0 {
        PAGE_SIZE
    } else {
        PAGE_2MB_SIZE
    }
}

/// The size in bytes of a page, by its size code.
pub fn page_len(page_size: u32) -> (len: u64)
    ensures
        len == page_bytes(page_size),
{
    if page_size == 0 {
        PAGE_SIZE
    } else {
        PAGE_2MB_SIZE
    }
}

/// A page of size code `page_size` can lie at `gpa`, which is the start of a small page.
pub open spec fn is_page(gpa: u64, page_size: u32) -> bool {
    &&& page_size <= 1
    &&& page_size == 1 ==> gpa % PAGE_2MB_SIZE == 0
}

/// Some of the `len` bytes from `gpa` on belong to the SVSM.
pub open spec fn overlaps_svsm(gpa: u64, len: u64, region: SvsmRegion) -> bool {
    gpa < region.end && gpa + len > region.begin
}

/// One of the small pages in the `len` bytes from `gpa` on is a registered VMSA page.
pub open spec fn covers_vmsa(gpa: u64, len: u64, list: Seq<VmsaInfo>) -> bool {
    exists|i: int|
        0 <= i < list.len() && gpa <= (#[trigger] list[i]).gpa < gpa + len && (list[i].gpa - gpa)
            % PAGE_SIZE as int == 0
}

/// A call may name the page of size code `page_size` at `gpa`.
pub open spec fn may_name(
    gpa: u64,
    page_size: u32,
    region: SvsmRegion,
    list: Seq<VmsaInfo>,
) -> bool {
    &&& is_page(gpa, page_size)
    &&& !overlaps_svsm(gpa, page_bytes(page_size), region)
    &&& !covers_vmsa(gpa, page_bytes(page_size), list)
}

/// The end of the page exists, if there is such a page at all.
pub open spec fn page_end_exists(gpa: u64, page_size: u32) -> bool {
    is_page(gpa, page_size) ==> is_physical(gpa + page_bytes(page_size))
}

/// Whether a call may name the page of size code `page_size` in the frame at `gfn`.
pub fn address_valid(gfn: u64, page_size: u32, region: &SvsmRegion, list: &VmsaList) -> (valid:
    bool)
    requires
        is_physical(gfn as int),
        page_end_exists(gfn, page_size),
    ensures
        valid == may_name(gfn, page_size, *region, list@),
{
    proof {
        lemma_alignments();
    }
    if page_size > 1 {
        return false;
    }
    if page_size == 1 && !phys_is_aligned(gfn, PAGE_2MB_SIZE) {
        return false;
    }
    let gpa_end: u64 = phys_add(gfn, page_len(page_size));

    if gfn < region.end && gpa_end > region.begin {
        return false;
    }
    let mut gpa: u64 = gfn;
    while gpa < gpa_end
        invariant
            gfn <= gpa <= gpa_end,
            gpa_end == gfn + page_bytes(page_size),
            is_physical(gpa_end as int),
            (gpa - gfn) % PAGE_SIZE as int == 0,
            !covers_vmsa(gfn, (gpa - gfn) as u64, list@),
        decreases gpa_end - gpa,
    {
        if list.vmsa_page(gpa) {
            let ghost i = choose|i: int| 0 <= i < list@.len() && (#[trigger] list@[i]).gpa == gpa;
            assert(list@[i].gpa == gpa);
            return false;
        }
        let ghost before = gpa;
        gpa = phys_add(gpa, PAGE_SIZE);
        assert(!covers_vmsa(gfn, (gpa - gfn) as u64, list@)) by {
            assert forall|i: int|
                0 <= i < list@.len() && gfn <= (#[trigger] list@[i]).gpa < gpa implies (
            list@[i].gpa - gfn) % PAGE_SIZE as int != 0 by {
                if list@[i].gpa == before {
                    assert(registered(list@, before));
                }
            }
        }
    }
    true
}

/// A page that a call may name has no byte in common with the SVSM, and none of its small pages
/// is a registered VMSA page.
pub proof fn law_named_page_is_foreign(
    gpa: u64,
    page_size: u32,
    region: SvsmRegion,
    list: Seq<VmsaInfo>,
    byte: int,
    page: u64,
)
    requires
        may_name(gpa, page_size, region, list),
        gpa <= byte < gpa + page_bytes(page_size),
        gpa <= page < gpa + page_bytes(page_size),
        (page - gpa) % PAGE_SIZE as int == 0,
    ensures
        !(region.begin <= byte < region.end),
        !registered(list, page),
{
}

/// Registering a VMSA page makes no page nameable that was not, and takes away just the pages
/// that cover it.
pub proof fn law_registering_takes_away(
    gpa: u64,
    page_size: u32,
    region: SvsmRegion,
    list: Seq<VmsaInfo>,
    info: VmsaInfo,
)
    ensures
        may_name(gpa, page_size, region, list.push(info)) <==> may_name(
            gpa,
            page_size,
            region,
            list,
        ) && !covers_vmsa(gpa, page_bytes(page_size), seq![info]),
{
    let longer = list.push(info);
    let len = page_bytes(page_size);
    assert(longer[list.len() as int] == info);
    assert(seq![info][0] == info);
    if covers_vmsa(gpa, len, list) {
        let i = choose|i: int|
            0 <= i < list.len() && gpa <= (#[trigger] list[i]).gpa < gpa + len && (list[i].gpa
                - gpa) % PAGE_SIZE as int == 0;
        assert(longer[i] == list[i]);
    }
    if covers_vmsa(gpa, len, longer) {
        let i = choose|i: int|
            0 <= i < longer.len() && gpa <= (#[trigger] longer[i]).gpa < gpa + len && (
            longer[i].gpa - gpa) % PAGE_SIZE as int == 0;
        if i < list.len() {
            assert(longer[i] == list[i]);
        }
    }
}

/// Which pages a call may name: a small page, or a large one where it is aligned as such, that
/// does not reach into the memory of the SVSM and does not contain a registered VMSA page. The
/// end of such a page must be an address of 52 bits.
pub proof fn law_which_pages_may_be_named(
    gpa: u64,
    page_size: u32,
    region: SvsmRegion,
    list: Seq<VmsaInfo>,
)
    ensures
        ({
            let is_large = page_size == 1 && gpa % 0x20_0000 == 0;
            let end = if page_size == 0 {
                gpa + 0x1000
            } else {
                gpa + 0x20_0000
            };
            &&& may_name(gpa, page_size, region, list) <==> {
                &&& page_size == 0 || is_large
                &&& end <= region.begin || region.end <= gpa
                &&& forall|i: int|
                    0 <= i < list.len() ==> !(gpa <= (#[trigger] list[i]).gpa < end && (list[i].gpa
                        - gpa) % 0x1000 == 0)
            }
            &&& page_end_exists(gpa, page_size) <==> (page_size == 0 || is_large ==> end
                < 0x10_0000_0000_0000)
            &&& gpa + page_bytes(page_size) == end
        }),
{
}

} // verus!

//! The list of registered VMSA pages.
//!
//! A VMSA page holds the saved register state of a virtual CPU. The list says
//! which guest pages are VMSA pages, and which virtual CPU each belongs to.

use vstd::prelude::*;

verus! {

/// A registered VMSA page: its guest physical address and the APIC ID of its virtual CPU.
#[derive(Clone, Copy, Debug, PartialEq, Eq)]
pub struct VmsaInfo {
    pub gpa: u64,
    pub apic_id: u32,
}

impl VmsaInfo {
    /// The guest physical address of the page.
    pub fn gpa(&self) -> (gpa: u64)
        ensures
            gpa == self.gpa,
    {
        self.gpa
    }

    /// The APIC ID of the virtual CPU that the page belongs to.
    pub fn apic_id(&self) -> (apic_id: u32)
        ensures
            apic_id == self.apic_id,
    {
        self.apic_id
    }
}

/// A page at `gpa` is registered in `list`.
pub open spec fn registered(list: Seq<VmsaInfo>, gpa: u64) -> bool {
    exists|i: int| 0 <= i < list.len() && (#[trigger] list[i]).gpa == gpa
}

/// The entry at `i` is the first one of `list` whose page is at `gpa`.
pub open spec fn is_first(list: Seq<VmsaInfo>, gpa: u64, i: int) -> bool {
    &&& 0 <= i < list.len()
    &&& list[i].gpa == gpa
    &&& forall|j: int| 0 <= j < i ==> (#[trigger] list[j]).gpa != gpa
}

/// Where the first entry for the page at `gpa` stands, if there is one.
pub open spec fn first_index(list: Seq<VmsaInfo>, gpa: u64) -> int {
    choose|i: int| is_first(list, gpa, i)
}

/// The APIC ID in the first entry for the page at `gpa`.
pub open spec fn apic_id_of(list: Seq<VmsaInfo>, gpa: u64) -> Option<u32> {
    if registered(list, gpa) {
        Some(list[first_index(list, gpa)].apic_id)
    } else {
        None
    }
}

/// `list` without its first entry for the page at `gpa`: the last entry takes its place.
pub open spec fn unregistered(list: Seq<VmsaInfo>, gpa: u64) -> Seq<VmsaInfo> {
    if registered(list, gpa) {
        list.update(first_index(list, gpa), list.last()).drop_last()
    } else {
        list
    }
}

/// No two entries of `list` are for the page at `gpa`.
pub open spec fn at_most_once(list: Seq<VmsaInfo>, gpa: u64) -> bool {
    forall|i: int, j: int|
        0 <= i < list.len() && 0 <= j < list.len() && (#[trigger] list[i]).gpa == gpa && (
        #[trigger] list[j]).gpa == gpa ==> i == j
}

/// The registered VMSA pages, in no particular order. A page may be registered more than once.
pub struct VmsaList {
    entries: Vec<VmsaInfo>,
}

impl View for VmsaList {
    type V = Seq<VmsaInfo>;

    closed spec fn view(&self) -> Seq<VmsaInfo> {
        self.entries@
    }
}

impl VmsaList {
    /// The empty list, with room for 512 entries.
    pub fn new() -> (list: VmsaList)
        ensures
            list@ == Seq::<VmsaInfo>::empty(),
    {
        VmsaList { entries: Vec::with_capacity(512) }
    }

    /// Removes the first entry for the page at `gpa`. Returns whether there was one.
    pub fn del_vmsa(&mut self, gpa: u64) -> (found: bool)
        ensures
            found == registered(old(self)@, gpa),
            final(self)@ == unregistered(old(self)@, gpa),
            forall|i: int|
                #![trigger old(self)@[i]]
                is_first(old(self)@, gpa, i) ==> final(self)@ == old(self)@.update(
                    i,
                    old(self)@.last(),
                ).drop_last(),
    {
        let count: usize = self.entries.len();
        let mut i: usize = 0;
        while i < count
            invariant
                i <= count,
                count == self.entries.len(),
                self.entries@ == old(self)@,
                forall|j: int| 0 <= j < i ==> (#[trigger] self.entries@[j]).gpa != gpa,
            decreases count - i,
        {
            if self.entries[i].gpa == gpa {
                proof {
                    law_one_first_entry(self.entries@, gpa, i as int);
                }
                self.entries.swap_remove(i);
                return true;
            }
            i += 1;
        }
        false
    }

    /// Registers the page at `gpa` for the virtual CPU `apic_id`. Always succeeds.
    pub fn add_vmsa(&mut self, gpa: u64, apic_id: u32) -> (added: bool)
        ensures
            added,
            final(self)@ == old(self)@.push((VmsaInfo { gpa, apic_id })),
    {
        self.entries.push(VmsaInfo { gpa, apic_id });
        true
    }

    /// The APIC ID of the virtual CPU whose VMSA page is at `gpa`.
    pub fn vmsa_to_apic_id(&self, gpa: u64) -> (apic_id: Option<u32>)
        ensures
            apic_id == apic_id_of(self@, gpa),
            forall|i: int|
                #![trigger self@[i]]
                is_first(self@, gpa, i) ==> apic_id == Some(self@[i].apic_id),
    {
        let count: usize = self.entries.len();
        let mut i: usize = 0;
        while i < count
            invariant
                i <= count,
                count == self.entries.len(),
                forall|j: int| 0 <= j < i ==> (#[trigger] self.entries@[j]).gpa != gpa,
            decreases count - i,
        {
            if self.entries[i].gpa() == gpa {
                proof {
                    law_one_first_entry(self.entries@, gpa, i as int);
                }
                return Some(self.entries[i].apic_id());
            }
            i += 1;
        }
        None
    }

    /// Whether a page at `gpa` is registered.
    pub fn vmsa_page(&self, gpa: u64) -> (found: bool)
        ensures
            found == registered(self@, gpa),
    {
        let count: usize = self.entries.len();
        let mut i: usize = 0;
        while i < count
            invariant
                i <= count,
                count == self.entries.len(),
                forall|j: int| 0 <= j < i ==> (#[trigger] self.entries@[j]).gpa != gpa,
            decreases count - i,
        {
            if self.entries[i].gpa() == gpa {
                return true;
            }
            i += 1;
        }
        false
    }
}

/// Registers the VMSA page at `vmsa_pa` that the boot processor starts with.
pub fn svsm_request_add_init_vmsa(list: &mut VmsaList, vmsa_pa: u64, apic_id: u32)
    ensures
        final(list)@ == old(list)@.push((VmsaInfo { gpa: vmsa_pa, apic_id })),
{
    list.add_vmsa(vmsa_pa, apic_id);
}

/// There is at most one first entry for a page.
pub proof fn law_one_first_entry(list: Seq<VmsaInfo>, gpa: u64, i: int)
    requires
        is_first(list, gpa, i),
    ensures
        registered(list, gpa),
        first_index(list, gpa) == i,
{
    let k = first_index(list, gpa);
    assert(is_first(list, gpa, k));
    if k < i {
        assert(list[k].gpa != gpa);
    }
    if i < k {
        assert(list[i].gpa != gpa);
    }
}

/// A registered page has a first entry.
proof fn lemma_first_exists(list: Seq<VmsaInfo>, gpa: u64)
    requires
        registered(list, gpa),
    ensures
        is_first(list, gpa, first_index(list, gpa)),
    decreases list.len(),
{
    if registered(list.drop_last(), gpa) {
        lemma_first_exists(list.drop_last(), gpa);
        let k = first_index(list.drop_last(), gpa);
        assert forall|j: int| 0 <= j < k implies (#[trigger] list[j]).gpa != gpa by {
            assert(list.drop_last()[j] == list[j]);
        }
        assert(is_first(list, gpa, k));
    } else {
        let k = list.len() - 1;
        assert forall|j: int| 0 <= j < k implies (#[trigger] list[j]).gpa != gpa by {
            assert(list.drop_last()[j] == list[j]);
        }
        let i = choose|i: int| 0 <= i < list.len() && (#[trigger] list[i]).gpa == gpa;
        assert(i == k);
        assert(is_first(list, gpa, k));
    }
}

/// A page is registered if and only if an APIC ID is known for it.
pub proof fn law_registered_has_apic_id(list: Seq<VmsaInfo>, gpa: u64)
    ensures
        registered(list, gpa) <==> apic_id_of(list, gpa) is Some,
{
}

/// The APIC ID known for a page is that of one of its entries.
pub proof fn law_apic_id_is_listed(list: Seq<VmsaInfo>, gpa: u64)
    requires
        registered(list, gpa),
    ensures
        exists|i: int|
            0 <= i < list.len() && (#[trigger] list[i]).gpa == gpa && Some(list[i].apic_id)
                == apic_id_of(list, gpa),
{
    lemma_first_exists(list, gpa);
    let k = first_index(list, gpa);
    assert(list[k].gpa == gpa);
}

/// A page that has been added is registered, for the virtual CPU it was added for unless an
/// earlier entry is for the same page, which then still counts. No other page is affected.
pub proof fn law_added_is_registered(list: Seq<VmsaInfo>, info: VmsaInfo, gpa: u64)
    ensures
        registered(list.push(info), info.gpa),
        apic_id_of(list.push(info), info.gpa) == if registered(list, info.gpa) {
            apic_id_of(list, info.gpa)
        } else {
            Some(info.apic_id)
        },
        gpa != info.gpa ==> registered(list.push(info), gpa) == registered(list, gpa),
        gpa != info.gpa ==> apic_id_of(list.push(info), gpa) == apic_id_of(list, gpa),
{
    let longer = list.push(info);
    assert(longer[list.len() as int] == info);
    assert forall|g: u64| registered(list, g) implies registered(longer, g) && apic_id_of(longer, g)
        == apic_id_of(list, g) by {
        lemma_first_exists(list, g);
        let k = first_index(list, g);
        assert(longer[k] == list[k]);
        assert forall|j: int| 0 <= j < k implies (#[trigger] longer[j]).gpa != g by {
            assert(longer[j] == list[j]);
        }
        assert(is_first(longer, g, k));
        law_one_first_entry(longer, g, k);
    }
    if !registered(list, info.gpa) {
        assert forall|j: int| 0 <= j < list.len() implies (#[trigger] longer[j]).gpa != info.gpa by {
            assert(longer[j] == list[j]);
        }
        assert(is_first(longer, info.gpa, list.len() as int));
        law_one_first_entry(longer, info.gpa, list.len() as int);
    }
    if gpa != info.gpa && registered(longer, gpa) {
        let i = choose|i: int| 0 <= i < longer.len() && (#[trigger] longer[i]).gpa == gpa;
        assert(list[i] == longer[i]);
    }
}

/// Removing a page takes out one entry for it and keeps every other entry.
pub proof fn law_removal_takes_one_entry(list: Seq<VmsaInfo>, gpa: u64)
    requires
        registered(list, gpa),
    ensures
        list[first_index(list, gpa)].gpa == gpa,
        unregistered(list, gpa).to_multiset() == list.to_multiset().remove(
            list[first_index(list, gpa)],
        ),
        unregistered(list, gpa).len() == list.len() - 1,
{
    broadcast use vstd::seq_lib::group_to_multiset_ensures;

    lemma_first_exists(list, gpa);
    let k = first_index(list, gpa);
    let last = list.last();
    let rest = unregistered(list, gpa);
    let swapped = list.update(k, last);
    assert(swapped == rest.push(last)) by {
        assert(swapped.last() == last);
    }
    assert(swapped.to_multiset() =~= list.to_multiset().insert(last).remove(list[k])) by {
        vstd::seq_lib::to_multiset_update(list, k, last);
    }
    assert(swapped.to_multiset() =~= rest.to_multiset().insert(last));
    assert(list.to_multiset().count(list[k]) > 0) by {
        list.to_multiset_ensures();
        assert(list.contains(list[k]));
    }
    assert(rest.to_multiset() =~= list.to_multiset().remove(list[k])) by {
        assert forall|e: VmsaInfo|
            rest.to_multiset().count(e) == list.to_multiset().remove(list[k]).count(e) by {
            assert(rest.to_multiset().insert(last).count(e) == list.to_multiset().insert(
                last,
            ).remove(list[k]).count(e));
        }
    }
}

/// Once the only entry for a page is removed, the page is no longer registered.
pub proof fn law_removed_is_gone(list: Seq<VmsaInfo>, gpa: u64)
    requires
        at_most_once(list, gpa),
    ensures
        !registered(unregistered(list, gpa), gpa),
{
    if registered(list, gpa) {
        lemma_first_exists(list, gpa);
        let k = first_index(list, gpa);
        let rest = unregistered(list, gpa);
        assert(list[k].gpa == gpa);
        assert forall|i: int| 0 <= i < rest.len() implies (#[trigger] rest[i]).gpa != gpa by {
            if i == k {
                assert(rest[i] == list[list.len() - 1]);
            } else {
                assert(rest[i] == list[i]);
            }
        }
    }
}

/// Removing a page leaves every other page registered as it was. The APIC ID known for another
/// page stays the same as long as that page has one entry: removal moves the last entry
/// into the gap, so of two entries for a page the later one may become the first.
pub proof fn law_removal_keeps_others(list: Seq<VmsaInfo>, gpa: u64, other: u64)
    requires
        other != gpa,
    ensures
        registered(unregistered(list, gpa), other) == registered(list, other),
        at_most_once(list, other) ==> apic_id_of(unregistered(list, gpa), other) == apic_id_of(
            list,
            other,
        ),
{
    if registered(list, gpa) {
        lemma_first_exists(list, gpa);
        let k = first_index(list, gpa);
        let rest = unregistered(list, gpa);
        let n = list.len() as int;
        if registered(rest, other) {
            let i = choose|i: int| 0 <= i < rest.len() && (#[trigger] rest[i]).gpa == other;
            if i == k {
                assert(list[n - 1].gpa == other);
            } else {
                assert(list[i].gpa == other);
            }
        }
        if registered(list, other) {
            lemma_first_exists(list, other);
            let i = first_index(list, other);
            let at = if i == n - 1 {
                k
            } else {
                i
            };
            assert(rest[at] == list[i]);
            assert(registered(rest, other));
            if at_most_once(list, other) {
                assert forall|j: int| 0 <= j < at implies (#[trigger] rest[j]).gpa != other by {
                    if j == k {
                        assert(rest[j] == list[n - 1]);
                    } else {
                        assert(rest[j] == list[j]);
                    }
                }
                assert(is_first(rest, other, at));
                law_one_first_entry(rest, other, at);
            }
        }
    }
}

/// Removing a page right after it was added, where it was not registered before, gives the list
/// back unchanged.
pub proof fn law_removal_undoes_addition(list: Seq<VmsaInfo>, info: VmsaInfo)
    requires
        !registered(list, info.gpa),
    ensures
        unregistered(list.push(info), info.gpa) == list,
{
    let longer = list.push(info);
    assert(longer[list.len() as int] == info);
    assert forall|j: int| 0 <= j < list.len() implies (#[trigger] longer[j]).gpa != info.gpa by {
        assert(longer[j] == list[j]);
    }
    assert(is_first(longer, info.gpa, list.len() as int));
    law_one_first_entry(longer, info.gpa, list.len() as int);
    assert(unregistered(longer, info.gpa) =~= list);
}

/// What the list says of a page and what removing the page does, by position. If `i` is the place
/// of its first entry, the page is registered with the APIC ID in that entry, and removing it
/// leaves all entries but this one where they are, except that the last one moves to `i`. If it
/// has no entry, it is not registered and removing it changes nothing.
pub proof fn law_list_by_position(list: Seq<VmsaInfo>, gpa: u64, i: int)
    ensures
        0 <= i < list.len() && list[i].gpa == gpa && (forall|j: int|
            0 <= j < i ==> (#[trigger] list[j]).gpa != gpa) ==> {
            let rest = unregistered(list, gpa);
            &&& registered(list, gpa)
            &&& apic_id_of(list, gpa) == Some(list[i].apic_id)
            &&& rest.len() == list.len() - 1
            &&& forall|j: int|
                0 <= j < rest.len() ==> #[trigger] rest[j] == if j == i {
                    list[list.len() - 1]
                } else {
                    list[j]
                }
        },
        (forall|j: int| 0 <= j < list.len() ==> (#[trigger] list[j]).gpa != gpa) ==> {
            &&& !registered(list, gpa)
            &&& apic_id_of(list, gpa) is None
            &&& unregistered(list, gpa) == list
        },
{
    if is_first(list, gpa, i) {
        law_one_first_entry(list, gpa, i);
    }
}

} // verus!

//! Physical and virtual addresses, carried as plain words.
//!
//! The address arithmetic itself is that of the `x86_64` crate. The functions
//! here hand it plain words and take plain words back; what they promise is
//! what that crate's `PhysAddr`, `VirtAddr` and `PhysFrame` do.

use vstd::prelude::*;
use x86_64::structures::paging::frame::PhysFrame;
use x86_64::structures::paging::page::Size4KiB;
use x86_64::{PhysAddr, VirtAddr};

verus! {

/// Size of a small page in bytes.
pub const PAGE_SIZE: u64 = 0x1000;

/// Size of a large page in bytes.
pub const PAGE_2MB_SIZE: u64 = 0x20_0000;

/// The first word that is no physical address: addresses have 52 bits.
pub const PHYS_LIMIT: u64 = 0x10_0000_0000_0000;

/// The first word past the lower half of the virtual address space.
pub const VIRT_LOW_END: u64 = 0x8000_0000_0000;

/// The start of the upper half of the virtual address space.
pub const VIRT_HIGH_START: u64 = 0xffff_8000_0000_0000;

/// The number `addr` is a physical address.
pub open spec fn is_physical(addr: int) -> bool {
    0 <= addr < PHYS_LIMIT
}

/// The number `addr` is a canonical virtual address: bits 63 to 48 are copies of bit 47.
pub open spec fn is_canonical(addr: int) -> bool {
    0 <= addr < VIRT_LOW_END || VIRT_HIGH_START <= addr <= u64::MAX
}

/// A virtual address can be made of `addr`: it is canonical, or all that it lacks is the sign
/// extension of bit 47.
pub open spec fn is_extendable(addr: int) -> bool {
    0 <= addr < 2 * VIRT_LOW_END || VIRT_HIGH_START <= addr <= u64::MAX
}

/// The virtual address that is made of `addr`, by sign extension of bit 47 where it is needed.
pub open spec fn extended(addr: int) -> int {
    if VIRT_LOW_END <= addr < 2 * VIRT_LOW_END {
        addr - VIRT_LOW_END + VIRT_HIGH_START
    } else {
        addr
    }
}

/// The start of the small page that `addr` lies in.
pub open spec fn page_start(addr: u64) -> u64 {
    (addr - addr % PAGE_SIZE) as u64
}

/// Exactly one bit of `n` is set.
pub open spec fn is_power_of_two(n: u64) -> bool {
    n != 0 && n & ((n - 1) as u64) == 0
}

/// Which numbers are addresses. Physical addresses have 52 bits. Of the words, the first and the
/// last 2^47 are virtual addresses; a word of 48 bits stands for one of them, by copying bit 47 to
/// the bits above it. A small page starts at a multiple of 4096.
pub proof fn law_addresses_in_numbers(addr: u64)
    ensures
        is_physical(addr as int) <==> addr <= 0xf_ffff_ffff_ffff,
        is_canonical(addr as int) <==> addr <= 0x7fff_ffff_ffff || addr >= 0xffff_8000_0000_0000,
        is_extendable(addr as int) <==> addr <= 0xffff_ffff_ffff || addr
            >= 0xffff_8000_0000_0000,
        is_canonical(addr as int) ==> extended(addr as int) == addr,
        is_extendable(addr as int) && !is_canonical(addr as int) ==> extended(addr as int) == addr
            + 0xffff_0000_0000_0000,
        page_start(addr) % 0x1000 == 0,
        page_start(addr) <= addr < page_start(addr) + 0x1000,
{
}

/// The alignments that the crate asks about are powers of two.
pub proof fn lemma_alignments()
    ensures
        is_power_of_two(8),
        is_power_of_two(PAGE_SIZE),
        is_power_of_two(PAGE_2MB_SIZE),
{
    assert(8u64 & 7u64 == 0) by (bit_vector);
    assert(0x1000u64 & 0xfffu64 == 0) by (bit_vector);
    assert(0x20_0000u64 & 0x1f_ffffu64 == 0) by (bit_vector);
}

/// Calls `PhysAddr::is_aligned`: whether the physical address `addr` is a multiple of `align`.
/// The call panics where `align` is no power of two, and the address cannot be made where one of
/// its upper 12 bits is set.
#[verifier::external_body]
pub(crate) fn phys_is_aligned(addr: u64, align: u64) -> (aligned: bool)
    requires
        is_physical(addr as int),
        is_power_of_two(align),
    ensures
        aligned == (addr % align == 0),
{
    PhysAddr::new(addr).is_aligned(align)
}

/// Calls the addition of `PhysAddr`: the address `count` bytes past `addr`. The call panics where
/// the sum is no physical address.
#[verifier::external_body]
pub(crate) fn phys_add(addr: u64, count: u64) -> (sum: u64)
    requires
        is_physical(addr as int),
        is_physical(addr + count),
    ensures
        sum == addr + count,
{
    (PhysAddr::new(addr) + count).as_u64()
}

/// Calls `PhysFrame::containing_address`: the start of the 4 KiB frame that `addr` lies in.
#[verifier::external_body]
pub(crate) fn frame_of(addr: u64) -> (start: u64)
    requires
        is_physical(addr as int),
    ensures
        start == page_start(addr),
{
    let frame: PhysFrame<Size4KiB> = PhysFrame::containing_address(PhysAddr::new(addr));
    frame.start_address().as_u64()
}

/// Calls the addition of `VirtAddr`: the address `count` bytes past `addr`, with bit 47
/// sign-extended where the sum leaves the lower half. The call panics where that makes no
/// virtual address.
#[verifier::external_body]
pub(crate) fn virt_add(addr: u64, count: u64) -> (sum: u64)
    requires
        is_canonical(addr as int),
        is_extendable(addr + count),
    ensures
        sum == extended(addr + count),
{
    (VirtAddr::new(addr) + count).as_u64()
}

/// Calls the subtraction of `VirtAddr`: the address `count` bytes before `addr`, with bit 47
/// sign-extended where that is needed. The call panics where that makes no virtual address.
#[verifier::external_body]
pub(crate) fn virt_sub(addr: u64, count: u64) -> (difference: u64)
    requires
        is_canonical(addr as int),
        is_extendable(addr - count),
    ensures
        difference == extended(addr - count),
{
    (VirtAddr::new(addr) - count).as_u64()
}

/// Calls `VirtAddr::align_down`: the last multiple of `align` that is not past `addr`. The call
/// panics where `align` is no power of two.
#[verifier::external_body]
pub(crate) fn virt_align_down(addr: u64, align: u64) -> (start: u64)
    requires
        is_canonical(addr as int),
        is_power_of_two(align),
        align <= VIRT_LOW_END,
    ensures
        start == addr - addr % align,
{
    VirtAddr::new(addr).align_down(align).as_u64()
}

} // verus!

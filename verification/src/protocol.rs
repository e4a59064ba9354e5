//! The numbers of the SVSM core protocol, and the calls that are answered at once.

use vstd::prelude::*;

verus! {

/// The call that moves the caller's calling area.
pub const SVSM_CORE_REMAP_CA: u32 = 0;

/// The call that validates pages or rescinds their validation.
pub const SVSM_CORE_PVALIDATE: u32 = 1;

/// The call that creates a virtual CPU.
pub const SVSM_CORE_CREATE_VCPU: u32 = 2;

/// The call that deletes a virtual CPU.
pub const SVSM_CORE_DELETE_VCPU: u32 = 3;

/// The call that asks which versions of a protocol are supported.
pub const SVSM_CORE_QUERY_PROTOCOL: u32 = 6;

/// The call that queries or configures the virtual top of memory.
pub const SVSM_CORE_CONFIGURE_VTOM: u32 = 7;

/// The call succeeded.
pub const SVSM_SUCCESS: u64 = 0;

/// The protocol of the call is not supported.
pub const SVSM_ERR_UNSUPPORTED_PROTOCOL: u64 = 0x8000_0001;

/// The protocol has no such call.
pub const SVSM_ERR_UNSUPPORTED_CALLID: u64 = 0x8000_0002;

/// The call names a page that it must not name.
pub const SVSM_ERR_INVALID_ADDRESS: u64 = 0x8000_0003;

/// An argument of the call is invalid.
pub const SVSM_ERR_INVALID_PARAMETER: u64 = 0x8000_0005;

/// The call asks for something that cannot be done.
pub const SVSM_ERR_INVALID_REQUEST: u64 = 0x8000_0006;

/// What the status of a failed instruction is added to.
pub const SVSM_ERR_PROTOCOL_BASE: u64 = 0x8000_1000;

/// The virtual CPU is in use.
pub const SVSM_ERR_PROTOCOL_FAIL_INUSE: u64 = 0x8000_1003;

/// The highest protocol number that calls may be made with.
pub const MAX_PROTOCOL_ID: u32 = 1;

/// The number of protocols whose versions are known.
pub const PROTOCOL_COUNT: u32 = 1;

/// The privilege level that the guest is served at.
pub const VMPL1: u8 = 1;

/// The number of privilege levels.
pub const VMPL_MAX: u8 = 4;

/// The bit of EFER that says whether a VMSA page may be run (bit 12).
pub const EFER_SVME: u64 = 0x1000;

/// The numbers that the versions of a protocol lie between.
#[derive(Clone, Copy, Debug, PartialEq, Eq)]
pub struct VersionInfo {
    pub min: u32,
    pub max: u32,
}

impl VersionInfo {
    /// The lowest supported version.
    pub fn min(&self) -> (version: u32)
        ensures
            version == self.min,
    {
        self.min
    }

    /// The highest supported version.
    pub fn max(&self) -> (version: u32)
        ensures
            version == self.max,
    {
        self.max
    }
}

/// How a call is answered: the caller's new RAX, and its new RCX if that changes.
#[derive(Clone, Copy, Debug, PartialEq, Eq)]
pub struct Answer {
    pub rax: u64,
    pub rcx: Option<u64>,
}

/// The upper 32 bits of `word`.
pub open spec fn upper_half(word: u64) -> int {
    word as int / 0x1_0000_0000
}

/// The lower 32 bits of `word`.
pub open spec fn lower_half(word: u64) -> int {
    word as int % 0x1_0000_0000
}

/// The upper 32 bits of `word`.
pub fn upper_32bits(word: u64) -> (half: u32)
    ensures
        half == upper_half(word),
{
    assert(word >> 32 == word / 0x1_0000_0000) by (bit_vector);
    (word >> 32) as u32
}

/// The lower 32 bits of `word`.
pub fn lower_32bits(word: u64) -> (half: u32)
    ensures
        half == lower_half(word),
{
    assert(word & 0xffff_ffff == word % 0x1_0000_0000) by (bit_vector);
    (word & 0xffff_ffff) as u32
}

/// The versions that are supported of each protocol, by its number.
pub open spec fn protocol_versions() -> Seq<VersionInfo> {
    seq![(VersionInfo { min: 1, max: 1 })]
}

/// The RCX that a question about a protocol is answered with: the highest supported version in
/// the upper half and the lowest in the lower, or 0 where the version asked about in the lower
/// half of `rcx` is not supported.
pub open spec fn protocol_answer(rcx: u64) -> int {
    let protocol = upper_half(rcx);
    let version = lower_half(rcx);
    if protocol < protocol_versions().len() && 0 < protocol_versions()[protocol].min <= version
        <= protocol_versions()[protocol].max {
        protocol_versions()[protocol].max * 0x1_0000_0000 + protocol_versions()[protocol].min
    } else {
        0
    }
}

/// Answers which versions of the protocol in the upper half of `rcx` are supported.
///
/// Protocol numbers up to [`MAX_PROTOCOL_ID`] must have an entry in the table of versions.
pub fn handle_query_protocol_request(rcx: u64) -> (answer: Answer)
    requires
        upper_half(rcx) > MAX_PROTOCOL_ID || upper_half(rcx) < protocol_versions().len(),
    ensures
        answer.rax == SVSM_SUCCESS,
        answer.rcx is Some,
        answer.rcx->0 == protocol_answer(rcx),
{
    let protocol: u32 = upper_32bits(rcx);
    let version: u32 = lower_32bits(rcx);
    let none: Answer = Answer { rax: SVSM_SUCCESS, rcx: Some(0) };

    if protocol > MAX_PROTOCOL_ID {
        return none;
    }
    let table: [VersionInfo; 1] = [VersionInfo { min: 1, max: 1 }];
    let supported: VersionInfo = table[protocol as usize];
    assert(supported == protocol_versions()[protocol as int]);

    if supported.min() == 0 {
        return none;
    }
    if version < supported.min() || version > supported.max() {
        return none;
    }
    let max: u64 = supported.max() as u64;
    let min: u64 = supported.min() as u64;
    assert(max << 32 | min == max * 0x1_0000_0000 + min) by (bit_vector)
        requires
            max <= 0xffff_ffff,
            min <= 0xffff_ffff,
    ;
    Answer { rax: SVSM_SUCCESS, rcx: Some(max << 32 | min) }
}

/// Refuses to configure the virtual top of memory.
pub fn configure_vtom() -> (answer: Answer)
    ensures
        answer == (Answer { rax: SVSM_ERR_INVALID_REQUEST, rcx: None }),
{
    Answer { rax: SVSM_ERR_INVALID_REQUEST, rcx: None }
}

/// Says that no virtual top of memory is configured.
pub fn query_vtom() -> (answer: Answer)
    ensures
        answer == (Answer { rax: SVSM_SUCCESS, rcx: Some(0) }),
{
    Answer { rax: SVSM_SUCCESS, rcx: Some(0) }
}

/// How a call about the virtual top of memory is answered: questions, for which `rcx` is 1, with
/// 0; everything else is refused and leaves the caller's RCX alone.
pub open spec fn vtom_answer(rcx: u64) -> Answer {
    if rcx == 1 {
        Answer { rax: SVSM_SUCCESS, rcx: Some(0) }
    } else {
        Answer { rax: SVSM_ERR_INVALID_REQUEST, rcx: None }
    }
}

/// Answers a call about the virtual top of memory.
pub fn handle_configure_vtom_request(rcx: u64) -> (answer: Answer)
    ensures
        answer == vtom_answer(rcx),
{
    if rcx == 1 {
        query_vtom()
    } else {
        configure_vtom()
    }
}

/// The two halves of a word make up the word.
pub proof fn law_halves_make_the_word(word: u64)
    ensures
        word == upper_half(word) * 0x1_0000_0000 + lower_half(word),
        0 <= upper_half(word) <= u32::MAX,
        0 <= lower_half(word) <= u32::MAX,
{
}

/// Version 1 of protocol 0 is supported, and nothing else is: every other question is answered
/// with 0.
pub proof fn law_only_core_version_1(rcx: u64)
    ensures
        protocol_answer(rcx) == if rcx == 1 {
            0x1_0000_0001int
        } else {
            0
        },
{
}

/// The SVME bit is bit 12 of EFER: it is set if the word, divided by 4096, is odd, and a word
/// without it is smaller by 4096.
pub proof fn law_svme_is_bit_12(efer: u64)
    ensures
        efer & EFER_SVME != 0 <==> efer as int / 0x1000 % 2 == 1,
        efer & !EFER_SVME == if efer as int / 0x1000 % 2 == 1 {
            efer - 0x1000
        } else {
            efer as int
        },
{
    assert(efer & 0x1000 != 0 <==> efer / 0x1000 % 2 == 1) by (bit_vector);
    assert(efer & 0x1000 != 0 ==> efer & !0x1000u64 == efer - 0x1000) by (bit_vector);
    assert(efer & 0x1000 == 0 ==> efer & !0x1000u64 == efer) by (bit_vector);
}

/// A call about the virtual top of memory is a question exactly if its argument is 1. A question
/// succeeds and finds 0 in RCX; anything else is an invalid request, and RCX is left alone.
pub proof fn law_vtom_is_never_configured(rcx: u64)
    ensures
        vtom_answer(rcx).rax == 0 <==> rcx == 1,
        vtom_answer(rcx).rax == 0 || vtom_answer(rcx).rax == 0x8000_0006,
        vtom_answer(rcx).rcx == if rcx == 1 {
            Some(0u64)
        } else {
            None
        },
{
}

} // verus!

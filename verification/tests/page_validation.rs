use svsm_request::guest_page::SvsmRegion;
use svsm_request::machine::{admits, Machine};
use svsm_request::platform::{Action, Reply};
use svsm_request::protocol::{
    SVSM_ERR_INVALID_ADDRESS, SVSM_ERR_INVALID_PARAMETER, SVSM_SUCCESS,
};
use svsm_request::pvalidate::{
    handle_pvalidate, PageOutcome, PvalidateEntry, PvalidatePage, PVALIDATE_CF_SET,
};
use svsm_request::pvalidate_request::{handle_pvalidate_request, PvalidateRequest};
use svsm_request::remap_ca::{handle_remap_ca_request, RemapCa};
use svsm_request::vmsa_list::VmsaList;

const REGION: SvsmRegion = SvsmRegion {
    begin: 0x80_0000,
    end: 0xa0_0000,
};

fn play<M: Machine>(start: M, script: &[(Action, Reply)]) -> M {
    let mut list = VmsaList::new();
    let mut machine = start;
    for (action, reply) in script {
        assert_eq!(machine.action(), Some(*action));
        assert!(admits(&machine, reply));
        machine = machine.resume(*reply, &mut list);
    }
    machine
}

fn started(operation: u64) -> PvalidatePage {
    handle_pvalidate(PvalidateEntry { operation }, &REGION, &VmsaList::new())
}

fn finished(rax: u64, success: bool, flush: bool) -> PvalidatePage {
    PvalidatePage::Finished {
        outcome: PageOutcome {
            rax,
            success,
            flush,
        },
    }
}

fn map(gpa: u64, len: u64, reply: Option<u64>) -> (Action, Reply) {
    (Action::MapPrivate { gpa, len }, Reply::Mapped(reply))
}

fn adjust(va: u64, page_size: u32, attributes: u64, status: u32) -> (Action, Reply) {
    let action = Action::AdjustPage {
        va,
        page_size,
        attributes,
    };
    (action, Reply::Status(status))
}

fn validate(va: u64, page_size: u32, validate: u32, status: u32) -> (Action, Reply) {
    let action = Action::ValidatePage {
        va,
        page_size,
        validate,
    };
    (action, Reply::Status(status))
}

#[test]
fn entry_fields_are_decoded() {
    let entry = PvalidateEntry {
        operation: 0x1234_5fff,
    };
    assert_eq!(entry.gfn(), 0x1234_5000);
    assert_eq!(entry.page_size(), 3);
    assert_eq!(entry.action(), 1);
    assert_eq!(entry.ignore_cf(), 1);
    let entry = PvalidateEntry {
        operation: 0x1234_5ff1,
    };
    assert_eq!(entry.page_size(), 1);
    assert_eq!(entry.action(), 0);
    assert_eq!(entry.ignore_cf(), 0);
}

#[test]
fn page_is_validated_and_granted() {
    let end = play(
        started(0x40_0005),
        &[
            map(0x40_0000, 0x20_0000, Some(0x60_0000)),
            validate(0x60_0000, 1, 1, 0),
            adjust(0x60_0000, 1, 0xf01, 0),
        ],
    );
    assert_eq!(end, finished(SVSM_SUCCESS, true, false));
}

#[test]
fn page_is_revoked_and_rescinded() {
    let end = play(
        started(0x40_0000),
        &[
            map(0x40_0000, 0x1000, Some(0x60_0000)),
            adjust(0x60_0000, 0, 1, 0),
            adjust(0x60_0000, 0, 2, 0),
            adjust(0x60_0000, 0, 3, 0),
            validate(0x60_0000, 0, 0, 0),
        ],
    );
    assert_eq!(end, finished(SVSM_SUCCESS, true, true));
}

#[test]
fn unchanged_page_is_tolerated_on_request() {
    let script = [
        map(0x40_0000, 0x1000, Some(0x60_0000)),
        validate(0x60_0000, 0, 1, PVALIDATE_CF_SET),
    ];
    let strict = play(started(0x40_0004), &script);
    assert_eq!(strict, finished(0x8000_1010, false, false));
    let tolerant = play(started(0x40_000c), &script);
    let granting = adjust(0x60_0000, 0, 0xf01, 0);
    assert_eq!(
        play(tolerant, &[granting]),
        finished(SVSM_SUCCESS, true, false)
    );
    // No other status is tolerated.
    let failing = [script[0], validate(0x60_0000, 0, 1, 6)];
    assert_eq!(
        play(started(0x40_000c), &failing),
        finished(0x8000_1006, false, false)
    );
}

#[test]
fn failed_instructions_are_reported() {
    let mapped = map(0x40_0000, 0x1000, Some(0x60_0000));
    let unmapped = map(0x40_0000, 0x1000, None);
    assert_eq!(
        play(started(0x40_0004), &[unmapped]),
        finished(SVSM_ERR_INVALID_PARAMETER, false, false)
    );
    assert_eq!(
        play(started(0x40_0000), &[mapped, adjust(0x60_0000, 0, 1, 2)]),
        finished(0x8000_1002, false, true)
    );
    let granted = [
        mapped,
        validate(0x60_0000, 0, 1, 0),
        adjust(0x60_0000, 0, 0xf01, 1),
    ];
    assert_eq!(
        play(started(0x40_0004), &granted),
        finished(0x8000_1001, false, false)
    );
    let rescinded = [
        mapped,
        adjust(0x60_0000, 0, 1, 0),
        adjust(0x60_0000, 0, 2, 0),
        adjust(0x60_0000, 0, 3, 0),
        validate(0x60_0000, 0, 0, 1),
    ];
    assert_eq!(
        play(started(0x40_0000), &rescinded),
        finished(0x8000_1001, false, true)
    );
}

#[test]
fn refused_page_is_an_invalid_address() {
    let refused = finished(SVSM_ERR_INVALID_ADDRESS, false, false);
    assert_eq!(started(0x80_0004), refused);
    assert_eq!(started(0x40_0006), refused);
    assert_eq!(started(0x40_1005), refused);
    let mut list = VmsaList::new();
    list.add_vmsa(0x40_3000, 0);
    let entry = PvalidateEntry {
        operation: 0x40_0005,
    };
    assert_eq!(handle_pvalidate(entry, &REGION, &list), refused);
}

fn head(va: u64, entries: u16, next: u16) -> (Action, Reply) {
    (Action::ReadHeader { va }, Reply::Header { entries, next })
}

fn entry(va: u64, operation: u64) -> (Action, Reply) {
    (Action::ReadEntry { va }, Reply::Word(operation))
}

fn advance(va: u64, next: u16) -> (Action, Reply) {
    (Action::WriteNext { va, next }, Reply::Done)
}

const REFUSED: PvalidateRequest = PvalidateRequest::Finished {
    rax: SVSM_ERR_INVALID_PARAMETER,
};

#[test]
fn list_must_be_aligned_and_mapped() {
    assert_eq!(handle_pvalidate_request(0x3004, &REGION), REFUSED);
    let start = handle_pvalidate_request(0x3008, &REGION);
    assert_eq!(play(start, &[map(0x3008, 8, None)]), REFUSED);
}

#[test]
fn improper_heads_are_refused() {
    let start = handle_pvalidate_request(0x3008, &REGION);
    for (entries, next) in [(0, 0), (1, 2), (511, 0)] {
        let script = [map(0x3008, 8, Some(0x9008)), head(0x9008, entries, next)];
        assert_eq!(play(start, &script), REFUSED);
    }
}

#[test]
fn list_may_fill_its_page() {
    let start = handle_pvalidate_request(0x3000, &REGION);
    let fitting = [map(0x3000, 8, Some(0x9000)), head(0x9000, 511, 0)];
    assert_eq!(
        play(start, &fitting).action(),
        Some(Action::ReadHeader { va: 0x9000 })
    );
    let crossing = [map(0x3000, 8, Some(0x9000)), head(0x9000, 512, 0)];
    assert_eq!(play(start, &crossing), REFUSED);
}

#[test]
fn list_is_walked_to_its_end() {
    let start = handle_pvalidate_request(0x3008, &REGION);
    let script = [
        map(0x3008, 8, Some(0x9008)),
        head(0x9008, 2, 0),
        head(0x9008, 2, 0),
        entry(0x9010, 0x40_0004),
        map(0x40_0000, 0x1000, Some(0x60_0000)),
        validate(0x60_0000, 0, 1, 0),
        adjust(0x60_0000, 0, 0xf01, 0),
        advance(0x9008, 1),
        head(0x9008, 2, 1),
        entry(0x9018, 0x41_0000),
        map(0x41_0000, 0x1000, Some(0x61_0000)),
        adjust(0x61_0000, 0, 1, 0),
        adjust(0x61_0000, 0, 2, 0),
        adjust(0x61_0000, 0, 3, 0),
        validate(0x61_0000, 0, 0, 0),
        advance(0x9008, 2),
        head(0x9008, 2, 2),
        (Action::FlushAll, Reply::Done),
    ];
    assert_eq!(
        play(start, &script),
        PvalidateRequest::Finished { rax: SVSM_SUCCESS }
    );
}

#[test]
fn grown_list_is_not_followed_out_of_its_page() {
    let start = handle_pvalidate_request(0x3ff0, &REGION);
    let script = [
        map(0x3ff0, 8, Some(0x9ff0)),
        head(0x9ff0, 1, 0),
        head(0x9ff0, 2, 0),
        entry(0x9ff8, 0x41_0000),
        map(0x41_0000, 0x1000, Some(0x61_0000)),
        adjust(0x61_0000, 0, 1, 0),
        adjust(0x61_0000, 0, 2, 0),
        adjust(0x61_0000, 0, 3, 0),
        validate(0x61_0000, 0, 0, 0),
        advance(0x9ff0, 1),
        head(0x9ff0, 2, 1),
        (Action::FlushAll, Reply::Done),
    ];
    assert_eq!(play(start, &script), REFUSED);
}

#[test]
fn nothing_is_flushed_if_nothing_was_revoked() {
    let start = handle_pvalidate_request(0x3008, &REGION);
    let script = [
        map(0x3008, 8, Some(0x9008)),
        head(0x9008, 1, 0),
        head(0x9008, 1, 0),
        entry(0x9010, 0x40_0004),
        map(0x40_0000, 0x1000, Some(0x60_0000)),
        validate(0x60_0000, 0, 1, 0),
        adjust(0x60_0000, 0, 0xf01, 0),
        advance(0x9008, 1),
        head(0x9008, 1, 1),
    ];
    assert_eq!(
        play(start, &script),
        PvalidateRequest::Finished { rax: SVSM_SUCCESS }
    );
}

#[test]
fn failing_entry_ends_the_walk() {
    let start = handle_pvalidate_request(0x3008, &REGION);
    let script = [
        map(0x3008, 8, Some(0x9008)),
        head(0x9008, 2, 0),
        head(0x9008, 2, 0),
        entry(0x9010, 0x40_0000),
        map(0x40_0000, 0x1000, Some(0x60_0000)),
        adjust(0x60_0000, 0, 1, 3),
        (Action::FlushAll, Reply::Done),
    ];
    assert_eq!(
        play(start, &script),
        PvalidateRequest::Finished { rax: 0x8000_1003 }
    );
    let refused = [script[0], script[1], script[2], entry(0x9010, 0x80_0004)];
    assert_eq!(
        play(start, &refused),
        PvalidateRequest::Finished {
            rax: SVSM_ERR_INVALID_ADDRESS
        }
    );
}

#[test]
fn list_with_nothing_left_is_an_invalid_parameter() {
    let start = handle_pvalidate_request(0x3008, &REGION);
    let script = [
        map(0x3008, 8, Some(0x9008)),
        head(0x9008, 2, 2),
        head(0x9008, 2, 2),
    ];
    assert_eq!(play(start, &script), REFUSED);
}

#[test]
fn resumed_list_is_read_from_its_first_entry() {
    let start = handle_pvalidate_request(0x3008, &REGION);
    let script = [
        map(0x3008, 8, Some(0x9008)),
        head(0x9008, 3, 2),
        head(0x9008, 3, 2),
        entry(0x9010, 0x40_0004),
        map(0x40_0000, 0x1000, Some(0x60_0000)),
        validate(0x60_0000, 0, 1, 0),
        adjust(0x60_0000, 0, 0xf01, 0),
        advance(0x9008, 3),
        head(0x9008, 3, 3),
    ];
    assert_eq!(
        play(start, &script),
        PvalidateRequest::Finished { rax: SVSM_SUCCESS }
    );
}

#[test]
fn addresses_that_cannot_be_made_are_not_admitted() {
    let start = handle_pvalidate_request(0x3008, &REGION);
    assert!(!admits(&start, &Reply::Mapped(Some(0x8000_0000_0000))));
    assert!(!admits(&start, &Reply::Done));
    let header = Reply::Header {
        entries: 2,
        next: 0,
    };
    // The end of the list would pass the end of the address space.
    let high = play(start, &[map(0x3008, 8, Some(0xffff_ffff_ffff_fff0))]);
    assert!(!admits(&high, &header));
    // The last byte would fall between the halves of the address space.
    let low = play(start, &[map(0x3008, 8, Some(0x7fff_ffff_ffe8))]);
    assert!(!admits(&low, &header));
    // The list would wrap from the lower half to the upper one, and so leave its page.
    let across = play(start, &[map(0x3008, 8, Some(0x7fff_ffff_fff0))]);
    assert!(admits(&across, &header));
    assert_eq!(across.resume(header, &mut VmsaList::new()), REFUSED);

    let reading = play(
        start,
        &[
            map(0x3008, 8, Some(0x9008)),
            head(0x9008, 1, 0),
            head(0x9008, 1, 0),
        ],
    );
    assert!(!admits(&reading, &Reply::Word(0x10_0000_0000_0004)));
    assert!(!admits(&reading, &Reply::Word(0xf_ffff_ffff_f004)));
    assert!(admits(&reading, &Reply::Word(0xf_ffff_ffff_e004)));
    assert!(admits(&reading, &Reply::Word(0xf_ffff_ffff_f006)));
}

#[test]
fn calling_area_is_moved() {
    let list = VmsaList::new();
    for vmpl in 1..4 {
        let start = handle_remap_ca_request(0x3018, vmpl, &REGION, &list);
        let script = [
            map(0x3018, 8, Some(0x9018)),
            (Action::SetCallingArea { va: 0x9018, vmpl }, Reply::Done),
        ];
        assert_eq!(
            play(start, &script),
            RemapCa::Finished { rax: SVSM_SUCCESS }
        );
    }
}

#[test]
fn calling_area_is_not_moved() {
    let refused = RemapCa::Finished {
        rax: SVSM_ERR_INVALID_PARAMETER,
    };
    let mut list = VmsaList::new();
    list.add_vmsa(0x3000, 0);
    assert_eq!(handle_remap_ca_request(0x5004, 1, &REGION, &list), refused);
    assert_eq!(
        handle_remap_ca_request(0x80_0018, 1, &REGION, &list),
        refused
    );
    // The calling area lies inside of a VMSA page.
    assert_eq!(handle_remap_ca_request(0x3018, 1, &REGION, &list), refused);
    assert_eq!(handle_remap_ca_request(0x5018, 0, &REGION, &list), refused);
    assert_eq!(handle_remap_ca_request(0x5018, 4, &REGION, &list), refused);
    let start = handle_remap_ca_request(0x5018, 1, &REGION, &list);
    assert_eq!(play(start, &[map(0x5018, 8, None)]), refused);
}

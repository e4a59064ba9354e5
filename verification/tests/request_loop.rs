use svsm_request::guest_page::SvsmRegion;
use svsm_request::machine::{admits, Machine};
use svsm_request::platform::{Action, CallRegs, Reply};
use svsm_request::protocol::{
    SVSM_ERR_INVALID_PARAMETER, SVSM_ERR_INVALID_REQUEST, SVSM_ERR_PROTOCOL_FAIL_INUSE,
    SVSM_ERR_UNSUPPORTED_CALLID, SVSM_ERR_UNSUPPORTED_PROTOCOL, SVSM_SUCCESS,
};
use svsm_request::request_loop::{is_call_defined, svsm_request_loop, RequestLoop, Stage};
use svsm_request::vmsa_list::VmsaList;

const REGION: SvsmRegion = SvsmRegion {
    begin: 0x80_0000,
    end: 0xa0_0000,
};

fn play(start: RequestLoop, script: &[(Action, Reply)], list: &mut VmsaList) -> RequestLoop {
    let mut requests = start;
    for (action, reply) in script {
        assert_eq!(requests.action(), Some(*action));
        assert!(admits(&requests, reply));
        requests = requests.resume(*reply, list);
    }
    requests
}

fn regs(rax: u64, rcx: u64) -> CallRegs {
    CallRegs {
        rax,
        rcx,
        rdx: 0,
        r8: 0,
        vmpl: 1,
    }
}

/// Takes a call and gives the action that comes next.
fn take_call(regs: CallRegs, list: &mut VmsaList) -> RequestLoop {
    let script = [
        (
            Action::FindCallingArea { vmpl: 1 },
            Reply::Address(0xc000),
        ),
        (Action::ReadCallPending { ca: 0xc000 }, Reply::Byte(1)),
        (Action::FindVmsa { vmpl: 1 }, Reply::Address(0xd000)),
        (
            Action::ReadRegisters { vmsa: 0xd000 },
            Reply::Registers(regs),
        ),
        (Action::ClearCallPending { ca: 0xc000 }, Reply::Done),
    ];
    play(svsm_request_loop(REGION), &script, list)
}

fn answer(rax: u64, rcx: Option<u64>) -> Action {
    Action::Answer {
        vmsa: 0xd000,
        rax,
        rcx,
    }
}

fn note(rax: u64) -> (Action, Reply) {
    (Action::SetRax { vmsa: 0xd000, rax }, Reply::Done)
}

#[test]
fn guest_runs_when_no_call_is_pending() {
    let mut list = VmsaList::new();
    let find = Action::FindCallingArea { vmpl: 1 };
    let read = Action::ReadCallPending { ca: 0xc000 };
    let run = (Action::RunVmpl { vmpl: 1 }, Reply::Done);
    let script = [
        (find, Reply::Address(0)),
        run,
        (find, Reply::Address(0xc000)),
        (read, Reply::Byte(0)),
        run,
        (find, Reply::Address(0xc000)),
        (read, Reply::Byte(2)),
        run,
        (find, Reply::Address(0xc000)),
        (read, Reply::Byte(1)),
        (Action::FindVmsa { vmpl: 1 }, Reply::Address(0)),
        run,
    ];
    let end = play(svsm_request_loop(REGION), &script, &mut list);
    assert_eq!(end, svsm_request_loop(REGION));
}

#[test]
fn unsupported_protocol_is_refused_and_the_guest_runs() {
    let mut list = VmsaList::new();
    let taken = take_call(regs(0x2_0000_0006, 1), &mut list);
    let script = [
        (answer(SVSM_ERR_UNSUPPORTED_PROTOCOL, None), Reply::Done),
        (Action::RunVmpl { vmpl: 1 }, Reply::Done),
    ];
    assert_eq!(
        play(taken, &script, &mut list),
        svsm_request_loop(REGION)
    );
}

#[test]
fn highest_protocol_number_is_served_like_the_core_protocol() {
    let mut list = VmsaList::new();
    let taken = take_call(regs(0x1_0000_0006, 1), &mut list);
    assert_eq!(
        taken.action(),
        Some(answer(SVSM_SUCCESS, Some(0x1_0000_0001)))
    );
}

#[test]
fn simple_calls_are_answered_at_once() {
    let mut list = VmsaList::new();
    let expected = [
        (regs(4, 0), answer(SVSM_ERR_UNSUPPORTED_CALLID, None)),
        (regs(5, 0), answer(SVSM_ERR_UNSUPPORTED_CALLID, None)),
        (regs(8, 0), answer(SVSM_ERR_UNSUPPORTED_CALLID, None)),
        (regs(6, 1), answer(SVSM_SUCCESS, Some(0x1_0000_0001))),
        (regs(6, 2), answer(SVSM_SUCCESS, Some(0))),
        (regs(7, 1), answer(SVSM_SUCCESS, Some(0))),
        (regs(7, 0), answer(SVSM_ERR_INVALID_REQUEST, None)),
        (regs(0, 0x3004), answer(SVSM_ERR_INVALID_PARAMETER, None)),
        (regs(1, 0x3004), answer(SVSM_ERR_INVALID_PARAMETER, None)),
        (regs(2, 0x3008), answer(SVSM_ERR_INVALID_PARAMETER, None)),
        (regs(3, 0x3000), answer(SVSM_ERR_INVALID_PARAMETER, None)),
    ];
    for (regs, answered) in expected {
        let taken = take_call(regs, &mut list);
        let end = play(taken, &[(answered, Reply::Done)], &mut list);
        assert_eq!(end, svsm_request_loop(REGION));
    }
}

#[test]
fn longer_calls_are_served_until_answered() {
    let mut list = VmsaList::new();
    let invalid = note(SVSM_ERR_INVALID_PARAMETER);
    let refused = (answer(SVSM_ERR_INVALID_PARAMETER, None), Reply::Done);
    let taken = take_call(regs(0, 0x3008), &mut list);
    let script = [
        invalid,
        map(0x3008, 8, Some(0x9008)),
        (
            Action::SetCallingArea {
                va: 0x9008,
                vmpl: 1,
            },
            Reply::Done,
        ),
        (answer(SVSM_SUCCESS, None), Reply::Done),
    ];
    assert_eq!(play(taken, &script, &mut list), svsm_request_loop(REGION));

    let taken = take_call(regs(1, 0x3008), &mut list);
    play(taken, &[invalid, map(0x3008, 8, None), refused], &mut list);

    let mut create = regs(2, 0x5000);
    create.rdx = 0x6000;
    create.r8 = 3;
    let taken = take_call(create, &mut list);
    play(taken, &[invalid, map(0x5000, 0x1000, None), refused], &mut list);

    list.add_vmsa(0x5000, 3);
    let taken = take_call(regs(3, 0x5000), &mut list);
    let no_cpu = (Action::FindCpu { apic_id: 3 }, Reply::Cpu(None));
    play(taken, &[invalid, no_cpu, refused], &mut list);
}

fn map(gpa: u64, len: u64, reply: Option<u64>) -> (Action, Reply) {
    (Action::MapPrivate { gpa, len }, Reply::Mapped(reply))
}

#[test]
fn rax_is_kept_up_to_date_while_a_cpu_is_deleted() {
    let mut list = VmsaList::new();
    list.add_vmsa(0x5000, 3);
    let taken = take_call(regs(3, 0x5000), &mut list);
    let script = [
        note(SVSM_ERR_INVALID_PARAMETER),
        (Action::FindCpu { apic_id: 3 }, Reply::Cpu(Some(9))),
        map(0x5000, 0x1000, Some(0x7000)),
        note(SVSM_ERR_PROTOCOL_FAIL_INUSE),
        (Action::FlushPage { va: 0x7000 }, Reply::Done),
        (Action::Barrier, Reply::Done),
        (Action::ReadEfer { vmsa: 0x7000 }, Reply::Word(0x1d00)),
        (
            Action::SwapEfer {
                vmsa: 0x7000,
                current: 0x1d00,
                new: 0xd00,
            },
            Reply::Word(0x1d00),
        ),
        (Action::Barrier, Reply::Done),
        adjust(0xf01),
        (Action::FindVmsaFor { vmpl: 1, cpu: 9 }, Reply::Address(0)),
        (answer(SVSM_SUCCESS, None), Reply::Done),
    ];
    assert_eq!(play(taken, &script, &mut list), svsm_request_loop(REGION));
}

fn adjust(attributes: u64) -> (Action, Reply) {
    let action = Action::AdjustPage {
        va: 0x7000,
        page_size: 0,
        attributes,
    };
    (action, Reply::Status(0))
}

#[test]
fn rax_is_kept_up_to_date_while_a_list_is_walked() {
    let mut list = VmsaList::new();
    let taken = take_call(regs(1, 0x3008), &mut list);
    let head = |next: u16| {
        (
            Action::ReadHeader { va: 0x9008 },
            Reply::Header { entries: 2, next },
        )
    };
    let validate = Action::ValidatePage {
        va: 0x7000,
        page_size: 0,
        validate: 1,
    };
    let script = [
        note(SVSM_ERR_INVALID_PARAMETER),
        map(0x3008, 8, Some(0x9008)),
        head(0),
        head(0),
        (Action::ReadEntry { va: 0x9010 }, Reply::Word(0x40_0004)),
        map(0x40_0000, 0x1000, Some(0x7000)),
        (validate, Reply::Status(0)),
        adjust(0xf01),
        note(SVSM_SUCCESS),
        (
            Action::WriteNext {
                va: 0x9008,
                next: 1,
            },
            Reply::Done,
        ),
        head(1),
        (Action::ReadEntry { va: 0x9018 }, Reply::Word(0x41_0004)),
        note(SVSM_ERR_INVALID_PARAMETER),
        map(0x41_0000, 0x1000, Some(0x7000)),
        (validate, Reply::Status(6)),
        (answer(0x8000_1006, None), Reply::Done),
    ];
    assert_eq!(play(taken, &script, &mut list), svsm_request_loop(REGION));
}

#[test]
fn calls_with_impossible_addresses_are_not_admitted() {
    let reading = RequestLoop {
        region: REGION,
        stage: Stage::ReadingRegs {
            ca: 0xc000,
            vmsa: 0xd000,
        },
    };
    let impossible = [
        regs(0, 0x10_0000_0000_0000),
        regs(0, 0xf_ffff_ffff_f000),
        regs(1, 0x10_0000_0000_0000),
        regs(2, 0x10_0000_0000_0000),
        regs(3, 0x10_0000_0000_0000),
        regs(6, 0x1_0000_0001),
    ];
    for regs in impossible {
        assert!(!is_call_defined(&regs));
        assert!(!admits(&reading, &Reply::Registers(regs)));
    }
    let possible = [
        regs(0, 0xf_ffff_ffff_f004),
        regs(0, 0xf_ffff_ffff_e000),
        regs(7, u64::MAX),
        regs(6, 0x2_0000_0001),
        regs(0x2_0000_0003, u64::MAX),
    ];
    for regs in possible {
        assert!(is_call_defined(&regs));
        assert!(admits(&reading, &Reply::Registers(regs)));
    }
}

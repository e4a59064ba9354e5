use svsm_request::create_vcpu::{handle_create_vcpu_request, CreateVcpu};
use svsm_request::delete_vcpu::{handle_delete_vcpu_request, DeleteVcpu};
use svsm_request::machine::{admits, Machine};
use svsm_request::platform::{is_fitting, Action, Reply};
use svsm_request::protocol::{
    SVSM_ERR_INVALID_PARAMETER, SVSM_ERR_PROTOCOL_FAIL_INUSE, SVSM_SUCCESS,
};
use svsm_request::vmpl_access::{
    grant_vmpl_access, restrict_vmpl_access, revoke_vmpl_access, Access,
};
use svsm_request::vmsa_list::VmsaList;

/// Plays a script of actions and replies with a machine.
fn play<M: Machine>(start: M, script: &[(Action, Reply)], list: &mut VmsaList) -> M {
    let mut machine = start;
    for (action, reply) in script {
        assert_eq!(machine.action(), Some(*action));
        assert!(is_fitting(action, reply));
        assert!(admits(&machine, reply));
        machine = machine.resume(*reply, list);
    }
    machine
}

fn adjust(attributes: u64) -> Action {
    Action::AdjustPage {
        va: 0x7000,
        page_size: 0,
        attributes,
    }
}

fn listed(gpa: u64, apic_id: u32) -> VmsaList {
    let mut list = VmsaList::new();
    list.add_vmsa(gpa, apic_id);
    list
}

#[test]
fn access_is_granted_level_by_level() {
    let mut list = VmsaList::new();
    let granted = play(
        grant_vmpl_access(0x7000, 0, 2),
        &[
            (adjust(0xf01), Reply::Status(0)),
            (adjust(0xf02), Reply::Status(0)),
        ],
        &mut list,
    );
    assert_eq!(granted, Access::Finished { status: 0 });
    let restricted = play(
        restrict_vmpl_access(0x7000, 0, 1),
        &[(adjust(0x101), Reply::Status(0))],
        &mut list,
    );
    assert_eq!(restricted, Access::Finished { status: 0 });
}

#[test]
fn revocation_stops_at_the_first_refusal() {
    let mut list = VmsaList::new();
    let revoked = play(
        revoke_vmpl_access(0x7000, 0),
        &[(adjust(1), Reply::Status(0)), (adjust(2), Reply::Status(6))],
        &mut list,
    );
    assert_eq!(revoked, Access::Finished { status: 6 });
    assert_eq!(revoked.action(), None);
    let revoked = play(
        revoke_vmpl_access(0x7000, 0),
        &[
            (adjust(1), Reply::Status(0)),
            (adjust(2), Reply::Status(0)),
            (adjust(3), Reply::Status(0)),
        ],
        &mut list,
    );
    assert_eq!(revoked, Access::Finished { status: 0 });
}

#[test]
fn deletion_needs_a_registered_aligned_page() {
    let refused = DeleteVcpu::Finished {
        rax: SVSM_ERR_INVALID_PARAMETER,
    };
    let list = listed(0x5008, 3);
    assert_eq!(handle_delete_vcpu_request(0x5008, &list), refused);
    assert_eq!(handle_delete_vcpu_request(0x5000, &list), refused);
    let list = listed(0x5000, 3);
    assert_eq!(
        handle_delete_vcpu_request(0x5000, &list),
        DeleteVcpu::FindingCpu {
            gpa: 0x5000,
            apic_id: 3
        }
    );
}

fn deletion_script() -> Vec<(Action, Reply)> {
    vec![
        (Action::FindCpu { apic_id: 3 }, Reply::Cpu(Some(9))),
        (
            Action::MapPrivate {
                gpa: 0x5000,
                len: 0x1000,
            },
            Reply::Mapped(Some(0x7000)),
        ),
        (Action::FlushPage { va: 0x7000 }, Reply::Done),
        (Action::Barrier, Reply::Done),
        (Action::ReadEfer { vmsa: 0x7000 }, Reply::Word(0x1d01)),
        (
            Action::SwapEfer {
                vmsa: 0x7000,
                current: 0x1d01,
                new: 0xd01,
            },
            Reply::Word(0x1d01),
        ),
        (Action::Barrier, Reply::Done),
        (adjust(0xf01), Reply::Status(0)),
        (
            Action::FindVmsaFor { vmpl: 1, cpu: 9 },
            Reply::Address(0x7000),
        ),
        (
            Action::SetVmsaFor {
                va: 0,
                vmpl: 1,
                cpu: 9,
            },
            Reply::Done,
        ),
        (
            Action::SetCallingAreaFor {
                va: 0,
                vmpl: 1,
                cpu: 9,
            },
            Reply::Done,
        ),
    ]
}

#[test]
fn virtual_cpu_is_deleted() {
    let mut list = listed(0x5000, 3);
    let start = handle_delete_vcpu_request(0x5000, &list);
    let end = play(start, &deletion_script(), &mut list);
    assert_eq!(end, DeleteVcpu::Finished { rax: SVSM_SUCCESS });
    assert_eq!(end.action(), None);
    assert!(!admits(&end, &Reply::Done));
    assert!(!list.vmsa_page(0x5000));
}

#[test]
fn deletion_leaves_another_vmsa_page_of_the_cpu_alone() {
    let mut list = listed(0x5000, 3);
    let start = handle_delete_vcpu_request(0x5000, &list);
    let mut script = deletion_script();
    script.truncate(8);
    script.push((
        Action::FindVmsaFor { vmpl: 1, cpu: 9 },
        Reply::Address(0x9000),
    ));
    let end = play(start, &script, &mut list);
    assert_eq!(end, DeleteVcpu::Finished { rax: SVSM_SUCCESS });
    assert!(!list.vmsa_page(0x5000));
}

#[test]
fn deletion_fails_without_cpu_or_mapping() {
    let refused = DeleteVcpu::Finished {
        rax: SVSM_ERR_INVALID_PARAMETER,
    };
    let mut list = listed(0x5000, 3);
    let start = handle_delete_vcpu_request(0x5000, &list);
    let no_cpu = [(Action::FindCpu { apic_id: 3 }, Reply::Cpu(None))];
    assert_eq!(play(start, &no_cpu, &mut list), refused);

    let mut script = deletion_script();
    script.truncate(2);
    script[1].1 = Reply::Mapped(None);
    assert_eq!(play(start, &script, &mut list), refused);
    assert!(list.vmsa_page(0x5000));
}

#[test]
fn deletion_fails_while_in_use() {
    let in_use = DeleteVcpu::Finished {
        rax: SVSM_ERR_PROTOCOL_FAIL_INUSE,
    };
    let mut list = listed(0x5000, 3);
    let start = handle_delete_vcpu_request(0x5000, &list);
    let mut script = deletion_script();
    script.truncate(7);
    script[5].1 = Reply::Word(0xd01);
    assert_eq!(play(start, &script, &mut list), in_use);
    assert!(list.vmsa_page(0x5000));

    // Another CPU takes the page off the list in the meantime.
    let mut emptied = VmsaList::new();
    assert_eq!(play(start, &deletion_script(), &mut emptied), in_use);
}

#[test]
fn deletion_fails_if_the_exchange_is_lost() {
    let mut list = listed(0x5000, 3);
    let start = handle_delete_vcpu_request(0x5000, &list);
    // EFER was changed after it was read, so it still has its SVME bit.
    let mut script = deletion_script();
    script.truncate(7);
    script[5].1 = Reply::Word(0x1501);
    let end = play(start, &script, &mut list);
    assert_eq!(
        end,
        DeleteVcpu::Finished {
            rax: SVSM_ERR_PROTOCOL_FAIL_INUSE
        }
    );
    assert_eq!(end.action(), None);
    assert!(list.vmsa_page(0x5000));
}

#[test]
fn creation_needs_aligned_pages() {
    let refused = CreateVcpu::Finished {
        rax: SVSM_ERR_INVALID_PARAMETER,
    };
    assert_eq!(handle_create_vcpu_request(0x5800, 0x6000, 3), refused);
    assert_eq!(handle_create_vcpu_request(0x5000, 0x6008, 3), refused);
    assert_eq!(
        handle_create_vcpu_request(0x5000, 0x6000, 0xabcd_0000_0003),
        CreateVcpu::MappingVmsa {
            gpa: 0x5000,
            ca_gpa: 0x6000,
            apic_id: 3
        }
    );
}

fn creation_script() -> Vec<(Action, Reply)> {
    vec![
        (
            Action::MapPrivate {
                gpa: 0x5000,
                len: 0x1000,
            },
            Reply::Mapped(Some(0x7000)),
        ),
        (
            Action::MapPrivate {
                gpa: 0x6000,
                len: 0x1000,
            },
            Reply::Mapped(Some(0x8000)),
        ),
        (adjust(1), Reply::Status(0)),
        (adjust(2), Reply::Status(0)),
        (adjust(3), Reply::Status(0)),
        (Action::Barrier, Reply::Done),
        (Action::ReadVmpl { vmsa: 0x7000 }, Reply::Byte(1)),
        (Action::ReadEfer { vmsa: 0x7000 }, Reply::Word(0x1d01)),
        (adjust(0x101), Reply::Status(0)),
        (adjust(0x1_0001), Reply::Status(0)),
        (Action::FindCpu { apic_id: 3 }, Reply::Cpu(Some(9))),
        (
            Action::SetVmsaFor {
                va: 0x7000,
                vmpl: 1,
                cpu: 9,
            },
            Reply::Done,
        ),
        (
            Action::SetCallingAreaFor {
                va: 0x8000,
                vmpl: 1,
                cpu: 9,
            },
            Reply::Done,
        ),
        (Action::FlushAll, Reply::Done),
    ]
}

#[test]
fn virtual_cpu_is_created() {
    let mut list = VmsaList::new();
    let start = handle_create_vcpu_request(0x5000, 0x6000, 3);
    let end = play(start, &creation_script(), &mut list);
    assert_eq!(end, CreateVcpu::Finished { rax: SVSM_SUCCESS });
    assert_eq!(list.vmsa_to_apic_id(0x5000), Some(3));
    assert_eq!(
        handle_delete_vcpu_request(0x5000, &list),
        DeleteVcpu::FindingCpu {
            gpa: 0x5000,
            apic_id: 3
        }
    );
}

#[test]
fn creation_fails_without_mappings() {
    let refused = CreateVcpu::Finished {
        rax: SVSM_ERR_INVALID_PARAMETER,
    };
    let start = handle_create_vcpu_request(0x5000, 0x6000, 3);
    for failing in 0..2 {
        let mut list = VmsaList::new();
        let mut script = creation_script();
        script.truncate(failing + 1);
        script[failing].1 = Reply::Mapped(None);
        assert_eq!(play(start, &script, &mut list), refused);
    }
}

#[test]
fn failed_creation_gives_the_page_back() {
    let refused = CreateVcpu::Finished {
        rax: SVSM_ERR_INVALID_PARAMETER,
    };
    let start = handle_create_vcpu_request(0x5000, 0x6000, 3);
    let errors = [
        (2, Reply::Status(1)),
        (3, Reply::Status(1)),
        (4, Reply::Status(1)),
        (6, Reply::Byte(0)),
        (6, Reply::Byte(2)),
        (7, Reply::Word(0xd01)),
        (8, Reply::Status(2)),
        (9, Reply::Status(2)),
        (10, Reply::Cpu(None)),
    ];
    for (failing, reply) in errors {
        let mut list = VmsaList::new();
        let mut script = creation_script();
        script.truncate(failing + 1);
        script[failing].1 = reply;
        script.push((adjust(0xf01), Reply::Status(1)));
        script.push((Action::FlushAll, Reply::Done));
        assert_eq!(play(start, &script, &mut list), refused);
        assert_eq!(list.vmsa_page(0x5000), failing == 10);
    }
}

#[test]
fn deletion_undoes_creation() {
    let mut list = listed(0x4000, 8);
    play(
        handle_create_vcpu_request(0x5000, 0x6000, 3),
        &creation_script(),
        &mut list,
    );
    let start = handle_delete_vcpu_request(0x5000, &list);
    play(start, &deletion_script(), &mut list);
    assert!(!list.vmsa_page(0x5000));
    assert_eq!(list.vmsa_to_apic_id(0x4000), Some(8));
    assert_eq!(
        handle_delete_vcpu_request(0x5000, &list),
        DeleteVcpu::Finished {
            rax: SVSM_ERR_INVALID_PARAMETER
        }
    );
}

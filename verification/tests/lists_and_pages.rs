use svsm_request::guest_page::{address_valid, page_len, SvsmRegion};
use svsm_request::protocol::{
    configure_vtom, handle_configure_vtom_request, handle_query_protocol_request, lower_32bits,
    query_vtom, upper_32bits, Answer, VersionInfo, SVSM_ERR_INVALID_REQUEST, SVSM_SUCCESS,
};
use svsm_request::vmsa_list::{svsm_request_add_init_vmsa, VmsaInfo, VmsaList};

fn listed(entries: &[(u64, u32)]) -> VmsaList {
    let mut list = VmsaList::new();
    for (gpa, apic_id) in entries {
        assert!(list.add_vmsa(*gpa, *apic_id));
    }
    list
}

const REGION: SvsmRegion = SvsmRegion {
    begin: 0x80_0000,
    end: 0xa0_0000,
};

#[test]
fn empty_list_knows_no_page() {
    let mut list = VmsaList::new();
    assert!(!list.vmsa_page(0));
    assert_eq!(list.vmsa_to_apic_id(0), None);
    assert!(!list.del_vmsa(0));
}

#[test]
fn added_page_is_found_until_deleted() {
    let mut list = listed(&[(0x1000, 1), (0x2000, 2), (0x3000, 3)]);
    assert!(list.vmsa_page(0x1000));
    assert_eq!(list.vmsa_to_apic_id(0x2000), Some(2));
    assert!(list.del_vmsa(0x1000));
    assert!(!list.vmsa_page(0x1000));
    assert_eq!(list.vmsa_to_apic_id(0x1000), None);
    assert_eq!(list.vmsa_to_apic_id(0x2000), Some(2));
    assert_eq!(list.vmsa_to_apic_id(0x3000), Some(3));
    assert!(!list.del_vmsa(0x1000));
}

#[test]
fn page_registered_twice_is_deleted_once() {
    let mut list = listed(&[(0x1000, 1), (0x1000, 7)]);
    assert_eq!(list.vmsa_to_apic_id(0x1000), Some(1));
    assert!(list.del_vmsa(0x1000));
    assert_eq!(list.vmsa_to_apic_id(0x1000), Some(7));
    assert!(list.del_vmsa(0x1000));
    assert!(!list.vmsa_page(0x1000));
}

#[test]
fn deletion_can_change_which_duplicate_is_first() {
    let mut list = listed(&[(0x1000, 1), (0x2000, 2), (0x2000, 9)]);
    assert_eq!(list.vmsa_to_apic_id(0x2000), Some(2));
    assert!(list.del_vmsa(0x1000));
    assert_eq!(list.vmsa_to_apic_id(0x2000), Some(9));
}

#[test]
fn initial_page_is_registered() {
    let mut list = VmsaList::new();
    svsm_request_add_init_vmsa(&mut list, 0x7000, 42);
    assert_eq!(list.vmsa_to_apic_id(0x7000), Some(42));
    let info = VmsaInfo {
        gpa: 0x7000,
        apic_id: 42,
    };
    assert_eq!(info.gpa(), 0x7000);
    assert_eq!(info.apic_id(), 42);
}

#[test]
fn only_two_page_sizes_exist() {
    let list = VmsaList::new();
    assert!(address_valid(0x20_0000, 0, &REGION, &list));
    assert!(address_valid(0x20_0000, 1, &REGION, &list));
    assert!(!address_valid(0x20_0000, 2, &REGION, &list));
    assert!(!address_valid(0x20_0000, 3, &REGION, &list));
    assert_eq!(page_len(0), 0x1000);
    assert_eq!(page_len(1), 0x20_0000);
}

#[test]
fn large_pages_are_aligned() {
    let list = VmsaList::new();
    assert!(!address_valid(0x20_1000, 1, &REGION, &list));
    assert!(address_valid(0x20_1000, 0, &REGION, &list));
}

#[test]
fn svsm_memory_cannot_be_named() {
    let list = VmsaList::new();
    assert!(address_valid(0x7f_f000, 0, &REGION, &list));
    assert!(!address_valid(0x80_0000, 0, &REGION, &list));
    assert!(!address_valid(0x9f_f000, 0, &REGION, &list));
    assert!(address_valid(0xa0_0000, 0, &REGION, &list));
    assert!(address_valid(0x60_0000, 1, &REGION, &list));
    let shifted = SvsmRegion {
        begin: 0x7f_f000,
        end: 0x80_0000,
    };
    assert!(!address_valid(0x60_0000, 1, &shifted, &list));
}

#[test]
fn vmsa_pages_cannot_be_named() {
    let list = listed(&[(0x3f_f000, 0), (0x50_0800, 0)]);
    assert!(!address_valid(0x3f_f000, 0, &REGION, &list));
    assert!(address_valid(0x3f_e000, 0, &REGION, &list));
    assert!(!address_valid(0x20_0000, 1, &REGION, &list));
    // An entry that is no page start hides nothing.
    assert!(address_valid(0x50_0000, 0, &REGION, &list));
}

#[test]
fn words_are_split_into_halves() {
    assert_eq!(upper_32bits(0x1122_3344_5566_7788), 0x1122_3344);
    assert_eq!(lower_32bits(0x1122_3344_5566_7788), 0x5566_7788);
}

#[test]
fn core_protocol_version_is_reported() {
    let supported = Answer {
        rax: SVSM_SUCCESS,
        rcx: Some(0x1_0000_0001),
    };
    let unsupported = Answer {
        rax: SVSM_SUCCESS,
        rcx: Some(0),
    };
    assert_eq!(handle_query_protocol_request(1), supported);
    assert_eq!(handle_query_protocol_request(0), unsupported);
    assert_eq!(handle_query_protocol_request(2), unsupported);
    assert_eq!(handle_query_protocol_request(0x2_0000_0001), unsupported);
    let versions = VersionInfo { min: 1, max: 3 };
    assert_eq!((versions.min(), versions.max()), (1, 3));
}

#[test]
fn vtom_can_be_queried_but_not_configured() {
    assert_eq!(handle_configure_vtom_request(1), query_vtom());
    assert_eq!(handle_configure_vtom_request(0), configure_vtom());
    assert_eq!(handle_configure_vtom_request(3), configure_vtom());
    assert_eq!(query_vtom().rax, SVSM_SUCCESS);
    assert_eq!(query_vtom().rcx, Some(0));
    assert_eq!(configure_vtom().rax, SVSM_ERR_INVALID_REQUEST);
    assert_eq!(configure_vtom().rcx, None);
}

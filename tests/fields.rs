use enip_detect::fields::{
    enip_get_status, product_name_get_data, service_name_get_data, tx_get_capabilities,
    tx_get_command, tx_get_device_type, tx_get_identity_status, tx_get_product_code,
    tx_get_protocol_version, tx_get_revision, tx_get_serial, tx_get_state, tx_get_vendor_id,
};
use enip_detect::keywords::{enip_predicate_match, resolve_mnemonic, EnipPredicate};
use enip_detect::model::{
    direction_from_flags, Direction, EnipHeader, EnipItem, EnipItemIdentity, EnipItemPayload,
    EnipItemServices, EnipPayload, EnipPdu, EnipRegisterSession, EnipTransaction,
    STREAM_TOCLIENT, STREAM_TOSERVER,
};
use enip_detect::uint::{DetectUintData, DetectUintMode};

fn eq(v: u32) -> DetectUintData {
    DetectUintData { mode: DetectUintMode::Equal, arg1: v, arg2: 0 }
}

fn identity() -> EnipItemIdentity {
    EnipItemIdentity {
        protocol_version: 1,
        vendor_id: 0x0001,
        device_type: 0x000c,
        product_code: 0x0041,
        revision_major: 1,
        revision_minor: 5,
        status: 0x0030,
        serial: 0xdeadbeef,
        product_name: b"1756-ENBT/A".to_vec(),
        state: 3,
    }
}

fn pdu(cmd: u16, status: u32, payload: EnipPayload) -> EnipPdu {
    EnipPdu { header: EnipHeader { cmd, status }, payload }
}

fn list_identity_tx() -> EnipTransaction {
    EnipTransaction {
        request: Some(pdu(0x63, 0, EnipPayload::Other)),
        response: Some(pdu(
            0x63,
            0,
            EnipPayload::ListIdentity(vec![EnipItem {
                item_type: 0x0c,
                payload: EnipItemPayload::Identity(identity()),
            }]),
        )),
    }
}

fn list_services_tx() -> EnipTransaction {
    EnipTransaction {
        request: Some(pdu(0x04, 0, EnipPayload::Other)),
        response: Some(pdu(
            0x04,
            0,
            EnipPayload::ListServices(vec![EnipItem {
                item_type: 0x100,
                payload: EnipItemPayload::Services(EnipItemServices {
                    protocol_version: 1,
                    capabilities: 0x0120,
                    service_name: b"Communications".to_vec(),
                }),
            }]),
        )),
    }
}

#[test]
fn revision_combines_major_and_minor() {
    let tx = list_identity_tx();
    assert_eq!(tx_get_revision(&tx), Some(0x0105));
    assert!(enip_predicate_match(&tx, STREAM_TOCLIENT, &EnipPredicate::Revision(eq(0x0105))));
    assert!(!enip_predicate_match(&tx, STREAM_TOCLIENT, &EnipPredicate::Revision(eq(0x0501))));
}

#[test]
fn identity_fields_of_first_item() {
    let tx = list_identity_tx();
    assert_eq!(tx_get_vendor_id(&tx), Some(1));
    assert_eq!(tx_get_device_type(&tx), Some(0x0c));
    assert_eq!(tx_get_product_code(&tx), Some(0x41));
    assert_eq!(tx_get_identity_status(&tx), Some(0x30));
    assert_eq!(tx_get_serial(&tx), Some(0xdeadbeef));
    assert_eq!(tx_get_state(&tx), Some(3));
    assert_eq!(product_name_get_data(&tx), Some(&b"1756-ENBT/A"[..]));
    assert_eq!(tx_get_capabilities(&tx), None);
    assert_eq!(service_name_get_data(&tx), None);
}

#[test]
fn only_the_first_identity_item_counts() {
    let mut other = identity();
    other.vendor_id = 99;
    let tx = EnipTransaction {
        request: None,
        response: Some(pdu(
            0x63,
            0,
            EnipPayload::ListIdentity(vec![
                EnipItem { item_type: 0, payload: EnipItemPayload::Other },
                EnipItem { item_type: 0x0c, payload: EnipItemPayload::Identity(other) },
            ]),
        )),
    };
    assert_eq!(tx_get_vendor_id(&tx), None);
    assert_eq!(product_name_get_data(&tx), None);
    let empty = EnipTransaction { request: None, response: Some(pdu(0x63, 0, EnipPayload::ListIdentity(vec![]))) };
    assert_eq!(tx_get_serial(&empty), None);
}

#[test]
fn services_fields_of_first_item() {
    let tx = list_services_tx();
    assert_eq!(tx_get_capabilities(&tx), Some(0x0120));
    assert_eq!(service_name_get_data(&tx), Some(&b"Communications"[..]));
    assert_eq!(tx_get_vendor_id(&tx), None);
    assert!(enip_predicate_match(&tx, STREAM_TOCLIENT, &EnipPredicate::Capabilities(eq(0x0120))));
    let bit = DetectUintData { mode: DetectUintMode::Bitmask, arg1: 0x0020, arg2: 0x0020 };
    assert!(enip_predicate_match(&tx, STREAM_TOCLIENT, &EnipPredicate::Capabilities(bit)));
}

#[test]
fn protocol_version_sources_in_order() {
    let rs = EnipTransaction {
        request: Some(pdu(0x65, 0, EnipPayload::RegisterSession(EnipRegisterSession { protocol_version: 1, options: 0 }))),
        response: Some(pdu(0x65, 0, EnipPayload::RegisterSession(EnipRegisterSession { protocol_version: 2, options: 0 }))),
    };
    assert_eq!(tx_get_protocol_version(&rs, Direction::ToServer), Some(1));
    assert_eq!(tx_get_protocol_version(&rs, Direction::ToClient), Some(2));
    assert_eq!(tx_get_protocol_version(&list_services_tx(), Direction::ToClient), Some(1));
    assert_eq!(tx_get_protocol_version(&list_identity_tx(), Direction::ToClient), Some(1));
    assert_eq!(tx_get_protocol_version(&list_identity_tx(), Direction::ToServer), None);
    let req_list = EnipTransaction { request: list_services_tx().response, response: None };
    assert_eq!(tx_get_protocol_version(&req_list, Direction::ToServer), None);
}

#[test]
fn command_and_status_follow_direction() {
    let tx = EnipTransaction {
        request: Some(pdu(0x6f, 0x11, EnipPayload::Other)),
        response: Some(pdu(0x70, 0x22, EnipPayload::Other)),
    };
    assert_eq!(tx_get_command(&tx, STREAM_TOSERVER), Some(0x6f));
    assert_eq!(tx_get_command(&tx, STREAM_TOCLIENT), Some(0x70));
    assert_eq!(enip_get_status(&tx, Direction::ToServer), Some(0x11));
    assert_eq!(enip_get_status(&tx, Direction::ToClient), Some(0x22));
    assert!(enip_predicate_match(&tx, STREAM_TOSERVER, &EnipPredicate::Command(eq(0x6f))));
    assert!(!enip_predicate_match(&tx, STREAM_TOCLIENT, &EnipPredicate::Command(eq(0x6f))));
    assert!(enip_predicate_match(&tx, STREAM_TOCLIENT, &EnipPredicate::Status(eq(0x22))));
    assert!(!enip_predicate_match(&tx, STREAM_TOSERVER, &EnipPredicate::Status(eq(0x22))));

    let only_request = EnipTransaction { request: Some(pdu(0x6f, 0x11, EnipPayload::Other)), response: None };
    assert_eq!(tx_get_command(&only_request, STREAM_TOCLIENT), None);
    assert_eq!(enip_get_status(&only_request, Direction::ToClient), None);
    let only_response = EnipTransaction { request: None, response: Some(pdu(0x70, 0x22, EnipPayload::Other)) };
    assert_eq!(tx_get_command(&only_response, STREAM_TOSERVER), None);
    assert_eq!(enip_get_status(&only_response, Direction::ToServer), None);
    assert!(!enip_predicate_match(&only_response, STREAM_TOSERVER, &EnipPredicate::Status(eq(0x22))));
}

#[test]
fn direction_from_stream_flags() {
    assert_eq!(direction_from_flags(STREAM_TOSERVER), Direction::ToServer);
    assert_eq!(direction_from_flags(STREAM_TOCLIENT), Direction::ToClient);
    assert_eq!(direction_from_flags(STREAM_TOCLIENT | 0x01), Direction::ToClient);
    assert_eq!(direction_from_flags(STREAM_TOSERVER | STREAM_TOCLIENT), Direction::ToServer);
    assert_eq!(direction_from_flags(0), Direction::ToServer);
}

#[test]
fn same_predicate_twice_gives_same_answer() {
    let tx = list_identity_tx();
    for pred in [
        EnipPredicate::VendorId(eq(1)),
        EnipPredicate::VendorId(eq(2)),
        EnipPredicate::State(eq(3)),
        EnipPredicate::Serial(eq(0xdeadbeef)),
        EnipPredicate::ProductCode(eq(0x41)),
        EnipPredicate::IdentityStatus(eq(0x30)),
        EnipPredicate::DeviceType(eq(0x0c)),
        EnipPredicate::ProtocolVersion(eq(1)),
    ] {
        let first = enip_predicate_match(&tx, STREAM_TOCLIENT, &pred);
        let second = enip_predicate_match(&tx, STREAM_TOCLIENT, &pred);
        assert_eq!(first, second);
    }
    assert!(enip_predicate_match(&tx, STREAM_TOCLIENT, &EnipPredicate::Serial(eq(0xdeadbeef))));
    assert!(!enip_predicate_match(&tx, STREAM_TOCLIENT, &EnipPredicate::VendorId(eq(2))));
}

#[test]
fn absent_fields_never_match() {
    let tx = EnipTransaction { request: None, response: None };
    let any = DetectUintData { mode: DetectUintMode::GreaterOrEqual, arg1: 0, arg2: 0 };
    for pred in [
        EnipPredicate::Capabilities(any),
        EnipPredicate::VendorId(any),
        EnipPredicate::Status(any),
        EnipPredicate::State(any),
        EnipPredicate::Serial(any),
        EnipPredicate::Revision(any),
        EnipPredicate::ProtocolVersion(any),
        EnipPredicate::ProductCode(any),
        EnipPredicate::IdentityStatus(any),
        EnipPredicate::DeviceType(any),
        EnipPredicate::Command(any),
        EnipPredicate::CipStatus(any),
        EnipPredicate::CipInstance(any),
        EnipPredicate::CipClass(any),
        EnipPredicate::CipAttribute(any),
        EnipPredicate::CipExtendedStatus(any),
    ] {
        assert!(!enip_predicate_match(&tx, STREAM_TOSERVER, &pred));
        assert!(!enip_predicate_match(&tx, STREAM_TOCLIENT, &pred));
    }
}

#[test]
fn mnemonics_resolve_exactly() {
    let table: [(&str, u32); 3] = [("list_identity", 0x63), ("register_session", 0x65), ("list_services", 0x04)];
    assert_eq!(resolve_mnemonic("register_session", &table), Some(eq(0x65)));
    assert_eq!(resolve_mnemonic("list_services", &table), Some(eq(0x04)));
    assert_eq!(resolve_mnemonic("List_Services", &table), None);
    assert_eq!(resolve_mnemonic("list_service", &table), None);
    assert_eq!(resolve_mnemonic("", &table), None);
    assert_eq!(resolve_mnemonic("4", &table), None);
    let dup: [(&str, u32); 2] = [("a", 1), ("a", 2)];
    assert_eq!(resolve_mnemonic("a", &dup), Some(eq(1)));
}

#[test]
fn numeric_predicate_modes() {
    let p = |mode, arg1, arg2| DetectUintData { mode, arg1, arg2 };
    assert!(p(DetectUintMode::Equal, 5, 0).evaluate(5));
    assert!(!p(DetectUintMode::Equal, 5, 0).evaluate(6));
    assert!(p(DetectUintMode::NotEqual, 5, 0).evaluate(6));
    assert!(p(DetectUintMode::Less, 5, 0).evaluate(4));
    assert!(!p(DetectUintMode::Less, 5, 0).evaluate(5));
    assert!(p(DetectUintMode::LessOrEqual, 5, 0).evaluate(5));
    assert!(p(DetectUintMode::Greater, 5, 0).evaluate(6));
    assert!(!p(DetectUintMode::Greater, 5, 0).evaluate(5));
    assert!(p(DetectUintMode::GreaterOrEqual, 5, 0).evaluate(5));
    assert!(p(DetectUintMode::Range, 2, 5).evaluate(3));
    assert!(!p(DetectUintMode::Range, 2, 5).evaluate(2));
    assert!(!p(DetectUintMode::Range, 2, 5).evaluate(5));
    assert!(p(DetectUintMode::NegatedRange, 2, 5).evaluate(2));
    assert!(p(DetectUintMode::NegatedRange, 2, 5).evaluate(5));
    assert!(!p(DetectUintMode::NegatedRange, 2, 5).evaluate(3));
    assert!(p(DetectUintMode::Bitmask, 0x0f, 0x03).evaluate(0xf3));
    assert!(!p(DetectUintMode::Bitmask, 0x0f, 0x03).evaluate(0xf4));
    assert!(p(DetectUintMode::NegatedBitmask, 0x0f, 0x03).evaluate(0xf4));
    assert_eq!(DetectUintData::equal(7), p(DetectUintMode::Equal, 7, 0));
}

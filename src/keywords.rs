//! The detection keywords: one predicate per keyword, evaluated on a
//! transaction in a direction.
use vstd::prelude::*;
use vstd::string::StringSliceAdditionalSpecFns;
use crate::cip::{
    enip_cip_match_attribute, enip_cip_match_extendedstatus, enip_cip_match_segment,
    enip_cip_match_service, enip_cip_match_status, query_hit, CipQuery, MAX_CIP_NESTING,
};
use crate::fields::{
    enip_get_status, first_cip_data, first_identity, first_services, pdu_cip, pdu_for, pdu_of,
    protocol_version_spec, tx_get_capabilities, tx_get_command, tx_get_device_type,
    tx_get_identity_status, tx_get_product_code, tx_get_protocol_version, tx_get_revision,
    tx_get_serial, tx_get_state, tx_get_vendor_id,
};
use crate::model::{
    direction_from_flags, direction_spec, Direction, EnipTransaction, SEGMENT_CLASS,
    SEGMENT_INSTANCE,
};
use crate::rule::DetectCipServiceData;
use crate::uint::DetectUintData;

verus! {

/// The CIP message of the first data item of the PDU of the direction
/// satisfies the query.
pub open spec fn tx_query_hit(tx: EnipTransaction, direction: Direction, q: CipQuery) -> bool {
    pdu_cip(pdu_for(tx, direction)) matches Some(d) && query_hit(d, q, MAX_CIP_NESTING as nat)
}

/// Whether the CIP message of the PDU of the direction satisfies the CIP
/// service predicate.
pub fn enip_tx_has_cip_service(
    tx: &EnipTransaction,
    direction: Direction,
    ctx: &DetectCipServiceData,
) -> (r: bool)
    ensures
        r == tx_query_hit(*tx, direction, CipQuery::Service(*ctx)),
{
    match first_cip_data(pdu_of(tx, direction)) {
        Some(d) => enip_cip_match_service(d, ctx),
        None => false,
    }
}

/// Whether the general status of the CIP response satisfies `ctx`.
pub fn enip_tx_has_cip_status(tx: &EnipTransaction, ctx: &DetectUintData) -> (r: bool)
    ensures
        r == tx_query_hit(*tx, Direction::ToClient, CipQuery::Status(*ctx)),
{
    match first_cip_data(&tx.response) {
        Some(d) => enip_cip_match_status(d, ctx),
        None => false,
    }
}

/// Whether the extended status of the CIP response satisfies `ctx`.
pub fn enip_tx_has_cip_extendedstatus(tx: &EnipTransaction, ctx: &DetectUintData) -> (r: bool)
    ensures
        r == tx_query_hit(*tx, Direction::ToClient, CipQuery::ExtendedStatus(*ctx)),
{
    match first_cip_data(&tx.response) {
        Some(d) => enip_cip_match_extendedstatus(d, ctx),
        None => false,
    }
}

/// Whether the CIP request path holds a segment of class `segment_type`
/// whose value satisfies `ctx`.
pub fn enip_tx_has_cip_segment(tx: &EnipTransaction, ctx: &DetectUintData, segment_type: u8) -> (r:
    bool)
    ensures
        r == tx_query_hit(*tx, Direction::ToServer, CipQuery::Segment(*ctx, segment_type)),
{
    match first_cip_data(&tx.request) {
        Some(d) => enip_cip_match_segment(d, ctx, segment_type),
        None => false,
    }
}

/// Whether the CIP request addresses an attribute id that satisfies `ctx`.
pub fn enip_tx_has_cip_attribute(tx: &EnipTransaction, ctx: &DetectUintData) -> (r: bool)
    ensures
        r == tx_query_hit(*tx, Direction::ToServer, CipQuery::Attribute(*ctx)),
{
    match first_cip_data(&tx.request) {
        Some(d) => enip_cip_match_attribute(d, ctx),
        None => false,
    }
}

/// The predicate of one detection keyword.
#[derive(Clone, Copy, Debug, PartialEq, Eq, Structural)]
pub enum EnipPredicate {
    CipService(DetectCipServiceData),
    Capabilities(DetectUintData),
    CipAttribute(DetectUintData),
    CipClass(DetectUintData),
    VendorId(DetectUintData),
    Status(DetectUintData),
    State(DetectUintData),
    Serial(DetectUintData),
    Revision(DetectUintData),
    ProtocolVersion(DetectUintData),
    ProductCode(DetectUintData),
    IdentityStatus(DetectUintData),
    DeviceType(DetectUintData),
    Command(DetectUintData),
    CipStatus(DetectUintData),
    CipInstance(DetectUintData),
    CipExtendedStatus(DetectUintData),
}

/// A field value that is present and satisfies `p`.
pub open spec fn value_accepts(v: Option<u32>, p: DetectUintData) -> bool {
    v matches Some(x) && p.accepts(x)
}

/// Whether a transaction, seen in a direction, satisfies a keyword
/// predicate. An absent field never does.
pub open spec fn predicate_holds(tx: EnipTransaction, direction: Direction, pred: EnipPredicate) -> bool {
    let identity = first_identity(tx);
    let services = first_services(tx);
    match pred {
        EnipPredicate::CipService(c) => tx_query_hit(tx, direction, CipQuery::Service(c)),
        EnipPredicate::Capabilities(p) => services matches Some(ls) && p.accepts(
            ls.capabilities as u32,
        ),
        EnipPredicate::CipAttribute(p) => tx_query_hit(
            tx,
            Direction::ToServer,
            CipQuery::Attribute(p),
        ),
        EnipPredicate::CipClass(p) => tx_query_hit(
            tx,
            Direction::ToServer,
            CipQuery::Segment(p, SEGMENT_CLASS),
        ),
        EnipPredicate::VendorId(p) => identity matches Some(li) && p.accepts(li.vendor_id as u32),
        EnipPredicate::Status(p) => pdu_for(tx, direction) matches Some(pdu) && p.accepts(
            pdu.header.status,
        ),
        EnipPredicate::State(p) => identity matches Some(li) && p.accepts(li.state as u32),
        EnipPredicate::Serial(p) => identity matches Some(li) && p.accepts(li.serial),
        EnipPredicate::Revision(p) => identity matches Some(li) && p.accepts(
            ((li.revision_major * 256 + li.revision_minor) as u16) as u32,
        ),
        EnipPredicate::ProtocolVersion(p) => protocol_version_spec(tx, direction) matches Some(v)
            && p.accepts(v as u32),
        EnipPredicate::ProductCode(p) => identity matches Some(li) && p.accepts(
            li.product_code as u32,
        ),
        EnipPredicate::IdentityStatus(p) => identity matches Some(li) && p.accepts(
            li.status as u32,
        ),
        EnipPredicate::DeviceType(p) => identity matches Some(li) && p.accepts(
            li.device_type as u32,
        ),
        EnipPredicate::Command(p) => pdu_for(tx, direction) matches Some(pdu) && p.accepts(
            pdu.header.cmd as u32,
        ),
        EnipPredicate::CipStatus(p) => tx_query_hit(tx, Direction::ToClient, CipQuery::Status(p)),
        EnipPredicate::CipInstance(p) => tx_query_hit(
            tx,
            Direction::ToServer,
            CipQuery::Segment(p, SEGMENT_INSTANCE),
        ),
        EnipPredicate::CipExtendedStatus(p) => tx_query_hit(
            tx,
            Direction::ToClient,
            CipQuery::ExtendedStatus(p),
        ),
    }
}

fn accepts_u8(v: Option<u8>, p: &DetectUintData) -> (r: bool)
    ensures
        r == (v matches Some(x) && p.accepts(x as u32)),
{
    match v {
        Some(x) => p.evaluate(x as u32),
        None => false,
    }
}

fn accepts_u16(v: Option<u16>, p: &DetectUintData) -> (r: bool)
    ensures
        r == (v matches Some(x) && p.accepts(x as u32)),
{
    match v {
        Some(x) => p.evaluate(x as u32),
        None => false,
    }
}

fn accepts_u32(v: Option<u32>, p: &DetectUintData) -> (r: bool)
    ensures
        r == value_accepts(v, *p),
{
    match v {
        Some(x) => p.evaluate(x),
        None => false,
    }
}

/// Evaluates a keyword predicate on a transaction, in the direction given
/// by stream flags.
pub fn enip_predicate_match(tx: &EnipTransaction, flags: u8, pred: &EnipPredicate) -> (r: bool)
    ensures
        r == predicate_holds(*tx, direction_spec(flags), *pred),
{
    let direction = direction_from_flags(flags);
    match pred {
        EnipPredicate::CipService(c) => enip_tx_has_cip_service(tx, direction, c),
        EnipPredicate::Capabilities(p) => accepts_u16(tx_get_capabilities(tx), p),
        EnipPredicate::CipAttribute(p) => enip_tx_has_cip_attribute(tx, p),
        EnipPredicate::CipClass(p) => enip_tx_has_cip_segment(tx, p, SEGMENT_CLASS),
        EnipPredicate::VendorId(p) => accepts_u16(tx_get_vendor_id(tx), p),
        EnipPredicate::Status(p) => accepts_u32(enip_get_status(tx, direction), p),
        EnipPredicate::State(p) => accepts_u8(tx_get_state(tx), p),
        EnipPredicate::Serial(p) => accepts_u32(tx_get_serial(tx), p),
        EnipPredicate::Revision(p) => accepts_u16(tx_get_revision(tx), p),
        EnipPredicate::ProtocolVersion(p) => accepts_u16(tx_get_protocol_version(tx, direction), p),
        EnipPredicate::ProductCode(p) => accepts_u16(tx_get_product_code(tx), p),
        EnipPredicate::IdentityStatus(p) => accepts_u16(tx_get_identity_status(tx), p),
        EnipPredicate::DeviceType(p) => accepts_u16(tx_get_device_type(tx), p),
        EnipPredicate::Command(p) => accepts_u16(tx_get_command(tx, flags), p),
        EnipPredicate::CipStatus(p) => enip_tx_has_cip_status(tx, p),
        EnipPredicate::CipInstance(p) => enip_tx_has_cip_segment(tx, p, SEGMENT_INSTANCE),
        EnipPredicate::CipExtendedStatus(p) => enip_tx_has_cip_extendedstatus(tx, p),
    }
}

/// Matching reads the transaction and the predicate only: the same
/// predicate on the same transaction, in the same direction, always gives
/// the same answer.
pub proof fn lemma_match_deterministic(
    tx1: EnipTransaction,
    tx2: EnipTransaction,
    flags: u8,
    pred: EnipPredicate,
)
    requires
        tx1 == tx2,
    ensures
        predicate_holds(tx1, direction_spec(flags), pred) == predicate_holds(
            tx2,
            direction_spec(flags),
            pred,
        ),
{
}

/// The code of the first table entry whose name is `text`, byte for byte.
pub open spec fn mnemonic_code(table: Seq<(&str, u32)>, text: Seq<u8>) -> Option<u32>
    decreases table.len(),
{
    if table.len() == 0 {
        None
    } else if table[0].0.spec_bytes() == text {
        Some(table[0].1)
    } else {
        mnemonic_code(table.drop_first(), text)
    }
}

fn same_bytes(a: &[u8], b: &[u8]) -> (r: bool)
    ensures
        r == (a@ == b@),
{
    if a.len() != b.len() {
        return false;
    }
    let mut i: usize = 0;
    while i < a.len()
        invariant
            a@.len() == b@.len(),
            i <= a@.len(),
            forall|j: int| 0 <= j < i ==> a@[j] == b@[j],
        decreases a@.len() - i,
    {
        if a[i] != b[i] {
            return false;
        }
        i = i + 1;
    }
    assert(a@ =~= b@);
    true
}

/// Resolves a mnemonic name, such as a command or status name, to an
/// equality predicate on its code. Names are compared exactly, case
/// included. `None`: the text names no entry, and is left to the numeric
/// predicate syntax.
pub fn resolve_mnemonic(text: &str, table: &[(&str, u32)]) -> (r: Option<DetectUintData>)
    ensures
        r == (match mnemonic_code(table@, text.spec_bytes()) {
            Some(code) => Some(DetectUintData::equal_spec(code)),
            None => None,
        }),
{
    let b = text.as_bytes();
    let mut i: usize = 0;
    assert(table@.subrange(0, table@.len() as int) =~= table@);
    while i < table.len()
        invariant
            i <= table@.len(),
            b@ == text.spec_bytes(),
            mnemonic_code(table@, b@) == mnemonic_code(
                table@.subrange(i as int, table@.len() as int),
                b@,
            ),
        decreases table@.len() - i,
    {
        let ghost rest = table@.subrange(i as int, table@.len() as int);
        assert(rest.drop_first() =~= table@.subrange(i + 1, table@.len() as int));
        assert(rest[0] == table@[i as int]);
        let (name, code) = table[i];
        if same_bytes(name.as_bytes(), b) {
            return Some(DetectUintData::equal(code));
        }
        i = i + 1;
    }
    assert(table@.subrange(i as int, table@.len() as int).len() == 0);
    None
}

} // verus!
